//! Bit-field schema for the chip's single-byte control registers.
//!
//! Every register is one byte; each named field occupies `width` bits starting
//! at bit `lo`. Getters extract a field by shift and mask, setters inject a
//! value by mask and shift, truncating a too-wide value silently — callers are
//! responsible for supplying legal values, out-of-range bits are dropped.

use vstd::prelude::*;

verus! {

/// The low `width` bits set: the in-place mask of a field of that width.
pub open spec fn spec_mask(width: u8) -> u8 {
    ((1u8 << width) - 1) as u8
}

/// The value of the field of `width` bits at bit `lo` of register byte `b`.
pub open spec fn spec_get_field(b: u8, lo: u8, width: u8) -> u8 {
    (b >> lo) & spec_mask(width)
}

/// Register byte `b` with the field of `width` bits at bit `lo` replaced by
/// the low `width` bits of `v`; all other bits of `b` are kept.
pub open spec fn spec_set_field(b: u8, lo: u8, width: u8, v: u8) -> u8 {
    (b & !((spec_mask(width)) << lo)) | ((v & spec_mask(width)) << lo)
}

/// Extract the field of `width` bits at bit `lo` from register byte `b`.
pub fn get_field(b: u8, lo: u8, width: u8) -> (r: u8)
    requires
        1 <= width <= 7,
        lo + width <= 8,
    ensures
        r == spec_get_field(b, lo, width),
        r <= spec_mask(width),
{
    proof {
        assert(1u8 << width >= 1) by (bit_vector)
            requires width <= 7;
        lemma_field_get_bounded(b, lo, width);
    }
    (b >> lo) & ((1u8 << width) - 1)
}

/// Replace the field of `width` bits at bit `lo` of register byte `b` with
/// the low `width` bits of `v`.
pub fn set_field(b: u8, lo: u8, width: u8, v: u8) -> (r: u8)
    requires
        1 <= width <= 7,
        lo + width <= 8,
    ensures
        r == spec_set_field(b, lo, width, v),
{
    proof {
        assert(1u8 << width >= 1) by (bit_vector)
            requires width <= 7;
    }
    let mask: u8 = (1u8 << width) - 1;
    (b & !(mask << lo)) | ((v & mask) << lo)
}

/// A field value read back equals the value written, masked to the field's
/// width: a set-then-get round-trips exactly for values that fit the field,
/// and truncates wider values by masking.
pub proof fn lemma_field_set_then_get(b: u8, lo: u8, width: u8, v: u8)
    requires
        1 <= width <= 7,
        lo + width <= 8,
    ensures
        spec_get_field(spec_set_field(b, lo, width, v), lo, width) == v & spec_mask(width),
        v < (1u8 << width) ==> spec_get_field(spec_set_field(b, lo, width, v), lo, width) == v,
{
    assert(spec_get_field(spec_set_field(b, lo, width, v), lo, width) == (v & spec_mask(width)))
        by (bit_vector)
        requires 1 <= width <= 7 && lo + width <= 8;
    assert(v < (1u8 << width) ==> (v & spec_mask(width)) == v)
        by (bit_vector)
        requires 1 <= width <= 7;
}

/// Setting one field leaves every disjoint field of the same byte unchanged.
pub proof fn lemma_field_set_disjoint(b: u8, lo: u8, width: u8, v: u8, lo2: u8, width2: u8)
    requires
        1 <= width <= 7,
        lo + width <= 8,
        1 <= width2 <= 7,
        lo2 + width2 <= 8,
        lo + width <= lo2 || lo2 + width2 <= lo,
    ensures
        spec_get_field(spec_set_field(b, lo, width, v), lo2, width2)
            == spec_get_field(b, lo2, width2),
{
    assert(spec_get_field(spec_set_field(b, lo, width, v), lo2, width2)
            == spec_get_field(b, lo2, width2))
        by (bit_vector)
        requires
            1 <= width <= 7 && lo + width <= 8 && 1 <= width2 <= 7 && lo2 + width2 <= 8
                && (lo + width <= lo2 || lo2 + width2 <= lo);
}

/// A field value never exceeds the field's mask.
pub proof fn lemma_field_get_bounded(b: u8, lo: u8, width: u8)
    requires
        1 <= width <= 7,
        lo + width <= 8,
    ensures
        spec_get_field(b, lo, width) <= spec_mask(width),
        spec_get_field(b, lo, width) < (1u8 << width),
{
    assert(spec_get_field(b, lo, width) <= spec_mask(width)
        && spec_mask(width) < (1u8 << width))
        by (bit_vector)
        requires 1 <= width <= 7 && lo + width <= 8;
}

/// SETUP_RETR: automatic retransmission delay and count.
#[derive(Clone, Copy, Debug, PartialEq, Eq, Structural)]
pub struct SetupRetr(pub u8);

impl SetupRetr {
    pub fn get_auto_retransmit_count(&self) -> (r: u8)
        ensures
            r == spec_get_field(self.0, 0, 4),
    {
        get_field(self.0, 0, 4)
    }

    pub fn set_auto_retransmit_count(&mut self, v: u8)
        ensures
            final(self).0 == spec_set_field(old(self).0, 0, 4, v),
    {
        self.0 = set_field(self.0, 0, 4, v);
    }

    pub fn get_auto_retransmit_delay(&self) -> (r: u8)
        ensures
            r == spec_get_field(self.0, 4, 4),
    {
        get_field(self.0, 4, 4)
    }

    pub fn set_auto_retransmit_delay(&mut self, v: u8)
        ensures
            final(self).0 == spec_set_field(old(self).0, 4, 4, v),
    {
        self.0 = set_field(self.0, 4, 4, v);
    }
}

/// RF_SETUP: radio power, data rate and carrier controls.
#[derive(Clone, Copy, Debug, PartialEq, Eq, Structural)]
pub struct RfSetup(pub u8);

impl RfSetup {
    pub fn get_padding1(&self) -> (r: u8)
        ensures
            r == spec_get_field(self.0, 0, 1),
    {
        get_field(self.0, 0, 1)
    }

    pub fn set_padding1(&mut self, v: u8)
        ensures
            final(self).0 == spec_set_field(old(self).0, 0, 1, v),
    {
        self.0 = set_field(self.0, 0, 1, v);
    }

    pub fn get_rf_pwr(&self) -> (r: u8)
        ensures
            r == spec_get_field(self.0, 1, 2),
    {
        get_field(self.0, 1, 2)
    }

    pub fn set_rf_pwr(&mut self, v: u8)
        ensures
            final(self).0 == spec_set_field(old(self).0, 1, 2, v),
    {
        self.0 = set_field(self.0, 1, 2, v);
    }

    pub fn get_rf_dr_high(&self) -> (r: u8)
        ensures
            r == spec_get_field(self.0, 3, 1),
    {
        get_field(self.0, 3, 1)
    }

    pub fn set_rf_dr_high(&mut self, v: u8)
        ensures
            final(self).0 == spec_set_field(old(self).0, 3, 1, v),
    {
        self.0 = set_field(self.0, 3, 1, v);
    }

    pub fn get_pll_lock(&self) -> (r: u8)
        ensures
            r == spec_get_field(self.0, 4, 1),
    {
        get_field(self.0, 4, 1)
    }

    pub fn set_pll_lock(&mut self, v: u8)
        ensures
            final(self).0 == spec_set_field(old(self).0, 4, 1, v),
    {
        self.0 = set_field(self.0, 4, 1, v);
    }

    pub fn get_rf_dr_low(&self) -> (r: u8)
        ensures
            r == spec_get_field(self.0, 5, 1),
    {
        get_field(self.0, 5, 1)
    }

    pub fn set_rf_dr_low(&mut self, v: u8)
        ensures
            final(self).0 == spec_set_field(old(self).0, 5, 1, v),
    {
        self.0 = set_field(self.0, 5, 1, v);
    }

    pub fn get_padding2(&self) -> (r: u8)
        ensures
            r == spec_get_field(self.0, 6, 1),
    {
        get_field(self.0, 6, 1)
    }

    pub fn set_padding2(&mut self, v: u8)
        ensures
            final(self).0 == spec_set_field(old(self).0, 6, 1, v),
    {
        self.0 = set_field(self.0, 6, 1, v);
    }

    pub fn get_cont_wave(&self) -> (r: u8)
        ensures
            r == spec_get_field(self.0, 7, 1),
    {
        get_field(self.0, 7, 1)
    }

    pub fn set_cont_wave(&mut self, v: u8)
        ensures
            final(self).0 == spec_set_field(old(self).0, 7, 1, v),
    {
        self.0 = set_field(self.0, 7, 1, v);
    }
}

/// DYNPD: dynamic payload length enable, one flag per receive pipe.
#[derive(Clone, Copy, Debug, PartialEq, Eq, Structural)]
pub struct DynPd(pub u8);

impl DynPd {
    pub fn get_dpl_p0(&self) -> (r: u8)
        ensures
            r == spec_get_field(self.0, 0, 1),
    {
        get_field(self.0, 0, 1)
    }

    pub fn set_dpl_p0(&mut self, v: u8)
        ensures
            final(self).0 == spec_set_field(old(self).0, 0, 1, v),
    {
        self.0 = set_field(self.0, 0, 1, v);
    }

    pub fn get_dpl_p1(&self) -> (r: u8)
        ensures
            r == spec_get_field(self.0, 1, 1),
    {
        get_field(self.0, 1, 1)
    }

    pub fn set_dpl_p1(&mut self, v: u8)
        ensures
            final(self).0 == spec_set_field(old(self).0, 1, 1, v),
    {
        self.0 = set_field(self.0, 1, 1, v);
    }

    pub fn get_dpl_p2(&self) -> (r: u8)
        ensures
            r == spec_get_field(self.0, 2, 1),
    {
        get_field(self.0, 2, 1)
    }

    pub fn set_dpl_p2(&mut self, v: u8)
        ensures
            final(self).0 == spec_set_field(old(self).0, 2, 1, v),
    {
        self.0 = set_field(self.0, 2, 1, v);
    }

    pub fn get_dpl_p3(&self) -> (r: u8)
        ensures
            r == spec_get_field(self.0, 3, 1),
    {
        get_field(self.0, 3, 1)
    }

    pub fn set_dpl_p3(&mut self, v: u8)
        ensures
            final(self).0 == spec_set_field(old(self).0, 3, 1, v),
    {
        self.0 = set_field(self.0, 3, 1, v);
    }

    pub fn get_dpl_p4(&self) -> (r: u8)
        ensures
            r == spec_get_field(self.0, 4, 1),
    {
        get_field(self.0, 4, 1)
    }

    pub fn set_dpl_p4(&mut self, v: u8)
        ensures
            final(self).0 == spec_set_field(old(self).0, 4, 1, v),
    {
        self.0 = set_field(self.0, 4, 1, v);
    }

    pub fn get_dpl_p5(&self) -> (r: u8)
        ensures
            r == spec_get_field(self.0, 5, 1),
    {
        get_field(self.0, 5, 1)
    }

    pub fn set_dpl_p5(&mut self, v: u8)
        ensures
            final(self).0 == spec_set_field(old(self).0, 5, 1, v),
    {
        self.0 = set_field(self.0, 5, 1, v);
    }

    pub fn get_padding1(&self) -> (r: u8)
        ensures
            r == spec_get_field(self.0, 6, 2),
    {
        get_field(self.0, 6, 2)
    }

    pub fn set_padding1(&mut self, v: u8)
        ensures
            final(self).0 == spec_set_field(old(self).0, 6, 2, v),
    {
        self.0 = set_field(self.0, 6, 2, v);
    }
}

/// EN_AA: auto-acknowledge enable, one flag per receive pipe.
#[derive(Clone, Copy, Debug, PartialEq, Eq, Structural)]
pub struct EnAa(pub u8);

impl EnAa {
    pub fn get_enaa_p0(&self) -> (r: u8)
        ensures
            r == spec_get_field(self.0, 0, 1),
    {
        get_field(self.0, 0, 1)
    }

    pub fn set_enaa_p0(&mut self, v: u8)
        ensures
            final(self).0 == spec_set_field(old(self).0, 0, 1, v),
    {
        self.0 = set_field(self.0, 0, 1, v);
    }

    pub fn get_enaa_p1(&self) -> (r: u8)
        ensures
            r == spec_get_field(self.0, 1, 1),
    {
        get_field(self.0, 1, 1)
    }

    pub fn set_enaa_p1(&mut self, v: u8)
        ensures
            final(self).0 == spec_set_field(old(self).0, 1, 1, v),
    {
        self.0 = set_field(self.0, 1, 1, v);
    }

    pub fn get_enaa_p2(&self) -> (r: u8)
        ensures
            r == spec_get_field(self.0, 2, 1),
    {
        get_field(self.0, 2, 1)
    }

    pub fn set_enaa_p2(&mut self, v: u8)
        ensures
            final(self).0 == spec_set_field(old(self).0, 2, 1, v),
    {
        self.0 = set_field(self.0, 2, 1, v);
    }

    pub fn get_enaa_p3(&self) -> (r: u8)
        ensures
            r == spec_get_field(self.0, 3, 1),
    {
        get_field(self.0, 3, 1)
    }

    pub fn set_enaa_p3(&mut self, v: u8)
        ensures
            final(self).0 == spec_set_field(old(self).0, 3, 1, v),
    {
        self.0 = set_field(self.0, 3, 1, v);
    }

    pub fn get_enaa_p4(&self) -> (r: u8)
        ensures
            r == spec_get_field(self.0, 4, 1),
    {
        get_field(self.0, 4, 1)
    }

    pub fn set_enaa_p4(&mut self, v: u8)
        ensures
            final(self).0 == spec_set_field(old(self).0, 4, 1, v),
    {
        self.0 = set_field(self.0, 4, 1, v);
    }

    pub fn get_enaa_p5(&self) -> (r: u8)
        ensures
            r == spec_get_field(self.0, 5, 1),
    {
        get_field(self.0, 5, 1)
    }

    pub fn set_enaa_p5(&mut self, v: u8)
        ensures
            final(self).0 == spec_set_field(old(self).0, 5, 1, v),
    {
        self.0 = set_field(self.0, 5, 1, v);
    }

    pub fn get_padding1(&self) -> (r: u8)
        ensures
            r == spec_get_field(self.0, 6, 2),
    {
        get_field(self.0, 6, 2)
    }

    pub fn set_padding1(&mut self, v: u8)
        ensures
            final(self).0 == spec_set_field(old(self).0, 6, 2, v),
    {
        self.0 = set_field(self.0, 6, 2, v);
    }
}

/// EN_RX_ADDR: receive address enable, one flag per receive pipe.
#[derive(Clone, Copy, Debug, PartialEq, Eq, Structural)]
pub struct EnRxAddr(pub u8);

impl EnRxAddr {
    pub fn get_erx_p0(&self) -> (r: u8)
        ensures
            r == spec_get_field(self.0, 0, 1),
    {
        get_field(self.0, 0, 1)
    }

    pub fn set_erx_p0(&mut self, v: u8)
        ensures
            final(self).0 == spec_set_field(old(self).0, 0, 1, v),
    {
        self.0 = set_field(self.0, 0, 1, v);
    }

    pub fn get_erx_p1(&self) -> (r: u8)
        ensures
            r == spec_get_field(self.0, 1, 1),
    {
        get_field(self.0, 1, 1)
    }

    pub fn set_erx_p1(&mut self, v: u8)
        ensures
            final(self).0 == spec_set_field(old(self).0, 1, 1, v),
    {
        self.0 = set_field(self.0, 1, 1, v);
    }

    pub fn get_erx_p2(&self) -> (r: u8)
        ensures
            r == spec_get_field(self.0, 2, 1),
    {
        get_field(self.0, 2, 1)
    }

    pub fn set_erx_p2(&mut self, v: u8)
        ensures
            final(self).0 == spec_set_field(old(self).0, 2, 1, v),
    {
        self.0 = set_field(self.0, 2, 1, v);
    }

    pub fn get_erx_p3(&self) -> (r: u8)
        ensures
            r == spec_get_field(self.0, 3, 1),
    {
        get_field(self.0, 3, 1)
    }

    pub fn set_erx_p3(&mut self, v: u8)
        ensures
            final(self).0 == spec_set_field(old(self).0, 3, 1, v),
    {
        self.0 = set_field(self.0, 3, 1, v);
    }

    pub fn get_erx_p4(&self) -> (r: u8)
        ensures
            r == spec_get_field(self.0, 4, 1),
    {
        get_field(self.0, 4, 1)
    }

    pub fn set_erx_p4(&mut self, v: u8)
        ensures
            final(self).0 == spec_set_field(old(self).0, 4, 1, v),
    {
        self.0 = set_field(self.0, 4, 1, v);
    }

    pub fn get_erx_p5(&self) -> (r: u8)
        ensures
            r == spec_get_field(self.0, 5, 1),
    {
        get_field(self.0, 5, 1)
    }

    pub fn set_erx_p5(&mut self, v: u8)
        ensures
            final(self).0 == spec_set_field(old(self).0, 5, 1, v),
    {
        self.0 = set_field(self.0, 5, 1, v);
    }

    pub fn get_padding1(&self) -> (r: u8)
        ensures
            r == spec_get_field(self.0, 6, 2),
    {
        get_field(self.0, 6, 2)
    }

    pub fn set_padding1(&mut self, v: u8)
        ensures
            final(self).0 == spec_set_field(old(self).0, 6, 2, v),
    {
        self.0 = set_field(self.0, 6, 2, v);
    }
}

/// FEATURE: protocol feature flags for dynamic and ack payloads.
#[derive(Clone, Copy, Debug, PartialEq, Eq, Structural)]
pub struct Feature(pub u8);

impl Feature {
    pub fn get_en_dyn_ack(&self) -> (r: u8)
        ensures
            r == spec_get_field(self.0, 0, 1),
    {
        get_field(self.0, 0, 1)
    }

    pub fn set_en_dyn_ack(&mut self, v: u8)
        ensures
            final(self).0 == spec_set_field(old(self).0, 0, 1, v),
    {
        self.0 = set_field(self.0, 0, 1, v);
    }

    pub fn get_ack_pay(&self) -> (r: u8)
        ensures
            r == spec_get_field(self.0, 1, 1),
    {
        get_field(self.0, 1, 1)
    }

    pub fn set_ack_pay(&mut self, v: u8)
        ensures
            final(self).0 == spec_set_field(old(self).0, 1, 1, v),
    {
        self.0 = set_field(self.0, 1, 1, v);
    }

    pub fn get_en_dpl(&self) -> (r: u8)
        ensures
            r == spec_get_field(self.0, 2, 1),
    {
        get_field(self.0, 2, 1)
    }

    pub fn set_en_dpl(&mut self, v: u8)
        ensures
            final(self).0 == spec_set_field(old(self).0, 2, 1, v),
    {
        self.0 = set_field(self.0, 2, 1, v);
    }

    pub fn get_padding1(&self) -> (r: u8)
        ensures
            r == spec_get_field(self.0, 3, 5),
    {
        get_field(self.0, 3, 5)
    }

    pub fn set_padding1(&mut self, v: u8)
        ensures
            final(self).0 == spec_set_field(old(self).0, 3, 5, v),
    {
        self.0 = set_field(self.0, 3, 5, v);
    }
}

/// RX_PW_P0: static payload width for receive pipe 0.
#[derive(Clone, Copy, Debug, PartialEq, Eq, Structural)]
pub struct RxPwP0(pub u8);

impl RxPwP0 {
    pub fn get_rx_pw_p0(&self) -> (r: u8)
        ensures
            r == spec_get_field(self.0, 0, 6),
    {
        get_field(self.0, 0, 6)
    }

    pub fn set_rx_pw_p0(&mut self, v: u8)
        ensures
            final(self).0 == spec_set_field(old(self).0, 0, 6, v),
    {
        self.0 = set_field(self.0, 0, 6, v);
    }

    pub fn get_padding1(&self) -> (r: u8)
        ensures
            r == spec_get_field(self.0, 6, 2),
    {
        get_field(self.0, 6, 2)
    }

    pub fn set_padding1(&mut self, v: u8)
        ensures
            final(self).0 == spec_set_field(old(self).0, 6, 2, v),
    {
        self.0 = set_field(self.0, 6, 2, v);
    }
}

/// SETUP_AW: address width of the pipe address registers.
#[derive(Clone, Copy, Debug, PartialEq, Eq, Structural)]
pub struct SetupAw(pub u8);

impl SetupAw {
    pub fn get_aw(&self) -> (r: u8)
        ensures
            r == spec_get_field(self.0, 0, 2),
    {
        get_field(self.0, 0, 2)
    }

    pub fn set_aw(&mut self, v: u8)
        ensures
            final(self).0 == spec_set_field(old(self).0, 0, 2, v),
    {
        self.0 = set_field(self.0, 0, 2, v);
    }

    pub fn get_padding1(&self) -> (r: u8)
        ensures
            r == spec_get_field(self.0, 2, 6),
    {
        get_field(self.0, 2, 6)
    }

    pub fn set_padding1(&mut self, v: u8)
        ensures
            final(self).0 == spec_set_field(old(self).0, 2, 6, v),
    {
        self.0 = set_field(self.0, 2, 6, v);
    }
}

/// RF_CH: radio frequency channel.
#[derive(Clone, Copy, Debug, PartialEq, Eq, Structural)]
pub struct RfCh(pub u8);

impl RfCh {
    pub fn get_rf_ch(&self) -> (r: u8)
        ensures
            r == spec_get_field(self.0, 0, 7),
    {
        get_field(self.0, 0, 7)
    }

    pub fn set_rf_ch(&mut self, v: u8)
        ensures
            final(self).0 == spec_set_field(old(self).0, 0, 7, v),
    {
        self.0 = set_field(self.0, 0, 7, v);
    }

    pub fn get_padding1(&self) -> (r: u8)
        ensures
            r == spec_get_field(self.0, 7, 1),
    {
        get_field(self.0, 7, 1)
    }

    pub fn set_padding1(&mut self, v: u8)
        ensures
            final(self).0 == spec_set_field(old(self).0, 7, 1, v),
    {
        self.0 = set_field(self.0, 7, 1, v);
    }
}

/// STATUS: interrupt flags, receive pipe number and FIFO state.
#[derive(Clone, Copy, Debug, PartialEq, Eq, Structural)]
pub struct Status(pub u8);

impl Status {
    pub fn get_tx_full(&self) -> (r: u8)
        ensures
            r == spec_get_field(self.0, 0, 1),
    {
        get_field(self.0, 0, 1)
    }

    pub fn set_tx_full(&mut self, v: u8)
        ensures
            final(self).0 == spec_set_field(old(self).0, 0, 1, v),
    {
        self.0 = set_field(self.0, 0, 1, v);
    }

    pub fn get_rx_p_no(&self) -> (r: u8)
        ensures
            r == spec_get_field(self.0, 1, 3),
    {
        get_field(self.0, 1, 3)
    }

    pub fn set_rx_p_no(&mut self, v: u8)
        ensures
            final(self).0 == spec_set_field(old(self).0, 1, 3, v),
    {
        self.0 = set_field(self.0, 1, 3, v);
    }

    pub fn get_max_rt(&self) -> (r: u8)
        ensures
            r == spec_get_field(self.0, 4, 1),
    {
        get_field(self.0, 4, 1)
    }

    pub fn set_max_rt(&mut self, v: u8)
        ensures
            final(self).0 == spec_set_field(old(self).0, 4, 1, v),
    {
        self.0 = set_field(self.0, 4, 1, v);
    }

    pub fn get_tx_ds(&self) -> (r: u8)
        ensures
            r == spec_get_field(self.0, 5, 1),
    {
        get_field(self.0, 5, 1)
    }

    pub fn set_tx_ds(&mut self, v: u8)
        ensures
            final(self).0 == spec_set_field(old(self).0, 5, 1, v),
    {
        self.0 = set_field(self.0, 5, 1, v);
    }

    pub fn get_rx_dr(&self) -> (r: u8)
        ensures
            r == spec_get_field(self.0, 6, 1),
    {
        get_field(self.0, 6, 1)
    }

    pub fn set_rx_dr(&mut self, v: u8)
        ensures
            final(self).0 == spec_set_field(old(self).0, 6, 1, v),
    {
        self.0 = set_field(self.0, 6, 1, v);
    }

    pub fn get_padding1(&self) -> (r: u8)
        ensures
            r == spec_get_field(self.0, 7, 1),
    {
        get_field(self.0, 7, 1)
    }

    pub fn set_padding1(&mut self, v: u8)
        ensures
            final(self).0 == spec_set_field(old(self).0, 7, 1, v),
    {
        self.0 = set_field(self.0, 7, 1, v);
    }
}

/// CONFIG: CRC, power and primary-role controls plus interrupt masks.
#[derive(Clone, Copy, Debug, PartialEq, Eq, Structural)]
pub struct Config(pub u8);

impl Config {
    pub fn get_prim_rx(&self) -> (r: u8)
        ensures
            r == spec_get_field(self.0, 0, 1),
    {
        get_field(self.0, 0, 1)
    }

    pub fn set_prim_rx(&mut self, v: u8)
        ensures
            final(self).0 == spec_set_field(old(self).0, 0, 1, v),
    {
        self.0 = set_field(self.0, 0, 1, v);
    }

    pub fn get_pwr_up(&self) -> (r: u8)
        ensures
            r == spec_get_field(self.0, 1, 1),
    {
        get_field(self.0, 1, 1)
    }

    pub fn set_pwr_up(&mut self, v: u8)
        ensures
            final(self).0 == spec_set_field(old(self).0, 1, 1, v),
    {
        self.0 = set_field(self.0, 1, 1, v);
    }

    pub fn get_crco(&self) -> (r: u8)
        ensures
            r == spec_get_field(self.0, 2, 1),
    {
        get_field(self.0, 2, 1)
    }

    pub fn set_crco(&mut self, v: u8)
        ensures
            final(self).0 == spec_set_field(old(self).0, 2, 1, v),
    {
        self.0 = set_field(self.0, 2, 1, v);
    }

    pub fn get_en_crc(&self) -> (r: u8)
        ensures
            r == spec_get_field(self.0, 3, 1),
    {
        get_field(self.0, 3, 1)
    }

    pub fn set_en_crc(&mut self, v: u8)
        ensures
            final(self).0 == spec_set_field(old(self).0, 3, 1, v),
    {
        self.0 = set_field(self.0, 3, 1, v);
    }

    pub fn get_mask_max_rt(&self) -> (r: u8)
        ensures
            r == spec_get_field(self.0, 4, 1),
    {
        get_field(self.0, 4, 1)
    }

    pub fn set_mask_max_rt(&mut self, v: u8)
        ensures
            final(self).0 == spec_set_field(old(self).0, 4, 1, v),
    {
        self.0 = set_field(self.0, 4, 1, v);
    }

    pub fn get_mask_tx_ds(&self) -> (r: u8)
        ensures
            r == spec_get_field(self.0, 5, 1),
    {
        get_field(self.0, 5, 1)
    }

    pub fn set_mask_tx_ds(&mut self, v: u8)
        ensures
            final(self).0 == spec_set_field(old(self).0, 5, 1, v),
    {
        self.0 = set_field(self.0, 5, 1, v);
    }

    pub fn get_mask_rx_dr(&self) -> (r: u8)
        ensures
            r == spec_get_field(self.0, 6, 1),
    {
        get_field(self.0, 6, 1)
    }

    pub fn set_mask_rx_dr(&mut self, v: u8)
        ensures
            final(self).0 == spec_set_field(old(self).0, 6, 1, v),
    {
        self.0 = set_field(self.0, 6, 1, v);
    }

    pub fn get_padding1(&self) -> (r: u8)
        ensures
            r == spec_get_field(self.0, 7, 1),
    {
        get_field(self.0, 7, 1)
    }

    pub fn set_padding1(&mut self, v: u8)
        ensures
            final(self).0 == spec_set_field(old(self).0, 7, 1, v),
    {
        self.0 = set_field(self.0, 7, 1, v);
    }
}


} // verus!
