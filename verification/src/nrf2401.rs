//! Protocol driver for the radio chip: request frames, the bring-up
//! sequence, and the two role-specific operating loops.
//!
//! The driver is pure. Instead of touching a bus or a pin it produces
//! [`Action`] values: the exact SPI exchanges, chip-enable line changes,
//! delays and indicator signals that a runner must perform, in order. The
//! receiver loop is a state machine whose step consumes the response bytes of
//! the previous exchange and yields the next actions.

use vstd::prelude::*;

use crate::bitfields::{
    Config, DynPd, EnAa, EnRxAddr, Feature, RfCh, RfSetup, RxPwP0, SetupAw, SetupRetr, Status,
    lemma_field_set_disjoint, spec_get_field, spec_set_field,
};
use crate::led_state::LedState;
use crate::role::Role;

verus! {

// One-byte command opcodes; register commands are OR-combined with the
// register address.
pub const R_REGISTER: u8 = 0x00;
pub const W_REGISTER: u8 = 0x20;
pub const R_RX_PAYLOAD: u8 = 0x61;
pub const W_TX_PAYLOAD: u8 = 0xA0;

// Register addresses.
pub const CONFIG: u8 = 0x00;
pub const EN_AA: u8 = 0x01;
pub const EN_RX_ADDR: u8 = 0x02;
pub const SETUP_AW: u8 = 0x03;
pub const SETUP_RETR: u8 = 0x04;
pub const RF_CH: u8 = 0x05;
pub const RF_SETUP: u8 = 0x06;
pub const STATUS: u8 = 0x07;
pub const RX_ADDR_P0: u8 = 0x0A;
pub const TX_ADDR: u8 = 0x10;
pub const RX_PW_P0: u8 = 0x11;
pub const DYN_PD: u8 = 0x1c;
pub const FEATURE: u8 = 0x1d;
// FIFO flush opcodes; issued through the register-write framing, whose
// OR with `W_REGISTER` leaves these opcodes unchanged.
pub const FLUSH_TX: u8 = 0xe1;
pub const FLUSH_RX: u8 = 0xe2;

/// Mathematical form of one step a runner must perform for the driver.
pub enum SpecAction {
    /// A full-duplex bus exchange of exactly these request bytes.
    Exchange(Seq<u8>),
    /// Drive the chip-enable control line high.
    SetCeHigh,
    /// Drive the chip-enable control line low.
    SetCeLow,
    /// Suspend for this many microseconds.
    WaitMicros(u64),
    /// Send this signal into the indicator channel, waiting for a free slot.
    SendLed(LedState),
}

/// One step a runner must perform for the driver, in program order.
#[derive(Clone, Debug, PartialEq, Eq)]
pub enum Action {
    /// A full-duplex bus exchange of exactly these request bytes.
    Exchange(Vec<u8>),
    /// Drive the chip-enable control line high.
    SetCeHigh,
    /// Drive the chip-enable control line low.
    SetCeLow,
    /// Suspend for this many microseconds.
    WaitMicros(u64),
    /// Send this signal into the indicator channel, waiting for a free slot.
    SendLed(LedState),
}

impl View for Action {
    type V = SpecAction;

    open spec fn view(&self) -> SpecAction {
        match self {
            Action::Exchange(req) => SpecAction::Exchange(req@),
            Action::SetCeHigh => SpecAction::SetCeHigh,
            Action::SetCeLow => SpecAction::SetCeLow,
            Action::WaitMicros(us) => SpecAction::WaitMicros(*us),
            Action::SendLed(s) => SpecAction::SendLed(*s),
        }
    }
}

/// The mathematical form of a whole plan of actions.
pub open spec fn plan_view(plan: Seq<Action>) -> Seq<SpecAction> {
    plan.map_values(|a: Action| a@)
}

/// The request frame of a single-byte register write.
pub open spec fn spec_write_register_frame(register: u8, value: u8) -> Seq<u8> {
    seq![W_REGISTER | register, value]
}

/// The request frame of a single-byte register read.
pub open spec fn spec_read_register_frame(register: u8) -> Seq<u8> {
    seq![R_REGISTER | register, 0]
}

/// The request frame of a 5-byte pipe address register write; both roles use
/// the same fixed address.
pub open spec fn spec_pipe_address_frame(register: u8) -> Seq<u8> {
    seq![W_REGISTER | register, 1, 0, 0, 0, 0]
}

/// The 33-byte request frame that reads one payload: the read-payload opcode
/// followed by 32 filler bytes to clock the payload out.
pub open spec fn spec_read_payload_frame() -> Seq<u8> {
    Seq::new(33, |i: int| if i == 0 { R_RX_PAYLOAD } else { 0xFF })
}

/// The 33-byte request frame that writes one payload: the write-payload
/// opcode, the message, then zero padding up to the fixed 32-byte payload.
pub open spec fn spec_write_payload_frame(message: Seq<u8>) -> Seq<u8>
    recommends
        message.len() <= 32,
{
    Seq::new(
        33,
        |i: int| if i == 0 {
            W_TX_PAYLOAD
        } else if i <= message.len() {
            message[i - 1]
        } else {
            0
        },
    )
}

/// Build the 2-byte request frame of a single-byte register write:
/// exactly `[opcode | address, value]`.
pub fn nrf24l01_write_register(register: u8, value: u8) -> (req: Vec<u8>)
    ensures
        req@ == spec_write_register_frame(register, value),
        req@.len() == 2,
{
    let mut req: Vec<u8> = Vec::new();
    req.push(W_REGISTER | register);
    req.push(value);
    proof {
        assert(req@ =~= spec_write_register_frame(register, value));
    }
    req
}

/// Build the 2-byte request frame of a single-byte register read:
/// exactly `[opcode | address, 0]`. Of the response only byte 0, the chip's
/// status echo, and byte 1, the register value, carry meaning.
pub fn nrf24l01_read_register(register: u8) -> (req: Vec<u8>)
    ensures
        req@ == spec_read_register_frame(register),
        req@.len() == 2,
{
    let mut req: Vec<u8> = Vec::new();
    req.push(R_REGISTER | register);
    req.push(0);
    proof {
        assert(req@ =~= spec_read_register_frame(register));
    }
    req
}

/// Build the 6-byte request frame that writes the fixed 5-byte pipe address
/// into the given address register.
pub fn pipe_address_request(register: u8) -> (req: Vec<u8>)
    ensures
        req@ == spec_pipe_address_frame(register),
        req@.len() == 6,
{
    let mut req: Vec<u8> = Vec::new();
    req.push(W_REGISTER | register);
    req.push(1);
    req.push(0);
    req.push(0);
    req.push(0);
    req.push(0);
    proof {
        assert(req@ =~= spec_pipe_address_frame(register));
    }
    req
}

/// Build the 33-byte request frame that reads one fixed-width payload.
pub fn read_payload_request() -> (req: Vec<u8>)
    ensures
        req@ == spec_read_payload_frame(),
        req@.len() == 33,
{
    let mut req: Vec<u8> = Vec::new();
    req.push(R_RX_PAYLOAD);
    let mut i: usize = 0;
    while i < 32
        invariant
            i <= 32,
            req@.len() == i + 1,
            req@[0] == R_RX_PAYLOAD,
            forall|j: int| 1 <= j < req@.len() ==> req@[j] == 0xFF,
        decreases 32 - i,
    {
        req.push(0xFF);
        i += 1;
    }
    proof {
        assert(req@ =~= spec_read_payload_frame());
    }
    req
}

/// Build the 33-byte request frame that writes one payload, the message
/// left-aligned in a zero-padded fixed 32-byte block.
pub fn write_payload_request(message: &Vec<u8>) -> (req: Vec<u8>)
    requires
        message@.len() <= 32,
    ensures
        req@ == spec_write_payload_frame(message@),
        req@.len() == 33,
{
    let mut req: Vec<u8> = Vec::new();
    req.push(W_TX_PAYLOAD);
    let mut i: usize = 0;
    while i < message.len()
        invariant
            message@.len() <= 32,
            i <= message@.len(),
            req@.len() == i + 1,
            req@[0] == W_TX_PAYLOAD,
            forall|j: int| 1 <= j < req@.len() ==> req@[j] == message@[j - 1],
        decreases message@.len() - i,
    {
        req.push(message[i]);
        i += 1;
    }
    while req.len() < 33
        invariant
            message@.len() + 1 <= req@.len() <= 33,
            message@.len() <= 32,
            req@[0] == W_TX_PAYLOAD,
            forall|j: int| 1 <= j <= message@.len() ==> req@[j] == message@[j - 1],
            forall|j: int| message@.len() < j < req@.len() ==> req@[j] == 0,
        decreases 33 - req@.len(),
    {
        req.push(0);
    }
    proof {
        assert(req@ =~= spec_write_payload_frame(message@));
    }
    req
}

/// The pipe-0 / primary-receiver flag value a role configures: 1 for the
/// receiver, 0 for the transmitter.
pub open spec fn spec_role_bit(role: Role) -> u8 {
    if role is Receiver {
        1
    } else {
        0
    }
}

/// SETUP_RETR byte written during bring-up: retransmit delay field 5,
/// retransmit count field 15.
pub open spec fn spec_setup_retr_value() -> u8 {
    spec_set_field(spec_set_field(0, 4, 4, 5), 0, 4, 15)
}

/// RF_SETUP byte written during bring-up: maximum power, 1 Mbps data rate.
pub open spec fn spec_rf_setup_value() -> u8 {
    spec_set_field(spec_set_field(spec_set_field(0, 1, 2, 3), 5, 1, 0), 3, 1, 0)
}

/// FEATURE byte written during bring-up: ack-payload and dynamic-payload
/// flags cleared.
pub open spec fn spec_feature_value() -> u8 {
    spec_set_field(spec_set_field(0, 1, 1, 0), 2, 1, 0)
}

/// DYNPD byte written during bring-up: pipe-0 dynamic payload flag cleared.
pub open spec fn spec_dyn_pd_value() -> u8 {
    spec_set_field(0, 0, 1, 0)
}

/// EN_AA byte written during bring-up: pipe-0 auto-acknowledge flag cleared.
pub open spec fn spec_en_aa_value() -> u8 {
    spec_set_field(0, 0, 1, 0)
}

/// EN_RX_ADDR byte written during bring-up: pipe 0 open for the receiver,
/// all pipes closed for the transmitter.
pub open spec fn spec_en_rx_addr_value(role: Role) -> u8 {
    spec_set_field(0, 0, 1, spec_role_bit(role))
}

/// RX_PW_P0 byte written during bring-up: fixed 32-byte payload width.
pub open spec fn spec_rx_pw_p0_value() -> u8 {
    spec_set_field(0, 0, 6, 32)
}

/// SETUP_AW byte written during bring-up: address width field 3, which
/// encodes 5-byte pipe addresses.
pub open spec fn spec_setup_aw_value() -> u8 {
    spec_set_field(0, 0, 2, 3)
}

/// RF_CH byte written during bring-up: channel 76.
pub open spec fn spec_rf_ch_value() -> u8 {
    spec_set_field(0, 0, 7, 76)
}

/// STATUS byte written during bring-up: the all-clear pattern. The chip's
/// interrupt flags clear by writing 1, so the data-ready, data-sent and
/// max-retries flags are all written as 1 — max-retries included, though no
/// transmission has happened yet — and the pipe-number field as zero.
pub open spec fn spec_status_reset_value() -> u8 {
    spec_set_field(
        spec_set_field(spec_set_field(spec_set_field(0, 6, 1, 1), 5, 1, 1), 1, 3, 0),
        4,
        1,
        1,
    )
}

/// CONFIG byte written during bring-up: 2-byte CRC enabled, powered up, and
/// primary-receiver mode for the receiver role only.
pub open spec fn spec_config_value(role: Role) -> u8 {
    spec_set_field(
        spec_set_field(
            spec_set_field(spec_set_field(0, 0, 1, spec_role_bit(role)), 2, 1, 1),
            3,
            1,
            1,
        ),
        1,
        1,
        1,
    )
}

/// The pipe address register a role writes: TX_ADDR for the transmitter,
/// RX_ADDR_P0 for the receiver.
pub open spec fn spec_address_register(role: Role) -> u8 {
    if role is Receiver {
        RX_ADDR_P0
    } else {
        TX_ADDR
    }
}

/// The whole bring-up sequence for a role, in the order the chip requires:
/// control line low, power-on settle, the eleven register writes, the two
/// FIFO flushes, the power-up settle, the pipe address write, and, for the
/// receiver only, the control line high to enter listening mode.
pub open spec fn setup_plan(role: Role) -> Seq<SpecAction> {
    let base = seq![
        SpecAction::SetCeLow,
        SpecAction::WaitMicros(5000),
        SpecAction::Exchange(spec_write_register_frame(SETUP_RETR, spec_setup_retr_value())),
        SpecAction::Exchange(spec_write_register_frame(RF_SETUP, spec_rf_setup_value())),
        SpecAction::Exchange(spec_write_register_frame(FEATURE, spec_feature_value())),
        SpecAction::Exchange(spec_write_register_frame(DYN_PD, spec_dyn_pd_value())),
        SpecAction::Exchange(spec_write_register_frame(EN_AA, spec_en_aa_value())),
        SpecAction::Exchange(spec_write_register_frame(EN_RX_ADDR, spec_en_rx_addr_value(role))),
        SpecAction::Exchange(spec_write_register_frame(RX_PW_P0, spec_rx_pw_p0_value())),
        SpecAction::Exchange(spec_write_register_frame(SETUP_AW, spec_setup_aw_value())),
        SpecAction::Exchange(spec_write_register_frame(RF_CH, spec_rf_ch_value())),
        SpecAction::Exchange(spec_write_register_frame(STATUS, spec_status_reset_value())),
        SpecAction::Exchange(spec_write_register_frame(FLUSH_RX, 0xff)),
        SpecAction::Exchange(spec_write_register_frame(FLUSH_TX, 0xff)),
        SpecAction::Exchange(spec_write_register_frame(CONFIG, spec_config_value(role))),
        SpecAction::WaitMicros(5000),
        SpecAction::Exchange(spec_pipe_address_frame(spec_address_register(role))),
    ];
    if role is Receiver {
        base.push(SpecAction::SetCeHigh)
    } else {
        base
    }
}

/// Compute the bring-up plan for a role: the exact, ordered actions that take
/// the chip from power-on to an armed, role-appropriate state. The register
/// write order is the one the chip's datasheet mandates and must be
/// preserved bit-for-bit by any runner.
pub fn nrf2401_setup(role: Role) -> (plan: Vec<Action>)
    ensures
        plan_view(plan@) == setup_plan(role),
{
    let mut plan: Vec<Action> = Vec::new();
    // control line low, then the power-on settle time
    plan.push(Action::SetCeLow);
    plan.push(Action::WaitMicros(5000));
    // SETUP_RETR: retry aggressively regardless of role
    let mut setup_retr = SetupRetr(0);
    setup_retr.set_auto_retransmit_delay(5);
    setup_retr.set_auto_retransmit_count(15);
    plan.push(Action::Exchange(nrf24l01_write_register(SETUP_RETR, setup_retr.0)));
    // RF_SETUP: maximum power, 1 Mbps
    let mut rf_setup = RfSetup(0);
    rf_setup.set_rf_pwr(3);
    rf_setup.set_rf_dr_low(0);
    rf_setup.set_rf_dr_high(0);
    plan.push(Action::Exchange(nrf24l01_write_register(RF_SETUP, rf_setup.0)));
    // FEATURE: no dynamic or ack payloads
    let mut feature = Feature(0);
    feature.set_ack_pay(0);
    feature.set_en_dpl(0);
    plan.push(Action::Exchange(nrf24l01_write_register(FEATURE, feature.0)));
    // DYNPD: pipe-0 dynamic payload off
    let mut dyn_pd = DynPd(0);
    dyn_pd.set_dpl_p0(0);
    plan.push(Action::Exchange(nrf24l01_write_register(DYN_PD, dyn_pd.0)));
    // EN_AA: pipe-0 auto-acknowledge off
    let mut en_aa = EnAa(0);
    en_aa.set_enaa_p0(0);
    plan.push(Action::Exchange(nrf24l01_write_register(EN_AA, en_aa.0)));
    // EN_RX_ADDR: pipe 0 open only for the receiver
    match role {
        Role::Transmitter => {
            let mut en_rx_addr = EnRxAddr(0);
            en_rx_addr.set_erx_p0(0);
            plan.push(Action::Exchange(nrf24l01_write_register(EN_RX_ADDR, en_rx_addr.0)));
        }
        Role::Receiver => {
            let mut en_rx_addr = EnRxAddr(0);
            en_rx_addr.set_erx_p0(1);
            plan.push(Action::Exchange(nrf24l01_write_register(EN_RX_ADDR, en_rx_addr.0)));
        }
    }
    // RX_PW_P0: fixed 32-byte payload
    let mut rx_pw_p0 = RxPwP0(0);
    rx_pw_p0.set_rx_pw_p0(32);
    plan.push(Action::Exchange(nrf24l01_write_register(RX_PW_P0, rx_pw_p0.0)));
    // SETUP_AW: 5-byte addresses
    let mut setup_aw = SetupAw(0);
    setup_aw.set_aw(3);
    plan.push(Action::Exchange(nrf24l01_write_register(SETUP_AW, setup_aw.0)));
    // RF_CH: channel 76
    let mut rf_ch = RfCh(0);
    rf_ch.set_rf_ch(76);
    plan.push(Action::Exchange(nrf24l01_write_register(RF_CH, rf_ch.0)));
    // STATUS: write 1 to each self-clearing flag to clear it
    let mut status = Status(0);
    status.set_rx_dr(1);
    status.set_tx_ds(1);
    status.set_rx_p_no(0);
    status.set_max_rt(1);
    plan.push(Action::Exchange(nrf24l01_write_register(STATUS, status.0)));
    // flush any stale FIFO state
    plan.push(Action::Exchange(nrf24l01_write_register(FLUSH_RX, 0xff)));
    plan.push(Action::Exchange(nrf24l01_write_register(FLUSH_TX, 0xff)));
    // CONFIG: CRC on, power up, primary role
    match role {
        Role::Transmitter => {
            let mut config = Config(0);
            config.set_prim_rx(0);
            config.set_crco(1);
            config.set_en_crc(1);
            config.set_pwr_up(1);
            plan.push(Action::Exchange(nrf24l01_write_register(CONFIG, config.0)));
        }
        Role::Receiver => {
            let mut config = Config(0);
            config.set_prim_rx(1);
            config.set_crco(1);
            config.set_en_crc(1);
            config.set_pwr_up(1);
            plan.push(Action::Exchange(nrf24l01_write_register(CONFIG, config.0)));
        }
    }
    // power-up-to-ready settle time
    plan.push(Action::WaitMicros(5000));
    // the 5-byte pipe address, into the register the role uses
    match role {
        Role::Transmitter => {
            plan.push(Action::Exchange(pipe_address_request(TX_ADDR)));
        }
        Role::Receiver => {
            plan.push(Action::Exchange(pipe_address_request(RX_ADDR_P0)));
        }
    }
    // the receiver starts listening at once; the transmitter stays disarmed
    match role {
        Role::Transmitter => {}
        Role::Receiver => {
            plan.push(Action::SetCeHigh);
        }
    }
    proof {
        assert(plan_view(plan@) =~~= setup_plan(role));
    }
    plan
}

/// The receiver loop's state: polling the status register, draining one
/// received payload, or signaling the indicator.
#[derive(Clone, Copy, Debug, PartialEq, Eq, Structural)]
pub enum ReceiverState {
    Polling,
    Draining,
    Signaling,
}

/// The actions that announce one completed radio event on the indicator:
/// On, a 100 ms hold, Off, and a 100 ms hold before the loop goes on.
pub open spec fn spec_signaling_actions() -> Seq<SpecAction> {
    seq![
        SpecAction::SendLed(LedState::On),
        SpecAction::WaitMicros(100000),
        SpecAction::SendLed(LedState::Off),
        SpecAction::WaitMicros(100000),
    ]
}

/// One transition of the receiver state machine. `response` holds the bytes
/// the previous exchange returned; the result is the next state and the
/// actions to perform before the next transition, ending with the exchange
/// whose response the next transition consumes.
pub open spec fn spec_receiver_step(state: ReceiverState, response: Seq<u8>) -> (
    ReceiverState,
    Seq<SpecAction>,
) {
    match state {
        ReceiverState::Polling => {
            if spec_get_field(response[0], 6, 1) == 1 {
                (
                    ReceiverState::Draining,
                    seq![SpecAction::Exchange(spec_read_payload_frame())],
                )
            } else {
                (
                    ReceiverState::Polling,
                    seq![SpecAction::Exchange(spec_read_register_frame(STATUS))],
                )
            }
        }
        ReceiverState::Draining => {
            (
                ReceiverState::Signaling,
                seq![
                    SpecAction::Exchange(
                        spec_write_register_frame(STATUS, spec_set_field(response[0], 6, 1, 1)),
                    ),
                ],
            )
        }
        ReceiverState::Signaling => {
            (
                ReceiverState::Polling,
                spec_signaling_actions().push(
                    SpecAction::Exchange(spec_read_register_frame(STATUS)),
                ),
            )
        }
    }
}

/// Enter the receiver loop: the first status poll, consumed by the first
/// `nrf2401_receiver_loop` transition.
pub fn nrf2401_receiver_start() -> (r: (ReceiverState, Vec<Action>))
    ensures
        r.0 is Polling,
        plan_view(r.1@) == seq![SpecAction::Exchange(spec_read_register_frame(STATUS))],
{
    let mut plan: Vec<Action> = Vec::new();
    plan.push(Action::Exchange(nrf24l01_read_register(STATUS)));
    proof {
        assert(plan_view(plan@) =~~= seq![
            SpecAction::Exchange(spec_read_register_frame(STATUS)),
        ]);
    }
    (ReceiverState::Polling, plan)
}

/// One traversal of the receiver loop, as a state machine step.
///
/// Polling inspects the status echo, byte 0 of the poll's response: with the
/// data-ready flag set it moves to draining and asks for exactly one 33-byte
/// payload read, else it polls again at once. Draining acknowledges the
/// payload by writing STATUS with the data-ready flag set on the echoed
/// status byte. Signaling sends On and, after a 100 ms hold, Off to the
/// indicator, holds 100 ms more, and returns to polling.
pub fn nrf2401_receiver_loop(state: ReceiverState, response: &Vec<u8>) -> (r: (
    ReceiverState,
    Vec<Action>,
))
    requires
        state is Draining ==> response@.len() == 33,
        !(state is Draining) ==> response@.len() == 2,
    ensures
        r.0 == spec_receiver_step(state, response@).0,
        plan_view(r.1@) == spec_receiver_step(state, response@).1,
{
    match state {
        ReceiverState::Polling => {
            let status = Status(response[0]);
            if status.get_rx_dr() == 1 {
                let mut plan: Vec<Action> = Vec::new();
                plan.push(Action::Exchange(read_payload_request()));
                proof {
                    assert(plan_view(plan@) =~~= spec_receiver_step(state, response@).1);
                }
                (ReceiverState::Draining, plan)
            } else {
                let mut plan: Vec<Action> = Vec::new();
                plan.push(Action::Exchange(nrf24l01_read_register(STATUS)));
                proof {
                    assert(plan_view(plan@) =~~= spec_receiver_step(state, response@).1);
                }
                (ReceiverState::Polling, plan)
            }
        }
        ReceiverState::Draining => {
            // write 1 to the self-clearing data-ready flag to acknowledge it,
            // on top of the status byte the payload exchange echoed
            let mut new_status = Status(response[0]);
            new_status.set_rx_dr(1);
            let mut plan: Vec<Action> = Vec::new();
            plan.push(Action::Exchange(nrf24l01_write_register(STATUS, new_status.0)));
            proof {
                assert(plan_view(plan@) =~~= spec_receiver_step(state, response@).1);
            }
            (ReceiverState::Signaling, plan)
        }
        ReceiverState::Signaling => {
            let mut plan: Vec<Action> = Vec::new();
            plan.push(Action::SendLed(LedState::On));
            plan.push(Action::WaitMicros(100000));
            plan.push(Action::SendLed(LedState::Off));
            plan.push(Action::WaitMicros(100000));
            plan.push(Action::Exchange(nrf24l01_read_register(STATUS)));
            proof {
                assert(plan_view(plan@) =~~= spec_receiver_step(state, response@).1);
            }
            (ReceiverState::Polling, plan)
        }
    }
}

/// The fixed 13-byte message every transmitted payload carries.
pub open spec fn spec_message() -> Seq<u8> {
    seq![0x48, 0x65, 0x6c, 0x6c, 0x6f, 0x2c, 0x20, 0x77, 0x6f, 0x72, 0x6c, 0x64, 0x21]
}

/// Build the fixed message the transmitter sends.
pub fn transmit_message() -> (m: Vec<u8>)
    ensures
        m@ == spec_message(),
        m@.len() == 13,
{
    let mut m: Vec<u8> = Vec::new();
    m.push(0x48);
    m.push(0x65);
    m.push(0x6c);
    m.push(0x6c);
    m.push(0x6f);
    m.push(0x2c);
    m.push(0x20);
    m.push(0x77);
    m.push(0x6f);
    m.push(0x72);
    m.push(0x6c);
    m.push(0x64);
    m.push(0x21);
    proof {
        assert(m@ =~= spec_message());
    }
    m
}

/// One iteration of the transmitter loop: the payload write, the
/// chip-enable pulse that triggers the burst, the indicator sequence, and
/// one additional 100 ms idle before the iteration repeats.
pub open spec fn spec_transmitter_iteration() -> Seq<SpecAction> {
    seq![
        SpecAction::Exchange(spec_write_payload_frame(spec_message())),
        SpecAction::SetCeHigh,
        SpecAction::WaitMicros(10),
        SpecAction::SetCeLow,
    ] + spec_signaling_actions() + seq![SpecAction::WaitMicros(100000)]
}

/// One traversal of the transmitter loop. Every iteration is the same:
/// write the fixed message zero-padded into one 33-byte payload frame, pulse
/// the control line high for 10 microseconds to trigger the burst, then send
/// On and, after a hold, Off to the indicator, and idle once more. No status
/// is read back: delivery failures are silent by design here.
pub fn nrf2401_transmitter_loop() -> (plan: Vec<Action>)
    ensures
        plan_view(plan@) == spec_transmitter_iteration(),
{
    let message = transmit_message();
    let mut plan: Vec<Action> = Vec::new();
    plan.push(Action::Exchange(write_payload_request(&message)));
    plan.push(Action::SetCeHigh);
    plan.push(Action::WaitMicros(10));
    plan.push(Action::SetCeLow);
    plan.push(Action::SendLed(LedState::On));
    plan.push(Action::WaitMicros(100000));
    plan.push(Action::SendLed(LedState::Off));
    plan.push(Action::WaitMicros(100000));
    plan.push(Action::WaitMicros(100000));
    proof {
        assert(plan_view(plan@) =~~= spec_transmitter_iteration());
    }
    plan
}

/// Writing 0 or 1 into a one-bit field stores it exactly.
pub proof fn lemma_put_flag(b: u8, lo: u8, v: u8)
    requires
        lo <= 7,
        v == 0 || v == 1,
    ensures
        spec_get_field(spec_set_field(b, lo, 1, v), lo, 1) == v,
{
    assert(spec_get_field(spec_set_field(b, lo, 1, v), lo, 1) == v)
        by (bit_vector)
        requires lo <= 7 && (v == 0 || v == 1);
}

/// Bring-up leaves the chip in the role-appropriate state: the EN_RX_ADDR
/// write opens pipe 0 exactly for the receiver, the CONFIG write sets the
/// primary-receiver flag exactly for the receiver, and the control line,
/// driven low by the first action, is driven high again only by the
/// receiver's plan, as its very last action.
pub proof fn lemma_setup_role_outcome(role: Role)
    ensures
        ({
            let plan = setup_plan(role);
            let en_rx = spec_en_rx_addr_value(role);
            let config = spec_config_value(role);
            &&& plan[0] == SpecAction::SetCeLow
            &&& plan[7] == SpecAction::Exchange(spec_write_register_frame(EN_RX_ADDR, en_rx))
            &&& spec_get_field(en_rx, 0, 1) == spec_role_bit(role)
            &&& plan[14] == SpecAction::Exchange(spec_write_register_frame(CONFIG, config))
            &&& spec_get_field(config, 0, 1) == spec_role_bit(role)
            &&& role is Receiver ==> plan.last() == SpecAction::SetCeHigh
            &&& role is Transmitter ==> forall|i: int|
                0 <= i < plan.len() ==> plan[i] != SpecAction::SetCeHigh
        }),
{
    lemma_put_flag(0, 0, spec_role_bit(role));
    // the later CONFIG writes touch bits 2, 3 and 1; the primary-receiver
    // flag at bit 0 is untouched by each of them
    let after_prim = spec_set_field(0, 0, 1, spec_role_bit(role));
    lemma_field_set_disjoint(after_prim, 2, 1, 1, 0, 1);
    lemma_field_set_disjoint(spec_set_field(after_prim, 2, 1, 1), 3, 1, 1, 0, 1);
    lemma_field_set_disjoint(
        spec_set_field(spec_set_field(after_prim, 2, 1, 1), 3, 1, 1),
        1,
        1,
        1,
        0,
        1,
    );
}

/// From a status poll whose data-ready flag is set, the receiver loop
/// performs exactly one 33-byte payload read, then exactly one STATUS write
/// whose value has the data-ready flag set, then exactly two indicator
/// sends, On first and Off second, before polling again.
pub proof fn lemma_receiver_data_ready(status_resp: Seq<u8>, payload_resp: Seq<u8>, ack_resp: Seq<u8>)
    requires
        status_resp.len() == 2,
        spec_get_field(status_resp[0], 6, 1) == 1,
        payload_resp.len() == 33,
        ack_resp.len() == 2,
    ensures
        ({
            let (s1, drain) = spec_receiver_step(ReceiverState::Polling, status_resp);
            let (s2, ack) = spec_receiver_step(s1, payload_resp);
            let (s3, signal) = spec_receiver_step(s2, ack_resp);
            let written = spec_set_field(payload_resp[0], 6, 1, 1);
            &&& s1 is Draining
            &&& drain == seq![SpecAction::Exchange(spec_read_payload_frame())]
            &&& spec_read_payload_frame().len() == 33
            &&& ack == seq![SpecAction::Exchange(spec_write_register_frame(STATUS, written))]
            &&& spec_get_field(written, 6, 1) == 1
            &&& s2 is Signaling
            &&& s3 is Polling
            &&& signal[0] == SpecAction::SendLed(LedState::On)
            &&& signal[2] == SpecAction::SendLed(LedState::Off)
            &&& forall|i: int|
                0 <= i < signal.len() && ((#[trigger] signal[i]) matches SpecAction::SendLed(_)) ==> i == 0
                    || i == 2
        }),
{
    lemma_put_flag(payload_resp[0], 6, 1);
}

/// Every transmitter iteration is the same: exactly one 33-byte payload
/// write whose frame carries the write-payload opcode, the fixed message,
/// and zero padding; then the control line pulsed high and low; then
/// exactly two indicator sends, On first and Off second.
pub proof fn lemma_transmitter_iteration_shape()
    ensures
        ({
            let plan = spec_transmitter_iteration();
            let frame = spec_write_payload_frame(spec_message());
            &&& plan.len() == 9
            &&& plan[0] == SpecAction::Exchange(frame)
            &&& frame.len() == 33
            &&& frame[0] == W_TX_PAYLOAD
            &&& forall|i: int| 1 <= i <= 13 ==> frame[i] == spec_message()[i - 1]
            &&& forall|i: int| 13 < i < 33 ==> frame[i] == 0
            &&& plan[1] == SpecAction::SetCeHigh
            &&& plan[3] == SpecAction::SetCeLow
            &&& plan[4] == SpecAction::SendLed(LedState::On)
            &&& plan[6] == SpecAction::SendLed(LedState::Off)
            &&& forall|i: int|
                0 <= i < plan.len() && ((#[trigger] plan[i]) matches SpecAction::Exchange(_)) ==> i == 0
            &&& forall|i: int|
                0 <= i < plan.len() && ((#[trigger] plan[i]) matches SpecAction::SendLed(_)) ==> i == 4 || i
                    == 6
        }),
{
}

} // verus!
