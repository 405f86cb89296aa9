use nrf24_driver::bitfields::{Config, RfSetup, SetupAw, SetupRetr, Status, get_field, set_field};

#[test]
fn field_set_then_get_round_trips() {
    let mut setup_retr = SetupRetr(0);
    setup_retr.set_auto_retransmit_count(15);
    setup_retr.set_auto_retransmit_delay(5);
    assert_eq!(setup_retr.get_auto_retransmit_count(), 15);
    assert_eq!(setup_retr.get_auto_retransmit_delay(), 5);
    assert_eq!(setup_retr.0, 0x5F);
}

#[test]
fn one_bit_field_round_trips() {
    let mut status = Status(0);
    status.set_rx_dr(1);
    assert_eq!(status.get_rx_dr(), 1);
    assert_eq!(status.0, 0b0100_0000);
    status.set_rx_dr(0);
    assert_eq!(status.get_rx_dr(), 0);
    assert_eq!(status.0, 0);
}

#[test]
fn two_bit_field_truncates_five_to_one() {
    // a 2-bit field keeps only the low two bits: 5 = 0b101 becomes 0b01
    let mut setup_aw = SetupAw(0);
    setup_aw.set_aw(5);
    assert_eq!(setup_aw.get_aw(), 1);

    let mut rf_setup = RfSetup(0);
    rf_setup.set_rf_pwr(5);
    assert_eq!(rf_setup.get_rf_pwr(), 1);
}

#[test]
fn setting_a_field_leaves_the_others_alone() {
    let mut config = Config(0);
    config.set_prim_rx(1);
    config.set_pwr_up(1);
    config.set_crco(1);
    config.set_en_crc(1);
    assert_eq!(config.0, 0x0F);
    config.set_prim_rx(0);
    assert_eq!(config.get_pwr_up(), 1);
    assert_eq!(config.get_crco(), 1);
    assert_eq!(config.get_en_crc(), 1);
    assert_eq!(config.0, 0x0E);
}

#[test]
fn status_fields_decode_a_raw_byte() {
    let status = Status(0b0100_0000);
    assert_eq!(status.get_rx_dr(), 1);
    assert_eq!(status.get_tx_ds(), 0);
    assert_eq!(status.get_max_rt(), 0);
    assert_eq!(status.get_rx_p_no(), 0);
    assert_eq!(status.get_tx_full(), 0);

    let status = Status(0b0010_1101);
    assert_eq!(status.get_rx_dr(), 0);
    assert_eq!(status.get_tx_ds(), 1);
    assert_eq!(status.get_rx_p_no(), 0b110);
    assert_eq!(status.get_tx_full(), 1);
}

#[test]
fn generic_accessors_shift_and_mask() {
    assert_eq!(get_field(0b1010_1100, 2, 3), 0b011);
    assert_eq!(set_field(0, 4, 4, 5), 0x50);
    assert_eq!(set_field(0xFF, 1, 2, 0), 0b1111_1001);
    // truncation: a 3-bit field keeps only the low three bits of 0b1111
    assert_eq!(set_field(0, 1, 3, 0b1111), 0b0000_1110);
}
