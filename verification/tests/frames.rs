use nrf24_driver::nrf2401::{
    nrf24l01_read_register, nrf24l01_write_register, pipe_address_request, read_payload_request,
    transmit_message, write_payload_request, FLUSH_RX, FLUSH_TX, RF_CH, SETUP_RETR, STATUS,
    TX_ADDR,
};

#[test]
fn write_register_request_is_opcode_or_address_then_value() {
    assert_eq!(nrf24l01_write_register(SETUP_RETR, 0x5F), vec![0x24, 0x5F]);
    assert_eq!(nrf24l01_write_register(RF_CH, 76), vec![0x25, 0x4C]);
    assert_eq!(nrf24l01_write_register(STATUS, 0x00), vec![0x27, 0x00]);
}

#[test]
fn read_register_request_is_opcode_or_address_then_zero() {
    assert_eq!(nrf24l01_read_register(STATUS), vec![0x07, 0x00]);
    assert_eq!(nrf24l01_read_register(RF_CH), vec![0x05, 0x00]);
}

#[test]
fn flush_opcodes_pass_through_the_register_write_framing() {
    // 0xE1 and 0xE2 already carry the write-register bit, so OR leaves them
    assert_eq!(nrf24l01_write_register(FLUSH_RX, 0xFF), vec![0xE2, 0xFF]);
    assert_eq!(nrf24l01_write_register(FLUSH_TX, 0xFF), vec![0xE1, 0xFF]);
}

#[test]
fn pipe_address_request_is_six_bytes() {
    assert_eq!(pipe_address_request(TX_ADDR), vec![0x30, 1, 0, 0, 0, 0]);
}

#[test]
fn read_payload_request_is_thirty_three_bytes() {
    let req = read_payload_request();
    assert_eq!(req.len(), 33);
    assert_eq!(req[0], 0x61);
    for i in 1..33 {
        assert_eq!(req[i], 0xFF);
    }
}

#[test]
fn write_payload_request_pads_the_message_with_zeros() {
    let message = transmit_message();
    assert_eq!(message, b"Hello, world!".to_vec());
    let req = write_payload_request(&message);
    assert_eq!(req.len(), 33);
    assert_eq!(req[0], 0xA0);
    assert_eq!(&req[1..14], b"Hello, world!");
    for i in 14..33 {
        assert_eq!(req[i], 0);
    }
}

#[test]
fn write_payload_request_of_a_full_message_has_no_padding() {
    let message: Vec<u8> = (0..32).collect();
    let req = write_payload_request(&message);
    assert_eq!(req.len(), 33);
    assert_eq!(req[0], 0xA0);
    assert_eq!(&req[1..33], &message[..]);
}

#[test]
fn write_payload_request_of_an_empty_message_is_all_zeros() {
    let message: Vec<u8> = Vec::new();
    let req = write_payload_request(&message);
    assert_eq!(req.len(), 33);
    assert_eq!(req[0], 0xA0);
    for i in 1..33 {
        assert_eq!(req[i], 0);
    }
}
