use nrf24_driver::indicator::LedChannel;
use nrf24_driver::led_state::{led_level, LedState};
use nrf24_driver::nrf2401::{
    nrf2401_receiver_loop, nrf2401_receiver_start, nrf2401_setup, nrf2401_transmitter_loop,
    Action, ReceiverState,
};
use nrf24_driver::role::Role;

fn exchange(bytes: &[u8]) -> Action {
    Action::Exchange(bytes.to_vec())
}

#[test]
fn setup_receiver_emits_the_exact_bring_up_sequence() {
    let plan = nrf2401_setup(Role::Receiver);
    let expected = vec![
        Action::SetCeLow,
        Action::WaitMicros(5000),
        exchange(&[0x24, 0x5F]),          // SETUP_RETR: delay 5, count 15
        exchange(&[0x26, 0x06]),          // RF_SETUP: max power, 1 Mbps
        exchange(&[0x3D, 0x00]),          // FEATURE cleared
        exchange(&[0x3C, 0x00]),          // DYNPD cleared
        exchange(&[0x21, 0x00]),          // EN_AA cleared
        exchange(&[0x22, 0x01]),          // EN_RX_ADDR: pipe 0 open
        exchange(&[0x31, 0x20]),          // RX_PW_P0: 32 bytes
        exchange(&[0x23, 0x03]),          // SETUP_AW: 5-byte addresses
        exchange(&[0x25, 0x4C]),          // RF_CH: channel 76
        exchange(&[0x27, 0x70]),          // STATUS: write 1 to clear each flag
        exchange(&[0xE2, 0xFF]),          // FLUSH_RX
        exchange(&[0xE1, 0xFF]),          // FLUSH_TX
        exchange(&[0x20, 0x0F]),          // CONFIG: CRC, power up, PRIM_RX=1
        Action::WaitMicros(5000),
        exchange(&[0x2A, 1, 0, 0, 0, 0]), // RX_ADDR_P0
        Action::SetCeHigh,
    ];
    assert_eq!(plan, expected);
}

#[test]
fn setup_transmitter_closes_pipes_and_leaves_the_line_low() {
    let plan = nrf2401_setup(Role::Transmitter);
    assert_eq!(plan.len(), 17);
    assert_eq!(plan[7], exchange(&[0x22, 0x00])); // EN_RX_ADDR: all pipes closed
    assert_eq!(plan[14], exchange(&[0x20, 0x0E])); // CONFIG: PRIM_RX=0
    assert_eq!(plan[16], exchange(&[0x30, 1, 0, 0, 0, 0])); // TX_ADDR
    assert!(plan.iter().all(|a| *a != Action::SetCeHigh));
}

#[test]
fn setup_plans_differ_only_in_the_role_driven_writes() {
    let rx = nrf2401_setup(Role::Receiver);
    let tx = nrf2401_setup(Role::Transmitter);
    assert_eq!(rx.len(), 18);
    assert_eq!(tx.len(), 17);
    for i in 0..17 {
        if i == 7 || i == 14 || i == 16 {
            assert_ne!(rx[i], tx[i]);
        } else {
            assert_eq!(rx[i], tx[i]);
        }
    }
}

#[test]
fn receiver_starts_by_polling_status() {
    let (state, plan) = nrf2401_receiver_start();
    assert_eq!(state, ReceiverState::Polling);
    assert_eq!(plan, vec![exchange(&[0x07, 0x00])]);
}

#[test]
fn receiver_without_data_polls_again_at_once() {
    let response = vec![0x0E, 0x00];
    let (state, plan) = nrf2401_receiver_loop(ReceiverState::Polling, &response);
    assert_eq!(state, ReceiverState::Polling);
    assert_eq!(plan, vec![exchange(&[0x07, 0x00])]);
}

#[test]
fn receiver_decides_on_the_status_echo_byte_only() {
    // byte 0, the status echo, carries the data-ready flag; byte 1 is the
    // register value slot of the 2-byte frame and does not decide
    let response = vec![0x00, 0b0100_0000];
    let (state, plan) = nrf2401_receiver_loop(ReceiverState::Polling, &response);
    assert_eq!(state, ReceiverState::Polling);
    assert_eq!(plan, vec![exchange(&[0x07, 0x00])]);
}

#[test]
fn receiver_with_data_ready_reads_acknowledges_and_signals() {
    // end to end: a status poll whose echoed status byte has data-ready set
    let status_response = vec![0b0100_0000, 0x00];
    let (state, plan) = nrf2401_receiver_loop(ReceiverState::Polling, &status_response);
    assert_eq!(state, ReceiverState::Draining);
    // exactly one 33-byte payload read
    let mut payload_read = vec![0xFFu8; 33];
    payload_read[0] = 0x61;
    assert_eq!(plan, vec![Action::Exchange(payload_read)]);

    // the payload exchange echoes the chip status in byte 0
    let mut payload_response = vec![0u8; 33];
    payload_response[0] = 0x0E;
    let (state, plan) = nrf2401_receiver_loop(state, &payload_response);
    assert_eq!(state, ReceiverState::Signaling);
    // exactly one STATUS write, with the data-ready flag set on the echo
    assert_eq!(plan, vec![exchange(&[0x27, 0x4E])]);

    let ack_response = vec![0x0E, 0x00];
    let (state, plan) = nrf2401_receiver_loop(state, &ack_response);
    assert_eq!(state, ReceiverState::Polling);
    // On then Off, each followed by a 100 ms hold, then the next poll
    assert_eq!(
        plan,
        vec![
            Action::SendLed(LedState::On),
            Action::WaitMicros(100_000),
            Action::SendLed(LedState::Off),
            Action::WaitMicros(100_000),
            exchange(&[0x07, 0x00]),
        ]
    );
}

#[test]
fn receiver_acknowledge_keeps_an_already_set_flag() {
    let mut payload_response = vec![0u8; 33];
    payload_response[0] = 0b0100_0000;
    let (state, plan) = nrf2401_receiver_loop(ReceiverState::Draining, &payload_response);
    assert_eq!(state, ReceiverState::Signaling);
    assert_eq!(plan, vec![exchange(&[0x27, 0x40])]);
}

#[test]
fn transmitter_iteration_writes_pulses_and_signals() {
    let plan = nrf2401_transmitter_loop();
    let mut frame = vec![0u8; 33];
    frame[0] = 0xA0;
    frame[1..14].copy_from_slice(b"Hello, world!");
    assert_eq!(
        plan,
        vec![
            Action::Exchange(frame),
            Action::SetCeHigh,
            Action::WaitMicros(10),
            Action::SetCeLow,
            Action::SendLed(LedState::On),
            Action::WaitMicros(100_000),
            Action::SendLed(LedState::Off),
            Action::WaitMicros(100_000),
            Action::WaitMicros(100_000),
        ]
    );
}

#[test]
fn channel_starts_empty() {
    let mut channel = LedChannel::new();
    assert_eq!(channel.try_recv(), None);
}

#[test]
fn channel_delivers_each_accepted_signal_exactly_once() {
    let mut channel = LedChannel::new();
    assert!(channel.try_send(LedState::On));
    assert_eq!(channel.try_recv(), Some(LedState::On));
    assert_eq!(channel.try_recv(), None);
}

#[test]
fn channel_refuses_a_second_signal_and_keeps_the_first() {
    let mut channel = LedChannel::new();
    assert!(channel.try_send(LedState::On));
    // the slot is occupied: the second producer must wait, nothing is lost
    assert!(!channel.try_send(LedState::Off));
    assert_eq!(channel.try_recv(), Some(LedState::On));
    // now the retried send is accepted and delivered
    assert!(channel.try_send(LedState::Off));
    assert_eq!(channel.try_recv(), Some(LedState::Off));
}

#[test]
fn two_producers_interleaved_lose_nothing() {
    let mut channel = LedChannel::new();
    let mut delivered = Vec::new();
    // receiver core and transmitter core both blink; sends that collide are
    // retried until the slot frees, so every signal arrives
    let mut pending = vec![LedState::On, LedState::Off, LedState::On, LedState::Off];
    pending.reverse();
    while let Some(signal) = pending.pop() {
        while !channel.try_send(signal) {
            if let Some(got) = channel.try_recv() {
                delivered.push(got);
            }
        }
    }
    if let Some(got) = channel.try_recv() {
        delivered.push(got);
    }
    assert_eq!(
        delivered,
        vec![LedState::On, LedState::Off, LedState::On, LedState::Off]
    );
}

#[test]
fn led_level_maps_signals_to_pin_levels() {
    assert!(led_level(LedState::On));
    assert!(!led_level(LedState::Off));
}
