use oxidane::radio::{Error, Si4455};
use oxidane::sim::SimBus;

fn quiet_bus() -> SimBus {
    SimBus::new(0xFF, 0x00)
}

#[test]
fn records_are_dispatched_in_order_and_stop_at_the_terminator() {
    let bus = quiet_bus();
    let mut radio = Si4455::new(bus);
    let blob = [2, 0x13, 0x40, 3, 0x11, 0x01, 0x02, 0, 0xEE, 0xEE];
    radio.initialize(&blob).unwrap();
    // Both records, in order; the bytes after the terminator are never read.
    assert_eq!(
        radio.bus().writes,
        vec![vec![0x13, 0x40], vec![0x11, 0x01, 0x02]]
    );
}

#[test]
fn oversized_record_goes_out_as_one_fifo_load() {
    let bus = quiet_bus();
    let mut radio = Si4455::new(bus);
    let mut blob = vec![20u8, 0x66];
    for i in 0..19u8 {
        blob.push(i);
    }
    blob.push(0);
    radio.initialize(&blob).unwrap();
    let mut expected = vec![0x66u8];
    for i in 0..19u8 {
        expected.push(i);
    }
    assert_eq!(radio.bus().writes, vec![expected]);
}

#[test]
fn oversized_record_with_wrong_opcode_fails_before_any_transmission() {
    let bus = quiet_bus();
    let mut radio = Si4455::new(bus);
    let mut blob = vec![17u8, 0x41];
    for _ in 0..16 {
        blob.push(0xAB);
    }
    blob.push(0);
    let r = radio.initialize(&blob);
    assert_eq!(r, Err(Error::ConfigFormatError));
    assert!(radio.bus().writes.is_empty());
    assert_eq!(radio.bus().selects, 0);
}

#[test]
fn fifo_record_beyond_fifo_depth_fails_before_any_transmission() {
    let bus = quiet_bus();
    let mut radio = Si4455::new(bus);
    let mut blob = vec![129u8, 0x66];
    for _ in 0..128 {
        blob.push(0xCD);
    }
    let r = radio.initialize(&blob);
    assert_eq!(r, Err(Error::ConfigFormatError));
    assert!(radio.bus().writes.is_empty());
}

#[test]
fn truncated_record_fails_before_any_transmission() {
    let bus = quiet_bus();
    let mut radio = Si4455::new(bus);
    let blob = [5u8, 1, 2];
    let r = radio.initialize(&blob);
    assert_eq!(r, Err(Error::ConfigFormatError));
    assert!(radio.bus().writes.is_empty());
}

#[test]
fn missing_terminator_fails_after_the_records_before_it() {
    let bus = quiet_bus();
    let mut radio = Si4455::new(bus);
    let blob = [2u8, 0x13, 0x40];
    let r = radio.initialize(&blob);
    assert_eq!(r, Err(Error::ConfigFormatError));
    // The well-formed record before the flaw did go out.
    assert_eq!(radio.bus().writes, vec![vec![0x13, 0x40]]);
}

#[test]
fn nonzero_ez_check_reply_halts_the_load() {
    let mut bus = quiet_bus();
    // Reply to the EZCONFIG_CHECK record's one-byte read.
    bus.push_reply(0x55);
    let mut radio = Si4455::new(bus);
    let blob = [2u8, 0x19, 0x00, 2, 0x13, 0x40, 0];
    let r = radio.initialize(&blob);
    assert_eq!(r, Err(Error::EzConfigCheckFailed(0x55)));
    // Processing halted: the record after the check was never dispatched.
    assert_eq!(radio.bus().writes, vec![vec![0x19, 0x00]]);
}

#[test]
fn zero_ez_check_reply_lets_the_load_continue() {
    let bus = quiet_bus();
    let mut radio = Si4455::new(bus);
    let blob = [2u8, 0x19, 0x00, 2, 0x13, 0x40, 0];
    radio.initialize(&blob).unwrap();
    assert_eq!(
        radio.bus().writes,
        vec![vec![0x19, 0x00], vec![0x13, 0x40]]
    );
}

#[test]
fn chip_error_pending_bit_during_load_is_fatal() {
    let mut bus = quiet_bus();
    bus.set_irq(true);
    // One byte answers the record's reply read, then eight bytes answer the
    // interrupt clear; its chip pending byte carries the command-error bit.
    bus.push_reply(0x00);
    for b in [0u8, 0, 0, 0, 0, 0, 0x08, 0] {
        bus.push_reply(b);
    }
    let mut radio = Si4455::new(bus);
    let blob = [2u8, 0x13, 0x40, 0];
    let r = radio.initialize(&blob);
    assert_eq!(r, Err(Error::ChipCommandError));
    assert_eq!(
        radio.bus().writes,
        vec![vec![0x13, 0x40], vec![0x20, 0, 0, 0]]
    );
}

#[test]
fn ez_check_helpers_judge_exactly() {
    assert_eq!(oxidane::config::check_ez_reply(0x19, 0), Ok(()));
    assert_eq!(
        oxidane::config::check_ez_reply(0x19, 7),
        Err(Error::EzConfigCheckFailed(7))
    );
    assert_eq!(oxidane::config::check_ez_reply(0x13, 7), Ok(()));
    assert!(oxidane::config::chip_error_pending(0x08));
    assert!(oxidane::config::chip_error_pending(0x0C));
    assert!(!oxidane::config::chip_error_pending(0x04));
}

#[test]
fn begin_configures_and_clears_interrupts_once() {
    let bus = quiet_bus();
    let mut radio = Si4455::new(bus);
    let blob = [2u8, 0x13, 0x40, 0];
    radio.begin(2, 32, &blob).unwrap();
    assert_eq!(radio.configured_channel(), 2);
    assert_eq!(radio.configured_packet_length(), 32);
    // One reset pulse, the record, then the one full interrupt clear.
    assert_eq!(radio.bus().shutdown_edges, 2);
    assert_eq!(
        radio.bus().writes,
        vec![vec![0x13, 0x40], vec![0x20, 0, 0, 0]]
    );
}

#[test]
fn begin_with_zero_length_keeps_the_previous_packet_length() {
    let bus = quiet_bus();
    let mut radio = Si4455::new(bus);
    let blob = [0u8];
    radio.begin(4, 0, &blob).unwrap();
    assert_eq!(radio.configured_channel(), 4);
    assert_eq!(radio.configured_packet_length(), 17);
}

#[test]
fn begin_retries_each_attempt_with_a_fresh_reset_then_gives_up() {
    let bus = quiet_bus();
    let mut radio = Si4455::new(bus);
    // Malformed blob: every attempt fails the same way.
    let blob = [17u8, 0x41, 0, 0, 0, 0, 0, 0, 0, 0, 0, 0, 0, 0, 0, 0, 0, 0];
    let r = radio.begin(1, 20, &blob);
    assert_eq!(r, Err(Error::ConfigFormatError));
    // Ten attempts, each preceded by one shutdown pulse (two line edges).
    assert_eq!(radio.bus().shutdown_edges, 20);
    assert!(radio.bus().writes.is_empty());
}
