use oxidane::defs::{decode_device_state, decode_func_info, decode_int_status, decode_part_info};
use oxidane::radio::{Error, Si4455, READY_POLL_LIMIT, TX_STATE_POLL_LIMIT};
use oxidane::sim::SimBus;

fn quiet_bus() -> SimBus {
    SimBus::new(0xFF, 0x00)
}

#[test]
fn part_info_reply_decodes_fieldwise() {
    let reply = vec![0x07, 0x02, 0x01, 0x00, 0x01, 0x00, 0x00, 0x00, 0x00];
    let p = decode_part_info(&reply);
    assert_eq!(p.revision, 7);
    assert_eq!(p.part, 0x0201);
    assert_eq!(p.builder, 0);
    assert_eq!(p.id, 0x0100);
    assert_eq!(p.customer, 0);
    assert_eq!(p.rom_id, 0);
    assert_eq!(p.bond, 0);
}

#[test]
fn part_info_through_the_driver() {
    let mut bus = quiet_bus();
    for b in [0x07u8, 0x02, 0x01, 0x00, 0x01, 0x00, 0x00, 0x00, 0x00] {
        bus.push_reply(b);
    }
    let mut radio = Si4455::new(bus);
    let p = radio.read_part_info().unwrap();
    assert_eq!(p.revision, 7);
    assert_eq!(p.part, 0x0201);
    assert_eq!(p.id, 0x0100);
    assert_eq!(radio.bus().writes, vec![vec![0x01]]);
}

#[test]
fn func_info_reply_decodes_fieldwise() {
    let reply = vec![0x01, 0x02, 0x03, 0x04, 0x05, 0x06, 0x07, 0x11, 0x22, 0x33, 0x44];
    let f = decode_func_info(&reply);
    assert_eq!(f.rev_ext, 1);
    assert_eq!(f.rev_branch, 2);
    assert_eq!(f.rev_int, 3);
    assert_eq!(f.patch, 0x0405);
    assert_eq!(f.func, 6);
    assert_eq!(f.svn_flags, 7);
    assert_eq!(f.svn_rev, 0x11223344);
}

#[test]
fn int_status_reply_decodes_fieldwise() {
    let reply = vec![1, 2, 3, 4, 5, 6, 7, 8];
    let s = decode_int_status(&reply);
    assert_eq!(s.int_pending, 1);
    assert_eq!(s.int_status, 2);
    assert_eq!(s.ph_pending, 3);
    assert_eq!(s.ph_status, 4);
    assert_eq!(s.modem_pending, 5);
    assert_eq!(s.modem_status, 6);
    assert_eq!(s.chip_pending, 7);
    assert_eq!(s.chip_status, 8);
}

#[test]
fn device_state_reply_decodes_fieldwise() {
    let reply = vec![0x07, 3];
    let s = decode_device_state(&reply);
    assert_eq!(s.state, 0x07);
    assert_eq!(s.channel, 3);
}

#[test]
fn never_ready_bus_exhausts_polling_at_the_bound() {
    // The chip never answers the ready sentinel: polling must stop after
    // exactly the documented bound and report a timeout, not loop forever.
    let bus = SimBus::new(0x00, 0x00);
    let mut radio = Si4455::new(bus);
    let r = radio.read_part_info();
    assert_eq!(r, Err(Error::ReadTimeout));
    assert!(radio.system_error_flag());
    assert_eq!(radio.bus().polls, READY_POLL_LIMIT as u64);
    assert!(radio.bus().writes.is_empty());
}

#[test]
fn a_late_ready_signal_is_found_by_retrying() {
    // The chip answers the ready sentinel only on the third poll.
    let mut bus = SimBus::new(0x00, 0x00);
    bus.push_cts(0x00);
    bus.push_cts(0x00);
    bus.push_cts(0xFF);
    // Once ready, answer the device-state read.
    bus.cts_default = 0xFF;
    bus.push_reply(0x03);
    bus.push_reply(1);
    let mut radio = Si4455::new(bus);
    let ds = radio.request_device_state().unwrap();
    assert_eq!(ds.state, 0x03);
    assert!(!radio.system_error_flag());
}

#[test]
fn listen_issues_start_rx_with_exact_bytes() {
    let bus = quiet_bus();
    let mut radio = Si4455::new(bus);
    radio.start_listening(3, 20).unwrap();
    assert_eq!(
        radio.bus().writes,
        vec![vec![0x20, 0, 0, 0], vec![0x32, 3, 0, 0, 20, 8, 8, 8]]
    );
}

#[test]
fn crc_error_triggers_one_fifo_reset_and_one_listen_restart() {
    let mut bus = quiet_bus();
    // GET_INT_STATUS reply with the CRC-error bit in the ph pending byte.
    for b in [0u8, 0, 0x08, 0, 0, 0, 0, 0] {
        bus.push_reply(b);
    }
    let mut radio = Si4455::new(bus);
    let st = radio.read_interrupt_status(0, 0, 0).unwrap();
    assert_eq!(st.ph_pending, 0x08);
    // Exactly one FIFO reset and one restart at the configured (0, 17).
    assert_eq!(
        radio.bus().writes,
        vec![
            vec![0x20, 0, 0, 0],
            vec![0x15, 0x03],
            vec![0x20, 0, 0, 0],
            vec![0x32, 0, 0, 0, 17, 8, 8, 8],
        ]
    );
    // The sticky error was consumed exactly once.
    assert!(!radio.crc_error_flag());
}

#[test]
fn packet_sent_sets_data_transmitted_and_resets_nothing() {
    let mut bus = quiet_bus();
    for b in [0u8, 0, 0x20, 0, 0, 0, 0, 0] {
        bus.push_reply(b);
    }
    let mut radio = Si4455::new(bus);
    radio.read_interrupt_status(0, 0, 0).unwrap();
    assert!(radio.data_transmitted_flag());
    // No FIFO reset, no restart: only the status fetch itself went out.
    assert_eq!(radio.bus().writes, vec![vec![0x20, 0, 0, 0]]);
    radio.clear_data_transmitted();
    assert!(!radio.data_transmitted_flag());
}

#[test]
fn command_error_restarts_listening_without_lone_crc_reset() {
    let mut bus = quiet_bus();
    // Chip pending byte carries the command-error bit.
    for b in [0u8, 0, 0, 0, 0, 0, 0x08, 0] {
        bus.push_reply(b);
    }
    let mut radio = Si4455::new(bus);
    radio.read_interrupt_status(0, 0, 0).unwrap();
    assert_eq!(
        radio.bus().writes,
        vec![
            vec![0x20, 0, 0, 0],
            vec![0x20, 0, 0, 0],
            vec![0x32, 0, 0, 0, 17, 8, 8, 8],
        ]
    );
    assert!(!radio.command_error_flag());
}

#[test]
fn transmit_of_empty_packet_touches_the_bus_not_at_all() {
    let bus = quiet_bus();
    let mut radio = Si4455::new(bus);
    let r = radio.transmit(1, &[]);
    assert_eq!(r, Ok(()));
    assert_eq!(radio.bus().selects, 0);
    assert_eq!(radio.bus().polls, 0);
    assert!(radio.bus().writes.is_empty());
}

#[test]
fn transmit_against_stuck_tx_state_is_busy_after_the_exact_bound() {
    // Every device-state reply reports Tx (0x07): the wait must poll the
    // state exactly the documented number of times, then give up without
    // ever writing the FIFO.
    let mut bus = SimBus::new(0xFF, 0x07);
    for b in [0u8, 0, 0, 0, 0, 0, 0, 0] {
        bus.push_reply(b);
    }
    let mut radio = Si4455::new(bus);
    let r = radio.transmit(1, &[0xAA, 0xBB]);
    assert_eq!(r, Err(Error::Busy));
    let writes = &radio.bus().writes;
    assert_eq!(writes.len(), 1 + TX_STATE_POLL_LIMIT);
    assert_eq!(writes[0], vec![0x20, 0, 0, 0]);
    for w in writes.iter().skip(1) {
        assert_eq!(w, &vec![0x33]);
    }
}

#[test]
fn transmit_writes_fifo_then_start_tx_with_big_endian_length() {
    // Device state 0x03 (ready): the wait ends on its first poll.
    let mut bus = SimBus::new(0xFF, 0x03);
    for b in [0u8, 0, 0, 0, 0, 0, 0, 0] {
        bus.push_reply(b);
    }
    let mut radio = Si4455::new(bus);
    radio.transmit(5, &[1, 2, 3]).unwrap();
    assert_eq!(
        radio.bus().writes,
        vec![
            vec![0x20, 0, 0, 0],
            vec![0x33],
            vec![0x66, 1, 2, 3],
            vec![0x31, 5, 0x80, 0, 3, 0],
        ]
    );
}

#[test]
fn write_tx_fifo_is_fire_and_forget() {
    let bus = quiet_bus();
    let mut radio = Si4455::new(bus);
    radio.write_tx_fifo(&[9, 8, 7]).unwrap();
    assert_eq!(radio.bus().writes, vec![vec![0x66, 9, 8, 7]]);
    assert_eq!(radio.bus().polls, 0);
}

#[test]
fn start_tx_encodes_length_big_endian() {
    let bus = quiet_bus();
    let mut radio = Si4455::new(bus);
    radio.start_tx(2, 0x80, 0x1234).unwrap();
    assert_eq!(radio.bus().writes, vec![vec![0x31, 2, 0x80, 0x12, 0x34, 0]]);
}

#[test]
fn device_state_query_round_trips() {
    let mut bus = quiet_bus();
    bus.push_reply(0x08);
    bus.push_reply(3);
    let mut radio = Si4455::new(bus);
    let ds = radio.request_device_state().unwrap();
    assert_eq!(ds.state, 0x08);
    assert_eq!(ds.channel, 3);
    assert_eq!(radio.bus().writes, vec![vec![0x33]]);
}
