use oxidane::radio::Si4455;
use oxidane::sim::SimBus;

/// The vendor-supplied register-setting blob of the radio board this driver
/// was written for: opaque content, interpreted only as record framing.
const RADIO_CONFIG: [u8; 273] = [
        0x07, 0x02, 0x01, 0x00, 0x01, 0x8C, 0xBA, 0x80, 0x05, 0x11, 0x01, 0x01,
        0x00, 0x00, 0x08, 0x11, 0x02, 0x04, 0x00, 0x08, 0x06, 0x04, 0x0A, 0x05,
        0x11, 0x24, 0x01, 0x03, 0x64, 0x72, 0x66, 0xE2, 0x48, 0x3A, 0xB0, 0xB0,
        0x33, 0x00, 0xAA, 0x01, 0xFB, 0x3F, 0x85, 0x40, 0x2E, 0xB3, 0xE6, 0x03,
        0x58, 0xFE, 0x38, 0xA0, 0x91, 0x87, 0x6B, 0x34, 0x59, 0x41, 0xA4, 0xA6,
        0xCC, 0x59, 0x54, 0xD7, 0x01, 0x0F, 0x8E, 0xA0, 0xFA, 0x91, 0xB3, 0x3E,
        0xAB, 0x55, 0x22, 0xF3, 0x84, 0xF5, 0x8E, 0x95, 0x5D, 0x10, 0x3D, 0x8E,
        0x1D, 0x18, 0x2F, 0x50, 0x56, 0xBA, 0x29, 0x9B, 0xE8, 0x16, 0x68, 0x5C,
        0x21, 0xB5, 0x28, 0x43, 0x70, 0xA8, 0x7F, 0x57, 0xD7, 0x26, 0x0E, 0xF3,
        0xDC, 0xD9, 0xEE, 0xB9, 0xF5, 0x85, 0xA4, 0x7B, 0xCA, 0x02, 0x13, 0x97,
        0x32, 0x00, 0x43, 0x70, 0x6C, 0x84, 0x9A, 0xD1, 0xBE, 0xE1, 0x71, 0xC1,
        0xED, 0x1E, 0x7D, 0xA5, 0x23, 0x4B, 0xD8, 0x6B, 0x3A, 0xC3, 0x7D, 0x91,
        0x01, 0x00, 0x70, 0x66, 0x26, 0xF1, 0x58, 0xA3, 0x01, 0xB8, 0x7C, 0xBB,
        0x64, 0xFB, 0x15, 0xE1, 0x31, 0xD0, 0x8B, 0xBB, 0x10, 0xD7, 0x50, 0xEA,
        0x7B, 0x43, 0xDF, 0x9C, 0xBD, 0x89, 0x35, 0x5A, 0x4F, 0x45, 0x49, 0x5D,
        0x09, 0xCD, 0x72, 0x2A, 0x9C, 0x9A, 0xAD, 0xB5, 0x9D, 0xD3, 0x87, 0x05,
        0x07, 0x27, 0x65, 0x48, 0xDA, 0xEE, 0xB9, 0x0C, 0xA2, 0xCC, 0xC2, 0xDF,
        0x46, 0x7D, 0x3F, 0x78, 0x96, 0x40, 0x57, 0x83, 0xFA, 0x31, 0x10, 0x3E,
        0xEF, 0xC4, 0x57, 0x97, 0x93, 0x3C, 0x47, 0xEE, 0xF2, 0x60, 0xC0, 0x37,
        0x33, 0x3C, 0x87, 0x64, 0x42, 0xF9, 0x36, 0x5F, 0x71, 0xC9, 0x2E, 0xCE,
        0x14, 0xBE, 0x58, 0xC3, 0x51, 0x0D, 0x61, 0x99, 0x14, 0x0A, 0xE1, 0x84,
        0x50, 0xDC, 0x8B, 0x05, 0x23, 0xF5, 0x51, 0x03, 0x19, 0x50, 0x95, 0x08,
        0x13, 0x01, 0x01, 0x01, 0x01, 0x00, 0x00, 0x00, 0x00,
];

#[test]
fn the_vendor_blob_loads_record_by_record() {
    let bus = SimBus::new(0xFF, 0x00);
    let mut radio = Si4455::new(bus);
    radio.initialize(&RADIO_CONFIG).unwrap();
    let writes = &radio.bus().writes;
    // The blob frames into nine records: four short commands, a FIFO load,
    // a one-byte command, a second FIFO load, the EZCONFIG check and one
    // final command.
    assert_eq!(writes.len(), 9);
    assert_eq!(writes[0][0], 0x02);
    assert_eq!(writes[4][0], 0x66);
    assert_eq!(writes[4].len(), 114);
    assert_eq!(writes[6][0], 0x66);
    assert_eq!(writes[6].len(), 112);
    assert_eq!(writes[7][0], 0x19);
    assert_eq!(writes[8][0], 0x13);
}
