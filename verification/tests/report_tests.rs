use razer_hid::report::{
    Color, RazerMatrixEffectId, RazerMouseMatrixEffectId, RazerReport, RazerVarstore,
};

fn sample_report() -> RazerReport {
    let mut r = RazerReport::standard_get_serial();
    r.status = 0x02;
    r.transaction_id = 0x3f;
    r.remaining_packets = 0x1234;
    r.protocol_type = 0x01;
    r.data_size = 0x10;
    r.command_class = 0x0f;
    r.command_id = 0x82;
    for i in 0..80 {
        r.arguments[i] = (i as u8).wrapping_mul(7);
    }
    r.crc = 0xaa;
    r.reserved = 0x00;
    r
}

fn xor_of(buf: &[u8]) -> u8 {
    let mut crc = 0u8;
    for i in 3..89 {
        crc ^= buf[i];
    }
    crc
}

#[test]
fn encode_layout_matches_documented_offsets() {
    let r = sample_report();
    let buf = r.encode();
    assert_eq!(buf.len(), 91);
    assert_eq!(buf[0], 0x00);
    assert_eq!(buf[1], 0x02);
    assert_eq!(buf[2], 0x3f);
    assert_eq!(buf[3], 0x34); // low byte first
    assert_eq!(buf[4], 0x12);
    assert_eq!(buf[5], 0x01);
    assert_eq!(buf[6], 0x10);
    assert_eq!(buf[7], 0x0f);
    assert_eq!(buf[8], 0x82);
    for i in 0..80 {
        assert_eq!(buf[9 + i], (i as u8).wrapping_mul(7));
    }
    assert_eq!(buf[89], 0xaa);
    assert_eq!(buf[90], 0x00);
}

#[test]
fn decode_encode_round_trips_field_by_field() {
    let r = sample_report();
    let d = RazerReport::decode(&r.encode());
    assert_eq!(d.status, r.status);
    assert_eq!(d.transaction_id, r.transaction_id);
    assert_eq!(d.remaining_packets, r.remaining_packets);
    assert_eq!(d.protocol_type, r.protocol_type);
    assert_eq!(d.data_size, r.data_size);
    assert_eq!(d.command_class, r.command_class);
    assert_eq!(d.command_id, r.command_id);
    assert_eq!(d.arguments, r.arguments);
    assert_eq!(d.crc, r.crc);
    assert_eq!(d.reserved, r.reserved);
}

#[test]
fn checksum_matches_xor_over_covered_range() {
    let mut r = sample_report();
    r.calculate_crc();
    let buf = r.encode();
    assert_eq!(r.crc, xor_of(&buf));
}

#[test]
fn checksum_is_idempotent() {
    let mut r = sample_report();
    r.calculate_crc();
    let first = r.crc;
    r.calculate_crc();
    assert_eq!(r.crc, first);
}

#[test]
fn checksum_changes_when_a_covered_byte_changes() {
    let mut r = sample_report();
    r.calculate_crc();
    let before = r.crc;
    r.arguments[0] ^= 0x01;
    r.calculate_crc();
    assert_ne!(r.crc, before);
    // A byte outside the covered range leaves it unchanged.
    r.reserved ^= 0x01;
    let with_reserved_flipped = r.crc;
    r.calculate_crc();
    assert_eq!(r.crc, with_reserved_flipped);
}

#[test]
fn standard_get_serial_fields() {
    let r = RazerReport::standard_get_serial();
    assert_eq!(r.transaction_id, 0x1f);
    assert_eq!(r.command_class, 0x00);
    assert_eq!(r.command_id, 0x82);
    assert_eq!(r.data_size, 0x16);
    assert_eq!(r.status, 0);
    assert_eq!(r.remaining_packets, 0);
    assert!(r.arguments.iter().all(|b| *b == 0));
}

#[test]
fn standard_led_brightness_commands() {
    let g = RazerReport::standard_get_led_brightness(RazerVarstore::Store, 5);
    assert_eq!(g.command_class, 0x03);
    assert_eq!(g.command_id, 0x83);
    assert_eq!(g.data_size, 0x03);
    assert_eq!(g.arguments[0], 0x01);
    assert_eq!(g.arguments[1], 5);

    let s = RazerReport::standard_set_led_brightness(RazerVarstore::Store, 5, 200);
    assert_eq!(s.command_class, 0x03);
    assert_eq!(s.command_id, 0x03);
    assert_eq!(s.data_size, 0x03);
    assert_eq!(s.arguments[0], 0x01);
    assert_eq!(s.arguments[1], 5);
    assert_eq!(s.arguments[2], 200);
}

#[test]
fn matrix_commands() {
    let e = RazerReport::standard_matrix_effect(RazerMatrixEffectId::Static);
    assert_eq!(e.command_class, 0x03);
    assert_eq!(e.command_id, 0x0a);
    assert_eq!(e.arguments[0], 0x06);

    let b = RazerReport::matrix_get_brightness(RazerVarstore::Store, 3);
    assert_eq!(b.command_class, 0x0f);
    assert_eq!(b.command_id, 0x84);
    assert_eq!(b.data_size, 0x03);
    assert_eq!(b.arguments[0], 0x01);
    assert_eq!(b.arguments[1], 3);

    let m = RazerReport::extended_mouse_matrix_effect(
        RazerVarstore::Store,
        4,
        RazerMouseMatrixEffectId::Static,
    );
    assert_eq!(m.command_class, 0x0f);
    assert_eq!(m.command_id, 0x02);
    assert_eq!(m.data_size, 0x50);
    assert_eq!(m.arguments[0], 0x01);
    assert_eq!(m.arguments[1], 4);
    assert_eq!(m.arguments[2], 0x01);
}

#[test]
fn soft_matrix_frame_layout() {
    let colors = vec![Color::new(1, 2, 3), Color::new(4, 5, 6)];
    let r = RazerReport::soft_matrix_frame(7, 10, &colors);
    assert_eq!(r.transaction_id, 0x1f);
    assert_eq!(r.command_class, 0x0f);
    assert_eq!(r.command_id, 0x03);
    assert_eq!(r.data_size, 5 + 3 * 2);
    assert_eq!(r.arguments[2], 7);
    assert_eq!(r.arguments[3], 10);
    assert_eq!(r.arguments[4], 12);
    assert_eq!(&r.arguments[5..11], &[1, 2, 3, 4, 5, 6]);
    assert!(r.arguments[11..].iter().all(|b| *b == 0));
}

#[test]
fn no_constructor_exceeds_the_payload_width() {
    let full_row = vec![Color::new(9, 9, 9); 25];
    let reports = vec![
        RazerReport::standard_get_serial(),
        RazerReport::standard_get_led_brightness(RazerVarstore::NoStore, 0),
        RazerReport::standard_set_led_brightness(RazerVarstore::Store, 1, 255),
        RazerReport::standard_matrix_effect(RazerMatrixEffectId::Static),
        RazerReport::matrix_get_brightness(RazerVarstore::Store, 0),
        RazerReport::extended_mouse_matrix_effect(
            RazerVarstore::Store,
            1,
            RazerMouseMatrixEffectId::Static,
        ),
        RazerReport::soft_matrix_frame(0, 0, &full_row),
    ];
    for r in &reports {
        assert!(r.data_size <= 80);
        assert_eq!(r.arguments.len(), 80);
    }
}
