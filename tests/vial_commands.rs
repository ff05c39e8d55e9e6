use vial::combo::{actions_from_keys, actions_to_vec, vial_combo, Combo, COMBO_MAX_NUM, KC_NO};
use vial::vial::{process_vial, ComboData, VialCommand, VialDynamic, ViaReport};

const ID: [u8; 8] = [0x11, 0x22, 0x33, 0x44, 0x55, 0x66, 0x77, 0x88];

fn report(out: &[u8]) -> ViaReport {
    let mut output_data = [0u8; 32];
    output_data[..out.len()].copy_from_slice(out);
    ViaReport { input_data: [0xAA; 32], output_data }
}

fn combo(keys: &[u16], output: u16) -> Combo {
    Combo { actions: actions_from_keys(keys).unwrap(), output }
}

fn store(slots: &[(&[u16], u16)]) -> [Combo; COMBO_MAX_NUM] {
    std::array::from_fn(|i| {
        if i < slots.len() {
            combo(slots[i].0, slots[i].1)
        } else {
            combo(&[], KC_NO)
        }
    })
}

fn empty_store() -> [Combo; COMBO_MAX_NUM] {
    store(&[])
}

fn snapshot(combos: &[Combo; COMBO_MAX_NUM]) -> Vec<(Vec<u16>, u16)> {
    combos.iter().map(|c| (actions_to_vec(&c.actions), c.output)).collect()
}

fn blob(n: usize) -> Vec<u8> {
    (0..n).map(|i| (i % 251) as u8).collect()
}

#[test]
fn command_bytes_decode() {
    assert_eq!(VialCommand::from_primitive(0x00), VialCommand::GetKeyboardId);
    assert_eq!(VialCommand::from_primitive(0x0D), VialCommand::DynamicEntryOp);
    assert_eq!(VialCommand::from_primitive(0x7F), VialCommand::Unhandled);
    assert_eq!(VialDynamic::from_primitive(0x03), VialDynamic::DynamicVialComboGet);
    assert_eq!(VialDynamic::from_primitive(0x09), VialDynamic::Unhandled);
}

#[test]
fn keyboard_id_gives_version_and_identity() {
    let mut r = report(&[0xFE, 0x00]);
    let mut c = empty_store();
    assert_eq!(process_vial(&mut r, &ID, &[], &mut c), None);
    assert_eq!(&r.input_data[0..4], &[6, 0, 0, 0]);
    assert_eq!(&r.input_data[4..12], &ID);
    assert!(r.input_data[12..].iter().all(|&b| b == 0xAA));
}

#[test]
fn size_is_little_endian_length() {
    let def = blob(0x1234);
    let mut r = report(&[0xFE, 0x01]);
    let mut c = empty_store();
    process_vial(&mut r, &ID, &def, &mut c);
    assert_eq!(&r.input_data[0..4], &[0x34, 0x12, 0, 0]);
    assert!(r.input_data[4..].iter().all(|&b| b == 0xAA));
}

#[test]
fn definition_first_page() {
    let def = blob(100);
    let mut r = report(&[0xFE, 0x02, 0, 0]);
    let mut c = empty_store();
    process_vial(&mut r, &ID, &def, &mut c);
    assert_eq!(&r.input_data[..], &def[0..32]);
}

#[test]
fn definition_page_number_is_little_endian() {
    let def = blob(301 * 32 + 5);
    let mut r = report(&[0xFE, 0x02, 0x2C, 0x01]);
    let mut c = empty_store();
    process_vial(&mut r, &ID, &def, &mut c);
    assert_eq!(&r.input_data[..], &def[300 * 32..301 * 32]);
}

#[test]
fn definition_last_page_is_clamped() {
    let def = blob(100);
    let mut r = report(&[0xFE, 0x02, 3, 0]);
    let mut c = empty_store();
    process_vial(&mut r, &ID, &def, &mut c);
    assert_eq!(&r.input_data[0..4], &def[96..100]);
    assert!(r.input_data[4..].iter().all(|&b| b == 0xAA));
}

#[test]
fn definition_page_past_end_leaves_buffer() {
    let def = blob(64);
    for page in [2u16, 3, 0xFFFF] {
        let bytes = page.to_le_bytes();
        let mut r = report(&[0xFE, 0x02, bytes[0], bytes[1]]);
        let mut c = empty_store();
        process_vial(&mut r, &ID, &def, &mut c);
        assert_eq!(r.input_data, [0xAA; 32]);
    }
}

#[test]
fn definition_empty_blob_leaves_buffer() {
    let mut r = report(&[0xFE, 0x02, 0, 0]);
    let mut c = empty_store();
    process_vial(&mut r, &ID, &[], &mut c);
    assert_eq!(r.input_data, [0xAA; 32]);
}

#[test]
fn unlock_status_is_canned() {
    let mut r = report(&[0xFE, 0x05, 9, 9, 9]);
    let mut c = empty_store();
    process_vial(&mut r, &ID, &[], &mut c);
    assert_eq!(r.input_data[0], 1);
    assert_eq!(r.input_data[1], 0);
    assert!(r.input_data[2..].iter().all(|&b| b == 0xFF));
}

#[test]
fn settings_query_fills_ff() {
    let mut r = report(&[0xFE, 0x09]);
    let mut c = empty_store();
    process_vial(&mut r, &ID, &[], &mut c);
    assert_eq!(r.input_data, [0xFF; 32]);
}

#[test]
fn encoder_get_zero_fills() {
    let mut r = report(&[0xFE, 0x03, 1, 2]);
    let mut c = empty_store();
    process_vial(&mut r, &ID, &[], &mut c);
    assert_eq!(r.input_data, [0; 32]);
}

#[test]
fn encoder_set_changes_nothing() {
    let mut r = report(&[0xFE, 0x04, 1, 2, 1, 0x04, 0x00]);
    let mut c = store(&[(&[4, 5], 6)]);
    let before = snapshot(&c);
    assert_eq!(process_vial(&mut r, &ID, &[], &mut c), None);
    assert_eq!(r.input_data, [0xAA; 32]);
    assert_eq!(snapshot(&c), before);
}

#[test]
fn unknown_command_changes_nothing() {
    for cmd in [0x7Fu8, 0x06, 0x0A, 0xFF] {
        let mut r = report(&[0xFE, cmd, 4, 0, 1, 0, 2, 0]);
        let mut c = store(&[(&[4, 5], 6)]);
        let before = snapshot(&c);
        assert_eq!(process_vial(&mut r, &ID, &[], &mut c), None);
        assert_eq!(r.input_data, [0xAA; 32]);
        assert_eq!(snapshot(&c), before);
    }
}

#[test]
fn number_of_entries_is_fixed() {
    let mut r = report(&[0xFE, 0x0D, 0x00]);
    let mut c = empty_store();
    process_vial(&mut r, &ID, &[], &mut c);
    assert_eq!(&r.input_data[0..3], &[0, 8, 0]);
    assert!(r.input_data[3..].iter().all(|&b| b == 0xAA));
}

#[test]
fn unimplemented_dynamic_commands_zero_fill() {
    for sub in [0x01u8, 0x02, 0x05, 0x06, 0x42] {
        let mut r = report(&[0xFE, 0x0D, sub]);
        let mut c = empty_store();
        assert_eq!(process_vial(&mut r, &ID, &[], &mut c), None);
        assert_eq!(r.input_data, [0; 32]);
    }
}

#[test]
fn combo_get_encodes_triggers_and_output() {
    let mut c = store(&[(&[0x0004, 0x0105, 0x0006], 0x0A0B)]);
    let mut r = report(&[0xFE, 0x0D, 0x03, 0]);
    assert_eq!(process_vial(&mut r, &ID, &[], &mut c), None);
    assert_eq!(
        &r.input_data[0..11],
        &[0, 0x04, 0x00, 0x05, 0x01, 0x06, 0x00, 0x00, 0x00, 0x0B, 0x0A]
    );
    assert!(r.input_data[11..].iter().all(|&b| b == 0xAA));
}

#[test]
fn combo_get_unresolved_zero_fills_payload() {
    let mut c = store(&[(&[4, 5], 6)]);
    for (i, combo) in c.iter_mut().enumerate() {
        *combo = combo_with_five(i);
    }
    let mut r = report(&[0xFE, 0x0D, 0x03, 0]);
    process_vial(&mut r, &ID, &[], &mut c);
    assert_eq!(&r.input_data[0..11], &[0; 11]);
    assert!(r.input_data[11..].iter().all(|&b| b == 0xAA));
}

fn combo_with_five(i: usize) -> Combo {
    combo(&[1, 2, 3, 4, 5], i as u16)
}

#[test]
fn combo_get_twice_is_identical() {
    let mut c = store(&[(&[4, 5], 6), (&[7], 8)]);
    let mut r = report(&[0xFE, 0x0D, 0x03, 1]);
    process_vial(&mut r, &ID, &[], &mut c);
    let first = r.input_data;
    process_vial(&mut r, &ID, &[], &mut c);
    assert_eq!(r.input_data, first);
}

#[test]
fn projection_skips_long_combos() {
    let c = store(&[
        (&[1], 10),
        (&[1, 2, 3, 4, 5], 11),
        (&[2], 12),
        (&[3], 13),
        (&[1, 2, 3, 4, 5], 14),
        (&[4], 15),
        (&[5], 16),
        (&[6, 7, 8, 9], 17),
    ]);
    let expected = [0usize, 2, 3, 5, 6, 7];
    for (visible, &slot) in expected.iter().enumerate() {
        let (s, combo) = vial_combo(&c, visible).unwrap();
        assert_eq!(s, slot);
        assert_eq!(combo.output, 10 + slot as u16);
    }
    assert!(vial_combo(&c, 6).is_none());
    assert!(vial_combo(&c, 7).is_none());

    let mut c = c;
    let mut r = report(&[0xFE, 0x0D, 0x00]);
    process_vial(&mut r, &ID, &[], &mut c);
    assert_eq!(r.input_data[1], 8);
}

#[test]
fn combo_set_then_get_round_trips() {
    let mut c = store(&[(&[1, 2, 3, 4, 5], 9), (&[7, 8, 9], 1)]);
    let mut r = report(&[
        0xFE, 0x0D, 0x04, 0, 0x04, 0x00, 0x00, 0x00, 0x05, 0x01, 0x00, 0x00, 0x2C, 0x00,
    ]);
    let msg = process_vial(&mut r, &ID, &[], &mut c);
    assert_eq!(
        msg,
        Some(ComboData { idx: 1, actions: [0x0004, 0x0105, KC_NO, KC_NO], output: 0x002C })
    );
    assert_eq!(r.input_data[0], 0);
    assert!(r.input_data[1..].iter().all(|&b| b == 0xAA));
    assert_eq!(actions_to_vec(&c[1].actions), vec![0x0004, 0x0105]);
    assert_eq!(c[1].output, 0x002C);
    assert_eq!(actions_to_vec(&c[0].actions), vec![1, 2, 3, 4, 5]);

    let mut r = report(&[0xFE, 0x0D, 0x03, 0]);
    process_vial(&mut r, &ID, &[], &mut c);
    assert_eq!(
        &r.input_data[0..11],
        &[0, 0x04, 0x00, 0x05, 0x01, 0x00, 0x00, 0x00, 0x00, 0x2C, 0x00]
    );
}

#[test]
fn combo_set_clears_with_no_action() {
    let mut c = store(&[(&[4, 5], 6)]);
    let mut r = report(&[0xFE, 0x0D, 0x04, 0, 0, 0, 0, 0, 0, 0, 0, 0, 0, 0]);
    let msg = process_vial(&mut r, &ID, &[], &mut c);
    assert_eq!(msg, Some(ComboData { idx: 0, actions: [KC_NO; 4], output: KC_NO }));
    assert!(actions_to_vec(&c[0].actions).is_empty());
}

#[test]
fn combo_set_out_of_range_changes_nothing() {
    let mut c = store(&[(&[4, 5], 6)]);
    for i in 0..COMBO_MAX_NUM {
        if i >= 3 {
            c[i] = combo_with_five(i);
        }
    }
    let before = snapshot(&c);
    let mut r = report(&[0xFE, 0x0D, 0x04, 3, 0x04, 0, 0x05, 0, 0, 0, 0, 0, 0x06, 0]);
    assert_eq!(process_vial(&mut r, &ID, &[], &mut c), None);
    assert_eq!(snapshot(&c), before);
    assert_eq!(r.input_data[0], 0);
    assert!(r.input_data[1..].iter().all(|&b| b == 0xAA));
}

#[test]
fn actions_over_capacity_are_refused() {
    assert!(actions_from_keys(&[1, 2, 3, 4, 5, 6, 7, 8]).is_some());
    assert!(actions_from_keys(&[1, 2, 3, 4, 5, 6, 7, 8, 9]).is_none());
    let a = actions_from_keys(&[9, 8, 7]).unwrap();
    assert_eq!(a.len(), 3);
    assert_eq!(a[1], 8);
    assert_eq!(actions_to_vec(&a), vec![9, 8, 7]);
}
