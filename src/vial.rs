//! Decoding of Vial requests and encoding of their responses.
use crate::codec::{fill, fill_range, le16, put16, put32, read_u16_le, write_u16_le, write_u32_le, REPORT_SIZE};
use crate::combo::{
    action_items, eligible_count, lemma_eligible_before_agree, lemma_resolves_unique,
    lemma_visible_slots, resolves, vial_combo, vial_combo_mut, visible_slot, actions_empty, actions_get, actions_len, actions_push, Combo, COMBO_MAX_NUM,
    KC_NO, VIAL_COMBO_MAX_LENGTH,
};
use vstd::prelude::*;

verus! {

/// Version of the Vial protocol that this implementation speaks.
pub const VIAL_PROTOCOL_VERSION: u32 = 6;

/// Size of one page of the keyboard definition.
pub const VIAL_EP_SIZE: usize = 32;

/// Length of the keyboard identifier.
pub const VIAL_KEYBOARD_ID_LEN: usize = 8;

/// Number of combo entries announced to the client.
pub const VIAL_COMBO_ENTRIES: u8 = 8;

/// One request/response exchange: `output_data` comes from the host,
/// `input_data` goes back to it.
pub struct ViaReport {
    pub input_data: [u8; REPORT_SIZE],
    pub output_data: [u8; REPORT_SIZE],
}

/// A request to store an edited combo durably.
#[derive(Clone, Copy, Debug, PartialEq, Eq)]
pub struct ComboData {
    /// Storage slot of the combo.
    pub idx: usize,
    /// Trigger keycodes, padded with the "no action" keycode.
    pub actions: [u16; VIAL_COMBO_MAX_LENGTH],
    /// Keycode produced by the combo.
    pub output: u16,
}

/// Vial commands, carried in byte 1 of a request.
#[derive(Debug, Clone, Copy, PartialEq, Eq, Structural)]
pub enum VialCommand {
    GetKeyboardId,
    GetSize,
    GetKeyboardDef,
    GetEncoder,
    SetEncoder,
    GetUnlockStatus,
    UnlockStart,
    UnlockPoll,
    Lock,
    QmkSettingsQuery,
    QmkSettingsGet,
    QmkSettingsSet,
    QmkSettingsReset,
    DynamicEntryOp,
    Unhandled,
}

/// Sub-commands of `DynamicEntryOp`, carried in byte 2 of a request.
#[derive(Debug, Clone, Copy, PartialEq, Eq, Structural)]
pub enum VialDynamic {
    DynamicVialGetNumberOfEntries,
    DynamicVialTapDanceGet,
    DynamicVialTapDanceSet,
    DynamicVialComboGet,
    DynamicVialComboSet,
    DynamicVialKeyOverrideGet,
    DynamicVialKeyOverrideSet,
    Unhandled,
}

/// The command that a wire byte stands for.
pub open spec fn command_of(b: u8) -> VialCommand {
    if b == 0x00 {
        VialCommand::GetKeyboardId
    } else if b == 0x01 {
        VialCommand::GetSize
    } else if b == 0x02 {
        VialCommand::GetKeyboardDef
    } else if b == 0x03 {
        VialCommand::GetEncoder
    } else if b == 0x04 {
        VialCommand::SetEncoder
    } else if b == 0x05 {
        VialCommand::GetUnlockStatus
    } else if b == 0x06 {
        VialCommand::UnlockStart
    } else if b == 0x07 {
        VialCommand::UnlockPoll
    } else if b == 0x08 {
        VialCommand::Lock
    } else if b == 0x09 {
        VialCommand::QmkSettingsQuery
    } else if b == 0x0A {
        VialCommand::QmkSettingsGet
    } else if b == 0x0B {
        VialCommand::QmkSettingsSet
    } else if b == 0x0C {
        VialCommand::QmkSettingsReset
    } else if b == 0x0D {
        VialCommand::DynamicEntryOp
    } else {
        VialCommand::Unhandled
    }
}

/// The dynamic-entry sub-command that a wire byte stands for.
pub open spec fn dynamic_of(b: u8) -> VialDynamic {
    if b == 0x00 {
        VialDynamic::DynamicVialGetNumberOfEntries
    } else if b == 0x01 {
        VialDynamic::DynamicVialTapDanceGet
    } else if b == 0x02 {
        VialDynamic::DynamicVialTapDanceSet
    } else if b == 0x03 {
        VialDynamic::DynamicVialComboGet
    } else if b == 0x04 {
        VialDynamic::DynamicVialComboSet
    } else if b == 0x05 {
        VialDynamic::DynamicVialKeyOverrideGet
    } else if b == 0x06 {
        VialDynamic::DynamicVialKeyOverrideSet
    } else {
        VialDynamic::Unhandled
    }
}

impl VialCommand {
    /// Decodes a command byte; unknown values become `Unhandled`.
    pub fn from_primitive(b: u8) -> (r: VialCommand)
        ensures
            r == command_of(b),
    {
        match b {
            0x00 => VialCommand::GetKeyboardId,
            0x01 => VialCommand::GetSize,
            0x02 => VialCommand::GetKeyboardDef,
            0x03 => VialCommand::GetEncoder,
            0x04 => VialCommand::SetEncoder,
            0x05 => VialCommand::GetUnlockStatus,
            0x06 => VialCommand::UnlockStart,
            0x07 => VialCommand::UnlockPoll,
            0x08 => VialCommand::Lock,
            0x09 => VialCommand::QmkSettingsQuery,
            0x0A => VialCommand::QmkSettingsGet,
            0x0B => VialCommand::QmkSettingsSet,
            0x0C => VialCommand::QmkSettingsReset,
            0x0D => VialCommand::DynamicEntryOp,
            _ => VialCommand::Unhandled,
        }
    }
}

impl VialDynamic {
    /// Decodes a dynamic-entry sub-command byte; unknown values become `Unhandled`.
    pub fn from_primitive(b: u8) -> (r: VialDynamic)
        ensures
            r == dynamic_of(b),
    {
        match b {
            0x00 => VialDynamic::DynamicVialGetNumberOfEntries,
            0x01 => VialDynamic::DynamicVialTapDanceGet,
            0x02 => VialDynamic::DynamicVialTapDanceSet,
            0x03 => VialDynamic::DynamicVialComboGet,
            0x04 => VialDynamic::DynamicVialComboSet,
            0x05 => VialDynamic::DynamicVialKeyOverrideGet,
            0x06 => VialDynamic::DynamicVialKeyOverrideSet,
            _ => VialDynamic::Unhandled,
        }
    }
}

/// A buffer with every byte set to `v`.
pub open spec fn filled(v: u8) -> Seq<u8> {
    Seq::new(REPORT_SIZE as nat, |j: int| v)
}

/// `b` with the bytes in `[from, to)` set to `v`.
pub open spec fn filled_range(b: Seq<u8>, from: int, to: int, v: u8) -> Seq<u8> {
    Seq::new(REPORT_SIZE as nat, |j: int| if from <= j < to { v } else { b[j] })
}

/// Response to `GetKeyboardId`: the protocol version, then the identifier.
pub open spec fn keyboard_id_response(inp: Seq<u8>, id: Seq<u8>) -> Seq<u8> {
    let b = put32(inp, 0, VIAL_PROTOCOL_VERSION);
    Seq::new(REPORT_SIZE as nat, |j: int| if 4 <= j < 12 { id[j - 4] } else { b[j] })
}

/// Offset in the definition of the page that a request asks for.
pub open spec fn page_start(out: Seq<u8>) -> int {
    le16(out, 2) as int * VIAL_EP_SIZE as int
}

/// Response to `GetKeyboardDef`: the page copied to the front of the buffer,
/// or the buffer untouched when the page starts past the definition's end.
pub open spec fn keyboard_def_response(out: Seq<u8>, inp: Seq<u8>, def: Seq<u8>) -> Seq<u8> {
    let start = page_start(out);
    let end = if start + VIAL_EP_SIZE > def.len() {
        def.len() as int
    } else {
        start + VIAL_EP_SIZE
    };
    if start >= def.len() {
        inp
    } else {
        Seq::new(REPORT_SIZE as nat, |j: int| if j < end - start { def[start + j] } else { inp[j] })
    }
}

/// Response to `GetUnlockStatus`: unlocked, no unlock in progress, rest 0xFF.
pub open spec fn unlock_status_response() -> Seq<u8> {
    filled(0xFF).update(0, 1).update(1, 0)
}

/// The trigger keycodes of a combo, padded to four with "no action".
pub open spec fn padded(t: Seq<u16>) -> Seq<u16> {
    Seq::new(VIAL_COMBO_MAX_LENGTH as nat, |k: int| if k < t.len() { t[k] } else { KC_NO })
}

/// `b` with a combo's four padded triggers and its output encoded at bytes 1 to 10.
pub open spec fn combo_bytes(b: Seq<u8>, c: Combo) -> Seq<u8> {
    let p = padded(action_items(c.actions));
    put16(put16(put16(put16(put16(b, 1, p[0]), 3, p[1]), 5, p[2]), 7, p[3]), 9, c.output)
}

/// Response to `ComboGet` for visible index `idx`.
pub open spec fn combo_get_response(inp: Seq<u8>, combos: Seq<Combo>, idx: int) -> Seq<u8> {
    let b = inp.update(0, 0);
    match visible_slot(combos, idx) {
        Some(slot) => combo_bytes(b, combos[slot]),
        None => filled_range(b, 1, 11, 0),
    }
}

/// Response to a `DynamicEntryOp` request.
pub open spec fn dynamic_response(out: Seq<u8>, inp: Seq<u8>, combos: Seq<Combo>) -> Seq<u8> {
    match dynamic_of(out[2]) {
        VialDynamic::DynamicVialGetNumberOfEntries => inp.update(0, 0).update(
            1,
            VIAL_COMBO_ENTRIES,
        ).update(2, 0),
        VialDynamic::DynamicVialComboGet => combo_get_response(inp, combos, out[3] as int),
        VialDynamic::DynamicVialComboSet => inp.update(0, 0),
        _ => filled(0),
    }
}

/// The response buffer after request `out`, given the buffer `inp` before it.
pub open spec fn response(
    out: Seq<u8>,
    inp: Seq<u8>,
    id: Seq<u8>,
    def: Seq<u8>,
    combos: Seq<Combo>,
) -> Seq<u8> {
    match command_of(out[1]) {
        VialCommand::GetKeyboardId => keyboard_id_response(inp, id),
        VialCommand::GetSize => put32(inp, 0, def.len() as u32),
        VialCommand::GetKeyboardDef => keyboard_def_response(out, inp, def),
        VialCommand::GetUnlockStatus => unlock_status_response(),
        VialCommand::QmkSettingsQuery => filled(0xFF),
        VialCommand::GetEncoder => filled(0),
        VialCommand::DynamicEntryOp => dynamic_response(out, inp, combos),
        _ => inp,
    }
}

/// `s` without its "no action" keycodes, order kept.
pub open spec fn drop_no(s: Seq<u16>) -> Seq<u16>
    decreases s.len(),
{
    if s.len() == 0 {
        s
    } else if s.last() == KC_NO {
        drop_no(s.drop_last())
    } else {
        drop_no(s.drop_last()).push(s.last())
    }
}

/// The four trigger keycodes of a `ComboSet` request.
pub open spec fn set_payload(out: Seq<u8>) -> Seq<u16> {
    Seq::new(VIAL_COMBO_MAX_LENGTH as nat, |k: int| le16(out, 4 + 2 * k))
}

/// The triggers that a `ComboSet` request stores.
pub open spec fn set_triggers(out: Seq<u8>) -> Seq<u16> {
    drop_no(set_payload(out))
}

/// The output keycode that a `ComboSet` request stores.
pub open spec fn set_output(out: Seq<u8>) -> u16 {
    le16(out, 12)
}

/// The request is a `ComboSet`.
pub open spec fn is_combo_set(out: Seq<u8>) -> bool {
    command_of(out[1]) == VialCommand::DynamicEntryOp && dynamic_of(out[2])
        == VialDynamic::DynamicVialComboSet
}

/// The storage slot that request `out` edits, if it edits one.
pub open spec fn edited_slot(out: Seq<u8>, combos: Seq<Combo>) -> Option<int> {
    if is_combo_set(out) {
        visible_slot(combos, out[3] as int)
    } else {
        None
    }
}

/// `after` is the combo store once request `out` has been applied to `before`.
pub open spec fn combos_after(out: Seq<u8>, before: Seq<Combo>, after: Seq<Combo>) -> bool {
    match edited_slot(out, before) {
        None => after == before,
        Some(slot) => {
            &&& after.len() == before.len()
            &&& forall|j: int| 0 <= j < before.len() && j != slot ==> after[j] == before[j]
            &&& action_items(after[slot].actions) == set_triggers(out)
            &&& after[slot].output == set_output(out)
        },
    }
}

/// `msg` is the persistence request that request `out` owes on store `combos`.
pub open spec fn message_for(out: Seq<u8>, combos: Seq<Combo>, msg: Option<ComboData>) -> bool {
    match edited_slot(out, combos) {
        None => msg is None,
        Some(slot) => msg matches Some(d) && d.idx == slot && d.actions@ == padded(
            set_triggers(out),
        ) && d.output == set_output(out),
    }
}

/// Writes the requested page of the keyboard definition to the front of the
/// response, or leaves the response as it is when the page starts at or past
/// the definition's end.
fn get_keyboard_def(report: &mut ViaReport, vial_keyboard_def: &[u8])
    ensures
        final(report).output_data == old(report).output_data,
        final(report).input_data@ == keyboard_def_response(
            old(report).output_data@,
            old(report).input_data@,
            vial_keyboard_def@,
        ),
{
    let page = read_u16_le(&report.output_data, 2) as usize;
    let start = page * VIAL_EP_SIZE;
    let mut end = start + VIAL_EP_SIZE;
    if end < start || start >= vial_keyboard_def.len() {
        return;
    }
    if end > vial_keyboard_def.len() {
        end = vial_keyboard_def.len();
    }
    let n = end - start;
    let mut i: usize = 0;
    while i < n
        invariant
            start == page_start(report.output_data@),
            n == end - start <= VIAL_EP_SIZE,
            end <= vial_keyboard_def@.len(),
            i <= n,
            report.output_data == old(report).output_data,
            forall|j: int| 0 <= j < i ==> report.input_data@[j] == vial_keyboard_def@[start + j],
            forall|j: int|
                i <= j < REPORT_SIZE ==> report.input_data@[j] == old(report).input_data@[j],
        decreases n - i,
    {
        report.input_data[i] = vial_keyboard_def[start + i];
        i += 1;
    }
    assert(report.input_data@ =~= keyboard_def_response(
        old(report).output_data@,
        old(report).input_data@,
        vial_keyboard_def@,
    ));
}

/// Encodes the combo at the requested visible index, or zeroes its fields when
/// no combo has that index; the status byte reads success either way.
fn combo_get(report: &mut ViaReport, combos: &[Combo; COMBO_MAX_NUM])
    ensures
        final(report).output_data == old(report).output_data,
        final(report).input_data@ == combo_get_response(
            old(report).input_data@,
            combos@,
            old(report).output_data@[3] as int,
        ),
{
    report.input_data[0] = 0;
    let combo_idx = report.output_data[3] as usize;
    match vial_combo(combos, combo_idx) {
        Some((_, combo)) => {
            proof {
                crate::combo::lemma_visible_slots(combos@, combo_idx as int, 0);
            }
            let ghost p = padded(action_items(combo.actions));
            let n = actions_len(&combo.actions);
            let mut i: usize = 0;
            while i < VIAL_COMBO_MAX_LENGTH
                invariant
                    i <= VIAL_COMBO_MAX_LENGTH,
                    n == action_items(combo.actions).len() <= VIAL_COMBO_MAX_LENGTH,
                    p == padded(action_items(combo.actions)),
                    report.output_data == old(report).output_data,
                    report.input_data@ == combo_prefix(old(report).input_data@.update(0, 0), p, i as int),
                decreases VIAL_COMBO_MAX_LENGTH - i,
            {
                let kc = if i < n {
                    actions_get(&combo.actions, i)
                } else {
                    KC_NO
                };
                write_u16_le(&mut report.input_data, 1 + i * 2, kc);
                i += 1;
            }
            proof {
                reveal_with_fuel(combo_prefix, 5);
            }
            write_u16_le(&mut report.input_data, 9, combo.output);
        },
        None => {
            fill_range(&mut report.input_data, 1, 11, 0);
        },
    }
}

/// `b` with the first `k` padded triggers encoded from byte 1 on.
pub open spec fn combo_prefix(b: Seq<u8>, p: Seq<u16>, k: int) -> Seq<u8>
    decreases k,
{
    if k <= 0 {
        b
    } else {
        put16(combo_prefix(b, p, k - 1), 1 + 2 * (k - 1), p[k - 1])
    }
}

/// Stores the triggers and output of a `ComboSet` request in the slot that the
/// visible index designates, and returns the persistence request; does nothing
/// past the status byte when no slot has that index.
fn combo_set(report: &mut ViaReport, combos: &mut [Combo; COMBO_MAX_NUM]) -> (r: Option<ComboData>)
    requires
        is_combo_set(old(report).output_data@),
    ensures
        final(report).output_data == old(report).output_data,
        final(report).input_data@ == old(report).input_data@.update(0, 0),
        combos_after(old(report).output_data@, old(combos)@, final(combos)@),
        message_for(old(report).output_data@, old(combos)@, r),
{
    report.input_data[0] = 0;
    let combo_idx = report.output_data[3] as usize;
    let ghost out = report.output_data@;
    let mut triggers = actions_empty();
    let mut actions: [u16; VIAL_COMBO_MAX_LENGTH] = [KC_NO; VIAL_COMBO_MAX_LENGTH];
    let mut n: usize = 0;
    let mut i: usize = 0;
    while i < VIAL_COMBO_MAX_LENGTH
        invariant
            i <= VIAL_COMBO_MAX_LENGTH,
            out == report.output_data@,
            n == action_items(triggers).len() <= i,
            action_items(triggers) == drop_no(set_payload(out).take(i as int)),
            actions@ == padded(action_items(triggers)),
        decreases VIAL_COMBO_MAX_LENGTH - i,
    {
        let kc = read_u16_le(&report.output_data, 4 + i * 2);
        assert(set_payload(out).take(i + 1).drop_last() =~= set_payload(out).take(i as int));
        if kc != KC_NO {
            let _ = actions_push(&mut triggers, kc);
            actions[n] = kc;
            n += 1;
            assert(actions@ =~= padded(action_items(triggers)));
        }
        i += 1;
    }
    assert(set_payload(out).take(VIAL_COMBO_MAX_LENGTH as int) =~= set_payload(out));
    let output = read_u16_le(&report.output_data, 12);
    match vial_combo_mut(combos, combo_idx) {
        Some((slot, combo)) => {
            combo.actions = triggers;
            combo.output = output;
            Some(ComboData { idx: slot, actions, output })
        },
        None => None,
    }
}

/// Answers a `DynamicEntryOp` request; returns the persistence request that a
/// combo edit owes.
fn process_dynamic(report: &mut ViaReport, combos: &mut [Combo; COMBO_MAX_NUM]) -> (r: Option<
    ComboData,
>)
    requires
        command_of(old(report).output_data@[1]) == VialCommand::DynamicEntryOp,
    ensures
        final(report).output_data == old(report).output_data,
        final(report).input_data@ == dynamic_response(
            old(report).output_data@,
            old(report).input_data@,
            old(combos)@,
        ),
        combos_after(old(report).output_data@, old(combos)@, final(combos)@),
        message_for(old(report).output_data@, old(combos)@, r),
{
    match VialDynamic::from_primitive(report.output_data[2]) {
        VialDynamic::DynamicVialGetNumberOfEntries => {
            report.input_data[0] = 0;
            report.input_data[1] = VIAL_COMBO_ENTRIES;
            report.input_data[2] = 0;
            None
        },
        VialDynamic::DynamicVialComboGet => {
            combo_get(report, combos);
            None
        },
        VialDynamic::DynamicVialComboSet => combo_set(report, combos),
        _ => {
            fill(&mut report.input_data, 0);
            None
        },
    }
}

/// Answers one Vial request: writes the response into `report.input_data`, or
/// leaves it as it is where the request has none, and edits the combo store for
/// `ComboSet`. Returns the persistence request that a successful combo edit
/// owes; the caller hands it to storage.
pub fn process_vial(
    report: &mut ViaReport,
    vial_keyboard_id: &[u8],
    vial_keyboard_def: &[u8],
    combos: &mut [Combo; COMBO_MAX_NUM],
) -> (r: Option<ComboData>)
    requires
        command_of(old(report).output_data@[1]) == VialCommand::GetKeyboardId
            ==> vial_keyboard_id@.len() == VIAL_KEYBOARD_ID_LEN,
    ensures
        final(report).output_data == old(report).output_data,
        final(report).input_data@ == response(
            old(report).output_data@,
            old(report).input_data@,
            vial_keyboard_id@,
            vial_keyboard_def@,
            old(combos)@,
        ),
        combos_after(old(report).output_data@, old(combos)@, final(combos)@),
        message_for(old(report).output_data@, old(combos)@, r),
{
    let ghost out = report.output_data@;
    match VialCommand::from_primitive(report.output_data[1]) {
        VialCommand::GetKeyboardId => {
            write_u32_le(&mut report.input_data, 0, VIAL_PROTOCOL_VERSION);
            let ghost b = report.input_data@;
            let mut i: usize = 0;
            while i < VIAL_KEYBOARD_ID_LEN
                invariant
                    i <= VIAL_KEYBOARD_ID_LEN,
                    vial_keyboard_id@.len() == VIAL_KEYBOARD_ID_LEN,
                    report.output_data@ == out,
                    report.input_data@.len() == REPORT_SIZE,
                    forall|j: int| 4 <= j < 4 + i ==> report.input_data@[j] == vial_keyboard_id@[j - 4],
                    forall|j: int|
                        0 <= j < REPORT_SIZE && !(4 <= j < 4 + i) ==> report.input_data@[j] == b[j],
                decreases VIAL_KEYBOARD_ID_LEN - i,
            {
                report.input_data[4 + i] = vial_keyboard_id[i];
                i += 1;
            }
            assert(report.input_data@ =~= keyboard_id_response(old(report).input_data@, vial_keyboard_id@));
            None
        },
        VialCommand::GetSize => {
            write_u32_le(&mut report.input_data, 0, vial_keyboard_def.len() as u32);
            None
        },
        VialCommand::GetKeyboardDef => {
            get_keyboard_def(report, vial_keyboard_def);
            None
        },
        VialCommand::GetUnlockStatus => {
            fill(&mut report.input_data, 0xFF);
            report.input_data[0] = 1;
            report.input_data[1] = 0;
            None
        },
        VialCommand::QmkSettingsQuery => {
            fill(&mut report.input_data, 0xFF);
            None
        },
        VialCommand::DynamicEntryOp => process_dynamic(report, combos),
        VialCommand::GetEncoder => {
            fill(&mut report.input_data, 0);
            None
        },
        _ => None,
    }
}

/// A page that starts inside the definition comes back exactly: the response
/// holds the definition's bytes from the page start up to 32 bytes later or to
/// the end of the definition, whichever is first, and every other byte of the
/// response is what it was.
pub proof fn lemma_def_page_in_range(out: Seq<u8>, inp: Seq<u8>, id: Seq<u8>, def: Seq<u8>, combos: Seq<Combo>)
    requires
        out.len() == REPORT_SIZE,
        inp.len() == REPORT_SIZE,
        out[1] == 0x02,
        page_start(out) < def.len(),
    ensures
        ({
            let r = response(out, inp, id, def, combos);
            let start = page_start(out);
            let end = if start + 32 < def.len() { start + 32 } else { def.len() as int };
            &&& r.len() == REPORT_SIZE
            &&& r.subrange(0, end - start) == def.subrange(start, end)
            &&& forall|j: int| end - start <= j < REPORT_SIZE ==> r[j] == inp[j]
        }),
{
    let r = response(out, inp, id, def, combos);
    let start = page_start(out);
    let end = if start + 32 < def.len() { start + 32 } else { def.len() as int };
    assert(r.subrange(0, end - start) =~= def.subrange(start, end));
}

/// A page that starts at or past the end of the definition changes no byte of
/// the response.
pub proof fn lemma_def_page_out_of_range(out: Seq<u8>, inp: Seq<u8>, id: Seq<u8>, def: Seq<u8>, combos: Seq<Combo>)
    requires
        out.len() == REPORT_SIZE,
        out[1] == 0x02,
        page_start(out) >= def.len(),
    ensures
        response(out, inp, id, def, combos) == inp,
{
}

/// The unlock status reads "unlocked, no unlock in progress" with every other
/// byte 0xFF, whatever the request's other bytes and the buffer held before.
pub proof fn lemma_unlock_status(out: Seq<u8>, inp: Seq<u8>, id: Seq<u8>, def: Seq<u8>, combos: Seq<Combo>)
    requires
        out.len() == REPORT_SIZE,
        out[1] == 0x05,
    ensures
        ({
            let r = response(out, inp, id, def, combos);
            &&& r.len() == REPORT_SIZE
            &&& r[0] == 1
            &&& r[1] == 0
            &&& forall|j: int| 2 <= j < REPORT_SIZE ==> r[j] == 0xFF
        }),
{
}

/// Setting a combo to two triggers `a`, `b` and output `o` at a visible index
/// that designates a slot, then reading that index back, yields `a`, `b`, two
/// "no action" keycodes and `o`.
pub proof fn lemma_combo_set_then_get(
    set_req: Seq<u8>,
    get_req: Seq<u8>,
    before: Seq<Combo>,
    after: Seq<Combo>,
    inp: Seq<u8>,
    id: Seq<u8>,
    def: Seq<u8>,
    a: u16,
    b: u16,
    o: u16,
)
    requires
        set_req.len() == REPORT_SIZE,
        get_req.len() == REPORT_SIZE,
        set_req[1] == 0x0D,
        set_req[2] == 0x04,
        get_req[1] == 0x0D,
        get_req[2] == 0x03,
        get_req[3] == set_req[3],
        le16(set_req, 4) == a,
        le16(set_req, 6) == b,
        le16(set_req, 8) == KC_NO,
        le16(set_req, 10) == KC_NO,
        le16(set_req, 12) == o,
        a != KC_NO,
        b != KC_NO,
        visible_slot(before, set_req[3] as int) is Some,
        combos_after(set_req, before, after),
    ensures
        response(get_req, inp, id, def, after) == put16(
            put16(put16(put16(put16(inp.update(0, 0), 1, a), 3, b), 5, KC_NO), 7, KC_NO),
            9,
            o,
        ),
{
    let idx = set_req[3] as int;
    let slot = visible_slot(before, idx)->Some_0;
    lemma_visible_slots(before, idx, 0);
    let p = set_payload(set_req);
    let s1 = seq![a];
    let s2 = seq![a, b];
    let s3 = seq![a, b, KC_NO];
    assert(s1.drop_last() =~= Seq::<u16>::empty());
    assert(drop_no(s1) == drop_no(Seq::<u16>::empty()).push(a));
    assert(drop_no(s1) =~= s1);
    assert(s2.drop_last() =~= s1);
    assert(drop_no(s2) =~= s2);
    assert(s3.drop_last() =~= s2);
    assert(drop_no(s3) =~= s2);
    assert(p.drop_last() =~= s3);
    assert(p.last() == KC_NO);
    assert(set_triggers(set_req) =~= s2);
    lemma_eligible_before_agree(before, after, slot);
    assert(resolves(after, idx, slot));
    let c = choose|s: int| resolves(after, idx, s);
    lemma_resolves_unique(after, idx, c, slot);
    assert(padded(action_items(after[slot].actions)) =~= seq![a, b, KC_NO, KC_NO]);
}

/// Reading a combo twice with nothing in between gives the same response bytes
/// and leaves the store and the persistence queue alone.
pub proof fn lemma_combo_get_twice(
    out: Seq<u8>,
    inp: Seq<u8>,
    id: Seq<u8>,
    def: Seq<u8>,
    combos: Seq<Combo>,
    after: Seq<Combo>,
    msg: Option<ComboData>,
)
    requires
        out.len() == REPORT_SIZE,
        inp.len() == REPORT_SIZE,
        out[1] == 0x0D,
        out[2] == 0x03,
        combos_after(out, combos, after),
        message_for(out, combos, msg),
    ensures
        after == combos,
        msg is None,
        response(out, response(out, inp, id, def, combos), id, def, after) == response(
            out,
            inp,
            id,
            def,
            combos,
        ),
{
    let r1 = response(out, inp, id, def, combos);
    assert(r1.update(0, 0) =~= r1);
    let r2 = response(out, r1, id, def, combos);
    assert(r2 =~= r1);
}

/// Whatever the store holds, the number of combo entries announced is the
/// fixed capacity, not the number of eligible slots.
pub proof fn lemma_entry_count_fixed(out: Seq<u8>, inp: Seq<u8>, id: Seq<u8>, def: Seq<u8>, combos: Seq<Combo>)
    requires
        out.len() == REPORT_SIZE,
        inp.len() == REPORT_SIZE,
        out[1] == 0x0D,
        out[2] == 0x00,
    ensures
        response(out, inp, id, def, combos)[1] == VIAL_COMBO_ENTRIES,
        response(out, inp, id, def, combos)[0] == 0,
        response(out, inp, id, def, combos)[2] == 0,
{
}

/// A combo edit at a visible index at or past the number of eligible slots
/// changes no slot and owes no persistence request.
pub proof fn lemma_combo_set_out_of_range(out: Seq<u8>, before: Seq<Combo>, after: Seq<Combo>, msg: Option<ComboData>)
    requires
        out.len() == REPORT_SIZE,
        out[1] == 0x0D,
        out[2] == 0x04,
        out[3] >= eligible_count(before),
        combos_after(out, before, after),
        message_for(out, before, msg),
    ensures
        after == before,
        msg is None,
{
    lemma_visible_slots(before, out[3] as int, 0);
}

/// A request whose command byte is past the known commands changes nothing:
/// not the response, not the store, and it owes no persistence request.
pub proof fn lemma_unknown_command(
    out: Seq<u8>,
    inp: Seq<u8>,
    id: Seq<u8>,
    def: Seq<u8>,
    before: Seq<Combo>,
    after: Seq<Combo>,
    msg: Option<ComboData>,
)
    requires
        out.len() == REPORT_SIZE,
        out[1] > 0x0D,
        combos_after(out, before, after),
        message_for(out, before, msg),
    ensures
        response(out, inp, id, def, before) == inp,
        after == before,
        msg is None,
{
}

} // verus!
