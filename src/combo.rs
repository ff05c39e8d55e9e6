//! Combo storage and the projection from client-visible combo indices onto
//! storage slots.
use vstd::prelude::*;

verus! {

/// Number of combo slots in the store.
pub const COMBO_MAX_NUM: usize = 8;

/// Number of trigger actions a stored combo can hold.
pub const COMBO_MAX_LENGTH: usize = 8;

/// Largest number of triggers the Vial protocol can carry for one combo.
pub const VIAL_COMBO_MAX_LENGTH: usize = 4;

/// Keycode of the "no action" sentinel.
pub const KC_NO: u16 = 0;

/// The fixed-capacity vector of `heapless`, which holds a combo's triggers.
#[verifier::external_type_specification]
#[verifier::external_body]
#[verifier::reject_recursive_types(T)]
pub struct ExHeaplessVec<T, const N: usize>(heapless::Vec<T, N>);

/// The trigger keycodes of a combo, in a fixed-capacity vector.
pub type ComboActions = heapless::Vec<u16, COMBO_MAX_LENGTH>;

/// The keycodes held by a trigger vector, in order.
pub uninterp spec fn action_items(a: heapless::Vec<u16, COMBO_MAX_LENGTH>) -> Seq<u16>;

/// Relies on `heapless::Vec::new`: the new vector is empty.
#[verifier::external_body]
pub(crate) fn actions_empty() -> (r: ComboActions)
    ensures
        action_items(r) == Seq::<u16>::empty(),
{
    heapless::Vec::new()
}

/// Relies on `heapless::Vec::push`: below capacity the item is appended and
/// `Ok` returned; at capacity the vector is unchanged and the item handed back.
#[verifier::external_body]
pub(crate) fn actions_push(v: &mut ComboActions, a: u16) -> (r: Result<(), u16>)
    ensures
        action_items(*old(v)).len() < COMBO_MAX_LENGTH ==> r is Ok,
        action_items(*old(v)).len() < COMBO_MAX_LENGTH ==> action_items(*final(v)) == action_items(*old(v)).push(a),
        action_items(*old(v)).len() >= COMBO_MAX_LENGTH ==> r is Err && r->Err_0 == a,
        action_items(*old(v)).len() >= COMBO_MAX_LENGTH ==> action_items(*final(v)) == action_items(*old(v)),
{
    v.push(a)
}

/// Relies on the length of the slice that `heapless::Vec` dereferences to:
/// the number of items held.
#[verifier::external_body]
pub(crate) fn actions_len(v: &ComboActions) -> (r: usize)
    ensures
        r == action_items(*v).len(),
{
    v.len()
}

/// Relies on indexing the slice that `heapless::Vec` dereferences to: the item
/// at position `i`.
#[verifier::external_body]
pub(crate) fn actions_get(v: &ComboActions, i: usize) -> (r: u16)
    requires
        i < action_items(*v).len(),
    ensures
        r == action_items(*v)[i as int],
{
    v[i]
}

/// A trigger vector holding the keycodes of `keys` in order, or `None` when
/// they do not fit.
pub fn actions_from_keys(keys: &[u16]) -> (r: Option<ComboActions>)
    ensures
        keys@.len() <= COMBO_MAX_LENGTH <==> r is Some,
        r matches Some(a) ==> action_items(a) == keys@,
{
    if keys.len() > COMBO_MAX_LENGTH {
        return None;
    }
    let mut a = actions_empty();
    let mut i: usize = 0;
    while i < keys.len()
        invariant
            i <= keys@.len() <= COMBO_MAX_LENGTH,
            action_items(a) == keys@.subrange(0, i as int),
        decreases keys@.len() - i,
    {
        let _ = actions_push(&mut a, keys[i]);
        i += 1;
        assert(keys@.subrange(0, i as int) =~= keys@.subrange(0, i - 1).push(keys@[i - 1]));
    }
    assert(keys@.subrange(0, i as int) =~= keys@);
    Some(a)
}

/// The keycodes that a trigger vector holds, in order.
pub fn actions_to_vec(v: &ComboActions) -> (r: Vec<u16>)
    ensures
        r@ == action_items(*v),
{
    let n = actions_len(v);
    let mut out: Vec<u16> = Vec::new();
    let mut i: usize = 0;
    while i < n
        invariant
            i <= n == action_items(*v).len(),
            out@ == action_items(*v).subrange(0, i as int),
        decreases n - i,
    {
        out.push(actions_get(v, i));
        i += 1;
        assert(out@ =~= action_items(*v).subrange(0, i as int));
    }
    assert(out@ =~= action_items(*v));
    out
}

/// A key combination: the triggers that must be held together and the action
/// produced when they are.
pub struct Combo {
    pub actions: ComboActions,
    pub output: u16,
}

/// A combo the Vial protocol can show: at most four triggers.
pub open spec fn eligible(c: Combo) -> bool {
    action_items(c.actions).len() <= VIAL_COMBO_MAX_LENGTH
}

/// How many of the first `n` slots are eligible.
pub open spec fn eligible_before(s: Seq<Combo>, n: int) -> nat
    decreases n,
{
    if n <= 0 {
        0
    } else {
        eligible_before(s, n - 1) + if eligible(s[n - 1]) {
            1nat
        } else {
            0nat
        }
    }
}

/// The number of eligible slots in the store.
pub open spec fn eligible_count(s: Seq<Combo>) -> nat {
    eligible_before(s, s.len() as int)
}

/// Slot `slot` is the `idx`-th eligible slot, counting from zero in storage order.
pub open spec fn resolves(s: Seq<Combo>, idx: int, slot: int) -> bool {
    &&& 0 <= slot < s.len()
    &&& eligible(s[slot])
    &&& eligible_before(s, slot) == idx
}

/// The storage slot that the client-visible index `idx` designates, if any.
pub open spec fn visible_slot(s: Seq<Combo>, idx: int) -> Option<int> {
    if exists|slot: int| resolves(s, idx, slot) {
        Some(choose|slot: int| resolves(s, idx, slot))
    } else {
        None
    }
}

proof fn lemma_eligible_before_grows(s: Seq<Combo>, a: int, b: int)
    requires
        0 <= a <= b,
    ensures
        eligible_before(s, a) <= eligible_before(s, b),
        a < b && eligible(s[a]) ==> eligible_before(s, a) < eligible_before(s, b),
    decreases b - a,
{
    if a < b {
        lemma_eligible_before_grows(s, a, b - 1);
    }
}

/// A visible index designates at most one slot.
pub proof fn lemma_resolves_unique(s: Seq<Combo>, idx: int, r1: int, r2: int)
    requires
        resolves(s, idx, r1),
        resolves(s, idx, r2),
    ensures
        r1 == r2,
{
    if r1 < r2 {
        lemma_eligible_before_grows(s, r1, r2);
    } else if r2 < r1 {
        lemma_eligible_before_grows(s, r2, r1);
    }
}

/// Two stores that agree on their first `n` slots count the same number of
/// eligible slots among them.
pub proof fn lemma_eligible_before_agree(s: Seq<Combo>, t: Seq<Combo>, n: int)
    requires
        0 <= n <= s.len(),
        n <= t.len(),
        forall|j: int| 0 <= j < n ==> s[j] == t[j],
    ensures
        eligible_before(s, n) == eligible_before(t, n),
    decreases n,
{
    if n > 0 {
        lemma_eligible_before_agree(s, t, n - 1);
    }
}

proof fn lemma_resolves_below(s: Seq<Combo>, idx: int, n: int)
    requires
        0 <= idx < eligible_before(s, n),
        n <= s.len(),
    ensures
        exists|slot: int| slot < n && resolves(s, idx, slot),
    decreases n,
{
    if idx < eligible_before(s, n - 1) {
        lemma_resolves_below(s, idx, n - 1);
    } else {
        assert(resolves(s, idx, n - 1));
    }
}

/// Visible indices reach exactly the eligible slots: an index designates a slot
/// if and only if it is below the number of eligible slots, a designated slot is
/// eligible, and larger indices designate later slots, so the eligible slots
/// appear in storage order.
pub proof fn lemma_visible_slots(s: Seq<Combo>, i: int, j: int)
    ensures
        visible_slot(s, i) is Some <==> 0 <= i < eligible_count(s),
        visible_slot(s, i) matches Some(r) ==> resolves(s, i, r) && eligible(s[r]),
        visible_slot(s, i) matches Some(ri) ==> visible_slot(s, j) matches Some(rj) ==> i < j
            ==> ri < rj,
{
    if 0 <= i < eligible_count(s) {
        lemma_resolves_below(s, i, s.len() as int);
    }
    if exists|slot: int| resolves(s, i, slot) {
        let r = choose|slot: int| resolves(s, i, slot);
        lemma_eligible_before_grows(s, r, s.len() as int);
        if exists|slot: int| resolves(s, j, slot) {
            let rj = choose|slot: int| resolves(s, j, slot);
            if i < j && rj <= r {
                lemma_eligible_before_grows(s, rj, r);
            }
        }
    }
}

/// The slot that the client-visible index `idx` designates, found by counting
/// eligible slots in storage order.
fn find_visible(combos: &[Combo; COMBO_MAX_NUM], idx: usize) -> (r: Option<usize>)
    ensures
        match r {
            Some(slot) => visible_slot(combos@, idx as int) == Some(slot as int),
            None => visible_slot(combos@, idx as int) is None,
        },
{
    let mut i: usize = 0;
    let mut count: usize = 0;
    while i < COMBO_MAX_NUM
        invariant
            i <= COMBO_MAX_NUM,
            count == eligible_before(combos@, i as int),
            count <= idx,
        decreases COMBO_MAX_NUM - i,
    {
        if actions_len(&combos[i].actions) <= VIAL_COMBO_MAX_LENGTH {
            if count == idx {
                proof {
                    assert(resolves(combos@, idx as int, i as int));
                    let c = choose|slot: int| resolves(combos@, idx as int, slot);
                    lemma_resolves_unique(combos@, idx as int, c, i as int);
                }
                return Some(i);
            }
            count += 1;
        }
        i += 1;
    }
    proof {
        if exists|slot: int| resolves(combos@, idx as int, slot) {
            let c = choose|slot: int| resolves(combos@, idx as int, slot);
            lemma_eligible_before_grows(combos@, c, COMBO_MAX_NUM as int);
        }
    }
    None
}

/// The combo that the client-visible index `idx` designates, with its slot.
pub fn vial_combo(combos: &[Combo; COMBO_MAX_NUM], idx: usize) -> (r: Option<(usize, &Combo)>)
    ensures
        match r {
            Some((slot, c)) => visible_slot(combos@, idx as int) == Some(slot as int) && *c
                == combos@[slot as int],
            None => visible_slot(combos@, idx as int) is None,
        },
{
    match find_visible(combos, idx) {
        Some(slot) => Some((slot, &combos[slot])),
        None => None,
    }
}

/// The combo that the client-visible index `idx` designates, with its slot,
/// borrowed for modification.
pub fn vial_combo_mut(combos: &mut [Combo; COMBO_MAX_NUM], idx: usize) -> (r: Option<
    (usize, &mut Combo),
>)
    ensures
        match r {
            Some((slot, c)) => {
                &&& visible_slot(old(combos)@, idx as int) == Some(slot as int)
                &&& *c == old(combos)@[slot as int]
                &&& final(combos)@ == old(combos)@.update(slot as int, *final(c))
            },
            None => visible_slot(old(combos)@, idx as int) is None && *final(combos) == *old(
                combos,
            ),
        },
{
    match find_visible(combos, idx) {
        Some(slot) => Some((slot, &mut combos[slot])),
        None => None,
    }
}

} // verus!
