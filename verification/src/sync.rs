//! The rules by which a powers database is brought in line with reference
//! data: which powers are left alone, what the allowed enhancements and
//! enhancement sets of a power become, and at which level a power becomes
//! available.
//!
//! Everything here works on plain values. Reading the reference data, and
//! comparing times, which are floating-point numbers, is left to the caller.

use crate::mids::enums::{EffectType, PowerAttribs, SetType};
use crate::mids::Effect;
use crate::netbinary::ordinal::Enumerated;
use std::collections::BTreeSet;
use vstd::prelude::*;
use vstd::std_specs::btree::*;
use vstd::std_specs::cmp::OrdSpec;
use vstd::std_specs::iter::IteratorSpec;

verus! {

/// Whether a list is in strictly ascending order, and so without
/// duplicates.
pub open spec fn ascending(s: Seq<u32>) -> bool {
    forall|i: int, j: int| 0 <= i < j < s.len() ==> s[i] < s[j]
}

/// Whether one of the effects rewrites an attribute of its power. Such
/// powers are left as they are.
pub fn rewrites_attributes(effects: &Vec<Effect>) -> (found: bool)
    ensures
        found <==> exists|i: int|
            0 <= i < effects@.len() && !(#[trigger] effects@[i].power_attribs is None_),
{
    let mut i: usize = 0;
    while i < effects.len()
        invariant
            i <= effects.len(),
            forall|j: int| 0 <= j < i ==> #[trigger] effects@[j].power_attribs is None_,
        decreases effects.len() - i,
    {
        match effects[i].power_attribs {
            PowerAttribs::None_ => {},
            _ => {
                return true;
            },
        }
        i = i + 1;
    }
    false
}

/// Whether one of the effects redirects to another power.
pub fn has_redirect(effects: &Vec<Effect>) -> (found: bool)
    ensures
        found <==> exists|i: int|
            0 <= i < effects@.len() && #[trigger] effects@[i].effect_type is PowerRedirect,
{
    let mut i: usize = 0;
    while i < effects.len()
        invariant
            i <= effects.len(),
            forall|j: int| 0 <= j < i ==> !(#[trigger] effects@[j].effect_type is PowerRedirect),
        decreases effects.len() - i,
    {
        match effects[i].effect_type {
            EffectType::PowerRedirect => {
                return true;
            },
            _ => {},
        }
        i = i + 1;
    }
    false
}

/// Whether the reference times of a power are to be trusted: they are
/// where the power has a redirect of its own, or where the redirects of
/// the reference end in one that always applies, if there are any.
pub fn times_are_reliable(has_redirect: bool, last_redirect_is_always: Option<bool>) -> (reliable:
    bool)
    ensures
        reliable <==> has_redirect || last_redirect_is_always != Some(false),
{
    let safe = match last_redirect_is_always {
        Some(always) => always,
        None => true,
    };
    has_redirect || safe
}

/// The level that the rule below gives, as a number without bounds.
///
/// Pool powers are not available before level 4. A temporary power that
/// the reference lists at level 0 has no level. Every other power is
/// available one level above what the reference says, which counts from 0.
pub open spec fn level_rule(pool: bool, available_level: i32, temporary: bool) -> int {
    if pool && available_level == 0 {
        4
    } else if available_level == 0 && temporary {
        0
    } else {
        available_level + 1
    }
}

/// The level at which a power becomes available, or `None` where the rule
/// leads out of the range of levels.
pub fn level_for(pool: bool, available_level: i32, temporary: bool) -> (level: Option<i32>)
    ensures
        match level {
            Some(l) => l == level_rule(pool, available_level, temporary),
            None => level_rule(pool, available_level, temporary) > i32::MAX,
        },
{
    if pool && available_level == 0 {
        Some(4)
    } else if available_level == 0 && temporary {
        Some(0)
    } else {
        available_level.checked_add(1)
    }
}

/// Unsigned 32-bit numbers are ordered as a set of them needs.
proof fn lemma_numbers_are_ordered()
    ensures
        vstd::laws_cmp::obeys_cmp::<u32>(),
        vstd::laws_cmp::obeys_cmp::<&u32>(),
{
    broadcast use vstd::laws_cmp::group_laws_cmp;

    assert(vstd::laws_cmp::obeys_cmp::<u32>());
}

/// What a set hands out in increasing order is in ascending order.
proof fn lemma_increasing_is_ascending(all: Seq<&u32>)
    requires
        increasing_seq(all),
    ensures
        ascending(all.unref()),
{
    broadcast use vstd::std_specs::btree::group_btree_axioms;

    lemma_numbers_are_ordered();
    axiom_increasing_seq_meaning(all);
    assert forall|i: int, j: int| 0 <= i < j < all.len() implies *all[i] < *all[j] by {
        assert(OrdSpec::cmp_spec(&all[i], &all[j]) is Less);
    }
}

/// A sequence taken whole is the sequence.
proof fn lemma_taken_whole<T>(s: Seq<T>)
    ensures
        s.take(s.len() as int) == s,
{
    assert(s.take(s.len() as int) =~= s);
}

/// The members of a list, as a set.
pub fn set_of(list: &Vec<u32>) -> (set: BTreeSet<u32>)
    ensures
        set@ == list@.to_set(),
{
    broadcast use vstd::std_specs::btree::group_btree_axioms;

    proof {
        lemma_numbers_are_ordered();
    }
    let mut set: BTreeSet<u32> = BTreeSet::new();
    let mut i: usize = 0;
    while i < list.len()
        invariant
            i <= list.len(),
            forall|y: u32| set@.contains(y) <==> exists|k: int| 0 <= k < i && list@[k] == y,
        decreases list.len() - i,
    {
        set.insert(list[i]);
        i = i + 1;
    }
    assert(set@ =~= list@.to_set());
    set
}

/// The members of a set in ascending order.
pub fn members(set: &BTreeSet<u32>) -> (list: Vec<u32>)
    ensures
        ascending(list@),
        list@.to_set() == set@,
{
    broadcast use vstd::std_specs::btree::group_btree_axioms;

    let ghost all = spec_btree_keys_iter(set).remaining();
    proof {
        lemma_numbers_are_ordered();
        axiom_spec_btree_keys_iter(set);
    }
    let mut list: Vec<u32> = Vec::new();
    for x in it: set.iter()
        invariant
            it.seq() == all,
            list@ == it.seq().take(it.index()).unref(),
    {
        list.push(*x);
    }
    proof {
        lemma_taken_whole(all);
        lemma_increasing_is_ascending(all);
    }
    list
}

/// The members of `a` that are not in `b`, in ascending order.
pub fn difference(a: &BTreeSet<u32>, b: &BTreeSet<u32>) -> (d: Vec<u32>)
    ensures
        ascending(d@),
        d@.to_set() == a@.difference(b@),
{
    broadcast use vstd::std_specs::btree::group_btree_axioms;

    proof {
        lemma_numbers_are_ordered();
    }
    let all = members(a);
    let mut d: Vec<u32> = Vec::new();
    let mut i: usize = 0;
    while i < all.len()
        invariant
            i <= all.len(),
            ascending(all@),
            all@.to_set() == a@,
            ascending(d@),
            forall|k: int| 0 <= k < d@.len() ==> exists|j: int| 0 <= j < i && all@[j] == #[trigger] d@[k],
            forall|y: u32|
                d@.contains(y) <==> (exists|j: int| 0 <= j < i && all@[j] == y) && !b@.contains(y),
        decreases all.len() - i,
    {
        let x = all[i];
        let ghost before = d@;
        let there = b.contains(&x);
        if !there {
            d.push(x);
            proof {
                assert(d@ == before.push(x));
                assert forall|p: int, q: int| 0 <= p < q < d@.len() implies d@[p] < d@[q] by {
                    if q == before.len() {
                        let j = choose|j: int| 0 <= j < i && all@[j] == before[p];
                        assert(all@[j] < all@[i as int]);
                    }
                }
                assert forall|k: int| 0 <= k < d@.len() implies exists|j: int|
                    0 <= j < i + 1 && all@[j] == #[trigger] d@[k] by {
                    if k == before.len() {
                        assert(all@[i as int] == d@[k]);
                    } else {
                        let j = choose|j: int| 0 <= j < i && all@[j] == before[k];
                        assert(all@[j] == d@[k]);
                    }
                }
            }
        } else {
            proof {
                assert forall|k: int| 0 <= k < d@.len() implies exists|j: int|
                    0 <= j < i + 1 && all@[j] == #[trigger] d@[k] by {
                    let j = choose|j: int| 0 <= j < i && all@[j] == before[k];
                    assert(all@[j] == d@[k]);
                }
            }
        }
        proof {
            assert forall|y: u32|
                d@.contains(y) <==> (exists|j: int| 0 <= j < i + 1 && all@[j] == y) && !b@.contains(
                    y,
                ) by {
                assert(before.contains(y) <==> (exists|j: int| 0 <= j < i && all@[j] == y)
                    && !b@.contains(y));
                if !there {
                    if d@.contains(y) {
                        let k = choose|k: int| 0 <= k < d@.len() && d@[k] == y;
                        if k < before.len() {
                            assert(before[k] == y);
                        }
                    }
                    if before.contains(y) {
                        let k = choose|k: int| 0 <= k < before.len() && before[k] == y;
                        assert(d@[k] == y);
                    }
                    if y == x {
                        assert(d@[before.len() as int] == y);
                    }
                }
                if exists|j: int| 0 <= j < i + 1 && all@[j] == y {
                    let j = choose|j: int| 0 <= j < i + 1 && all@[j] == y;
                    if j < i {
                        assert(0 <= j < i && all@[j] == y);
                    }
                }
                if exists|j: int| 0 <= j < i && all@[j] == y {
                    let j = choose|j: int| 0 <= j < i && all@[j] == y;
                    assert(0 <= j < i + 1 && all@[j] == y);
                }
            }
        }
        i = i + 1;
    }
    proof {
        assert forall|y: u32| d@.to_set().contains(y) <==> a@.difference(b@).contains(y) by {
            assert(all@.to_set().contains(y) <==> all@.contains(y));
            if all@.contains(y) {
                let j = choose|j: int| 0 <= j < all@.len() && all@[j] == y;
                assert(0 <= j < i && all@[j] == y);
            }
        }
        assert(d@.to_set() =~= a@.difference(b@));
    }
    d
}

/// What bringing a set in line with a reference comes to.
pub struct Reconciled {
    /// The members of the reference in ascending order: what the set
    /// becomes.
    pub list: Vec<u32>,
    /// What the reference has and the set lacks, in ascending order.
    pub missing: Vec<u32>,
    /// What the set has and the reference lacks, in ascending order.
    pub extra: Vec<u32>,
}

impl Reconciled {
    /// Whether anything is missing or extra, so that the set has to change.
    pub fn changed(&self) -> (changed: bool)
        ensures
            changed <==> self.missing@.len() > 0 || self.extra@.len() > 0,
    {
        self.missing.len() > 0 || self.extra.len() > 0
    }
}

/// Compares a set with a reference.
pub fn reconcile(current: &BTreeSet<u32>, reference: &BTreeSet<u32>) -> (r: Reconciled)
    ensures
        ascending(r.list@),
        ascending(r.missing@),
        ascending(r.extra@),
        r.list@.to_set() == reference@,
        r.missing@.to_set() == reference@.difference(current@),
        r.extra@.to_set() == current@.difference(reference@),
        (r.missing@.len() > 0 || r.extra@.len() > 0) <==> current@ != reference@,
{
    let list = members(reference);
    let missing = difference(reference, current);
    let extra = difference(current, reference);
    proof {
        law_reconciled(current@, reference@, missing@, extra@);
    }
    Reconciled { list, missing, extra }
}

/// Nothing is missing and nothing is extra exactly when the set and the
/// reference are the same set.
pub proof fn law_reconciled(
    current: Set<u32>,
    reference: Set<u32>,
    missing: Seq<u32>,
    extra: Seq<u32>,
)
    requires
        missing.to_set() == reference.difference(current),
        extra.to_set() == current.difference(reference),
    ensures
        (missing.len() == 0 && extra.len() == 0) <==> current == reference,
{
    if missing.len() == 0 && extra.len() == 0 {
        assert forall|y: u32| current.contains(y) <==> reference.contains(y) by {
            if current.contains(y) && !reference.contains(y) {
                assert(extra.to_set().contains(y));
                assert(extra.contains(y));
            }
            if reference.contains(y) && !current.contains(y) {
                assert(missing.to_set().contains(y));
                assert(missing.contains(y));
            }
        }
        assert(current =~= reference);
    }
    if current == reference {
        if missing.len() > 0 {
            assert(missing.contains(missing[0]));
            assert(missing.to_set().contains(missing[0]));
        }
        if extra.len() > 0 {
            assert(extra.contains(extra[0]));
            assert(extra.to_set().contains(extra[0]));
        }
    }
}

/// The ordinals of a list of enhancement set categories.
pub fn set_type_ordinals(sets: &Vec<SetType>) -> (ordinals: Vec<u32>)
    ensures
        ordinals@.len() == sets@.len(),
        forall|i: int| 0 <= i < sets@.len() ==> ordinals@[i] == (#[trigger] sets@[i]).ordinal_of(),
{
    let mut ordinals: Vec<u32> = Vec::new();
    let mut i: usize = 0;
    while i < sets.len()
        invariant
            i <= sets.len(),
            ordinals@.len() == i,
            forall|j: int| 0 <= j < i ==> ordinals@[j] == (#[trigger] sets@[j]).ordinal_of(),
        decreases sets.len() - i,
    {
        ordinals.push(sets[i].ordinal());
        i = i + 1;
    }
    ordinals
}

/// The enhancement set categories that the first `n` of a list of ordinals
/// stand for, in the order of the list. Numbers that are no ordinal of a
/// category are passed over.
pub open spec fn categories(ordinals: Seq<u32>, n: nat) -> Seq<SetType>
    decreases n,
{
    if n == 0 {
        Seq::empty()
    } else {
        let before = categories(ordinals, (n - 1) as nat);
        match SetType::of_ordinal(ordinals[n - 1]) {
            Some(set) => before.push(set),
            None => before,
        }
    }
}

/// The enhancement set categories of a list of ordinals. Numbers that are
/// no ordinal of a category are left out.
pub fn set_types_of(ordinals: &Vec<u32>) -> (sets: Vec<SetType>)
    ensures
        sets@ == categories(ordinals@, ordinals@.len()),
{
    let mut sets: Vec<SetType> = Vec::new();
    let mut i: usize = 0;
    while i < ordinals.len()
        invariant
            i <= ordinals.len(),
            sets@ == categories(ordinals@, i as nat),
        decreases ordinals.len() - i,
    {
        match SetType::from_ordinal(ordinals[i]) {
            Some(set) => {
                sets.push(set);
            },
            None => {},
        }
        i = i + 1;
    }
    sets
}

/// A set of category ordinals with what the rule below adds to it.
///
/// The reference knows no categories for flying or teleporting without
/// sprints, but the database does: where a set holds flight, it gets
/// flight without sprints too, and likewise for teleport.
pub open spec fn with_sprintless(sets: Set<u32>) -> Set<u32> {
    let flown = if sets.contains(SetType::Flight.ordinal_of()) {
        sets.insert(SetType::FlightNoSprint.ordinal_of())
    } else {
        sets
    };
    if sets.contains(SetType::Teleport.ordinal_of()) {
        flown.insert(SetType::TeleportNoSprint.ordinal_of())
    } else {
        flown
    }
}

/// Adds the sprintless categories that a set of category ordinals calls
/// for.
pub fn add_sprintless(sets: &mut BTreeSet<u32>)
    ensures
        final(sets)@ == with_sprintless(old(sets)@),
{
    broadcast use vstd::std_specs::btree::group_btree_axioms;

    proof {
        lemma_numbers_are_ordered();
    }
    let flight = SetType::Flight.ordinal();
    let teleport = SetType::Teleport.ordinal();
    let has_flight = sets.contains(&flight);
    let has_teleport = sets.contains(&teleport);
    if has_flight {
        sets.insert(SetType::FlightNoSprint.ordinal());
    }
    if has_teleport {
        sets.insert(SetType::TeleportNoSprint.ordinal());
    }
}

} // verus!
