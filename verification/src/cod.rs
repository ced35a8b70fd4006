//! The reference data: what is made of it once it has been read.

use vstd::prelude::*;
use vstd::string::*;

verus! {

/// How many display names have a power name to go with: the two lists are
/// taken side by side, as far as the shorter one goes.
pub open spec fn paired(display_names: Seq<String>, power_names: Seq<String>) -> nat {
    if display_names.len() < power_names.len() {
        display_names.len()
    } else {
        power_names.len()
    }
}

/// Whether the display name at index `i` is the only one of its kind among
/// the paired names.
pub open spec fn occurs_once(display_names: Seq<String>, n: nat, i: int) -> bool {
    forall|j: int| 0 <= j < n && j != i ==> (#[trigger] display_names[j])@ != display_names[i]@
}

/// Whether the pair at index `i` is kept: its display name occurs once, and
/// its power name is not empty.
pub open spec fn kept(display_names: Seq<String>, power_names: Seq<String>, i: int) -> bool {
    &&& 0 <= i < paired(display_names, power_names)
    &&& power_names[i]@.len() > 0
    &&& occurs_once(display_names, paired(display_names, power_names), i)
}

/// The pairs that are kept among the first `n`, in the order of the lists.
pub open spec fn unique_pairs(display_names: Seq<String>, power_names: Seq<String>, n: nat) -> Seq<
    (Seq<char>, Seq<char>),
>
    decreases n,
{
    if n == 0 {
        Seq::empty()
    } else {
        let before = unique_pairs(display_names, power_names, (n - 1) as nat);
        if kept(display_names, power_names, n - 1) {
            before.push((display_names[n - 1]@, power_names[n - 1]@))
        } else {
            before
        }
    }
}

/// A list of pairs of names as their characters.
pub open spec fn names_of(pairs: Seq<(String, String)>) -> Seq<(Seq<char>, Seq<char>)> {
    pairs.map_values(|pair: (String, String)| (pair.0@, pair.1@))
}

/// A pair is among the first `n` kept pairs exactly when it stands at a
/// kept index below `n`.
pub proof fn law_unique_pairs(
    display_names: Seq<String>,
    power_names: Seq<String>,
    n: nat,
    d: Seq<char>,
    p: Seq<char>,
)
    ensures
        unique_pairs(display_names, power_names, n).contains((d, p)) <==> exists|i: int|
            0 <= i < n && #[trigger] kept(display_names, power_names, i) && display_names[i]@ == d
                && power_names[i]@ == p,
    decreases n,
{
    if n > 0 {
        let last = n - 1;
        let before = unique_pairs(display_names, power_names, last as nat);
        let all = unique_pairs(display_names, power_names, n);
        law_unique_pairs(display_names, power_names, last as nat, d, p);
        if all.contains((d, p)) {
            let k = choose|k: int| 0 <= k < all.len() && all[k] == (d, p);
            if k < before.len() {
                assert(before[k] == (d, p));
                let i = choose|i: int|
                    0 <= i < last && #[trigger] kept(display_names, power_names, i)
                        && display_names[i]@ == d && power_names[i]@ == p;
                assert(0 <= i < n);
            } else {
                assert(kept(display_names, power_names, last));
            }
        }
        if exists|i: int|
            0 <= i < n && #[trigger] kept(display_names, power_names, i) && display_names[i]@ == d
                && power_names[i]@ == p {
            let i = choose|i: int|
                0 <= i < n && #[trigger] kept(display_names, power_names, i) && display_names[i]@
                    == d && power_names[i]@ == p;
            if i == last {
                assert(all[before.len() as int] == (d, p));
            } else {
                assert(0 <= i < last && kept(display_names, power_names, i));
                let k = choose|k: int| 0 <= k < before.len() && before[k] == (d, p);
                assert(all[k] == (d, p));
            }
        }
    }
}

/// Whether the display name at index `i` occurs nowhere else among the
/// first `n`.
fn is_only(display_names: &Vec<String>, n: usize, i: usize) -> (only: bool)
    requires
        i < n <= display_names@.len(),
    ensures
        only == occurs_once(display_names@, n as nat, i as int),
{
    let mut j: usize = 0;
    while j < n
        invariant
            j <= n,
            i < n <= display_names@.len(),
            forall|k: int| 0 <= k < j && k != i ==> (#[trigger] display_names@[k])@
                != display_names@[i as int]@,
        decreases n - j,
    {
        if j != i && display_names[j] == display_names[i] {
            return false;
        }
        j = j + 1;
    }
    true
}

/// The powers of a power set by their display names, where a display name
/// says which power is meant: a name that occurs more than once among the
/// paired names is left out, and so is one whose power has no name.
pub fn unique_names(display_names: &Vec<String>, power_names: &Vec<String>) -> (pairs: Vec<
    (String, String),
>)
    ensures
        names_of(pairs@) == unique_pairs(
            display_names@,
            power_names@,
            paired(display_names@, power_names@),
        ),
        forall|d: Seq<char>, p: Seq<char>|
            #[trigger] names_of(pairs@).contains((d, p)) <==> exists|i: int| #[trigger]
                kept(display_names@, power_names@, i) && display_names@[i]@ == d
                    && power_names@[i]@ == p,
{
    let n = if display_names.len() < power_names.len() {
        display_names.len()
    } else {
        power_names.len()
    };
    let mut pairs: Vec<(String, String)> = Vec::new();
    let mut i: usize = 0;
    assert(names_of(pairs@) =~= unique_pairs(display_names@, power_names@, 0));
    while i < n
        invariant
            i <= n,
            n == paired(display_names@, power_names@),
            names_of(pairs@) == unique_pairs(display_names@, power_names@, i as nat),
        decreases n - i,
    {
        let ghost before = pairs@;
        if !power_names[i].as_str().is_empty() && is_only(display_names, n, i) {
            let display_name = display_names[i].clone();
            let power_name = power_names[i].clone();
            pairs.push((display_name, power_name));
            assert(names_of(pairs@) =~= names_of(before).push(
                (display_names@[i as int]@, power_names@[i as int]@),
            ));
        }
        i = i + 1;
    }
    proof {
        assert forall|d: Seq<char>, p: Seq<char>|
            #[trigger] names_of(pairs@).contains((d, p)) <==> exists|i: int| #[trigger]
                kept(display_names@, power_names@, i) && display_names@[i]@ == d
                    && power_names@[i]@ == p by {
            law_unique_pairs(display_names@, power_names@, n as nat, d, p);
        }
    }
    pairs
}

} // verus!
