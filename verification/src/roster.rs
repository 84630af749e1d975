//! Occurrence counting over the roster of ticket holders.
//!
//! A pool's roster (`tickets_sold`) lists one identity per sold ticket, so
//! one user may appear many times.  Cancellation removes the first
//! occurrence of the cancelling user; the facts proved here relate that
//! removal, and purchase's appends, to the number of times a user occurs.

use vstd::prelude::*;

use crate::state::AccountId;

verus! {

/// How many entries of `s` equal `x`.
pub open spec fn count_of(s: Seq<AccountId>, x: AccountId) -> nat
    decreases s.len(),
{
    if s.len() == 0 {
        0
    } else {
        count_of(s.drop_last(), x) + (if s.last() == x {
            1nat
        } else {
            0nat
        })
    }
}

/// A user cannot occur more often than the roster is long.
pub proof fn lemma_count_le_len(s: Seq<AccountId>, x: AccountId)
    ensures
        count_of(s, x) <= s.len(),
    decreases s.len(),
{
    if s.len() > 0 {
        lemma_count_le_len(s.drop_last(), x);
    }
}

/// Appending one entry raises the count of that entry by one and leaves
/// every other count unchanged.
pub proof fn lemma_count_push(s: Seq<AccountId>, x: AccountId, v: AccountId)
    ensures
        count_of(s.push(v), x) == count_of(s, x) + (if v == x {
            1nat
        } else {
            0nat
        }),
{
    assert(s.push(v).drop_last() =~= s);
}

/// A user occurs a positive number of times exactly when the roster
/// contains that user.
pub proof fn lemma_count_contains(s: Seq<AccountId>, x: AccountId)
    ensures
        count_of(s, x) > 0 <==> s.contains(x),
    decreases s.len(),
{
    if s.len() > 0 {
        let t = s.drop_last();
        lemma_count_contains(t, x);
        if count_of(s, x) > 0 {
            if s.last() == x {
                assert(s[s.len() - 1] == x);
            } else {
                let i = choose|i: int| 0 <= i < t.len() && t[i] == x;
                assert(s[i] == x);
            }
        }
        if s.contains(x) {
            let i = choose|i: int| 0 <= i < s.len() && s[i] == x;
            if i < s.len() - 1 {
                assert(t[i] == x);
            }
        }
    }
}

/// Removing the entry at index `i` lowers the count of that entry's value
/// by one and leaves every other count unchanged.
pub proof fn lemma_count_remove(s: Seq<AccountId>, i: int, x: AccountId)
    requires
        0 <= i < s.len(),
    ensures
        count_of(s, x) == count_of(s.remove(i), x) + (if s[i] == x {
            1nat
        } else {
            0nat
        }),
    decreases s.len(),
{
    if i == s.len() - 1 {
        assert(s.remove(i) =~= s.drop_last());
    } else {
        let t = s.remove(i);
        assert(t.last() == s.last());
        assert(t.drop_last() =~= s.drop_last().remove(i));
        lemma_count_remove(s.drop_last(), i, x);
    }
}

/// Finds the first index holding `x`, scanning from the front.
pub fn find_first_account(v: &Vec<AccountId>, x: AccountId) -> (r: Option<usize>)
    ensures
        match r {
            Some(i) => {
                &&& i < v@.len()
                &&& v@[i as int] == x
                &&& forall|j: int| 0 <= j < i ==> v@[j] != x
            },
            None => forall|j: int| 0 <= j < v@.len() ==> v@[j] != x,
        },
{
    let mut i: usize = 0;
    while i < v.len()
        invariant
            i <= v@.len(),
            forall|j: int| 0 <= j < i ==> v@[j] != x,
        decreases v@.len() - i,
    {
        if v[i] == x {
            return Some(i);
        }
        i = i + 1;
    }
    None
}

/// Whether the roster contains `x` at all.
pub fn contains_account(v: &Vec<AccountId>, x: AccountId) -> (r: bool)
    ensures
        r == v@.contains(x),
{
    match find_first_account(v, x) {
        Some(i) => {
            assert(v@[i as int] == x);
            true
        },
        None => {
            assert(!v@.contains(x)) by {
                if v@.contains(x) {
                    let j = choose|j: int| 0 <= j < v@.len() && v@[j] == x;
                }
            }
            false
        },
    }
}

} // verus!
