//! The donor ledger model: a sequence of `(donor, cumulative amount)`
//! entries with unique donors. Absence of an entry is equivalent to a
//! deposit of zero.

use vstd::prelude::*;

verus! {

/// The cumulative deposit recorded for `donor`: the value of the first
/// entry carrying that donor, or zero when there is none.
pub open spec fn deposit_of(s: Seq<(u64, u64)>, donor: u64) -> u64
    decreases s.len(),
{
    if s.len() == 0 {
        0
    } else if s[0].0 == donor {
        s[0].1
    } else {
        deposit_of(s.drop_first(), donor)
    }
}

/// The sum of all recorded deposits.
pub open spec fn sum_deposits(s: Seq<(u64, u64)>) -> int
    decreases s.len(),
{
    if s.len() == 0 {
        0
    } else {
        s[0].1 + sum_deposits(s.drop_first())
    }
}

/// Each donor appears in at most one entry.
pub open spec fn unique_donors(s: Seq<(u64, u64)>) -> bool {
    forall|i: int, j: int| 0 <= i < j < s.len() ==> s[i].0 != s[j].0
}

/// Whether some entry carries `donor`.
pub open spec fn has_donor(s: Seq<(u64, u64)>, donor: u64) -> bool {
    exists|i: int| 0 <= i < s.len() && s[i].0 == donor
}

/// Dropping the first entry keeps the remaining donors unique.
pub proof fn lemma_unique_drop_first(s: Seq<(u64, u64)>)
    requires
        unique_donors(s),
        s.len() > 0,
    ensures
        unique_donors(s.drop_first()),
{
    assert forall|p: int, q: int|
        0 <= p < q < s.drop_first().len() implies s.drop_first()[p].0 != s.drop_first()[q].0 by {
        assert(s.drop_first()[p] == s[p + 1]);
        assert(s.drop_first()[q] == s[q + 1]);
    }
}

/// A donor absent from the ledger is absent from its tail as well.
pub proof fn lemma_absent_drop_first(s: Seq<(u64, u64)>, donor: u64)
    requires
        !has_donor(s, donor),
        s.len() > 0,
    ensures
        !has_donor(s.drop_first(), donor),
        s[0].0 != donor,
{
    if has_donor(s.drop_first(), donor) {
        let i = choose|i: int| 0 <= i < s.drop_first().len() && s.drop_first()[i].0 == donor;
        assert(s[i + 1].0 == donor);
    }
}

/// With unique donors, the recorded deposit of the donor at entry `i` is
/// the value of that very entry.
pub proof fn lemma_deposit_of_index(s: Seq<(u64, u64)>, i: int)
    requires
        0 <= i < s.len(),
        unique_donors(s),
    ensures
        deposit_of(s, s[i].0) == s[i].1,
    decreases s.len(),
{
    if i > 0 {
        assert(s[0].0 != s[i].0);
        lemma_unique_drop_first(s);
        assert(s.drop_first()[i - 1] == s[i]);
        lemma_deposit_of_index(s.drop_first(), i - 1);
    }
}

/// An absent donor's recorded deposit is zero.
pub proof fn lemma_deposit_of_absent(s: Seq<(u64, u64)>, donor: u64)
    requires
        !has_donor(s, donor),
    ensures
        deposit_of(s, donor) == 0,
    decreases s.len(),
{
    if s.len() > 0 {
        lemma_absent_drop_first(s, donor);
        lemma_deposit_of_absent(s.drop_first(), donor);
    }
}

pub proof fn lemma_sum_push(s: Seq<(u64, u64)>, e: (u64, u64))
    ensures
        sum_deposits(s.push(e)) == sum_deposits(s) + e.1,
    decreases s.len(),
{
    reveal_with_fuel(sum_deposits, 3);
    if s.len() == 0 {
        assert(s.push(e)[0] == e);
        assert(s.push(e).drop_first() =~= Seq::<(u64, u64)>::empty());
    } else {
        assert(s.push(e)[0] == s[0]);
        assert(s.push(e).drop_first() =~= s.drop_first().push(e));
        lemma_sum_push(s.drop_first(), e);
        assert(sum_deposits(s.push(e)) == s[0].1 + sum_deposits(s.drop_first().push(e)));
    }
}

pub proof fn lemma_deposit_of_push_new(s: Seq<(u64, u64)>, e: (u64, u64))
    requires
        !has_donor(s, e.0),
    ensures
        deposit_of(s.push(e), e.0) == e.1,
    decreases s.len(),
{
    if s.len() == 0 {
        assert(s.push(e)[0] == e);
    } else {
        assert(s[0].0 != e.0);
        assert(!has_donor(s.drop_first(), e.0)) by {
            if has_donor(s.drop_first(), e.0) {
                let i = choose|i: int| 0 <= i < s.drop_first().len() && s.drop_first()[i].0 == e.0;
                assert(s[i + 1].0 == e.0);
            }
        }
        assert(s.push(e).drop_first() =~= s.drop_first().push(e));
        lemma_deposit_of_push_new(s.drop_first(), e);
    }
}

pub proof fn lemma_deposit_of_push_other(s: Seq<(u64, u64)>, e: (u64, u64), donor: u64)
    requires
        donor != e.0,
    ensures
        deposit_of(s.push(e), donor) == deposit_of(s, donor),
    decreases s.len(),
{
    reveal_with_fuel(deposit_of, 3);
    if s.len() == 0 {
        assert(s.push(e)[0] == e);
        assert(s.push(e).drop_first() =~= Seq::<(u64, u64)>::empty());
    } else {
        assert(s.push(e)[0] == s[0]);
        assert(s.push(e).drop_first() =~= s.drop_first().push(e));
        lemma_deposit_of_push_other(s.drop_first(), e, donor);
        assert(deposit_of(s.push(e), donor) == if s[0].0 == donor {
            s[0].1
        } else {
            deposit_of(s.drop_first().push(e), donor)
        });
    }
}

pub proof fn lemma_sum_update(s: Seq<(u64, u64)>, i: int, e: (u64, u64))
    requires
        0 <= i < s.len(),
    ensures
        sum_deposits(s.update(i, e)) == sum_deposits(s) - s[i].1 + e.1,
    decreases s.len(),
{
    if i == 0 {
        assert(s.update(0, e).drop_first() =~= s.drop_first());
    } else {
        assert(s.update(i, e).drop_first() =~= s.drop_first().update(i - 1, e));
        lemma_sum_update(s.drop_first(), i - 1, e);
    }
}

pub proof fn lemma_deposit_of_update_same(s: Seq<(u64, u64)>, i: int, v: u64)
    requires
        0 <= i < s.len(),
        unique_donors(s),
    ensures
        deposit_of(s.update(i, (s[i].0, v)), s[i].0) == v,
    decreases s.len(),
{
    let e = (s[i].0, v);
    if i == 0 {
        assert(s.update(0, e)[0] == e);
    } else {
        assert(s[0].0 != s[i].0);
        assert(s.update(i, e)[0] == s[0]);
        assert(s.update(i, e).drop_first() =~= s.drop_first().update(i - 1, e));
        assert(unique_donors(s.drop_first())) by {
            assert(forall|p: int, q: int|
                0 <= p < q < s.drop_first().len() ==> s.drop_first()[p] == s[p + 1]
                    && s.drop_first()[q] == s[q + 1]);
        }
        assert(s.drop_first()[i - 1] == s[i]);
        lemma_deposit_of_update_same(s.drop_first(), i - 1, v);
    }
}

pub proof fn lemma_deposit_of_update_other(s: Seq<(u64, u64)>, i: int, v: u64, donor: u64)
    requires
        0 <= i < s.len(),
        donor != s[i].0,
    ensures
        deposit_of(s.update(i, (s[i].0, v)), donor) == deposit_of(s, donor),
    decreases s.len(),
{
    let e = (s[i].0, v);
    if i == 0 {
        assert(s.update(0, e)[0] == e);
        assert(s.update(0, e).drop_first() =~= s.drop_first());
    } else {
        assert(s.update(i, e)[0] == s[0]);
        assert(s.update(i, e).drop_first() =~= s.drop_first().update(i - 1, e));
        assert(s.drop_first()[i - 1] == s[i]);
        lemma_deposit_of_update_other(s.drop_first(), i - 1, v, donor);
    }
}

/// Updating an entry in place keeps the donors of all entries unchanged.
pub proof fn lemma_unique_update(s: Seq<(u64, u64)>, i: int, v: u64)
    requires
        0 <= i < s.len(),
        unique_donors(s),
    ensures
        unique_donors(s.update(i, (s[i].0, v))),
{
    let t = s.update(i, (s[i].0, v));
    assert forall|p: int, q: int| 0 <= p < q < t.len() implies t[p].0 != t[q].0 by {
        assert(t[p].0 == s[p].0);
        assert(t[q].0 == s[q].0);
    }
}

/// Appending an entry for a donor not yet present keeps the donors unique.
pub proof fn lemma_unique_push(s: Seq<(u64, u64)>, e: (u64, u64))
    requires
        unique_donors(s),
        !has_donor(s, e.0),
    ensures
        unique_donors(s.push(e)),
{
    let t = s.push(e);
    assert forall|p: int, q: int| 0 <= p < q < t.len() implies t[p].0 != t[q].0 by {
        if q < s.len() {
            assert(t[p].0 == s[p].0);
            assert(t[q].0 == s[q].0);
        } else {
            assert(t[p].0 == s[p].0);
            assert(t[q] == e);
        }
    }
}

} // verus!
