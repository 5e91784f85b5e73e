use vstd::prelude::*;

verus! {

/// How many entries of `s` are `true`. Used to tie each "currently alive"
/// counter to the alive flags it summarises.
pub open spec fn count_true(s: Seq<bool>) -> int
    decreases s.len(),
{
    if s.len() == 0 {
        0
    } else {
        count_true(s.drop_last()) + if s.last() {
            1int
        } else {
            0int
        }
    }
}

/// The count lies between zero and the sequence length.
pub proof fn lemma_count_true_bounds(s: Seq<bool>)
    ensures
        0 <= count_true(s) <= s.len(),
    decreases s.len(),
{
    if s.len() > 0 {
        lemma_count_true_bounds(s.drop_last());
    }
}

/// Overwriting one entry moves the count by the difference at that entry.
pub proof fn lemma_count_true_update(s: Seq<bool>, i: int, b: bool)
    requires
        0 <= i < s.len(),
    ensures
        count_true(s.update(i, b)) == count_true(s) - (if s[i] {
            1int
        } else {
            0int
        }) + (if b {
            1int
        } else {
            0int
        }),
    decreases s.len(),
{
    let t = s.update(i, b);
    if i == s.len() - 1 {
        assert(t.drop_last() =~= s.drop_last());
    } else {
        assert(t.drop_last() =~= s.drop_last().update(i, b));
        assert(t.last() == s.last());
        lemma_count_true_update(s.drop_last(), i, b);
    }
}

/// If every entry is `true`, the count is the length, and conversely.
pub proof fn lemma_count_true_all(s: Seq<bool>)
    ensures
        (count_true(s) == s.len()) <==> (forall|i: int| 0 <= i < s.len() ==> s[i]),
    decreases s.len(),
{
    lemma_count_true_bounds(s);
    if s.len() > 0 {
        lemma_count_true_all(s.drop_last());
        lemma_count_true_bounds(s.drop_last());
        if count_true(s) == s.len() {
            assert(forall|i: int| 0 <= i < s.len() - 1 ==> s.drop_last()[i]);
            assert(forall|i: int| 0 <= i < s.len() ==> s[i]) by {
                assert(forall|i: int| 0 <= i < s.len() - 1 ==> s[i] == s.drop_last()[i]);
            }
        }
        if forall|i: int| 0 <= i < s.len() ==> s[i] {
            assert(forall|i: int| 0 <= i < s.len() - 1 ==> s.drop_last()[i]);
        }
    }
}

/// The count is zero exactly when every entry is `false`.
pub proof fn lemma_count_true_zero(s: Seq<bool>)
    ensures
        (count_true(s) == 0) <==> (forall|i: int| 0 <= i < s.len() ==> !s[i]),
    decreases s.len(),
{
    lemma_count_true_bounds(s);
    if s.len() > 0 {
        lemma_count_true_zero(s.drop_last());
        lemma_count_true_bounds(s.drop_last());
        if count_true(s) == 0 {
            assert(forall|i: int| 0 <= i < s.len() - 1 ==> s[i] == s.drop_last()[i]);
            assert(!s[s.len() - 1]);
        }
        if forall|i: int| 0 <= i < s.len() ==> !s[i] {
            assert(forall|i: int| 0 <= i < s.len() - 1 ==> !s.drop_last()[i]);
        }
    }
}

/// A `true` entry witnesses a positive count.
pub proof fn lemma_count_true_at_least_one(s: Seq<bool>, i: int)
    requires
        0 <= i < s.len(),
        s[i],
    ensures
        count_true(s) >= 1,
{
    lemma_count_true_update(s, i, false);
    lemma_count_true_bounds(s.update(i, false));
}

/// Extending a prefix by one entry adds that entry's contribution.
pub proof fn lemma_count_true_prefix_step(s: Seq<bool>, i: int)
    requires
        0 <= i < s.len(),
    ensures
        count_true(s.subrange(0, i + 1)) == count_true(s.subrange(0, i)) + if s[i] {
            1int
        } else {
            0int
        },
{
    let t = s.subrange(0, i + 1);
    assert(t.drop_last() =~= s.subrange(0, i));
    assert(t.last() == s[i]);
}

/// The whole sequence is its own full prefix.
pub proof fn lemma_count_true_full_prefix(s: Seq<bool>)
    ensures
        count_true(s.subrange(0, s.len() as int)) == count_true(s),
{
    assert(s.subrange(0, s.len() as int) =~= s);
}

/// If the count is positive, some entry is `true`.
pub proof fn lemma_count_true_pos_has_true(s: Seq<bool>)
    requires
        count_true(s) > 0,
    ensures
        exists|i: int| 0 <= i < s.len() && s[i],
    decreases s.len(),
{
    if s.len() > 0 {
        if s.last() {
            assert(s[s.len() - 1]);
        } else {
            lemma_count_true_pos_has_true(s.drop_last());
            let i = choose|i: int| 0 <= i < s.len() - 1 && s.drop_last()[i];
            assert(s[i]);
        }
    }
}

} // verus!
