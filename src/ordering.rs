//! Ordering rows by a text column, as the store compares text: character by
//! character, by code point, a proper prefix first.

use vstd::multiset::Multiset;
use vstd::prelude::*;

verus! {

broadcast use vstd::seq_lib::group_to_multiset_ensures;

/// Whether `a` comes strictly before `b`.
pub open spec fn text_lt(a: Seq<char>, b: Seq<char>) -> bool
    decreases a.len(),
{
    if a.len() == 0 {
        b.len() > 0
    } else if b.len() == 0 {
        false
    } else if a[0] == b[0] {
        text_lt(a.drop_first(), b.drop_first())
    } else {
        a[0] < b[0]
    }
}

/// The order is asymmetric.
pub proof fn lemma_text_lt_asymmetric(a: Seq<char>, b: Seq<char>)
    ensures
        !(text_lt(a, b) && text_lt(b, a)),
    decreases a.len(),
{
    if a.len() > 0 && b.len() > 0 && a[0] == b[0] {
        lemma_text_lt_asymmetric(a.drop_first(), b.drop_first());
    }
}

/// Two texts that neither comes before are equal.
pub proof fn lemma_text_lt_total(a: Seq<char>, b: Seq<char>)
    ensures
        !text_lt(a, b) && !text_lt(b, a) ==> a == b,
    decreases a.len(),
{
    if a.len() > 0 && b.len() > 0 {
        if a[0] == b[0] {
            lemma_text_lt_total(a.drop_first(), b.drop_first());
            if a.drop_first() == b.drop_first() {
                assert(a =~= seq![a[0]] + a.drop_first());
                assert(b =~= seq![b[0]] + b.drop_first());
            }
        }
    } else if a.len() == 0 && b.len() == 0 {
        assert(a =~= b);
    }
}

/// The order is transitive.
pub proof fn lemma_text_lt_transitive(a: Seq<char>, b: Seq<char>, c: Seq<char>)
    requires
        text_lt(a, b),
        text_lt(b, c),
    ensures
        text_lt(a, c),
    decreases a.len(),
{
    if a.len() > 0 && b.len() > 0 && c.len() > 0 && a[0] == b[0] && b[0] == c[0] {
        lemma_text_lt_transitive(a.drop_first(), b.drop_first(), c.drop_first());
    }
}

/// Whether `a` comes strictly before `b`.
pub fn text_less(a: &str, b: &str) -> (r: bool)
    ensures
        r == text_lt(a@, b@),
{
    let la = a.unicode_len();
    let lb = b.unicode_len();
    let mut k: usize = 0;
    proof {
        assert(a@.subrange(0, la as int) =~= a@);
        assert(b@.subrange(0, lb as int) =~= b@);
    }
    while k < la && k < lb && a.get_char(k) == b.get_char(k)
        invariant
            la == a@.len(),
            lb == b@.len(),
            0 <= k <= la,
            k <= lb,
            text_lt(a@, b@) == text_lt(a@.subrange(k as int, la as int), b@.subrange(k as int, lb as int)),
        decreases la - k,
    {
        proof {
            let sa = a@.subrange(k as int, la as int);
            let sb = b@.subrange(k as int, lb as int);
            assert(sa.drop_first() =~= a@.subrange(k + 1, la as int));
            assert(sb.drop_first() =~= b@.subrange(k + 1, lb as int));
        }
        k = k + 1;
    }
    if k == la {
        k < lb
    } else if k == lb {
        false
    } else {
        a.get_char(k) < b.get_char(k)
    }
}

/// Which text column rows are ordered by.
#[derive(PartialEq, Eq, Structural, Clone, Copy)]
pub enum SortColumn {
    Name,
    Date,
}

/// A row type with text columns to order by.
pub trait SortKey {
    /// The column's value.
    spec fn key(&self, column: SortColumn) -> Seq<char>;

    fn key_text(&self, column: SortColumn) -> (r: &str)
        ensures
            r@ == self.key(column),
    ;
}

/// Later keys first: no row comes before a row after it.
pub open spec fn sorted_desc<T: SortKey>(s: Seq<T>, column: SortColumn) -> bool {
    forall|i: int, j: int|
        0 <= i < j < s.len() ==> !text_lt(#[trigger] s[i].key(column), #[trigger] s[j].key(column))
}

/// Earlier keys first: no row comes after a row after it.
pub open spec fn sorted_asc<T: SortKey>(s: Seq<T>, column: SortColumn) -> bool {
    forall|i: int, j: int|
        0 <= i < j < s.len() ==> !text_lt(#[trigger] s[j].key(column), #[trigger] s[i].key(column))
}

/// The rows in reverse order: ascending where they were descending.
pub fn reverse_rows<T: SortKey>(v: Vec<T>, column: SortColumn) -> (r: Vec<T>)
    ensures
        r@ == v@.reverse(),
        r@.to_multiset() == v@.to_multiset(),
        sorted_desc(v@, column) ==> sorted_asc(r@, column),
{
    let ghost orig = v@;
    let n = v.len();
    let mut rest = v;
    let mut out: Vec<T> = Vec::new();
    while rest.len() > 0
        invariant
            rest@ == orig.subrange(0, rest@.len() as int),
            out@.len() == n - rest@.len(),
            n == orig.len(),
            forall|i: int| 0 <= i < out@.len() ==> #[trigger] out@[i] == orig[n - 1 - i],
        decreases rest@.len(),
    {
        let x = rest.pop().unwrap();
        out.push(x);
        proof {
            assert(rest@ =~= orig.subrange(0, rest@.len() as int));
        }
    }
    proof {
        assert(out@ =~= orig.reverse());
        orig.lemma_reverse_to_multiset();
    }
    out
}

/// The rows, latest key of the column first.
pub fn sort_desc<T: SortKey>(v: Vec<T>, column: SortColumn) -> (r: Vec<T>)
    ensures
        sorted_desc(r@, column),
        r@.to_multiset() == v@.to_multiset(),
{
    let ghost all = v@.to_multiset();
    let mut rest = v;
    let mut out: Vec<T> = Vec::new();
    while rest.len() > 0
        invariant
            sorted_desc(out@, column),
            out@.to_multiset().add(rest@.to_multiset()) == all,
        decreases rest@.len(),
    {
        let ghost before = rest@;
        let x = rest.pop().unwrap();
        proof {
            assert(before =~= rest@.push(x));
        }
        let mut p: usize = 0;
        while p < out.len() && !text_less(out[p].key_text(column), x.key_text(column))
            invariant
                0 <= p <= out@.len(),
                forall|i: int| 0 <= i < p ==> !text_lt(#[trigger] out@[i].key(column), x.key(column)),
            decreases out@.len() - p,
        {
            p = p + 1;
        }
        let ghost prev = out@;
        out.insert(p, x);
        proof {
            prev.insert_ensures(p as int, x);
            assert forall|i: int| p < i < out@.len() implies out@[i] == prev[i - 1] by {
                assert(out@[(i - 1) + 1] == prev[i - 1]);
            }
            assert forall|i: int, j: int| 0 <= i < j < out@.len() implies !text_lt(
                #[trigger] out@[i].key(column),
                #[trigger] out@[j].key(column),
            ) by {
                if i < p && j == p {
                } else if i == p {
                    // x comes before prev[p], which is no later than prev[j - 1].
                    let q = prev[p as int].key(column);
                    let y = prev[j - 1].key(column);
                    assert(text_lt(q, x.key(column)));
                    if j - 1 > p {
                        lemma_text_lt_total(q, y);
                        if q != y {
                            lemma_text_lt_transitive(y, q, x.key(column));
                        }
                    }
                    lemma_text_lt_asymmetric(y, x.key(column));
                } else if i < p && j < p {
                    assert(out@[i] == prev[i]);
                    assert(out@[j] == prev[j]);
                } else if i < p {
                    assert(out@[i] == prev[i]);
                    assert(out@[j] == prev[j - 1]);
                } else {
                    assert(out@[i] == prev[i - 1]);
                    assert(out@[j] == prev[j - 1]);
                }
            }
            vstd::seq_lib::to_multiset_insert(prev, p as int, x);
            assert(out@.to_multiset().add(rest@.to_multiset()) =~= all);
        }
    }
    proof {
        assert(rest@.to_multiset() =~= Multiset::empty());
        assert(out@.to_multiset().add(Multiset::empty()) =~= out@.to_multiset());
    }
    out
}

} // verus!
