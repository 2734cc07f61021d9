//! Ordering of the queue list: a stable sort by visible-message count,
//! descending. A queue with the most visible messages comes first; queues
//! with equal counts keep the order in which the service returned them.

use vstd::prelude::*;
use crate::types::QueueInfo;

verus! {

/// Inserts `x` behind every element whose count is at least `x`'s, in front
/// of the first element whose count is strictly smaller.
pub open spec fn insert_desc(x: QueueInfo, s: Seq<QueueInfo>) -> Seq<QueueInfo>
    decreases s.len(),
{
    if s.len() == 0 {
        seq![x]
    } else if s[0].approximate_messages < x.approximate_messages {
        seq![x] + s
    } else {
        seq![s[0]] + insert_desc(x, s.drop_first())
    }
}

/// Insertion sort, descending by visible-message count; stable, because each
/// element is inserted behind all earlier elements with an equal count.
pub open spec fn sort_desc(s: Seq<QueueInfo>) -> Seq<QueueInfo>
    decreases s.len(),
{
    if s.len() == 0 {
        s
    } else {
        insert_desc(s.last(), sort_desc(s.drop_last()))
    }
}

pub open spec fn sorted_desc(s: Seq<QueueInfo>) -> bool {
    forall|i: int, j: int|
        0 <= i <= j < s.len() ==> s[i].approximate_messages >= s[j].approximate_messages
}

/// The predicate selecting queues whose visible-message count is `c`.
pub open spec fn has_count(c: i64) -> spec_fn(QueueInfo) -> bool {
    |q: QueueInfo| q.approximate_messages == c
}

/// The subsequence of elements with visible-message count `c`, in order.
pub open spec fn with_count(s: Seq<QueueInfo>, c: i64) -> Seq<QueueInfo> {
    s.filter(has_count(c))
}

pub proof fn lemma_sort_desc_len(s: Seq<QueueInfo>)
    ensures
        sort_desc(s).len() == s.len(),
    decreases s.len(),
{
    if s.len() > 0 {
        lemma_sort_desc_len(s.drop_last());
        lemma_insert_desc_len(s.last(), sort_desc(s.drop_last()));
    }
}

proof fn lemma_insert_desc_len(x: QueueInfo, s: Seq<QueueInfo>)
    ensures
        insert_desc(x, s).len() == s.len() + 1,
    decreases s.len(),
{
    if s.len() > 0 && !(s[0].approximate_messages < x.approximate_messages) {
        lemma_insert_desc_len(x, s.drop_first());
    }
}

proof fn lemma_insert_desc_sorted(x: QueueInfo, s: Seq<QueueInfo>)
    requires
        sorted_desc(s),
    ensures
        sorted_desc(insert_desc(x, s)),
    decreases s.len(),
{
    if s.len() == 0 {
    } else if s[0].approximate_messages < x.approximate_messages {
        assert(forall|j: int|
            0 <= j < s.len() ==> s[0].approximate_messages >= (#[trigger] s[j]).approximate_messages);
    } else {
        assert(sorted_desc(s.drop_first())) by {
            assert(forall|i: int, j: int|
                0 <= i <= j < s.drop_first().len() ==> s.drop_first()[i] == s[i + 1]
                    && s.drop_first()[j] == s[j + 1]);
        }
        lemma_insert_desc_sorted(x, s.drop_first());
        lemma_insert_desc_len(x, s.drop_first());
        let out = seq![s[0]] + insert_desc(x, s.drop_first());
        let rest = insert_desc(x, s.drop_first());
        assert forall|i: int, j: int| 0 <= i <= j < out.len() implies
            out[i].approximate_messages >= out[j].approximate_messages by {
            if i == 0 && j > 0 {
                assert(out[j] == rest[j - 1]);
                lemma_insert_desc_membership(x, s.drop_first(), j - 1);
            }
        }
    }
}

/// Every element of `insert_desc(x, s)` is `x` or an element of `s`.
proof fn lemma_insert_desc_membership(x: QueueInfo, s: Seq<QueueInfo>, i: int)
    requires
        0 <= i < insert_desc(x, s).len(),
    ensures
        insert_desc(x, s)[i] == x || s.contains(insert_desc(x, s)[i]),
    decreases s.len(),
{
    lemma_insert_desc_len(x, s);
    if s.len() == 0 {
    } else if s[0].approximate_messages < x.approximate_messages {
        if i > 0 {
            assert(insert_desc(x, s)[i] == s[i - 1]);
        }
    } else {
        if i > 0 {
            lemma_insert_desc_membership(x, s.drop_first(), i - 1);
            if s.drop_first().contains(insert_desc(x, s.drop_first())[i - 1]) {
                let k = choose|k: int|
                    0 <= k < s.drop_first().len() && s.drop_first()[k] == insert_desc(
                        x,
                        s.drop_first(),
                    )[i - 1];
                assert(s[k + 1] == insert_desc(x, s.drop_first())[i - 1]);
            }
        }
    }
}

proof fn lemma_with_count_empty(s: Seq<QueueInfo>, c: i64)
    requires
        forall|i: int| 0 <= i < s.len() ==> s[i].approximate_messages != c,
    ensures
        with_count(s, c) =~= Seq::<QueueInfo>::empty(),
    decreases s.len(),
{
    reveal_with_fuel(Seq::filter, 2);
    if s.len() > 0 {
        lemma_with_count_empty(s.drop_last(), c);
    }
}

proof fn lemma_insert_desc_stable(x: QueueInfo, s: Seq<QueueInfo>, c: i64)
    requires
        sorted_desc(s),
    ensures
        with_count(insert_desc(x, s), c) == if x.approximate_messages == c {
            with_count(s, c).push(x)
        } else {
            with_count(s, c)
        },
    decreases s.len(),
{
    reveal_with_fuel(Seq::filter, 4);
    let pred = has_count(c);
    if s.len() == 0 {
        assert(seq![x].drop_last() =~= Seq::<QueueInfo>::empty());
        assert(seq![x].last() == x);
        assert(with_count(seq![x], c) == if pred(x) {
            Seq::<QueueInfo>::empty().push(x)
        } else {
            Seq::<QueueInfo>::empty()
        });
        assert(with_count(s, c) =~= Seq::<QueueInfo>::empty());
        if x.approximate_messages == c {
            assert(with_count(insert_desc(x, s), c) =~= with_count(s, c).push(x));
        }
    } else if s[0].approximate_messages < x.approximate_messages {
        Seq::filter_distributes_over_add(seq![x], s, pred);
        assert(with_count(seq![x] + s, c) == with_count(seq![x], c) + with_count(s, c));
        assert(seq![x].drop_last() =~= Seq::<QueueInfo>::empty());
        if x.approximate_messages == c {
            // every element of `s` has a strictly smaller count than `x`
            assert(forall|i: int|
                0 <= i < s.len() ==> (#[trigger] s[i]).approximate_messages
                    <= s[0].approximate_messages);
            lemma_with_count_empty(s, c);
            assert(with_count(seq![x], c) =~= Seq::<QueueInfo>::empty().push(x));
            assert(with_count(insert_desc(x, s), c) =~= with_count(s, c).push(x));
        } else {
            assert(with_count(seq![x], c) =~= Seq::<QueueInfo>::empty());
            assert(with_count(insert_desc(x, s), c) =~= with_count(s, c));
        }
    } else {
        assert(sorted_desc(s.drop_first())) by {
            assert(forall|i: int, j: int|
                0 <= i <= j < s.drop_first().len() ==> s.drop_first()[i] == s[i + 1]
                    && s.drop_first()[j] == s[j + 1]);
        }
        lemma_insert_desc_stable(x, s.drop_first(), c);
        let head = seq![s[0]];
        let tail = s.drop_first();
        Seq::filter_distributes_over_add(head, insert_desc(x, tail), pred);
        Seq::filter_distributes_over_add(head, tail, pred);
        assert(head + tail =~= s);
        if x.approximate_messages == c {
            assert(with_count(head, c) + with_count(tail, c).push(x) =~= (with_count(head, c)
                + with_count(tail, c)).push(x));
            assert(with_count(insert_desc(x, s), c) =~= with_count(s, c).push(x));
        } else {
            assert(with_count(insert_desc(x, s), c) =~= with_count(s, c));
        }
    }
}

/// The sorted list is ordered by visible-message count, descending.
pub proof fn lemma_sort_desc_sorted(s: Seq<QueueInfo>)
    ensures
        sorted_desc(sort_desc(s)),
    decreases s.len(),
{
    if s.len() > 0 {
        lemma_sort_desc_sorted(s.drop_last());
        lemma_insert_desc_sorted(s.last(), sort_desc(s.drop_last()));
    }
}

/// Stability: for every count `c`, the queues with count `c` appear in the
/// sorted list exactly as they appeared in the input.
pub proof fn lemma_sort_desc_stable(s: Seq<QueueInfo>, c: i64)
    ensures
        with_count(sort_desc(s), c) == with_count(s, c),
    decreases s.len(),
{
    reveal_with_fuel(Seq::filter, 2);
    if s.len() > 0 {
        lemma_sort_desc_stable(s.drop_last(), c);
        lemma_sort_desc_sorted(s.drop_last());
        lemma_insert_desc_stable(s.last(), sort_desc(s.drop_last()), c);
        if s.last().approximate_messages == c {
            assert(with_count(s, c) == with_count(s.drop_last(), c).push(s.last()));
        } else {
            assert(with_count(s, c) == with_count(s.drop_last(), c));
        }
    }
}

/// Inserts `x` into a vector sorted descending by count, keeping it behind
/// all elements with an equal or greater count.
fn insert_sorted(out: &mut Vec<QueueInfo>, x: QueueInfo)
    ensures
        final(out)@ == insert_desc(x, old(out)@),
{
    let mut pos: usize = 0;
    while pos < out.len() && x.approximate_messages <= out[pos].approximate_messages
        invariant
            pos <= out@.len(),
            forall|k: int| 0 <= k < pos ==> out@[k].approximate_messages
                >= x.approximate_messages,
            *out == *old(out),
        decreases out@.len() - pos,
    {
        pos += 1;
    }
    proof {
        lemma_insert_desc_at(x, out@, pos as int);
    }
    out.insert(pos, x);
}

proof fn lemma_insert_desc_at(x: QueueInfo, s: Seq<QueueInfo>, p: int)
    requires
        0 <= p <= s.len(),
        forall|k: int| 0 <= k < p ==> s[k].approximate_messages >= x.approximate_messages,
        p < s.len() ==> s[p].approximate_messages < x.approximate_messages,
    ensures
        insert_desc(x, s) == s.take(p) + seq![x] + s.skip(p),
    decreases p,
{
    if p == 0 {
        if s.len() == 0 {
            assert(insert_desc(x, s) =~= s.take(0) + seq![x] + s.skip(0));
        } else {
            assert(insert_desc(x, s) == seq![x] + s);
            assert(seq![x] + s =~= s.take(0) + seq![x] + s.skip(0));
        }
    } else {
        assert(s[0].approximate_messages >= x.approximate_messages);
        let tail = s.drop_first();
        assert(forall|k: int| 0 <= k < p - 1 ==> tail[k] == s[k + 1]);
        assert(p - 1 < tail.len() ==> tail[p - 1] == s[p]);
        lemma_insert_desc_at(x, tail, p - 1);
        assert(seq![s[0]] + (tail.take(p - 1) + seq![x] + tail.skip(p - 1)) =~= s.take(p)
            + seq![x] + s.skip(p));
    }
}

/// Sorts the queue list descending by visible-message count with a stable
/// insertion sort.
pub fn sort_queues_by_messages_desc(v: Vec<QueueInfo>) -> (r: Vec<QueueInfo>)
    ensures
        r@ == sort_desc(v@),
{
    let ghost orig = v@;
    let mut rest = v;
    let mut out: Vec<QueueInfo> = Vec::new();
    while rest.len() > 0
        invariant
            rest@.len() <= orig.len(),
            rest@ == orig.skip(orig.len() - rest@.len()),
            out@ == sort_desc(orig.take(orig.len() - rest@.len())),
        decreases rest@.len(),
    {
        let ghost k = orig.len() - rest@.len();
        let x = rest.remove(0);
        proof {
            assert(x == orig[k]);
            assert(rest@ =~= orig.skip(k + 1));
            assert(orig.take(k + 1).drop_last() =~= orig.take(k));
            assert(orig.take(k + 1).last() == x);
        }
        insert_sorted(&mut out, x);
    }
    proof {
        assert(orig.take(orig.len() as int) =~= orig);
    }
    out
}

} // verus!
