//! Stable sorting of a vector by a strict weak order.

use vstd::prelude::*;

verus! {

/// A type with a strict weak order: `a.before(b)` says that `a` sorts strictly
/// ahead of `b`; items of which neither is before the other tie.
pub trait Ranked: Sized {
    spec fn before(&self, other: &Self) -> bool;

    proof fn order_is_strict_weak(a: &Self, b: &Self, c: &Self)
        ensures
            !a.before(a),
            a.before(b) && b.before(c) ==> a.before(c),
            a.before(c) ==> a.before(b) || b.before(c),
    ;

    fn is_before(&self, other: &Self) -> (r: bool)
        ensures
            r == self.before(other),
    ;
}

/// `order` lists the positions of `input`, each once, so that taking the items
/// in that order gives `output`: ascending, and ties in their input order.
pub open spec fn is_stable_order<T: Ranked>(input: Seq<T>, output: Seq<T>, order: Seq<int>) -> bool {
    &&& output.len() == input.len()
    &&& order.len() == input.len()
    &&& order.no_duplicates()
    &&& forall|i: int| 0 <= i < order.len() ==> 0 <= #[trigger] order[i] < input.len()
    &&& forall|i: int| 0 <= i < output.len() ==> #[trigger] output[i] == input[order[i]]
    &&& forall|i: int, j: int|
        #![trigger order[i], order[j]]
        0 <= i < j < order.len() ==> {
            ||| input[order[i]].before(&input[order[j]])
            ||| !input[order[j]].before(&input[order[i]]) && order[i] < order[j]
        }
}

/// `output` holds the items of `input` in ascending order, ties in their input
/// order. This fixes `output`.
pub open spec fn is_stably_sorted<T: Ranked>(input: Seq<T>, output: Seq<T>) -> bool {
    exists|order: Seq<int>| is_stable_order(input, output, order)
}

/// `order` sorts the part of `input` from `k` on, as [`is_stable_order`] does
/// the whole.
spec fn is_tail_order<T: Ranked>(input: Seq<T>, k: int, output: Seq<T>, order: Seq<int>) -> bool {
    &&& 0 <= k <= input.len()
    &&& output.len() == input.len() - k
    &&& order.len() == input.len() - k
    &&& order.no_duplicates()
    &&& forall|i: int| 0 <= i < order.len() ==> k <= #[trigger] order[i] < input.len()
    &&& forall|i: int| 0 <= i < output.len() ==> #[trigger] output[i] == input[order[i]]
    &&& forall|i: int, j: int|
        #![trigger order[i], order[j]]
        0 <= i < j < order.len() ==> {
            ||| input[order[i]].before(&input[order[j]])
            ||| !input[order[j]].before(&input[order[i]]) && order[i] < order[j]
        }
}

proof fn lemma_insert_keeps_order<T: Ranked>(
    input: Seq<T>,
    k: int,
    output: Seq<T>,
    order: Seq<int>,
    pos: int,
)
    requires
        0 < k,
        is_tail_order(input, k, output, order),
        0 <= pos <= output.len(),
        forall|i: int| 0 <= i < pos ==> (#[trigger] output[i]).before(&input[k - 1]),
        pos < output.len() ==> !output[pos].before(&input[k - 1]),
    ensures
        is_tail_order(input, k - 1, output.insert(pos, input[k - 1]), order.insert(pos, k - 1)),
{
    let x = input[k - 1];
    let p = order.insert(pos, k - 1);
    let out = output.insert(pos, x);
    assert forall|i: int| 0 <= i < p.len() implies k - 1 <= #[trigger] p[i] < input.len() by {
        if i < pos {
            assert(p[i] == order[i]);
        } else if i > pos {
            assert(p[i] == order[i - 1]);
        }
    }
    assert forall|i: int| 0 <= i < out.len() implies #[trigger] out[i] == input[p[i]] by {
        if i < pos {
            assert(p[i] == order[i] && out[i] == output[i]);
        } else if i > pos {
            assert(p[i] == order[i - 1] && out[i] == output[i - 1]);
        }
    }
    assert forall|i: int, j: int| 0 <= i < p.len() && 0 <= j < p.len() && i != j implies p[i]
        != p[j] by {
        let a = if i < pos { i } else { i - 1 };
        let b = if j < pos { j } else { j - 1 };
        if i != pos {
            assert(p[i] == order[a] && order[a] >= k);
        }
        if j != pos {
            assert(p[j] == order[b] && order[b] >= k);
        }
    }
    assert forall|i: int, j: int| #![trigger p[i], p[j]] 0 <= i < j < p.len() implies {
        ||| input[p[i]].before(&input[p[j]])
        ||| !input[p[j]].before(&input[p[i]]) && p[i] < p[j]
    } by {
        if i == pos {
            assert(p[j] == order[j - 1]);
            assert(output[j - 1] == input[order[j - 1]]);
            assert(output[pos] == input[order[pos]]);
            if j - 1 > pos {
                assert(order[pos] >= k && order[j - 1] >= k);
                T::order_is_strict_weak(&output[j - 1], &output[pos], &x);
                T::order_is_strict_weak(&output[pos], &output[j - 1], &output[pos]);
                T::order_is_strict_weak(&output[pos], &output[j - 1], &x);
            }
        } else if j == pos {
            assert(p[i] == order[i]);
            assert(output[i] == input[order[i]]);
        } else {
            let a = if i < pos { i } else { i - 1 };
            let b = if j < pos { j } else { j - 1 };
            assert(p[i] == order[a] && p[j] == order[b]);
        }
    }
}

/// Sorts `items` in ascending order, keeping ties in the order they came in.
pub fn stable_sort<T: Ranked>(items: Vec<T>) -> (r: Vec<T>)
    ensures
        is_stably_sorted(items@, r@),
{
    let ghost input = items@;
    let ghost mut order: Seq<int> = Seq::empty();
    let mut rest = items;
    let mut out: Vec<T> = Vec::new();
    proof {
        assert(is_tail_order(input, input.len() as int, out@, order));
    }
    while rest.len() > 0
        invariant
            rest.len() <= input.len(),
            rest@ == input.take(rest.len() as int),
            is_tail_order(input, rest.len() as int, out@, order),
        decreases rest.len(),
    {
        let ghost k = rest.len() as int;
        let x = rest.pop().unwrap();
        proof {
            assert(x == input[k - 1]);
            assert(rest@ =~= input.take(k - 1));
        }
        let mut pos: usize = 0;
        while pos < out.len() && out[pos].is_before(&x)
            invariant
                pos <= out.len(),
                forall|i: int| 0 <= i < pos ==> (#[trigger] out@[i]).before(&x),
            ensures
                pos < out.len() ==> !out@[pos as int].before(&x),
            decreases out.len() - pos,
        {
            pos += 1;
        }
        proof {
            lemma_insert_keeps_order(input, k, out@, order, pos as int);
            order = order.insert(pos as int, k - 1);
        }
        out.insert(pos, x);
    }
    proof {
        assert(is_stable_order(input, out@, order));
    }
    out
}

/// A stably sorted sequence holds exactly the items it was sorted from.
pub proof fn stable_sort_keeps_items<T: Ranked>(input: Seq<T>, output: Seq<T>)
    requires
        is_stably_sorted(input, output),
    ensures
        output.to_multiset() == input.to_multiset(),
{
    let order = choose|order: Seq<int>| is_stable_order(input, output, order);
    lemma_reindexed_multiset(input, output, order);
}

/// In a stably sorted sequence nothing stands behind an item that it sorts ahead
/// of.
pub proof fn stable_sort_sorts<T: Ranked>(input: Seq<T>, output: Seq<T>)
    requires
        is_stably_sorted(input, output),
    ensures
        forall|i: int, j: int|
            #![trigger output[i], output[j]]
            0 <= i < j < output.len() ==> !output[j].before(&output[i]),
{
    let order = choose|order: Seq<int>| is_stable_order(input, output, order);
    assert forall|i: int, j: int|
        #![trigger output[i], output[j]]
        0 <= i < j < output.len() implies !output[j].before(&output[i]) by {
        assert(output[i] == input[order[i]] && output[j] == input[order[j]]);
        T::order_is_strict_weak(&output[i], &output[j], &output[i]);
    }
}

/// Taking the items of a sequence once each, in any order, keeps its multiset.
proof fn lemma_reindexed_multiset<T>(input: Seq<T>, output: Seq<T>, order: Seq<int>)
    requires
        output.len() == input.len(),
        order.len() == input.len(),
        order.no_duplicates(),
        forall|i: int| 0 <= i < order.len() ==> 0 <= #[trigger] order[i] < input.len(),
        forall|i: int| 0 <= i < output.len() ==> #[trigger] output[i] == input[order[i]],
    ensures
        output.to_multiset() == input.to_multiset(),
    decreases input.len(),
{
    broadcast use vstd::seq_lib::group_to_multiset_ensures;
    let n = input.len() as int;
    if n == 0 {
        assert(output =~= input);
    } else {
        // The place in `order` of the last position of `input`.
        let last = n - 1;
        if !order.contains(last) {
            lemma_distinct_below(order, last);
        }
        let at = choose|i: int| 0 <= i < order.len() && order[i] == last;
        let rest_in = input.remove(last);
        let rest_out = output.remove(at);
        let rest_order = order.remove(at);
        assert forall|i: int| 0 <= i < rest_order.len() implies 0 <= #[trigger] rest_order[i]
            < rest_in.len() by {
            let j = if i < at { i } else { i + 1 };
            assert(rest_order[i] == order[j] && order[j] != last);
        }
        assert forall|i: int| 0 <= i < rest_out.len() implies #[trigger] rest_out[i]
            == rest_in[rest_order[i]] by {
            let j = if i < at { i } else { i + 1 };
            assert(rest_order[i] == order[j] && rest_out[i] == output[j] && order[j] != last);
        }
        assert(rest_order.no_duplicates()) by {
            assert forall|i: int, j: int| 0 <= i < rest_order.len() && 0 <= j < rest_order.len()
                && i != j implies rest_order[i] != rest_order[j] by {
                let a = if i < at { i } else { i + 1 };
                let b = if j < at { j } else { j + 1 };
                assert(rest_order[i] == order[a] && rest_order[j] == order[b]);
            }
        }
        lemma_reindexed_multiset(rest_in, rest_out, rest_order);
        assert(input =~= rest_in.insert(last, input[last]));
        assert(output =~= rest_out.insert(at, output[at]));
        assert(rest_in.insert(last, input[last]).to_multiset() =~= rest_in.to_multiset().insert(
            input[last],
        ));
        assert(rest_out.insert(at, output[at]).to_multiset() =~= rest_out.to_multiset().insert(
            output[at],
        ));
    }
}

/// Distinct numbers below `bound` are at most `bound` many.
proof fn lemma_distinct_below(s: Seq<int>, bound: int)
    requires
        bound >= 0,
        s.no_duplicates(),
        forall|i: int| 0 <= i < s.len() ==> 0 <= #[trigger] s[i] < bound,
    ensures
        s.len() <= bound,
    decreases bound,
{
    if bound == 0 {
        if s.len() > 0 {
            assert(0 <= s[0] < bound);
        }
    } else {
        let top = bound - 1;
        if s.contains(top) {
            let at = choose|i: int| 0 <= i < s.len() && s[i] == top;
            let t = s.remove(at);
            assert forall|i: int| 0 <= i < t.len() implies 0 <= #[trigger] t[i] < top by {
                let j = if i < at { i } else { i + 1 };
                assert(t[i] == s[j] && s[j] != top);
            }
            assert(t.no_duplicates()) by {
                assert forall|i: int, j: int| 0 <= i < t.len() && 0 <= j < t.len() && i
                    != j implies t[i] != t[j] by {
                    let a = if i < at { i } else { i + 1 };
                    let b = if j < at { j } else { j + 1 };
                    assert(t[i] == s[a] && t[j] == s[b]);
                }
            }
            lemma_distinct_below(t, top);
        } else {
            lemma_distinct_below(s, top);
        }
    }
}

// ---------------------------------------------------------------------------
// Laws

/// Sorting keeps ties in the order they came in: there are places in the output for the
/// items of the input, a place each, and of two items that tie the earlier one has the
/// earlier place.
pub proof fn ties_keep_their_order<T: Ranked>(input: Seq<T>, output: Seq<T>)
    requires
        is_stably_sorted(input, output),
    ensures
        exists|place: Seq<int>|
            place.len() == input.len() && place.no_duplicates() && (forall|i: int|
                0 <= i < input.len() ==> 0 <= #[trigger] place[i] < output.len()
                    && output[place[i]] == input[i]) && (forall|i: int, j: int|
                0 <= i < j < input.len() && !input[i].before(&input[j]) && !input[j].before(
                    &input[i],
                ) ==> #[trigger] place[i] < #[trigger] place[j]),
{
    let order = choose|order: Seq<int>| is_stable_order(input, output, order);
    let n = input.len() as int;
    let place = Seq::new(n as nat, |i: int| choose|k: int| 0 <= k < n && order[k] == i);
    assert forall|i: int| 0 <= i < n implies 0 <= #[trigger] place[i] < n && order[place[i]]
        == i by {
        lemma_all_occur(order, n, i);
    }
    assert(place.no_duplicates()) by {
        assert forall|i: int, j: int| 0 <= i < n && 0 <= j < n && i != j implies place[i]
            != place[j] by {
            assert(order[place[i]] == i && order[place[j]] == j);
        }
    }
    assert forall|i: int, j: int|
        0 <= i < j < input.len() && !input[i].before(&input[j]) && !input[j].before(
            &input[i],
        ) implies #[trigger] place[i] < #[trigger] place[j] by {
        assert(order[place[i]] == i && order[place[j]] == j);
        if place[j] < place[i] {
            assert(order[place[j]] < order[place[i]]);
        }
    }
}

/// As many distinct numbers below a bound as there are, are all of them.
proof fn lemma_all_occur(s: Seq<int>, n: int, v: int)
    requires
        s.len() == n,
        s.no_duplicates(),
        forall|i: int| 0 <= i < s.len() ==> 0 <= #[trigger] s[i] < n,
        0 <= v < n,
    ensures
        exists|k: int| 0 <= k < n && s[k] == v,
{
    if !s.contains(v) {
        let t = s.map_values(
            |x: int|
                if x == n - 1 {
                    v
                } else {
                    x
                },
        );
        assert forall|i: int| 0 <= i < t.len() implies 0 <= #[trigger] t[i] < n - 1 by {
            assert(s[i] != v);
        }
        assert(t.no_duplicates()) by {
            assert forall|i: int, j: int| 0 <= i < t.len() && 0 <= j < t.len() && i
                != j implies t[i] != t[j] by {
                assert(s[i] != v && s[j] != v && s[i] != s[j]);
            }
        }
        lemma_distinct_below(t, n - 1);
    } else {
        let k = choose|k: int| 0 <= k < s.len() && s[k] == v;
        assert(s[k] == v);
    }
}

} // verus!
