//! Stable orderings of lists by a key: the positions of the items, sorted
//! by key, items with equal keys keeping the order they came in. Keys are
//! integers, or texts compared character by character as `str` ordering
//! compares them.

use vstd::prelude::*;
use vstd::set_lib::{lemma_int_range, lemma_subset_equality, set_int_range};
use vstd::string::StrSliceExecFns;

use crate::search::lemma_first_witness;

verus! {

/// Whether item `x` goes before item `y` in a stable ordering by `less`:
/// its key is smaller, or neither key is smaller and it came first.
pub open spec fn stably_before(less: spec_fn(int, int) -> bool, x: int, y: int) -> bool {
    less(x, y) || (!less(y, x) && x < y)
}

/// Whether `order` lists the positions `0..n` of a list stably sorted by
/// `less`: `n` entries below `n`, each going before the next. An entry
/// cannot go before itself, so each position occurs exactly once.
pub open spec fn is_stable_order(order: Seq<usize>, n: int, less: spec_fn(int, int) -> bool) -> bool {
    &&& order.len() == n
    &&& forall|a: int| 0 <= a < n ==> #[trigger] order[a] < n
    &&& forall|a: int, b: int|
        0 <= a < b < n ==> stably_before(less, #[trigger] order[a] as int, #[trigger] order[b] as int)
}

/// Integer keys compared by size.
pub open spec fn int_key_less(keys: Seq<i64>) -> spec_fn(int, int) -> bool {
    |x: int, y: int| keys[x] < keys[y]
}

/// Whether text `a` comes before text `b`: at the first place they differ
/// `a` has the smaller character, or `a` is a proper prefix of `b`.
pub open spec fn text_less(a: Seq<char>, b: Seq<char>) -> bool
    decreases a.len(),
{
    if a.len() == 0 {
        b.len() > 0
    } else if b.len() == 0 {
        false
    } else if a[0] != b[0] {
        a[0] < b[0]
    } else {
        text_less(a.drop_first(), b.drop_first())
    }
}

/// Text keys compared as texts.
pub open spec fn text_key_less(keys: Seq<Seq<char>>) -> spec_fn(int, int) -> bool {
    |x: int, y: int| text_less(keys[x], keys[y])
}

/// No text comes before itself.
pub proof fn lemma_text_less_irreflexive(a: Seq<char>)
    ensures
        !text_less(a, a),
    decreases a.len(),
{
    if a.len() > 0 {
        lemma_text_less_irreflexive(a.drop_first());
    }
}

/// Coming before is transitive.
pub proof fn lemma_text_less_transitive(a: Seq<char>, b: Seq<char>, c: Seq<char>)
    requires
        text_less(a, b),
        text_less(b, c),
    ensures
        text_less(a, c),
    decreases a.len(),
{
    if a.len() > 0 && b.len() > 0 && c.len() > 0 && a[0] == b[0] && b[0] == c[0] {
        lemma_text_less_transitive(a.drop_first(), b.drop_first(), c.drop_first());
    }
}

/// Of two different texts one comes before the other.
pub proof fn lemma_text_less_total(a: Seq<char>, b: Seq<char>)
    ensures
        a == b || text_less(a, b) || text_less(b, a),
    decreases a.len(),
{
    if a.len() > 0 && b.len() > 0 {
        if a[0] == b[0] {
            lemma_text_less_total(a.drop_first(), b.drop_first());
            if a.drop_first() == b.drop_first() {
                assert(a =~= seq![a[0]] + a.drop_first());
                assert(b =~= seq![b[0]] + b.drop_first());
            }
        }
    } else if a.len() == 0 && b.len() == 0 {
        assert(a =~= b);
    }
}

/// Whether no key comes before another that comes before it.
pub open spec fn asymmetric(less: spec_fn(int, int) -> bool, n: int) -> bool {
    forall|x: int, y: int| 0 <= x < n && 0 <= y < n ==> !(#[trigger] less(x, y) && #[trigger] less(y, x))
}

/// A stable ordering lists every position.
proof fn lemma_stable_order_covers(o: Seq<usize>, n: int, less: spec_fn(int, int) -> bool, y: int)
    requires
        is_stable_order(o, n, less),
        asymmetric(less, n),
        0 <= y < n,
    ensures
        exists|a: int| 0 <= a < n && o[a] == y,
{
    let oi = o.map_values(|x: usize| x as int);
    assert forall|a: int, b: int| 0 <= a < oi.len() && 0 <= b < oi.len() && a != b implies oi[a] != oi[b] by {
        if a < b {
            assert(stably_before(less, o[a] as int, o[b] as int));
        } else {
            assert(stably_before(less, o[b] as int, o[a] as int));
        }
        if oi[a] == oi[b] {
            let x = o[a] as int;
            assert(less(x, x));
        }
    }
    oi.unique_seq_to_set();
    lemma_int_range(0, n);
    assert forall|x: int| oi.to_set().contains(x) implies set_int_range(0, n).contains(x) by {
        let a = choose|a: int| 0 <= a < oi.len() && oi[a] == x;
        assert(o[a] < n);
    }
    lemma_subset_equality(oi.to_set(), set_int_range(0, n));
    assert(set_int_range(0, n).contains(y));
    assert(oi.to_set().contains(y));
    let a = choose|a: int| 0 <= a < oi.len() && oi[a] == y;
    assert(o[a] == y);
}

/// A stable ordering is unique: two stable orderings of the same list by
/// the same comparison are equal, when no key comes before another that
/// comes before it.
pub proof fn lemma_stable_order_unique(o1: Seq<usize>, o2: Seq<usize>, n: int, less: spec_fn(int, int) -> bool)
    requires
        is_stable_order(o1, n, less),
        is_stable_order(o2, n, less),
        asymmetric(less, n),
    ensures
        o1 == o2,
{
    if exists|k: int| 0 <= k < n && o1[k] != o2[k] {
        let k = choose|k: int| 0 <= k < n && o1[k] != o2[k];
        let differs = |i: int| 0 <= i < n && o1[i] != o2[i];
        lemma_first_witness(differs, k);
        let a = choose|i: int| 0 <= i <= k && #[trigger] differs(i) && forall|j: int| 0 <= j < i ==> !#[trigger] differs(j);
        let x = o1[a] as int;
        let y = o2[a] as int;
        lemma_stable_order_covers(o1, n, less, y);
        lemma_stable_order_covers(o2, n, less, x);
        let b = choose|b: int| 0 <= b < n && o1[b] == y;
        let c = choose|c: int| 0 <= c < n && o2[c] == x;
        if b < a {
            assert(!differs(b));
            assert(stably_before(less, o2[b] as int, o2[a] as int));
            assert(less(y, y));
        }
        if c < a {
            assert(!differs(c));
            assert(stably_before(less, o1[c] as int, o1[a] as int));
            assert(less(x, x));
        }
        assert(stably_before(less, x, y));
        assert(stably_before(less, y, x));
        assert(false);
    }
    assert(o1 =~= o2);
}

/// Integer keys: no key is below one that is below it.
pub proof fn lemma_int_keys_asymmetric(keys: Seq<i64>)
    ensures
        asymmetric(int_key_less(keys), keys.len() as int),
{
}

/// Text keys: no text comes before one that comes before it.
pub proof fn lemma_text_keys_asymmetric(keys: Seq<Seq<char>>)
    ensures
        asymmetric(text_key_less(keys), keys.len() as int),
{
    assert forall|x: int, y: int| 0 <= x < keys.len() && 0 <= y < keys.len() implies !(#[trigger] text_key_less(keys)(x, y)
        && #[trigger] text_key_less(keys)(y, x)) by {
        if text_less(keys[x], keys[y]) && text_less(keys[y], keys[x]) {
            lemma_text_less_transitive(keys[x], keys[y], keys[x]);
            lemma_text_less_irreflexive(keys[x]);
        }
    }
}

/// Whether text `a` comes before text `b`, comparing characters in order.
pub fn text_precedes(a: &str, b: &str) -> (r: bool)
    ensures
        r == text_less(a@, b@),
{
    let la = a.unicode_len();
    let lb = b.unicode_len();
    let mut i: usize = 0;
    assert(a@.skip(0) =~= a@);
    assert(b@.skip(0) =~= b@);
    while i < la && i < lb
        invariant
            la == a@.len(),
            lb == b@.len(),
            i <= la,
            i <= lb,
            text_less(a@, b@) == text_less(a@.skip(i as int), b@.skip(i as int)),
        decreases la - i,
    {
        let ca = a.get_char(i);
        let cb = b.get_char(i);
        assert(a@.skip(i as int)[0] == ca);
        assert(b@.skip(i as int)[0] == cb);
        if ca != cb {
            return ca < cb;
        }
        assert(a@.skip(i as int).drop_first() =~= a@.skip(i + 1));
        assert(b@.skip(i as int).drop_first() =~= b@.skip(i + 1));
        i = i + 1;
    }
    i < lb
}

/// The positions of `keys` stably sorted by key: smaller keys first,
/// equal keys in the order they came.
pub fn stable_order_by_int(keys: &Vec<i64>) -> (order: Vec<usize>)
    ensures
        is_stable_order(order@, keys@.len() as int, int_key_less(keys@)),
{
    let ghost less = int_key_less(keys@);
    let n = keys.len();
    let mut order: Vec<usize> = Vec::new();
    let mut i: usize = 0;
    while i < n
        invariant
            n == keys@.len(),
            i <= n,
            less == int_key_less(keys@),
            is_stable_order(order@, i as int, less),
        decreases n - i,
    {
        let k = keys[i];
        let mut p: usize = 0;
        while p < order.len() && keys[order[p]] <= k
            invariant
                n == keys@.len(),
                i < n,
                less == int_key_less(keys@),
                is_stable_order(order@, i as int, less),
                p <= order.len(),
                k == keys@[i as int],
                forall|q: int| 0 <= q < p ==> keys@[#[trigger] order@[q] as int] <= k,
            decreases order.len() - p,
        {
            p = p + 1;
        }
        let ghost old_order = order@;
        order.insert(p, i);
        proof {
            let o = order@;
            assert(o =~= old_order.insert(p as int, i));
            assert forall|a: int| 0 <= a < i + 1 implies #[trigger] o[a] < i + 1 by {
                if a < p {
                    assert(o[a] == old_order[a]);
                } else if a > p {
                    assert(o[a] == old_order[a - 1]);
                }
            }
            assert forall|a: int, b: int| 0 <= a < b < i + 1 implies stably_before(
                less,
                #[trigger] o[a] as int,
                #[trigger] o[b] as int,
            ) by {
                if b < p {
                    assert(o[a] == old_order[a] && o[b] == old_order[b]);
                } else if b == p {
                    assert(o[a] == old_order[a]);
                    assert(keys@[old_order[a] as int] <= k);
                    assert(old_order[a] < i);
                } else if a > p {
                    assert(o[a] == old_order[a - 1] && o[b] == old_order[b - 1]);
                } else if a == p {
                    assert(o[b] == old_order[b - 1]);
                    assert(k < keys@[old_order[p as int] as int]);
                    if b - 1 > p {
                        assert(stably_before(less, old_order[p as int] as int, old_order[b - 1] as int));
                    }
                } else {
                    assert(o[a] == old_order[a] && o[b] == old_order[b - 1]);
                }
            }
        }
        i = i + 1;
    }
    order
}

/// The positions of `keys` stably sorted by key as texts: earlier texts
/// first, equal texts in the order they came.
pub fn stable_order_by_text(keys: &Vec<String>) -> (order: Vec<usize>)
    ensures
        is_stable_order(order@, keys@.len() as int, text_key_less(keys@.map_values(|s: String| s@))),
{
    let ghost texts = keys@.map_values(|s: String| s@);
    let ghost less = text_key_less(texts);
    let n = keys.len();
    let mut order: Vec<usize> = Vec::new();
    let mut i: usize = 0;
    while i < n
        invariant
            n == keys@.len(),
            texts == keys@.map_values(|s: String| s@),
            i <= n,
            less == text_key_less(texts),
            is_stable_order(order@, i as int, less),
        decreases n - i,
    {
        let mut p: usize = 0;
        while p < order.len() && !text_precedes(keys[i].as_str(), keys[order[p]].as_str())
            invariant
                n == keys@.len(),
                texts == keys@.map_values(|s: String| s@),
                i < n,
                less == text_key_less(texts),
                is_stable_order(order@, i as int, less),
                p <= order.len(),
                forall|q: int| 0 <= q < p ==> !text_less(texts[i as int], texts[#[trigger] order@[q] as int]),
            decreases order.len() - p,
        {
            p = p + 1;
        }
        let ghost old_order = order@;
        order.insert(p, i);
        proof {
            let o = order@;
            assert(o =~= old_order.insert(p as int, i));
            assert forall|a: int| 0 <= a < i + 1 implies #[trigger] o[a] < i + 1 by {
                if a < p {
                    assert(o[a] == old_order[a]);
                } else if a > p {
                    assert(o[a] == old_order[a - 1]);
                }
            }
            assert forall|a: int, b: int| 0 <= a < b < i + 1 implies stably_before(
                less,
                #[trigger] o[a] as int,
                #[trigger] o[b] as int,
            ) by {
                if b < p {
                    assert(o[a] == old_order[a] && o[b] == old_order[b]);
                } else if b == p {
                    assert(o[a] == old_order[a]);
                    assert(!text_less(texts[i as int], texts[old_order[a] as int]));
                    assert(old_order[a] < i);
                } else if a > p {
                    assert(o[a] == old_order[a - 1] && o[b] == old_order[b - 1]);
                } else if a == p {
                    let x = old_order[p as int] as int;
                    let y = old_order[b - 1] as int;
                    assert(o[b] == old_order[b - 1]);
                    assert(text_less(texts[i as int], texts[x]));
                    if b - 1 > p {
                        assert(stably_before(less, x, y));
                        if text_less(texts[x], texts[y]) {
                            lemma_text_less_transitive(texts[i as int], texts[x], texts[y]);
                        } else {
                            lemma_text_less_total(texts[x], texts[y]);
                        }
                    }
                } else {
                    assert(o[a] == old_order[a] && o[b] == old_order[b - 1]);
                }
            }
        }
        i = i + 1;
    }
    order
}

} // verus!
