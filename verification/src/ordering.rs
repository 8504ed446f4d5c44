//! The order of names, and sequences that are sorted without repetition.

use vstd::prelude::*;

use crate::text::chars_of;

verus! {

/// Whether `a` comes before `b` in the lexicographic order of their characters.
pub open spec fn name_before(a: Seq<char>, b: Seq<char>) -> bool
    decreases a.len(),
{
    if b.len() == 0 {
        false
    } else if a.len() == 0 {
        true
    } else if a[0] != b[0] {
        a[0] < b[0]
    } else {
        name_before(a.drop_first(), b.drop_first())
    }
}

/// No name comes before itself.
pub proof fn law_name_before_irreflexive(a: Seq<char>)
    ensures
        !name_before(a, a),
    decreases a.len(),
{
    if a.len() > 0 {
        law_name_before_irreflexive(a.drop_first());
    }
}

/// The order of names is transitive.
pub proof fn law_name_before_transitive(a: Seq<char>, b: Seq<char>, c: Seq<char>)
    requires
        name_before(a, b),
        name_before(b, c),
    ensures
        name_before(a, c),
    decreases a.len(),
{
    if a.len() > 0 && a[0] == b[0] && b[0] == c[0] {
        law_name_before_transitive(a.drop_first(), b.drop_first(), c.drop_first());
    }
}

/// Of two different names one comes before the other.
pub proof fn law_name_before_total(a: Seq<char>, b: Seq<char>)
    requires
        a != b,
    ensures
        name_before(a, b) || name_before(b, a),
    decreases a.len(),
{
    if a.len() > 0 && b.len() > 0 && a[0] == b[0] {
        if a.drop_first() == b.drop_first() {
            assert(a =~= seq![a[0]] + a.drop_first());
            assert(b =~= seq![b[0]] + b.drop_first());
        }
        law_name_before_total(a.drop_first(), b.drop_first());
    } else if a.len() == 0 && b.len() == 0 {
        assert(a =~= b);
    }
}

/// Two sequences agree up to `n` and the order of names is decided behind it.
proof fn lemma_name_before_common_prefix(a: Seq<char>, b: Seq<char>, n: int)
    requires
        0 <= n <= a.len(),
        n <= b.len(),
        a.take(n) == b.take(n),
    ensures
        name_before(a, b) == name_before(a.skip(n), b.skip(n)),
    decreases n,
{
    if n == 0 {
        assert(a.skip(0) =~= a);
        assert(b.skip(0) =~= b);
    } else {
        assert(a[0] == a.take(n)[0] && b[0] == b.take(n)[0]);
        assert(a.drop_first().take(n - 1) =~= a.take(n).drop_first());
        assert(b.drop_first().take(n - 1) =~= b.take(n).drop_first());
        lemma_name_before_common_prefix(a.drop_first(), b.drop_first(), n - 1);
        assert(a.drop_first().skip(n - 1) =~= a.skip(n));
        assert(b.drop_first().skip(n - 1) =~= b.skip(n));
    }
}

/// Decides whether `a` comes before `b`.
pub fn is_before(a: &str, b: &str) -> (r: bool)
    ensures
        r == name_before(a@, b@),
{
    let x = chars_of(a);
    let y = chars_of(b);
    let mut i: usize = 0;
    while i < x.len() && i < y.len() && x[i] == y[i]
        invariant
            x@ == a@,
            y@ == b@,
            i <= x.len(),
            i <= y.len(),
            x@.take(i as int) == y@.take(i as int),
        decreases x.len() - i,
    {
        i += 1;
        assert(x@.take(i as int) =~= x@.take(i - 1).push(x@[i - 1]));
        assert(y@.take(i as int) =~= y@.take(i - 1).push(y@[i - 1]));
    }
    proof {
        lemma_name_before_common_prefix(x@, y@, i as int);
    }
    if i >= y.len() {
        false
    } else if i >= x.len() {
        true
    } else {
        x[i] < y[i]
    }
}

/// `before` is a strict order: nothing precedes itself, and precedence carries over.
pub open spec fn strict_order<A>(before: spec_fn(A, A) -> bool) -> bool {
    &&& forall|a: A| !#[trigger] before(a, a)
    &&& forall|a: A, b: A, c: A| #[trigger] before(a, b) && #[trigger] before(b, c) ==> before(a, c)
}

/// Every item of the sequence comes before all that follow it.
pub open spec fn ascending<A>(s: Seq<A>, before: spec_fn(A, A) -> bool) -> bool {
    forall|i: int, j: int| 0 <= i < j < s.len() ==> before(#[trigger] s[i], #[trigger] s[j])
}

/// The sequence lists exactly the items of which `member` holds, each once, in order.
pub open spec fn lists<A>(
    s: Seq<A>,
    member: spec_fn(A) -> bool,
    before: spec_fn(A, A) -> bool,
) -> bool {
    &&& ascending(s, before)
    &&& forall|i: int| 0 <= i < s.len() ==> member(#[trigger] s[i])
    &&& forall|a: A| #[trigger] member(a) ==> s.contains(a)
}

/// A collection has only one listing in a given strict order.
pub proof fn law_listing_unique<A>(
    s: Seq<A>,
    t: Seq<A>,
    member: spec_fn(A) -> bool,
    before: spec_fn(A, A) -> bool,
)
    requires
        strict_order(before),
        lists(s, member, before),
        lists(t, member, before),
    ensures
        s == t,
    decreases s.len(),
{
    if s.len() == 0 {
        if t.len() > 0 {
            assert(member(t[0]));
        }
        assert(s =~= t);
    } else {
        assert(member(s.last()));
        assert(t.contains(s.last()));
        let k = choose|k: int| 0 <= k < t.len() && t[k] == s.last();
        assert(member(t.last()));
        assert(s.contains(t.last()));
        let m = choose|m: int| 0 <= m < s.len() && s[m] == t.last();
        if k < t.len() - 1 {
            assert(before(t[k], t[t.len() - 1]));
            if m < s.len() - 1 {
                assert(before(s[m], s[s.len() - 1]));
                assert(before(t[k], t[k]));
            }
            assert(before(s.last(), s.last()));
        }
        let last = s.last();
        let fewer = |a: A| member(a) && a != last;
        assert forall|a: A| #[trigger] fewer(a) implies s.drop_last().contains(a) by {
            assert(member(a));
            let i = choose|i: int| 0 <= i < s.len() && s[i] == a;
            assert(s.drop_last()[i] == a);
        }
        assert forall|a: A| #[trigger] fewer(a) implies t.drop_last().contains(a) by {
            assert(member(a));
            let i = choose|i: int| 0 <= i < t.len() && t[i] == a;
            assert(t.drop_last()[i] == a);
        }
        assert forall|i: int| 0 <= i < s.drop_last().len() implies fewer(#[trigger] s.drop_last()[i]) by {
            assert(before(s[i], s[s.len() - 1]));
            assert(member(s[i]));
        }
        assert forall|i: int| 0 <= i < t.drop_last().len() implies fewer(#[trigger] t.drop_last()[i]) by {
            assert(before(t[i], t[t.len() - 1]));
            assert(member(t[i]));
        }
        assert(ascending(s.drop_last(), before));
        assert(ascending(t.drop_last(), before));
        law_listing_unique(s.drop_last(), t.drop_last(), fewer, before);
        assert(s =~= s.drop_last().push(last));
        assert(t =~= t.drop_last().push(last));
    }
}

/// What a longer prefix contains more than a shorter one.
pub proof fn lemma_take_one_more<A>(s: Seq<A>, i: int)
    requires
        0 <= i < s.len(),
    ensures
        forall|a: A| #[trigger]
            s.take(i + 1).contains(a) <==> s.take(i).contains(a) || a == s[i],
{
    assert(s.take(i + 1) =~= s.take(i).push(s[i]));
    assert forall|a: A| #[trigger]
        s.take(i + 1).contains(a) <==> s.take(i).contains(a) || a == s[i] by {
        lemma_push_contains(s.take(i), s[i], a);
    }
}

/// What a longer rest contains more than a shorter one.
pub proof fn lemma_skip_one_less<A>(s: Seq<A>, i: int, a: A)
    requires
        0 <= i < s.len(),
    ensures
        s.skip(i).contains(a) <==> s.skip(i + 1).contains(a) || a == s[i],
{
    if s.skip(i).contains(a) {
        let k = choose|k: int| 0 <= k < s.skip(i).len() && s.skip(i)[k] == a;
        if k > 0 {
            assert(s.skip(i + 1)[k - 1] == a);
        }
    }
    let rest = s.skip(i + 1);
    if rest.contains(a) {
        let k = choose|k: int| 0 <= k < rest.len() && rest[k] == a;
        assert(s.skip(i)[k + 1] == a);
    }
    if a == s[i] {
        assert(s.skip(i)[0] == a);
    }
}

/// What a sequence contains after one more item was put in somewhere.
pub proof fn lemma_insert_contains<A>(s: Seq<A>, p: int, item: A, a: A)
    requires
        0 <= p <= s.len(),
    ensures
        s.insert(p, item).contains(a) <==> s.contains(a) || a == item,
{
    let grown = s.insert(p, item);
    if s.contains(a) {
        let k = choose|k: int| 0 <= k < s.len() && s[k] == a;
        assert(grown[if k < p { k } else { k + 1 }] == a);
    }
    if a == item {
        assert(grown[p] == a);
    }
    if grown.contains(a) && a != item {
        let k = choose|k: int| 0 <= k < grown.len() && grown[k] == a;
        assert(s[if k < p { k } else { k - 1 }] == a);
    }
}

/// What a sequence contains after one more item.
pub proof fn lemma_push_contains<A>(s: Seq<A>, last: A, a: A)
    ensures
        s.push(last).contains(a) <==> s.contains(a) || a == last,
{
    if s.contains(a) {
        let k = choose|k: int| 0 <= k < s.len() && s[k] == a;
        assert(s.push(last)[k] == a);
    }
    if a == last {
        assert(s.push(last)[s.len() as int] == a);
    }
    if s.push(last).contains(a) && a != last {
        let k = choose|k: int| 0 <= k < s.push(last).len() && s.push(last)[k] == a;
        assert(s[k] == a);
    }
}

} // verus!
