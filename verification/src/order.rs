//! The order of strings: by code point, character by character. It is the
//! order in which frame paths are returned.
use vstd::prelude::*;

verus! {

/// `a` comes before `b`, or equals it, in the order of strings: the first
/// character in which they differ decides, by its code point, and a string
/// comes before every string that it is a proper prefix of.
pub open spec fn precedes(a: Seq<char>, b: Seq<char>) -> bool
    decreases a.len(),
{
    if a.len() == 0 {
        true
    } else if b.len() == 0 {
        false
    } else if a[0] != b[0] {
        (a[0] as u32) < (b[0] as u32)
    } else {
        precedes(a.drop_first(), b.drop_first())
    }
}

/// Each string of the list comes before those after it.
pub open spec fn ascending(list: Seq<Seq<char>>) -> bool {
    forall|i: int, j: int| 0 <= i <= j < list.len() ==> precedes(#[trigger] list[i], #[trigger] list[j])
}

/// Different characters have different code points.
proof fn lemma_code_points_differ(c: char, d: char)
    requires
        c != d,
    ensures
        c as u32 != d as u32,
{
}

/// Every string comes before or equals itself.
pub proof fn lemma_precedes_reflexive(a: Seq<char>)
    ensures
        precedes(a, a),
    decreases a.len(),
{
    if a.len() > 0 {
        lemma_precedes_reflexive(a.drop_first());
    }
}

/// Of two strings, one comes before the other or equals it.
pub proof fn lemma_precedes_total(a: Seq<char>, b: Seq<char>)
    ensures
        precedes(a, b) || precedes(b, a),
    decreases a.len(),
{
    if a.len() > 0 && b.len() > 0 {
        if a[0] == b[0] {
            lemma_precedes_total(a.drop_first(), b.drop_first());
        } else {
            lemma_code_points_differ(a[0], b[0]);
        }
    }
}

/// Two strings that come before each other are the same string.
pub proof fn lemma_precedes_antisymmetric(a: Seq<char>, b: Seq<char>)
    requires
        precedes(a, b),
        precedes(b, a),
    ensures
        a == b,
    decreases a.len(),
{
    if a.len() > 0 {
        lemma_precedes_antisymmetric(a.drop_first(), b.drop_first());
        assert(a =~= seq![a[0]] + a.drop_first());
        assert(b =~= seq![b[0]] + b.drop_first());
    }
    assert(a =~= b);
}

/// What comes before a string comes before all that the string comes
/// before.
pub proof fn lemma_precedes_transitive(a: Seq<char>, b: Seq<char>, c: Seq<char>)
    requires
        precedes(a, b),
        precedes(b, c),
    ensures
        precedes(a, c),
    decreases a.len(),
{
    if a.len() > 0 && a[0] == b[0] && b[0] == c[0] {
        lemma_precedes_transitive(a.drop_first(), b.drop_first(), c.drop_first());
    }
}

/// A prefix that two strings share does not bear on their order.
pub proof fn lemma_precedes_after_prefix(prefix: Seq<char>, a: Seq<char>, b: Seq<char>)
    ensures
        precedes(prefix + a, prefix + b) == precedes(a, b),
    decreases prefix.len(),
{
    if prefix.len() == 0 {
        assert(prefix + a =~= a);
        assert(prefix + b =~= b);
    } else {
        assert((prefix + a).drop_first() =~= prefix.drop_first() + a);
        assert((prefix + b).drop_first() =~= prefix.drop_first() + b);
        lemma_precedes_after_prefix(prefix.drop_first(), a, b);
    }
}

/// The first character in which two strings differ decides their order.
pub proof fn lemma_precedes_decided_at(a: Seq<char>, b: Seq<char>, k: int)
    requires
        0 <= k < a.len(),
        k < b.len(),
        forall|i: int| 0 <= i < k ==> a[i] == b[i],
        (a[k] as u32) < (b[k] as u32),
    ensures
        precedes(a, b),
        !precedes(b, a),
    decreases k,
{
    if k > 0 {
        lemma_precedes_decided_at(a.drop_first(), b.drop_first(), k - 1);
    }
}

/// There is one way only to put given strings in ascending order: two
/// ascending lists that hold the same strings, each as often, are equal.
pub proof fn lemma_ascending_is_unique(a: Seq<Seq<char>>, b: Seq<Seq<char>>)
    requires
        ascending(a),
        ascending(b),
        a.to_multiset() == b.to_multiset(),
    ensures
        a == b,
{
    let order = |x: Seq<char>, y: Seq<char>| precedes(x, y);
    assert(vstd::relations::reflexive(order)) by {
        assert forall|x: Seq<char>| #[trigger] order(x, x) by {
            lemma_precedes_reflexive(x);
        }
    }
    assert(vstd::relations::strongly_connected(order)) by {
        assert forall|x: Seq<char>, y: Seq<char>| #[trigger] order(x, y) || #[trigger] order(y, x) by {
            lemma_precedes_total(x, y);
        }
    }
    assert(vstd::relations::antisymmetric(order)) by {
        assert forall|x: Seq<char>, y: Seq<char>| #[trigger] order(x, y) && #[trigger] order(y, x) implies x == y by {
            lemma_precedes_antisymmetric(x, y);
        }
    }
    assert(vstd::relations::transitive(order)) by {
        assert forall|x: Seq<char>, y: Seq<char>, z: Seq<char>| #[trigger] order(x, y) && #[trigger] order(y, z) implies order(x, z) by {
            lemma_precedes_transitive(x, y, z);
        }
    }
    vstd::seq_lib::lemma_sorted_unique(a, b, order);
}

} // verus!
