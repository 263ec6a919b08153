//! Lexicographic ordering of entry names.
//!
//! Processing order is the lexicographic sort of entry names, by Unicode
//! scalar value, so that every multi-entry operation is deterministic and
//! independent of any storage iteration order.

use vstd::prelude::*;

verus! {

/// `a` is lexicographically at most `b`, comparing characters by Unicode
/// scalar value; a proper prefix precedes its extensions.
pub open spec fn lex_le(a: Seq<char>, b: Seq<char>) -> bool
    decreases a.len(),
{
    if a.len() == 0 {
        true
    } else if b.len() == 0 {
        false
    } else if a[0] == b[0] {
        lex_le(a.skip(1), b.skip(1))
    } else {
        (a[0] as int) < (b[0] as int)
    }
}

/// The order is total: any two strings are comparable.
pub proof fn lemma_lex_total(a: Seq<char>, b: Seq<char>)
    ensures
        lex_le(a, b) || lex_le(b, a),
    decreases a.len(),
{
    if a.len() == 0 {
    } else if b.len() == 0 {
    } else if a[0] == b[0] {
        lemma_lex_total(a.skip(1), b.skip(1));
    } else {
        assert((a[0] as int) != (b[0] as int));
    }
}

/// The order is antisymmetric: mutual ordering forces equality.
pub proof fn lemma_lex_antisym(a: Seq<char>, b: Seq<char>)
    requires
        lex_le(a, b),
        lex_le(b, a),
    ensures
        a =~= b,
    decreases a.len(),
{
    if a.len() == 0 {
        assert(b.len() == 0);
    } else {
        assert(b.len() > 0);
        assert(a[0] == b[0]);
        lemma_lex_antisym(a.skip(1), b.skip(1));
        assert(a =~= seq![a[0]] + a.skip(1));
        assert(b =~= seq![b[0]] + b.skip(1));
    }
}

/// The order is transitive.
pub proof fn lemma_lex_trans(a: Seq<char>, b: Seq<char>, c: Seq<char>)
    requires
        lex_le(a, b),
        lex_le(b, c),
    ensures
        lex_le(a, c),
    decreases a.len(),
{
    if a.len() == 0 {
    } else if b.len() == 0 {
    } else if c.len() == 0 {
    } else {
        if a[0] == b[0] && b[0] == c[0] {
            lemma_lex_trans(a.skip(1), b.skip(1), c.skip(1));
        }
    }
}

/// Decides `lex_le` on string slices by walking their characters.
pub fn str_le(a: &str, b: &str) -> (r: bool)
    ensures
        r == lex_le(a@, b@),
{
    let a_len = a.unicode_len();
    let b_len = b.unicode_len();
    let mut i: usize = 0;
    proof {
        assert(a@.skip(0) =~= a@);
        assert(b@.skip(0) =~= b@);
    }
    while i < a_len || i < b_len
        invariant
            i <= a_len,
            i <= b_len,
            a_len == a@.len(),
            b_len == b@.len(),
            lex_le(a@, b@) == lex_le(a@.skip(i as int), b@.skip(i as int)),
        decreases a_len - i,
    {
        if i == a_len {
            assert(a@.skip(i as int).len() == 0);
            return true;
        }
        if i == b_len {
            assert(b@.skip(i as int).len() == 0);
            assert(a@.skip(i as int).len() > 0);
            return false;
        }
        let ca = a.get_char(i);
        let cb = b.get_char(i);
        assert(a@.skip(i as int)[0] == a@[i as int]);
        assert(b@.skip(i as int)[0] == b@[i as int]);
        if ca != cb {
            return (ca as u32) < (cb as u32);
        }
        proof {
            assert(a@.skip(i as int).skip(1) =~= a@.skip(i as int + 1));
            assert(b@.skip(i as int).skip(1) =~= b@.skip(i as int + 1));
        }
        i = i + 1;
    }
    assert(a@.skip(i as int).len() == 0);
    true
}

/// Names stand in ascending lexicographic order.
pub open spec fn sorted_names(s: Seq<String>) -> bool {
    forall|i: int, j: int| 0 <= i < j < s.len() ==> lex_le(#[trigger] s[i]@, #[trigger] s[j]@)
}

/// No two names of the sequence read the same.
pub open spec fn distinct_names(s: Seq<String>) -> bool {
    forall|i: int, j: int| 0 <= i < j < s.len() ==> (#[trigger] s[i]@) != (#[trigger] s[j]@)
}

/// Some name of the sequence reads `x`.
pub open spec fn contains_name(s: Seq<String>, x: Seq<char>) -> bool {
    exists|i: int| 0 <= i < s.len() && (#[trigger] s[i]@) == x
}

/// Places `x` at its sorted position, keeping order and distinctness.
pub fn insert_sorted(r: &mut Vec<String>, x: String)
    requires
        sorted_names(old(r)@),
        distinct_names(old(r)@),
        !contains_name(old(r)@, x@),
    ensures
        sorted_names(final(r)@),
        distinct_names(final(r)@),
        final(r)@.len() == old(r)@.len() + 1,
        forall|n: Seq<char>| contains_name(final(r)@, n) <==> (contains_name(old(r)@, n) || n == x@),
{
    let ghost orig = r@;
    let mut j: usize = 0;
    while j < r.len() && !str_le(x.as_str(), r[j].as_str())
        invariant
            r@ == orig,
            j <= r@.len(),
            forall|k: int| 0 <= k < j ==> !lex_le(x@, #[trigger] r@[k]@),
        decreases r@.len() - j,
    {
        j = j + 1;
    }
    proof {
        assert forall|k: int| 0 <= k < j implies lex_le(#[trigger] orig[k]@, x@) by {
            lemma_lex_total(x@, orig[k]@);
        }
        assert forall|k: int| j <= k < orig.len() implies lex_le(x@, #[trigger] orig[k]@) by {
            if k > j {
                lemma_lex_trans(x@, orig[j as int]@, orig[k]@);
            }
        }
    }
    r.insert(j, x);
    proof {
        let now = r@;
        assert(now == orig.insert(j as int, x));
        assert forall|a: int, b: int| 0 <= a < b < now.len() implies lex_le(
            #[trigger] now[a]@,
            #[trigger] now[b]@,
        ) by {
            if a == j {
                assert(now[b] == orig[b - 1]);
            } else if b == j {
                assert(now[a] == orig[a]);
            } else if a < j && b > j {
                assert(now[a] == orig[a]);
                assert(now[b] == orig[b - 1]);
            } else if b < j {
                assert(now[a] == orig[a]);
                assert(now[b] == orig[b]);
            } else {
                assert(now[a] == orig[a - 1]);
                assert(now[b] == orig[b - 1]);
            }
        }
        assert forall|a: int, b: int| 0 <= a < b < now.len() implies (#[trigger] now[a]@)
            != (#[trigger] now[b]@) by {
            if a == j || b == j {
                let other: int = if a == j {
                    b - 1
                } else {
                    a
                };
                assert(0 <= other < orig.len());
                assert(orig[other]@ != x@);
            }
        }
        assert forall|n: Seq<char>| contains_name(now, n) implies (contains_name(orig, n) || n
            == x@) by {
            let i = choose|i: int| 0 <= i < now.len() && (#[trigger] now[i]@) == n;
            if i < j {
                assert(orig[i]@ == n);
            } else if i > j {
                assert(orig[i - 1]@ == n);
            }
        }
        assert forall|n: Seq<char>| contains_name(orig, n) || n == x@ implies contains_name(
            now,
            n,
        ) by {
            if n == x@ {
                assert(now[j as int]@ == n);
            } else {
                let i = choose|i: int| 0 <= i < orig.len() && (#[trigger] orig[i]@) == n;
                if i < j {
                    assert(now[i]@ == n);
                } else {
                    assert(now[i + 1]@ == n);
                }
            }
        }
    }
}

/// A sorted, duplicate-free list of names is determined by which names it
/// holds: two such lists with the same membership read the same,
/// position by position.
pub proof fn lemma_sorted_distinct_unique(a: Seq<String>, b: Seq<String>)
    requires
        sorted_names(a),
        distinct_names(a),
        sorted_names(b),
        distinct_names(b),
        forall|n: Seq<char>| contains_name(a, n) <==> contains_name(b, n),
    ensures
        a.len() == b.len(),
        forall|i: int| 0 <= i < a.len() ==> (#[trigger] a[i]@) == b[i]@,
    decreases a.len(),
{
    if a.len() == 0 {
        if b.len() > 0 {
            assert(contains_name(b, b[0]@));
            assert(false);
        }
    } else {
        assert(contains_name(a, a[0]@));
        assert(b.len() > 0);
        assert(contains_name(b, b[0]@));
        // The head of each list is its minimum, and both lists hold the
        // same names, so the heads read the same.
        let head_a = a[0]@;
        let head_b = b[0]@;
        assert(contains_name(b, head_a));
        assert(contains_name(a, head_b));
        if head_a != head_b {
            let ia = choose|i: int| 0 <= i < b.len() && (#[trigger] b[i]@) == head_a;
            let ib = choose|i: int| 0 <= i < a.len() && (#[trigger] a[i]@) == head_b;
            assert(ia != 0);
            assert(ib != 0);
            assert(lex_le(head_b, b[ia]@));
            assert(lex_le(head_a, a[ib]@));
            lemma_lex_antisym(head_a, head_b);
            assert(false);
        }
        assert(a[0]@ == b[0]@);
        // The tails again satisfy the premises.
        let at = a.skip(1);
        let bt = b.skip(1);
        assert forall|n: Seq<char>| contains_name(at, n) implies contains_name(bt, n) by {
            let i = choose|i: int| 0 <= i < at.len() && (#[trigger] at[i]@) == n;
            assert(a[i + 1]@ == n);
            assert(contains_name(a, n));
            let k = choose|k: int| 0 <= k < b.len() && (#[trigger] b[k]@) == n;
            assert(n != a[0]@);
            assert(k != 0);
            assert(bt[k - 1]@ == n);
        }
        assert forall|n: Seq<char>| contains_name(bt, n) implies contains_name(at, n) by {
            let i = choose|i: int| 0 <= i < bt.len() && (#[trigger] bt[i]@) == n;
            assert(b[i + 1]@ == n);
            assert(contains_name(b, n));
            let k = choose|k: int| 0 <= k < a.len() && (#[trigger] a[k]@) == n;
            assert(n != b[0]@);
            assert(k != 0);
            assert(at[k - 1]@ == n);
        }
        lemma_sorted_distinct_unique(at, bt);
        assert forall|i: int| 0 <= i < a.len() implies (#[trigger] a[i]@) == b[i]@ by {
            if i > 0 {
                assert(at[i - 1]@ == bt[i - 1]@);
            }
        }
    }
}

} // verus!
