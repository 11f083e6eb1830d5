//! The order in which the store compares text: code point by code point, a
//! proper prefix before any longer text. For UTF-8 this is the order of the
//! encoded bytes, which is how SQLite's default collation compares text.
use vstd::prelude::*;

verus! {

/// `a` sorts strictly before `b`.
pub open spec fn text_lt(a: Seq<char>, b: Seq<char>) -> bool
    decreases a.len(),
{
    if b.len() == 0 {
        false
    } else if a.len() == 0 {
        true
    } else if a[0] != b[0] {
        (a[0] as u32) < (b[0] as u32)
    } else {
        text_lt(a.drop_first(), b.drop_first())
    }
}

/// `a` sorts before `b` or equals it.
pub open spec fn text_le(a: Seq<char>, b: Seq<char>) -> bool {
    text_lt(a, b) || a == b
}

/// Comparing two texts that begin with parts of equal length compares those
/// parts first, and the rest only where they are equal.
pub proof fn lemma_lt_concat(a1: Seq<char>, a2: Seq<char>, b1: Seq<char>, b2: Seq<char>)
    requires
        a1.len() == b1.len(),
    ensures
        text_lt(a1 + a2, b1 + b2) == if a1 == b1 {
            text_lt(a2, b2)
        } else {
            text_lt(a1, b1)
        },
    decreases a1.len(),
{
    if a1.len() == 0 {
        assert(a1 + a2 =~= a2);
        assert(b1 + b2 =~= b2);
        assert(a1 =~= b1);
    } else {
        assert((a1 + a2)[0] == a1[0]);
        assert((b1 + b2)[0] == b1[0]);
        assert((a1 + a2).drop_first() =~= a1.drop_first() + a2);
        assert((b1 + b2).drop_first() =~= b1.drop_first() + b2);
        lemma_lt_concat(a1.drop_first(), a2, b1.drop_first(), b2);
        if a1[0] == b1[0] {
            if a1.drop_first() == b1.drop_first() {
                assert(a1 =~= b1) by {
                    assert forall|i: int| 0 <= i < a1.len() implies a1[i] == b1[i] by {
                        if i > 0 {
                            assert(a1[i] == a1.drop_first()[i - 1]);
                            assert(b1[i] == b1.drop_first()[i - 1]);
                        }
                    }
                }
            } else {
                assert(a1 != b1);
            }
        }
    }
}

/// No text sorts strictly before itself, and of two texts at most one sorts
/// strictly before the other.
pub proof fn lemma_lt_asymmetric(a: Seq<char>, b: Seq<char>)
    ensures
        !text_lt(a, a),
        text_lt(a, b) ==> !text_lt(b, a),
    decreases a.len(),
{
    if a.len() > 0 {
        lemma_lt_asymmetric(a.drop_first(), a.drop_first());
        if b.len() > 0 {
            lemma_lt_asymmetric(a.drop_first(), b.drop_first());
        }
    }
}

/// Sorting before is transitive.
pub proof fn lemma_lt_transitive(a: Seq<char>, b: Seq<char>, c: Seq<char>)
    requires
        text_lt(a, b),
        text_lt(b, c),
    ensures
        text_lt(a, c),
    decreases a.len(),
{
    if a.len() > 0 && a[0] == b[0] && b[0] == c[0] {
        lemma_lt_transitive(a.drop_first(), b.drop_first(), c.drop_first());
    }
}

/// `text_le` is transitive, and a text that sorts strictly after another
/// never sorts before or equal to it.
pub proof fn lemma_le_facts(a: Seq<char>, b: Seq<char>, c: Seq<char>)
    ensures
        text_le(a, b) && text_le(b, c) ==> text_le(a, c),
        text_lt(b, a) ==> !text_le(a, b),
{
    lemma_lt_asymmetric(a, b);
    lemma_lt_asymmetric(b, a);
    if text_lt(a, b) && text_lt(b, c) {
        lemma_lt_transitive(a, b, c);
    }
}

} // verus!
