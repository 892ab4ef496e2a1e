//! Text order: strings compared character by character by code point, the
//! order in which the service keeps scope tokens.
use vstd::prelude::*;

verus! {

/// `a` sorts strictly before `b`: at the first position where they differ
/// the character of `a` has the lower code point, or `a` is a proper prefix
/// of `b`.
pub open spec fn text_lt(a: Seq<char>, b: Seq<char>) -> bool
    decreases a.len(),
{
    if a.len() == 0 {
        b.len() > 0
    } else if b.len() == 0 {
        false
    } else if a[0] != b[0] {
        (a[0] as int) < (b[0] as int)
    } else {
        text_lt(a.drop_first(), b.drop_first())
    }
}

/// No text sorts before itself.
pub proof fn lemma_text_lt_irreflexive(a: Seq<char>)
    ensures
        !text_lt(a, a),
    decreases a.len(),
{
    if a.len() > 0 {
        lemma_text_lt_irreflexive(a.drop_first());
    }
}

/// The order is asymmetric.
pub proof fn lemma_text_lt_asymmetric(a: Seq<char>, b: Seq<char>)
    requires
        text_lt(a, b),
    ensures
        !text_lt(b, a),
    decreases a.len(),
{
    if a.len() > 0 && b.len() > 0 && a[0] == b[0] {
        lemma_text_lt_asymmetric(a.drop_first(), b.drop_first());
    }
}

/// The order is transitive.
pub proof fn lemma_text_lt_transitive(a: Seq<char>, b: Seq<char>, c: Seq<char>)
    requires
        text_lt(a, b),
        text_lt(b, c),
    ensures
        text_lt(a, c),
    decreases a.len(),
{
    if a.len() > 0 && b.len() > 0 && c.len() > 0 && a[0] == b[0] && b[0] == c[0] {
        lemma_text_lt_transitive(a.drop_first(), b.drop_first(), c.drop_first());
    }
}

/// Two texts that share their first character and the rest are equal.
pub proof fn lemma_equal_by_first_and_rest(a: Seq<char>, b: Seq<char>)
    requires
        a.len() > 0,
        b.len() > 0,
        a[0] == b[0],
        a.drop_first() == b.drop_first(),
    ensures
        a == b,
{
    assert(a =~= seq![a[0]] + a.drop_first());
    assert(b =~= seq![b[0]] + b.drop_first());
}

/// Any two distinct texts are ordered one way or the other.
pub proof fn lemma_text_lt_total(a: Seq<char>, b: Seq<char>)
    requires
        a != b,
    ensures
        text_lt(a, b) || text_lt(b, a),
    decreases a.len(),
{
    if a.len() == 0 {
        assert(b.len() > 0) by {
            if b.len() == 0 {
                assert(a =~= b);
            }
        }
    } else if b.len() == 0 {
        assert(text_lt(b, a));
    } else if a[0] == b[0] {
        if a.drop_first() == b.drop_first() {
            lemma_equal_by_first_and_rest(a, b);
        }
        lemma_text_lt_total(a.drop_first(), b.drop_first());
        assert(text_lt(a, b) == text_lt(a.drop_first(), b.drop_first()));
        assert(text_lt(b, a) == text_lt(b.drop_first(), a.drop_first()));
    } else {
        assert(a[0] as int != b[0] as int);
    }
}

/// The outcome of comparing two texts.
#[derive(Clone, Copy, Debug, PartialEq, Eq, Structural)]
pub enum TextOrder {
    Less,
    Same,
    Greater,
}

proof fn lemma_skip_step(s: Seq<char>, i: int)
    requires
        0 <= i < s.len(),
    ensures
        s.skip(i).len() > 0,
        s.skip(i)[0] == s[i],
        s.skip(i).drop_first() == s.skip(i + 1),
{
    assert(s.skip(i).drop_first() =~= s.skip(i + 1));
}

/// Compares two texts in text order.
pub fn compare_text(a: &str, b: &str) -> (r: TextOrder)
    ensures
        (r is Less) == text_lt(a@, b@),
        (r is Same) == (a@ == b@),
        (r is Greater) == text_lt(b@, a@),
{
    let n = a.unicode_len();
    let m = b.unicode_len();
    let mut i: usize = 0;
    assert(a@.skip(0) =~= a@);
    assert(b@.skip(0) =~= b@);
    while i < n && i < m
        invariant
            n == a@.len(),
            m == b@.len(),
            i <= n,
            i <= m,
            text_lt(a@, b@) == text_lt(a@.skip(i as int), b@.skip(i as int)),
            text_lt(b@, a@) == text_lt(b@.skip(i as int), a@.skip(i as int)),
            (a@ == b@) == (a@.skip(i as int) == b@.skip(i as int)),
        decreases n - i,
    {
        let x = a.get_char(i);
        let y = b.get_char(i);
        proof {
            lemma_skip_step(a@, i as int);
            lemma_skip_step(b@, i as int);
        }
        if x != y {
            assert(a@.skip(i as int) != b@.skip(i as int)) by {
                if a@.skip(i as int) == b@.skip(i as int) {
                    assert(a@.skip(i as int)[0] == b@.skip(i as int)[0]);
                }
            }
            if x < y {
                return TextOrder::Less;
            } else {
                return TextOrder::Greater;
            }
        }
        proof {
            if a@.skip(i as int + 1) == b@.skip(i as int + 1) {
                lemma_equal_by_first_and_rest(a@.skip(i as int), b@.skip(i as int));
            }
        }
        i = i + 1;
    }
    proof {
        lemma_text_lt_irreflexive(a@.skip(i as int));
    }
    if n < m {
        assert(a@.skip(i as int).len() == 0);
        TextOrder::Less
    } else if m < n {
        assert(b@.skip(i as int).len() == 0);
        TextOrder::Greater
    } else {
        assert(a@.skip(i as int) =~= b@.skip(i as int));
        TextOrder::Same
    }
}

} // verus!
