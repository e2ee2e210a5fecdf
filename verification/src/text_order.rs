//! Lexicographic order on strings, compared by Unicode scalar value.
//!
//! The breakpoint registry and the storage snapshot keep their entries
//! sorted by this order, which makes listings deterministic and lets a
//! membership test run as a binary search.

use vstd::prelude::*;
use vstd::string::StrSliceExecFns;

verus! {

/// Strict lexicographic order on character sequences: the first differing
/// position decides by scalar value, a strict prefix comes first.
pub open spec fn lex_lt(a: Seq<char>, b: Seq<char>) -> bool
    decreases a.len(),
{
    if b.len() == 0 {
        false
    } else if a.len() == 0 {
        true
    } else if (a[0] as u32) < (b[0] as u32) {
        true
    } else if (b[0] as u32) < (a[0] as u32) {
        false
    } else {
        lex_lt(a.drop_first(), b.drop_first())
    }
}

/// Two characters with the same scalar value are the same character.
proof fn lemma_char_scalar_injective(c: char, d: char)
    requires
        c as u32 == d as u32,
    ensures
        c == d,
{
}

/// The order is asymmetric: two sequences never come before each other.
pub proof fn lemma_lex_asymmetric(a: Seq<char>, b: Seq<char>)
    ensures
        lex_lt(a, b) ==> !lex_lt(b, a),
    decreases a.len(),
{
    if a.len() > 0 && b.len() > 0 && (a[0] as u32) == (b[0] as u32) {
        lemma_lex_asymmetric(a.drop_first(), b.drop_first());
    }
}

/// The order is transitive.
pub proof fn lemma_lex_transitive(a: Seq<char>, b: Seq<char>, c: Seq<char>)
    requires
        lex_lt(a, b),
        lex_lt(b, c),
    ensures
        lex_lt(a, c),
    decreases a.len() + b.len() + c.len(),
{
    if a.len() > 0 && b.len() > 0 && c.len() > 0 && (a[0] as u32) == (b[0] as u32) && (b[0] as u32)
        == (c[0] as u32) {
        lemma_lex_transitive(a.drop_first(), b.drop_first(), c.drop_first());
    }
}

/// The order is connected: sequences that are not ordered are equal.
pub proof fn lemma_lex_connected(a: Seq<char>, b: Seq<char>)
    requires
        !lex_lt(a, b),
        !lex_lt(b, a),
    ensures
        a =~= b,
    decreases a.len(),
{
    if a.len() > 0 && b.len() > 0 {
        lemma_lex_connected(a.drop_first(), b.drop_first());
        lemma_char_scalar_injective(a[0], b[0]);
        assert forall|i: int| 0 < i < a.len() implies a[i] == b[i] by {
            assert(a.drop_first()[i - 1] == b.drop_first()[i - 1]);
        }
        assert(a =~= b);
    }
}

/// A first differing position below both lengths decides the order.
proof fn lemma_lex_from_diff(a: Seq<char>, b: Seq<char>, i: int)
    requires
        0 <= i < a.len(),
        i < b.len(),
        forall|j: int| 0 <= j < i ==> a[j] == b[j],
        (a[i] as u32) < (b[i] as u32),
    ensures
        lex_lt(a, b),
    decreases i,
{
    if i > 0 {
        lemma_lex_from_diff(a.drop_first(), b.drop_first(), i - 1);
    }
}

/// A strict prefix comes before the longer sequence.
proof fn lemma_lex_from_prefix(a: Seq<char>, b: Seq<char>)
    requires
        a.len() < b.len(),
        forall|j: int| 0 <= j < a.len() ==> a[j] == b[j],
    ensures
        lex_lt(a, b),
    decreases a.len(),
{
    if a.len() > 0 {
        lemma_lex_from_prefix(a.drop_first(), b.drop_first());
    }
}

/// A sequence of names in strictly increasing lexicographic order; such a
/// sequence holds no name twice.
pub open spec fn strictly_sorted(s: Seq<Seq<char>>) -> bool {
    forall|i: int, j: int| 0 <= i < j < s.len() ==> lex_lt(s[i], s[j])
}

/// Three-way outcome of comparing two strings.
pub enum TextCmp {
    Less,
    Equal,
    Greater,
}

/// Compares two strings in the lexicographic order, character by character.
pub fn str_compare(a: &str, b: &str) -> (r: TextCmp)
    ensures
        r is Less <==> lex_lt(a@, b@),
        r is Greater <==> lex_lt(b@, a@),
        r is Equal <==> a@ == b@,
{
    let alen = a.unicode_len();
    let blen = b.unicode_len();
    let n = if alen < blen {
        alen
    } else {
        blen
    };
    let mut i: usize = 0;
    while i < n
        invariant
            alen == a@.len(),
            blen == b@.len(),
            n <= alen,
            n <= blen,
            alen == n || blen == n,
            0 <= i <= n,
            forall|j: int| 0 <= j < i ==> a@[j] == b@[j],
        decreases n - i,
    {
        let ca = a.get_char(i);
        let cb = b.get_char(i);
        if (ca as u32) < (cb as u32) {
            proof {
                lemma_lex_from_diff(a@, b@, i as int);
                lemma_lex_asymmetric(a@, b@);
            }
            return TextCmp::Less;
        }
        if (cb as u32) < (ca as u32) {
            proof {
                lemma_lex_from_diff(b@, a@, i as int);
                lemma_lex_asymmetric(b@, a@);
            }
            return TextCmp::Greater;
        }
        i = i + 1;
    }
    if alen == blen {
        proof {
            assert(a@ =~= b@);
            lemma_lex_asymmetric(a@, a@);
        }
        TextCmp::Equal
    } else if alen < blen {
        proof {
            lemma_lex_from_prefix(a@, b@);
            lemma_lex_asymmetric(a@, b@);
        }
        TextCmp::Less
    } else {
        proof {
            lemma_lex_from_prefix(b@, a@);
            lemma_lex_asymmetric(b@, a@);
        }
        TextCmp::Greater
    }
}

} // verus!
