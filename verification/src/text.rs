//! Character-level string comparison, used for matching span names and for
//! keeping the span index in lexicographic order.

use vstd::prelude::*;

verus! {

/// Lexicographic (code-point) order on character sequences, strict.
pub open spec fn lex_lt(a: Seq<char>, b: Seq<char>) -> bool
    decreases a.len(),
{
    if b.len() == 0 {
        false
    } else if a.len() == 0 {
        true
    } else if a[0] == b[0] {
        lex_lt(a.drop_first(), b.drop_first())
    } else {
        (a[0] as u32) < (b[0] as u32)
    }
}

/// Whether two strings hold the same characters.
pub fn str_eq(a: &str, b: &str) -> (r: bool)
    ensures
        r == (a@ == b@),
{
    let n = a.unicode_len();
    if n != b.unicode_len() {
        return false;
    }
    let mut i: usize = 0;
    while i < n
        invariant
            i <= n,
            n == a@.len(),
            n == b@.len(),
            forall|k: int| 0 <= k < i ==> a@[k] == b@[k],
        decreases n - i,
    {
        if a.get_char(i) != b.get_char(i) {
            return false;
        }
        i = i + 1;
    }
    proof {
        assert(a@ =~= b@);
    }
    true
}

proof fn lemma_lex_lt_common_prefix(a: Seq<char>, b: Seq<char>, i: nat)
    requires
        i <= a.len(),
        i <= b.len(),
        forall|k: int| 0 <= k < i ==> a[k] == b[k],
    ensures
        lex_lt(a, b) == lex_lt(a.skip(i as int), b.skip(i as int)),
    decreases i,
{
    if i > 0 {
        assert(lex_lt(a, b) == lex_lt(a.drop_first(), b.drop_first()));
        lemma_lex_lt_common_prefix(a.drop_first(), b.drop_first(), (i - 1) as nat);
        assert(a.drop_first().skip(i as int - 1) =~= a.skip(i as int));
        assert(b.drop_first().skip(i as int - 1) =~= b.skip(i as int));
    } else {
        assert(a.skip(0) =~= a);
        assert(b.skip(0) =~= b);
    }
}

/// Whether `a` comes strictly before `b` in lexicographic order.
pub fn str_lt(a: &str, b: &str) -> (r: bool)
    ensures
        r == lex_lt(a@, b@),
{
    let na = a.unicode_len();
    let nb = b.unicode_len();
    let mut i: usize = 0;
    loop
        invariant
            i <= na,
            i <= nb,
            na == a@.len(),
            nb == b@.len(),
            forall|k: int| 0 <= k < i ==> a@[k] == b@[k],
        decreases na - i,
    {
        proof {
            lemma_lex_lt_common_prefix(a@, b@, i as nat);
        }
        if i >= nb {
            // b is a prefix of a (possibly equal): not strictly less
            return false;
        }
        if i >= na {
            // a is a strict prefix of b
            return true;
        }
        let ca = a.get_char(i);
        let cb = b.get_char(i);
        if ca != cb {
            return (ca as u32) < (cb as u32);
        }
        i = i + 1;
    }
}

} // verus!
