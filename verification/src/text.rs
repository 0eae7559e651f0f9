//! Token comparison for the string-encoded enumerations.
//!
//! Every string-encoded enumeration's wire codec matches its tokens
//! case-insensitively; folding is restricted to the ASCII letters, as the
//! recognized tokens are all ASCII. The command-token parser, by
//! contrast, looks tokens up exactly, so an exact comparison stands
//! beside the folded one.

use vstd::prelude::*;

verus! {

/// The ASCII lowercase of a character; characters outside `'A'..='Z'` are
/// left unchanged.
pub open spec fn fold_char(c: char) -> char {
    if c == 'A' {
        'a'
    } else if c == 'B' {
        'b'
    } else if c == 'C' {
        'c'
    } else if c == 'D' {
        'd'
    } else if c == 'E' {
        'e'
    } else if c == 'F' {
        'f'
    } else if c == 'G' {
        'g'
    } else if c == 'H' {
        'h'
    } else if c == 'I' {
        'i'
    } else if c == 'J' {
        'j'
    } else if c == 'K' {
        'k'
    } else if c == 'L' {
        'l'
    } else if c == 'M' {
        'm'
    } else if c == 'N' {
        'n'
    } else if c == 'O' {
        'o'
    } else if c == 'P' {
        'p'
    } else if c == 'Q' {
        'q'
    } else if c == 'R' {
        'r'
    } else if c == 'S' {
        's'
    } else if c == 'T' {
        't'
    } else if c == 'U' {
        'u'
    } else if c == 'V' {
        'v'
    } else if c == 'W' {
        'w'
    } else if c == 'X' {
        'x'
    } else if c == 'Y' {
        'y'
    } else if c == 'Z' {
        'z'
    } else {
        c
    }
}

/// The characterwise ASCII lowercase of a character sequence.
pub open spec fn fold(s: Seq<char>) -> Seq<char> {
    Seq::new(s.len(), |i: int| fold_char(s[i]))
}

/// Two sequences have different folds when they differ in length.
pub proof fn lemma_fold_ne_len(a: Seq<char>, b: Seq<char>)
    requires
        a.len() != b.len(),
    ensures
        fold(a) != fold(b),
{
    assert(fold(a).len() != fold(b).len());
}

/// Two sequences have different folds when some position folds differently.
pub proof fn lemma_fold_ne_at(a: Seq<char>, b: Seq<char>, i: int)
    requires
        0 <= i < a.len(),
        0 <= i < b.len(),
        fold_char(a[i]) != fold_char(b[i]),
    ensures
        fold(a) != fold(b),
{
    assert(fold(a)[i] != fold(b)[i]);
}

/// Folding a sequence that is already folded changes nothing.
pub proof fn lemma_fold_fixed(s: Seq<char>)
    requires
        forall|i: int| 0 <= i < s.len() ==> fold_char(#[trigger] s[i]) == s[i],
    ensures
        fold(s) == s,
{
    assert(fold(s) =~= s);
}

/// Executable ASCII case folding of one character.
pub fn fold_char_x(c: char) -> (r: char)
    ensures
        r == fold_char(c),
{
    if c == 'A' {
        'a'
    } else if c == 'B' {
        'b'
    } else if c == 'C' {
        'c'
    } else if c == 'D' {
        'd'
    } else if c == 'E' {
        'e'
    } else if c == 'F' {
        'f'
    } else if c == 'G' {
        'g'
    } else if c == 'H' {
        'h'
    } else if c == 'I' {
        'i'
    } else if c == 'J' {
        'j'
    } else if c == 'K' {
        'k'
    } else if c == 'L' {
        'l'
    } else if c == 'M' {
        'm'
    } else if c == 'N' {
        'n'
    } else if c == 'O' {
        'o'
    } else if c == 'P' {
        'p'
    } else if c == 'Q' {
        'q'
    } else if c == 'R' {
        'r'
    } else if c == 'S' {
        's'
    } else if c == 'T' {
        't'
    } else if c == 'U' {
        'u'
    } else if c == 'V' {
        'v'
    } else if c == 'W' {
        'w'
    } else if c == 'X' {
        'x'
    } else if c == 'Y' {
        'y'
    } else if c == 'Z' {
        'z'
    } else {
        c
    }
}

/// Whether `s` and `t` are the same character sequence.
pub fn eq_exact(s: &str, t: &str) -> (r: bool)
    ensures
        r == (s@ == t@),
{
    let n = s.unicode_len();
    if n != t.unicode_len() {
        return false;
    }
    let mut i: usize = 0;
    while i < n
        invariant
            n == s@.len(),
            n == t@.len(),
            0 <= i <= n,
            forall|j: int| 0 <= j < i ==> s@[j] == t@[j],
        decreases n - i,
    {
        if s.get_char(i) != t.get_char(i) {
            return false;
        }
        i += 1;
    }
    proof {
        assert(s@ =~= t@);
    }
    true
}

/// Whether `s` and `t` are equal up to ASCII case.
pub fn eq_fold(s: &str, t: &str) -> (r: bool)
    ensures
        r == (fold(s@) == fold(t@)),
{
    let n = s.unicode_len();
    if n != t.unicode_len() {
        proof {
            lemma_fold_ne_len(s@, t@);
        }
        return false;
    }
    let mut i: usize = 0;
    while i < n
        invariant
            n == s@.len(),
            n == t@.len(),
            0 <= i <= n,
            forall|j: int| 0 <= j < i ==> fold_char(s@[j]) == fold_char(t@[j]),
        decreases n - i,
    {
        if fold_char_x(s.get_char(i)) != fold_char_x(t.get_char(i)) {
            proof {
                lemma_fold_ne_at(s@, t@, i as int);
            }
            return false;
        }
        i += 1;
    }
    proof {
        assert(fold(s@) =~= fold(t@));
    }
    true
}

} // verus!
