//! Small executable string utilities with exact contracts: equality of
//! string slices, appending single characters, and decimal rendering of
//! indices (used to form log paths and retrieval ids).

use vstd::prelude::*;

verus! {

/// Appends one character.  Relies on `String::push`, which the standard
/// library documents as appending the given char to the end of the string.
pub assume_specification[ String::push ](s: &mut String, ch: char)
    ensures
        final(s)@ == old(s)@.push(ch),
;

/// Appends one character to a `String`.
pub fn push_char(s: &mut String, c: char)
    ensures
        final(s)@ == old(s)@.push(c),
{
    s.push(c);
}

/// String-slice equality, decided through owned copies so that the verified
/// comparison of the views is available to callers.
pub fn str_eq(a: &str, b: &str) -> (r: bool)
    ensures
        r == (a@ == b@),
{
    let x: String = a.to_owned();
    let y: String = b.to_owned();
    x == y
}

/// The decimal digit character for `d`.
pub open spec fn dec_digit(d: int) -> char {
    if d == 0 {
        '0'
    } else if d == 1 {
        '1'
    } else if d == 2 {
        '2'
    } else if d == 3 {
        '3'
    } else if d == 4 {
        '4'
    } else if d == 5 {
        '5'
    } else if d == 6 {
        '6'
    } else if d == 7 {
        '7'
    } else if d == 8 {
        '8'
    } else {
        '9'
    }
}

/// The decimal rendering of `n`, most significant digit first, no leading
/// zeros (a single `'0'` for zero).
pub open spec fn dec_rep(n: nat) -> Seq<char>
    decreases n,
{
    if n < 10 {
        seq![dec_digit(n as int)]
    } else {
        dec_rep(n / 10).push(dec_digit((n % 10) as int))
    }
}

fn digit_char(d: usize) -> (c: char)
    requires
        d < 10,
    ensures
        c == dec_digit(d as int),
{
    if d == 0 {
        '0'
    } else if d == 1 {
        '1'
    } else if d == 2 {
        '2'
    } else if d == 3 {
        '3'
    } else if d == 4 {
        '4'
    } else if d == 5 {
        '5'
    } else if d == 6 {
        '6'
    } else if d == 7 {
        '7'
    } else if d == 8 {
        '8'
    } else {
        '9'
    }
}

/// Renders `n` in decimal.
pub fn usize_to_string(n: usize) -> (r: String)
    ensures
        r@ == dec_rep(n as nat),
{
    let mut rev: Vec<char> = Vec::new();
    let mut m: usize = n;
    loop
        invariant_except_break
            dec_rep(n as nat) == dec_rep(m as nat) + rev@.reverse(),
        ensures
            dec_rep(n as nat) == rev@.reverse(),
        decreases m,
    {
        let d = m % 10;
        proof {
            assert(dec_rep(m as nat) == if m < 10 {
                seq![dec_digit(d as int)]
            } else {
                dec_rep((m / 10) as nat).push(dec_digit(d as int))
            });
            assert((seq![dec_digit(d as int)] + rev@.reverse()) =~= rev@.push(
                dec_digit(d as int),
            ).reverse());
            assert((dec_rep((m / 10) as nat).push(dec_digit(d as int)) + rev@.reverse()) =~= dec_rep(
                (m / 10) as nat,
            ) + rev@.push(dec_digit(d as int)).reverse());
        }
        rev.push(digit_char(d));
        m = m / 10;
        if m == 0 {
            break ;
        }
    }
    let mut r = String::new();
    let mut i: usize = rev.len();
    while i > 0
        invariant
            i <= rev@.len(),
            r@ =~= rev@.reverse().take(rev@.len() - i),
        decreases i,
    {
        i = i - 1;
        push_char(&mut r, rev[i]);
        proof {
            assert(r@ =~= rev@.reverse().take(rev@.len() - i));
        }
    }
    proof {
        assert(rev@.reverse().take(rev@.len() as int) =~= rev@.reverse());
    }
    r
}


/// True of a string that contains no path separator.
pub open spec fn slash_free(s: Seq<char>) -> bool {
    forall|i: int| 0 <= i < s.len() ==> s[i] != '/'
}

/// A decimal rendering is never empty, and is a single character exactly
/// for values below ten.
pub proof fn lemma_dec_rep_len(n: nat)
    ensures
        dec_rep(n).len() >= 1,
        n >= 10 ==> dec_rep(n).len() >= 2,
    decreases n,
{
    if n >= 10 {
        lemma_dec_rep_len(n / 10);
    }
}

/// A decimal rendering consists of digit characters only; in particular it
/// contains no path separator.
pub proof fn lemma_dec_rep_no_slash(n: nat)
    ensures
        slash_free(dec_rep(n)),
    decreases n,
{
    if n < 10 {
        assert(dec_rep(n) =~= seq![dec_digit(n as int)]);
    } else {
        lemma_dec_rep_no_slash(n / 10);
    }
}

/// Distinct numbers render to distinct decimal strings.
pub proof fn lemma_dec_rep_injective(a: nat, b: nat)
    ensures
        dec_rep(a) == dec_rep(b) ==> a == b,
    decreases a,
{
    if dec_rep(a) == dec_rep(b) {
        lemma_dec_rep_len(a);
        lemma_dec_rep_len(b);
        if a < 10 && b < 10 {
            assert(dec_rep(a)[0] == dec_digit(a as int));
            assert(dec_rep(b)[0] == dec_digit(b as int));
        } else if a < 10 && b >= 10 {
            assert(dec_rep(a).len() == 1);
            assert(false);
        } else if a >= 10 && b < 10 {
            assert(dec_rep(b).len() == 1);
            assert(false);
        } else {
            assert(dec_rep(a).last() == dec_digit((a % 10) as int));
            assert(dec_rep(b).last() == dec_digit((b % 10) as int));
            assert(a % 10 == b % 10);
            assert(dec_rep(a).drop_last() =~= dec_rep(a / 10));
            assert(dec_rep(b).drop_last() =~= dec_rep(b / 10));
            lemma_dec_rep_injective(a / 10, b / 10);
            vstd::arithmetic::div_mod::lemma_fundamental_div_mod(a as int, 10);
            vstd::arithmetic::div_mod::lemma_fundamental_div_mod(b as int, 10);
        }
    }
}

/// `a`, a path separator, then `b`.
pub open spec fn slash_join(a: Seq<char>, b: Seq<char>) -> Seq<char> {
    a + seq!['/'] + b
}

/// Splitting at a separator is unambiguous when the part before it is free
/// of the separator: equal concatenations have equal parts.
pub proof fn lemma_slash_split_unique(
    a: Seq<char>,
    b: Seq<char>,
    a2: Seq<char>,
    b2: Seq<char>,
)
    requires
        slash_free(a),
        slash_free(a2),
        slash_join(a, b) == slash_join(a2, b2),
    ensures
        a == a2,
        b == b2,
{
    let s = slash_join(a, b);
    assert(s.len() == a.len() + 1 + b.len());
    assert(s == a2 + seq!['/'] + b2);
    if a.len() < a2.len() {
        assert(s[a.len() as int] == '/');
        assert(s[a.len() as int] == a2[a.len() as int]);
    }
    if a2.len() < a.len() {
        assert(s[a2.len() as int] == '/');
        assert(s[a2.len() as int] == a[a2.len() as int]);
    }
    assert(a.len() == a2.len());
    assert forall|i: int| 0 <= i < a.len() implies a[i] == a2[i] by {
        assert(s[i] == a[i]);
        assert(s[i] == a2[i]);
    };
    assert(a =~= a2);
    assert forall|i: int| 0 <= i < b.len() implies b[i] == b2[i] by {
        assert(s[a.len() + 1 + i] == b[i]);
        assert(s[a.len() + 1 + i] == b2[i]);
    };
    assert(b =~= b2);
}

} // verus!
