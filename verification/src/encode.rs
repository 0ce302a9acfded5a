//! Serialization of typed option values into the literal strings the native
//! runtime's key/value option protocol expects: decimal integers and `"1"` /
//! `"0"` for booleans.

use vstd::prelude::*;
use vstd::string::StringExecFns;
use crate::options::nul_free;

verus! {

/// The character for a single decimal digit.
pub open spec fn digit_char(d: nat) -> char {
    if d == 0 {
        '0'
    } else if d == 1 {
        '1'
    } else if d == 2 {
        '2'
    } else if d == 3 {
        '3'
    } else if d == 4 {
        '4'
    } else if d == 5 {
        '5'
    } else if d == 6 {
        '6'
    } else if d == 7 {
        '7'
    } else if d == 8 {
        '8'
    } else {
        '9'
    }
}

/// The decimal representation of `n`, most significant digit first, with no
/// leading zeros (a single `'0'` for zero itself).
pub open spec fn dec_rep(n: nat) -> Seq<char>
    decreases n,
{
    if n < 10 {
        seq![digit_char(n)]
    } else {
        dec_rep(n / 10).push(digit_char(n % 10))
    }
}

/// The decimal representation of a signed value: a leading `'-'` before the
/// digits of the magnitude when the value is negative.
pub open spec fn dec_rep_signed(i: int) -> Seq<char> {
    if i < 0 {
        seq!['-'] + dec_rep((-i) as nat)
    } else {
        dec_rep(i as nat)
    }
}

fn digit_str(d: u64) -> (r: &'static str)
    requires
        d < 10,
    ensures
        r@ == seq![digit_char(d as nat)],
{
    proof {
        reveal_strlit("0");
        reveal_strlit("1");
        reveal_strlit("2");
        reveal_strlit("3");
        reveal_strlit("4");
        reveal_strlit("5");
        reveal_strlit("6");
        reveal_strlit("7");
        reveal_strlit("8");
        reveal_strlit("9");
    }
    let r: &'static str = match d {
        0 => "0",
        1 => "1",
        2 => "2",
        3 => "3",
        4 => "4",
        5 => "5",
        6 => "6",
        7 => "7",
        8 => "8",
        _ => "9",
    };
    proof {
        assert(r@ =~= seq![digit_char(d as nat)]);
    }
    r
}

/// Renders `n` in decimal.
pub fn u64_to_dec(n: u64) -> (s: String)
    ensures
        s@ == dec_rep(n as nat),
    decreases n,
{
    if n < 10 {
        digit_str(n).to_owned()
    } else {
        let mut s = u64_to_dec(n / 10);
        s.append(digit_str(n % 10));
        proof {
            assert(s@ =~= dec_rep(n as nat));
        }
        s
    }
}

/// Renders `n` in decimal.
pub fn usize_to_dec(n: usize) -> (s: String)
    ensures
        s@ == dec_rep(n as nat),
{
    u64_to_dec(n as u64)
}

/// Renders `n` in decimal.
pub fn u32_to_dec(n: u32) -> (s: String)
    ensures
        s@ == dec_rep(n as nat),
{
    u64_to_dec(n as u64)
}

/// Renders `n` in decimal, with a leading `'-'` when negative.
pub fn i32_to_dec(n: i32) -> (s: String)
    ensures
        s@ == dec_rep_signed(n as int),
{
    if n >= 0 {
        u64_to_dec(n as u64)
    } else {
        let wide: i64 = n as i64;
        let mag: u64 = (-wide) as u64;
        let mut s = "-".to_owned();
        let digits = u64_to_dec(mag);
        s.append(digits.as_str());
        proof {
            reveal_strlit("-");
            assert(s@ =~= dec_rep_signed(n as int));
        }
        s
    }
}

/// The serialized form of a boolean setting: `"1"` for true, `"0"` for false.
pub open spec fn spec_bool_value(b: bool) -> Seq<char> {
    if b {
        "1"@
    } else {
        "0"@
    }
}

/// Renders a boolean setting as the literal the native runtime expects.
pub fn bool_value(b: bool) -> (r: &'static str)
    ensures
        r@ == spec_bool_value(b),
{
    if b {
        "1"
    } else {
        "0"
    }
}

/// A decimal representation holds digits only, never a nul character, so it
/// always crosses the boundary in null-terminated form.
pub proof fn lemma_dec_rep_nul_free(n: nat)
    ensures
        nul_free(dec_rep(n)),
    decreases n,
{
    if n < 10 {
        assert(dec_rep(n)[0] == digit_char(n));
    } else {
        lemma_dec_rep_nul_free(n / 10);
        let s = dec_rep(n / 10);
        assert forall|i: int| 0 <= i < dec_rep(n).len() implies dec_rep(n)[i] != '\0' by {
            if i < s.len() {
                assert(dec_rep(n)[i] == s[i]);
            } else {
                assert(dec_rep(n)[i] == digit_char(n % 10));
            }
        }
    }
}

/// A signed decimal representation holds digits and at most a minus sign,
/// never a nul character.
pub proof fn lemma_dec_rep_signed_nul_free(v: int)
    ensures
        nul_free(dec_rep_signed(v)),
{
    if v < 0 {
        lemma_dec_rep_nul_free((-v) as nat);
        let s = dec_rep((-v) as nat);
        assert forall|i: int| 0 <= i < dec_rep_signed(v).len() implies dec_rep_signed(v)[i]
            != '\0' by {
            if i == 0 {
                assert(dec_rep_signed(v)[0] == '-');
            } else {
                assert(dec_rep_signed(v)[i] == s[i - 1]);
            }
        }
    } else {
        lemma_dec_rep_nul_free(v as nat);
    }
}

/// The boolean literals hold one digit each, never a nul character.
pub proof fn lemma_bool_value_nul_free(b: bool)
    ensures
        nul_free(spec_bool_value(b)),
{
    reveal_strlit("1");
    reveal_strlit("0");
}

} // verus!
