//! Small string helpers shared by the rest of the crate: character pushes,
//! string comparison by view, and decimal rendering of integers.

use vstd::prelude::*;
use vstd::string::StringSliceAdditionalSpecFns;

verus! {

/// Relies on `String::push`: appends exactly one character to the string.
#[verifier::external_body]
pub fn push_char(s: &mut String, c: char)
    ensures
        final(s)@ == old(s)@.push(c),
{
    s.push(c);
}

/// Relies on `str::from_utf8`: it succeeds exactly on UTF-8 encoded bytes,
/// and returns the text whose encoding the input is.
#[verifier::external_body]
pub fn bytes_to_str(v: &[u8]) -> (r: Option<&str>)
    ensures
        r matches Some(s) ==> s.spec_bytes() == v@,
        r is Some <==> vstd::utf8::valid_utf8(v@),
{
    std::str::from_utf8(v).ok()
}

/// Relies on `char::from_u32`: every code below the surrogate range, or
/// past it up to 0x10FFFF, is a scalar value, and the character returned
/// carries exactly that code.
#[verifier::external_body]
pub fn char_from_code(code: u32) -> (r: char)
    requires
        code < 0xD800 || (0xE000 <= code && code <= 0x10FFFF),
    ensures
        r as u32 == code,
{
    char::from_u32(code).expect("a scalar value by the caller's bound")
}

/// Compare two string slices character by character.
pub fn str_eq(a: &str, b: &str) -> (r: bool)
    ensures
        r == (a@ == b@),
{
    let la = a.unicode_len();
    let lb = b.unicode_len();
    if la != lb {
        return false;
    }
    let mut i: usize = 0;
    while i < la
        invariant
            la == a@.len(),
            lb == b@.len(),
            la == lb,
            i <= la,
            forall|k: int| 0 <= k < i ==> a@[k] == b@[k],
        decreases la - i,
    {
        if a.get_char(i) != b.get_char(i) {
            return false;
        }
        i = i + 1;
    }
    proof {
        assert(a@ =~= b@);
    }
    true
}

/// The view of an optional string.
pub open spec fn opt_view(o: Option<String>) -> Option<Seq<char>> {
    match o {
        None => None,
        Some(s) => Some(s@),
    }
}

/// The length of a character sequence in UTF-8 bytes, which is how `str::len`
/// counts.
pub open spec fn byte_len(s: Seq<char>) -> nat {
    vstd::utf8::encode_utf8(s).len()
}

/// Whether `s` starts with `p`.
pub fn str_has_prefix(s: &str, p: &str) -> (r: bool)
    ensures
        r == (s@.len() >= p@.len() && s@.take(p@.len() as int) == p@),
{
    let lp = p.unicode_len();
    let ls = s.unicode_len();
    if ls < lp {
        return false;
    }
    let mut i: usize = 0;
    while i < lp
        invariant
            i <= lp,
            lp == p@.len(),
            ls == s@.len(),
            ls >= lp,
            forall|k: int| 0 <= k < i ==> s@[k] == p@[k],
        decreases lp - i,
    {
        if s.get_char(i) != p.get_char(i) {
            proof {
                assert(s@.take(lp as int)[i as int] != p@[i as int]);
            }
            return false;
        }
        i = i + 1;
    }
    proof {
        assert(s@.take(lp as int) =~= p@);
    }
    true
}

/// Whether the characters of `s` from `from` on equal `t`.
pub fn str_tail_eq(s: &str, from: usize, t: &str) -> (r: bool)
    requires
        from <= s@.len(),
    ensures
        r == (s@.skip(from as int) == t@),
{
    let ls = s.unicode_len();
    let lt = t.unicode_len();
    if ls - from != lt {
        proof {
            assert(s@.skip(from as int).len() != t@.len());
        }
        return false;
    }
    let mut i: usize = 0;
    while i < lt
        invariant
            i <= lt,
            lt == t@.len(),
            ls == s@.len(),
            from <= ls,
            ls - from == lt,
            forall|k: int| 0 <= k < i ==> s@[from + k] == t@[k],
        decreases lt - i,
    {
        if s.get_char(from + i) != t.get_char(i) {
            proof {
                assert(s@.skip(from as int)[i as int] != t@[i as int]);
            }
            return false;
        }
        i = i + 1;
    }
    proof {
        assert(s@.skip(from as int) =~= t@);
    }
    true
}

/// The character for a single decimal digit.
pub open spec fn digit_char(n: nat) -> char
    recommends
        n < 10,
{
    ((n + 48) as u8) as char
}

/// The decimal representation of a natural number, most significant digit
/// first, with no leading zeros (except for zero itself).
pub open spec fn dec_rep(n: nat) -> Seq<char>
    decreases n,
{
    if n < 10 {
        seq![digit_char(n)]
    } else {
        dec_rep(n / 10).push(digit_char(n % 10))
    }
}

/// Append the decimal representation of `n` to `out`.
pub fn push_u64(out: &mut String, n: u64)
    ensures
        final(out)@ == old(out)@ + dec_rep(n as nat),
{
    let mut digits: Vec<char> = Vec::new();
    let mut m: u64 = n;
    loop
        invariant_except_break
            digits@.len() >= 1 ==> dec_rep(n as nat) =~= dec_rep(m as nat) + digits@.reverse(),
            digits@.len() == 0 ==> m == n,
        ensures
            dec_rep(n as nat) =~= digits@.reverse(),
        decreases m,
    {
        let d: u64 = m % 10;
        let ghost before = digits@;
        proof {
            assert(before.push(digit_char(d as nat)).reverse() =~= seq![digit_char(d as nat)]
                + before.reverse());
        }
        digits.push(((d + 48) as u8) as char);
        if m < 10 {
            proof {
                assert(dec_rep(m as nat) =~= seq![digit_char(d as nat)]);
                if before.len() == 0 {
                    assert(dec_rep(n as nat) =~= digits@.reverse());
                } else {
                    assert(dec_rep(n as nat) =~= dec_rep(m as nat) + before.reverse());
                    assert(dec_rep(n as nat) =~= digits@.reverse());
                }
            }
            break;
        }
        proof {
            assert(dec_rep((m / 10) as nat) + (seq![digit_char(d as nat)] + before.reverse())
                =~= (dec_rep((m / 10) as nat).push(digit_char(d as nat))) + before.reverse());
            assert(dec_rep(m as nat) =~= dec_rep((m / 10) as nat).push(digit_char(d as nat)));
        }
        m = m / 10;
    }
    let mut i: usize = digits.len();
    proof {
        assert(out@ =~= old(out)@ + digits@.reverse().take(0));
    }
    while i > 0
        invariant
            i <= digits@.len(),
            dec_rep(n as nat) =~= digits@.reverse(),
            out@ =~= old(out)@ + digits@.reverse().take(digits@.len() - i),
        decreases i,
    {
        let c = digits[i - 1];
        push_char(out, c);
        proof {
            assert(digits@.reverse()[digits@.len() - i] == digits@[i - 1]);
            assert(digits@.reverse().take(digits@.len() - (i - 1)) =~= digits@.reverse().take(
                digits@.len() - i,
            ).push(digits@[i - 1]));
        }
        i = i - 1;
    }
    proof {
        assert(digits@.reverse().take(digits@.len() as int) =~= digits@.reverse());
    }
}

} // verus!
