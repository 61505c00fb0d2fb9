//! Small verified text utilities: rendering integers and fixed-point values
//! as decimal strings, template substitution, login normalization, and
//! parsing unsigned integers from command arguments.

use vstd::prelude::*;

verus! {

/// The character for a single decimal digit.
pub open spec fn digit_char(d: int) -> char {
    if d == 0 {
        '0'
    } else if d == 1 {
        '1'
    } else if d == 2 {
        '2'
    } else if d == 3 {
        '3'
    } else if d == 4 {
        '4'
    } else if d == 5 {
        '5'
    } else if d == 6 {
        '6'
    } else if d == 7 {
        '7'
    } else if d == 8 {
        '8'
    } else {
        '9'
    }
}

/// The usual decimal rendering of a non-negative integer, without leading
/// zeros (except for zero itself).
pub open spec fn dec_digits(n: int) -> Seq<char>
    decreases n,
{
    if n < 10 {
        seq![digit_char(n)]
    } else {
        dec_digits(n / 10) + seq![digit_char(n % 10)]
    }
}

fn digit_str(d: u64) -> (r: &'static str)
    requires
        d < 10,
    ensures
        r@ == seq![digit_char(d as int)],
{
    proof {
        reveal_strlit("0");
        reveal_strlit("1");
        reveal_strlit("2");
        reveal_strlit("3");
        reveal_strlit("4");
        reveal_strlit("5");
        reveal_strlit("6");
        reveal_strlit("7");
        reveal_strlit("8");
        reveal_strlit("9");
    }
    let r = match d {
        0 => "0",
        1 => "1",
        2 => "2",
        3 => "3",
        4 => "4",
        5 => "5",
        6 => "6",
        7 => "7",
        8 => "8",
        _ => "9",
    };
    proof {
        assert(r@ =~= seq![digit_char(d as int)]);
    }
    r
}

/// Renders an unsigned integer in decimal.
pub fn u64_to_string(n: u64) -> (r: String)
    ensures
        r@ == dec_digits(n as int),
    decreases n,
{
    if n < 10 {
        String::from_str(digit_str(n))
    } else {
        let mut s = u64_to_string(n / 10);
        s.append(digit_str(n % 10));
        proof {
            assert(s@ =~= dec_digits(n as int));
        }
        s
    }
}

/// Rendering of a value counted in thousandths, with exactly three digits
/// after the decimal point (the scale the minigame works at).
pub open spec fn milli_rendered(m: int) -> Seq<char> {
    dec_digits(m / 1000) + seq!['.'] + seq![
        digit_char((m % 1000) / 100),
        digit_char((m % 1000) / 10 % 10),
        digit_char(m % 10),
    ]
}

/// Renders a value counted in thousandths, e.g. `45000` as `45.000`.
pub fn milli_to_string(m: u64) -> (r: String)
    ensures
        r@ == milli_rendered(m as int),
{
    let mut s = u64_to_string(m / 1000);
    proof {
        reveal_strlit(".");
    }
    s.append(".");
    s.append(digit_str(m % 1000 / 100));
    s.append(digit_str(m % 1000 / 10 % 10));
    s.append(digit_str(m % 10));
    proof {
        assert(s@ =~= milli_rendered(m as int));
    }
    s
}

/// Result of replacing every occurrence of `pat` in `s` by `sub`, scanning
/// left to right without overlap (the semantics of `str::replace`).
pub open spec fn replaced(s: Seq<char>, pat: Seq<char>, sub: Seq<char>) -> Seq<char>
    decreases s.len(),
{
    if pat.len() == 0 || s.len() < pat.len() {
        s
    } else if s.take(pat.len() as int) == pat {
        sub + replaced(s.skip(pat.len() as int), pat, sub)
    } else {
        seq![s[0]] + replaced(s.skip(1), pat, sub)
    }
}

/// True when `pat` occurs in `s` starting at position `i`.
spec fn match_at(s: Seq<char>, pat: Seq<char>, i: int) -> bool {
    s.skip(i).take(pat.len() as int) == pat
}

/// Checks whether `pat` occurs in `s` at position `i`.
fn check_match(s: &str, pat: &str, i: usize) -> (r: bool)
    requires
        i + pat@.len() <= s@.len(),
        s@.len() <= usize::MAX,
    ensures
        r == match_at(s@, pat@, i as int),
{
    let plen = pat.unicode_len();
    let mut j: usize = 0;
    while j < plen
        invariant
            i + plen <= s@.len(),
            s@.len() <= usize::MAX,
            plen == pat@.len(),
            j <= plen,
            forall|k: int| 0 <= k < j ==> s@[i + k] == pat@[k],
        decreases plen - j,
    {
        if s.get_char(i + j) != pat.get_char(j) {
            proof {
                assert(s@.skip(i as int).take(plen as int)[j as int] != pat@[j as int]);
            }
            return false;
        }
        j += 1;
    }
    proof {
        assert(s@.skip(i as int).take(plen as int) =~= pat@);
    }
    true
}

/// Replaces every occurrence of `pat` in `s` by `sub`, scanning left to
/// right without overlap.
pub fn replace_all(s: &str, pat: &str, sub: &str) -> (r: String)
    requires
        pat@.len() > 0,
    ensures
        r@ == replaced(s@, pat@, sub@),
{
    let slen = s.unicode_len();
    let plen = pat.unicode_len();
    let mut out = String::new();
    let mut i: usize = 0;
    proof {
        assert(s@.skip(0) =~= s@);
        assert(out@ + replaced(s@, pat@, sub@) =~= replaced(s@, pat@, sub@));
    }
    while i < slen
        invariant
            slen == s@.len(),
            plen == pat@.len(),
            plen > 0,
            i <= slen,
            replaced(s@, pat@, sub@) == out@ + replaced(s@.skip(i as int), pat@, sub@),
        decreases slen - i,
    {
        let ghost rest = s@.skip(i as int);
        let ghost out0 = out@;
        if plen <= slen - i && check_match(s, pat, i) {
            out.append(sub);
            proof {
                assert(rest.take(plen as int) == pat@);
                assert(rest.skip(plen as int) =~= s@.skip(i + plen));
                assert(replaced(rest, pat@, sub@) == sub@ + replaced(s@.skip(i + plen), pat@, sub@));
                assert(out0 + replaced(rest, pat@, sub@) =~= out@ + replaced(s@.skip(i + plen), pat@, sub@));
            }
            i += plen;
        } else {
            let c = s.substring_char(i, i + 1);
            out.append(c);
            proof {
                if rest.len() >= plen {
                    assert(rest.take(plen as int) != pat@);
                }
                assert(c@ =~= seq![rest[0]]);
                assert(rest.skip(1) =~= s@.skip(i + 1));
                assert(replaced(rest, pat@, sub@) == seq![rest[0]] + replaced(s@.skip(i + 1), pat@, sub@));
                assert(out0 + replaced(rest, pat@, sub@) =~= out@ + replaced(s@.skip(i + 1), pat@, sub@));
            }
            i += 1;
        }
    }
    proof {
        assert(s@.skip(slen as int) =~= Seq::<char>::empty());
        assert(out@ + replaced(s@.skip(slen as int), pat@, sub@) =~= out@);
    }
    out
}

/// Compares two string slices character by character.
pub fn str_eq(a: &str, b: &str) -> (r: bool)
    ensures
        r == (a@ == b@),
{
    let alen = a.unicode_len();
    let blen = b.unicode_len();
    if alen != blen {
        return false;
    }
    let mut i: usize = 0;
    while i < alen
        invariant
            alen == a@.len(),
            alen == b@.len(),
            i <= alen,
            forall|k: int| 0 <= k < i ==> a@[k] == b@[k],
        decreases alen - i,
    {
        if a.get_char(i) != b.get_char(i) {
            return false;
        }
        i += 1;
    }
    proof {
        assert(a@ =~= b@);
    }
    true
}

/// What `str::to_lowercase` returns; it depends on the characters alone.
pub uninterp spec fn lower_of(s: Seq<char>) -> Seq<char>;

/// Relies on `str::to_lowercase`: the Unicode lowercase mapping of the
/// string, a function of its characters alone.
#[verifier::external_body]
fn lowercase(s: &str) -> (r: String)
    ensures
        r@ == lower_of(s@),
{
    s.to_lowercase()
}

/// A login as it is sent to the user-lookup API: every `@` removed, then
/// lowercased.
pub open spec fn normalized_login(s: Seq<char>) -> Seq<char> {
    lower_of(replaced(s, "@"@, ""@))
}

/// Removes every `@` from a login argument (chat users habitually write
/// `@name`).
pub fn strip_at(login: &str) -> (r: String)
    ensures
        r@ == replaced(login@, "@"@, ""@),
{
    proof {
        reveal_strlit("@");
    }
    replace_all(login, "@", "")
}

/// Normalizes a login argument for the user-lookup API.
pub fn normalize_login(login: &str) -> (r: String)
    ensures
        r@ == normalized_login(login@),
{
    lowercase(strip_at(login).as_str())
}

/// The numeric value of a decimal digit character, `-1` for any other
/// character.
pub open spec fn digit_val(c: char) -> int {
    if c == '0' {
        0
    } else if c == '1' {
        1
    } else if c == '2' {
        2
    } else if c == '3' {
        3
    } else if c == '4' {
        4
    } else if c == '5' {
        5
    } else if c == '6' {
        6
    } else if c == '7' {
        7
    } else if c == '8' {
        8
    } else if c == '9' {
        9
    } else {
        -1
    }
}

pub open spec fn is_digit(c: char) -> bool {
    digit_val(c) >= 0
}

/// The value of a sequence of decimal digits, most significant first.
pub open spec fn digits_value(s: Seq<char>) -> int
    decreases s.len(),
{
    if s.len() == 0 {
        0
    } else {
        digits_value(s.take(s.len() - 1)) * 10 + digit_val(s[s.len() - 1])
    }
}

pub open spec fn all_digits(s: Seq<char>) -> bool {
    forall|i: int| 0 <= i < s.len() ==> is_digit(#[trigger] s[i])
}

/// The digits of an unsigned-integer literal: an optional leading `+` sign,
/// then the digits themselves.
pub open spec fn digits_part(s: Seq<char>) -> Seq<char> {
    if s.len() > 0 && s[0] == '+' {
        s.skip(1)
    } else {
        s
    }
}

/// The shape `str::parse` accepts for an unsigned integer, apart from its
/// range: an optional `+`, then at least one decimal digit.
pub open spec fn unsigned_literal_shape(s: Seq<char>) -> bool {
    digits_part(s).len() > 0 && all_digits(digits_part(s))
}

/// The numeric value of an unsigned-integer literal.
pub open spec fn unsigned_literal_value(s: Seq<char>) -> int {
    digits_value(digits_part(s))
}

proof fn lemma_digits_value_nonneg(s: Seq<char>)
    requires
        all_digits(s),
    ensures
        digits_value(s) >= 0,
    decreases s.len(),
{
    if s.len() > 0 {
        assert(all_digits(s.take(s.len() - 1)));
        lemma_digits_value_nonneg(s.take(s.len() - 1));
    }
}

/// The value of a prefix of a digit string never exceeds the value of the
/// whole string.
proof fn lemma_digits_value_prefix(s: Seq<char>, j: int)
    requires
        all_digits(s),
        0 <= j <= s.len(),
    ensures
        digits_value(s.take(j)) <= digits_value(s),
    decreases s.len(),
{
    if j < s.len() {
        let t = s.take(s.len() - 1);
        assert(all_digits(t));
        assert(t.take(j) =~= s.take(j));
        lemma_digits_value_prefix(t, j);
        lemma_digits_value_nonneg(t);
    } else {
        assert(s.take(j) =~= s);
    }
}

fn digit_of(c: char) -> (r: Option<u64>)
    ensures
        match r {
            Some(d) => digit_val(c) == d,
            None => digit_val(c) == -1,
        },
{
    match c {
        '0' => Some(0),
        '1' => Some(1),
        '2' => Some(2),
        '3' => Some(3),
        '4' => Some(4),
        '5' => Some(5),
        '6' => Some(6),
        '7' => Some(7),
        '8' => Some(8),
        '9' => Some(9),
        _ => None,
    }
}

/// Parses an unsigned 64-bit integer the way `str::parse::<u64>` does:
/// optional `+`, one or more decimal digits, value within range.
pub fn parse_u64(s: &str) -> (r: Option<u64>)
    ensures
        match r {
            Some(v) => unsigned_literal_shape(s@) && v == unsigned_literal_value(s@)
                && unsigned_literal_value(s@) <= u64::MAX,
            None => !(unsigned_literal_shape(s@) && unsigned_literal_value(s@) <= u64::MAX),
        },
{
    let len = s.unicode_len();
    if len == 0 {
        return None;
    }
    let start: usize = if s.get_char(0) == '+' {
        1
    } else {
        0
    };
    let ghost digits = digits_part(s@);
    proof {
        assert(digits =~= s@.skip(start as int));
    }
    if len == start {
        return None;
    }
    let mut n: u64 = 0;
    let mut i: usize = start;
    while i < len
        invariant
            len == s@.len(),
            start <= i <= len,
            start < len,
            digits == s@.skip(start as int),
            digits == digits_part(s@),
            all_digits(digits.take(i - start)),
            n == digits_value(digits.take(i - start)),
        decreases len - i,
    {
        let c = s.get_char(i);
        let ghost prefix = digits.take(i - start);
        match digit_of(c) {
            Some(d) => {
                proof {
                    assert(digits.take(i + 1 - start).take(i - start) =~= prefix);
                    assert(digits.take(i + 1 - start)[i - start] == c);
                }
                if n > (u64::MAX - d) / 10 {
                    proof {
                        assert(digits_value(digits.take(i + 1 - start)) > u64::MAX);
                        if unsigned_literal_shape(s@) {
                            lemma_digits_value_prefix(digits, i + 1 - start);
                        }
                    }
                    return None;
                }
                n = n * 10 + d;
            },
            None => {
                proof {
                    assert(!is_digit(digits[i - start]));
                }
                return None;
            },
        }
        i += 1;
    }
    proof {
        assert(digits.take(len - start) =~= digits);
    }
    Some(n)
}

/// Parses a `usize` the way `str::parse::<usize>` does.
pub fn parse_usize(s: &str) -> (r: Option<usize>)
    ensures
        match r {
            Some(v) => unsigned_literal_shape(s@) && v == unsigned_literal_value(s@)
                && unsigned_literal_value(s@) <= usize::MAX,
            None => !(unsigned_literal_shape(s@) && unsigned_literal_value(s@) <= usize::MAX),
        },
{
    match parse_u64(s) {
        Some(v) => {
            if v <= usize::MAX as u64 {
                Some(v as usize)
            } else {
                None
            }
        },
        None => None,
    }
}

} // verus!

