//! Decimal text of small numbers: reading a version number, writing a
//! version string and a dotted IPv4 address.

use vstd::prelude::*;
use vstd::string::*;

verus! {

/// The ASCII digit for `d`, which is below ten.
pub open spec fn digit_char(d: u8) -> char {
    (d + 48) as char
}

/// Whether `c` is an ASCII digit.
pub open spec fn is_digit(c: char) -> bool {
    48 <= (c as int) <= 57
}

/// The value of the ASCII digit `c`.
pub open spec fn digit_value(c: char) -> int {
    (c as int) - 48
}

/// The value of a string of digits, read in base ten.
pub open spec fn decimal_value(s: Seq<char>) -> int
    decreases s.len(),
{
    if s.len() == 0 {
        0
    } else {
        decimal_value(s.drop_last()) * 10 + digit_value(s.last())
    }
}

/// Whether every character of `s` is a digit.
pub open spec fn all_digits(s: Seq<char>) -> bool {
    forall|i: int| 0 <= i < s.len() ==> #[trigger] is_digit(s[i])
}

/// The digits of a number's text: a leading `+` is allowed and dropped.
pub open spec fn unsigned_digits(s: Seq<char>) -> Seq<char> {
    if s.len() > 0 && s[0] == '+' {
        s.drop_first()
    } else {
        s
    }
}

/// How `str::parse::<u8>` reads `s`: an optional `+`, then at least one
/// digit, and a value that fits in a byte.
pub open spec fn parse_u8_spec(s: Seq<char>) -> Option<u8> {
    let d = unsigned_digits(s);
    if d.len() > 0 && all_digits(d) && decimal_value(d) <= 255 {
        Some(decimal_value(d) as u8)
    } else {
        None
    }
}

/// The shortest decimal text of `n`.
pub open spec fn u8_decimal(n: u8) -> Seq<char> {
    if n < 10 {
        seq![digit_char(n)]
    } else if n < 100 {
        seq![digit_char(n / 10), digit_char(n % 10)]
    } else {
        seq![digit_char(n / 100), digit_char((n / 10) % 10), digit_char(n % 10)]
    }
}

/// `major.minor.patch`, each in decimal.
pub open spec fn version_text(version: Seq<u8>) -> Seq<char> {
    u8_decimal(version[0]) + seq!['.'] + u8_decimal(version[1]) + seq!['.'] + u8_decimal(
        version[2],
    )
}

/// The dotted decimal text of an IPv4 address.
pub open spec fn ipv4_text(a: Seq<u8>) -> Seq<char> {
    u8_decimal(a[0]) + seq!['.'] + u8_decimal(a[1]) + seq!['.'] + u8_decimal(a[2]) + seq!['.']
        + u8_decimal(a[3])
}

/// A prefix of digits never reads larger than the whole.
proof fn lemma_decimal_prefix_le(s: Seq<char>, k: int)
    requires
        0 <= k <= s.len(),
        all_digits(s),
    ensures
        decimal_value(s.subrange(0, k)) <= decimal_value(s),
        0 <= decimal_value(s.subrange(0, k)),
    decreases s.len() - k,
{
    lemma_decimal_nonneg(s.subrange(0, k));
    if k < s.len() {
        let t = s.subrange(0, k + 1);
        assert(t.drop_last() =~= s.subrange(0, k));
        assert(is_digit(t.last()));
        lemma_decimal_prefix_le(s, k + 1);
    } else {
        assert(s.subrange(0, k) =~= s);
    }
}

/// A string of digits reads as a nonnegative number.
proof fn lemma_decimal_nonneg(s: Seq<char>)
    requires
        all_digits(s),
    ensures
        0 <= decimal_value(s),
    decreases s.len(),
{
    if s.len() > 0 {
        assert(is_digit(s.last()));
        lemma_decimal_nonneg(s.drop_last());
    }
}

/// The text of one digit.
fn digit_str(d: u8) -> (s: &'static str)
    requires
        d < 10,
    ensures
        s@ == seq![digit_char(d)],
{
    match d {
        0 => {
            proof {
                reveal_strlit("0");
            }
            "0"
        },
        1 => {
            proof {
                reveal_strlit("1");
            }
            "1"
        },
        2 => {
            proof {
                reveal_strlit("2");
            }
            "2"
        },
        3 => {
            proof {
                reveal_strlit("3");
            }
            "3"
        },
        4 => {
            proof {
                reveal_strlit("4");
            }
            "4"
        },
        5 => {
            proof {
                reveal_strlit("5");
            }
            "5"
        },
        6 => {
            proof {
                reveal_strlit("6");
            }
            "6"
        },
        7 => {
            proof {
                reveal_strlit("7");
            }
            "7"
        },
        8 => {
            proof {
                reveal_strlit("8");
            }
            "8"
        },
        _ => {
            proof {
                reveal_strlit("9");
            }
            "9"
        },
    }
}

/// Appends the decimal text of `n` to `out`.
fn push_u8_decimal(out: &mut String, n: u8)
    ensures
        final(out)@ == old(out)@ + u8_decimal(n),
{
    if n < 10 {
        out.append(digit_str(n));
    } else if n < 100 {
        out.append(digit_str(n / 10));
        out.append(digit_str(n % 10));
    } else {
        out.append(digit_str(n / 100));
        out.append(digit_str((n / 10) % 10));
        out.append(digit_str(n % 10));
    }
    assert(final(out)@ =~= old(out)@ + u8_decimal(n));
}

/// Appends a dot to `out`.
fn push_dot(out: &mut String)
    ensures
        final(out)@ == old(out)@ + seq!['.'],
{
    proof {
        reveal_strlit(".");
    }
    out.append(".");
}

/// The decimal text of `n`.
pub fn u8_to_decimal(n: u8) -> (s: String)
    ensures
        s@ == u8_decimal(n),
{
    let mut s = String::new();
    push_u8_decimal(&mut s, n);
    assert(s@ =~= u8_decimal(n));
    s
}

/// The version as `major.minor.patch`.
pub fn version_string(version: [u8; 3]) -> (s: String)
    ensures
        s@ == version_text(version@),
{
    let mut s = String::new();
    push_u8_decimal(&mut s, version[0]);
    push_dot(&mut s);
    push_u8_decimal(&mut s, version[1]);
    push_dot(&mut s);
    push_u8_decimal(&mut s, version[2]);
    assert(s@ =~= version_text(version@));
    s
}

/// The dotted decimal text of an IPv4 address.
pub fn ipv4_string(addr: [u8; 4]) -> (s: String)
    ensures
        s@ == ipv4_text(addr@),
{
    let mut s = String::new();
    push_u8_decimal(&mut s, addr[0]);
    push_dot(&mut s);
    push_u8_decimal(&mut s, addr[1]);
    push_dot(&mut s);
    push_u8_decimal(&mut s, addr[2]);
    push_dot(&mut s);
    push_u8_decimal(&mut s, addr[3]);
    assert(s@ =~= ipv4_text(addr@));
    s
}

/// Reads `s` as `str::parse::<u8>` does.
pub fn parse_u8(s: &str) -> (r: Option<u8>)
    ensures
        r == parse_u8_spec(s@),
{
    let n = s.unicode_len();
    let start: usize = if n > 0 && s.get_char(0) == '+' {
        1
    } else {
        0
    };
    let ghost d = unsigned_digits(s@);
    assert(d =~= s@.subrange(start as int, n as int));
    if start == n {
        return None;
    }
    let mut acc: u32 = 0;
    let mut i: usize = start;
    while i < n
        invariant
            start <= i <= n,
            n == s@.len(),
            d == s@.subrange(start as int, n as int),
            d == unsigned_digits(s@),
            all_digits(d.subrange(0, i - start)),
            acc == decimal_value(d.subrange(0, i - start)),
            acc <= 255,
        decreases n - i,
    {
        let c = s.get_char(i);
        let ghost k: int = i - start;
        assert(d[k] == c);
        if !('0' <= c && c <= '9') {
            assert(!is_digit(d[k]));
            assert(!all_digits(d));
            return None;
        }
        let digit: u32 = (c as u32) - 48;
        let ghost prev = acc;
        acc = acc * 10 + digit;
        i = i + 1;
        proof {
            let t = d.subrange(0, k + 1);
            assert(t.drop_last() =~= d.subrange(0, k));
            assert(t.last() == c);
            assert(decimal_value(t) == prev * 10 + digit_value(c));
            assert(t =~= d.subrange(0, i - start));
            assert(all_digits(t)) by {
                assert forall|j: int| 0 <= j < t.len() implies #[trigger] is_digit(t[j]) by {
                    if j < k {
                        assert(t[j] == d.subrange(0, k)[j]);
                    }
                }
            }
        }
        if acc > 255 {
            proof {
                if all_digits(d) {
                    lemma_decimal_prefix_le(d, k + 1);
                    assert(decimal_value(d) > 255);
                }
            }
            return None;
        }
    }
    assert(d.subrange(0, n - start) =~= d);
    Some(acc as u8)
}

/// Decimal text reads back as the number that it was written from.
pub proof fn lemma_u8_decimal_parses(n: u8)
    ensures
        parse_u8_spec(u8_decimal(n)) == Some(n),
        all_digits(u8_decimal(n)),
{
    let s = u8_decimal(n);
    assert(unsigned_digits(s) == s);
    assert(all_digits(s));
    reveal_with_fuel(decimal_value, 4);
    if n < 10 {
        assert(s.drop_last() =~= Seq::<char>::empty());
    } else if n < 100 {
        assert(s.drop_last() =~= seq![digit_char(n / 10)]);
        assert(s.drop_last().drop_last() =~= Seq::<char>::empty());
    } else {
        assert(s.drop_last() =~= seq![digit_char(n / 100), digit_char((n / 10) % 10)]);
        assert(s.drop_last().drop_last() =~= seq![digit_char(n / 100)]);
        assert(s.drop_last().drop_last().drop_last() =~= Seq::<char>::empty());
    }
}

/// The dotted text of an IPv4 address reads back as that address: it is four
/// parts of digits only, joined by dots, and part `i` parses as octet `i`.
pub proof fn lemma_ipv4_text_reads_back(a: Seq<u8>)
    requires
        a.len() == 4,
    ensures
        exists|p0: Seq<char>, p1: Seq<char>, p2: Seq<char>, p3: Seq<char>|
            {
                &&& ipv4_text(a) == p0 + seq!['.'] + p1 + seq!['.'] + p2 + seq!['.'] + p3
                &&& all_digits(p0) && all_digits(p1) && all_digits(p2) && all_digits(p3)
                &&& parse_u8_spec(p0) == Some(a[0]) && parse_u8_spec(p1) == Some(a[1])
                &&& parse_u8_spec(p2) == Some(a[2]) && parse_u8_spec(p3) == Some(a[3])
            },
{
    lemma_u8_decimal_parses(a[0]);
    lemma_u8_decimal_parses(a[1]);
    lemma_u8_decimal_parses(a[2]);
    lemma_u8_decimal_parses(a[3]);
    let p0 = u8_decimal(a[0]);
    let p1 = u8_decimal(a[1]);
    let p2 = u8_decimal(a[2]);
    let p3 = u8_decimal(a[3]);
    assert(ipv4_text(a) == p0 + seq!['.'] + p1 + seq!['.'] + p2 + seq!['.'] + p3);
}

/// A version's text reads back as that version: it is three parts of digits
/// only, joined by dots, and part `i` parses as number `i`.
pub proof fn lemma_version_text_reads_back(v: Seq<u8>)
    requires
        v.len() == 3,
    ensures
        exists|p0: Seq<char>, p1: Seq<char>, p2: Seq<char>|
            {
                &&& version_text(v) == p0 + seq!['.'] + p1 + seq!['.'] + p2
                &&& all_digits(p0) && all_digits(p1) && all_digits(p2)
                &&& parse_u8_spec(p0) == Some(v[0]) && parse_u8_spec(p1) == Some(v[1])
                &&& parse_u8_spec(p2) == Some(v[2])
            },
{
    lemma_u8_decimal_parses(v[0]);
    lemma_u8_decimal_parses(v[1]);
    lemma_u8_decimal_parses(v[2]);
    let p0 = u8_decimal(v[0]);
    let p1 = u8_decimal(v[1]);
    let p2 = u8_decimal(v[2]);
    assert(version_text(v) == p0 + seq!['.'] + p1 + seq!['.'] + p2);
}

/// Why the client's version could not be read.
#[derive(Debug, Clone, Copy, PartialEq, Eq, Structural)]
pub enum VersionError {
    MalformedMajor,
    MalformedMinor,
    MalformedPatch,
}

/// Reads the client's version from the text of its three parts, the
/// package's major, minor and patch numbers; the first part that is no byte
/// in decimal is reported.
pub fn get_client_version(major: &str, minor: &str, patch: &str) -> (r: Result<
    [u8; 3],
    VersionError,
>)
    ensures
        parse_u8_spec(major@) is None ==> r == Err::<[u8; 3], VersionError>(
            VersionError::MalformedMajor,
        ),
        parse_u8_spec(major@) is Some && parse_u8_spec(minor@) is None ==> r == Err::<
            [u8; 3],
            VersionError,
        >(VersionError::MalformedMinor),
        parse_u8_spec(major@) is Some && parse_u8_spec(minor@) is Some && parse_u8_spec(
            patch@,
        ) is None ==> r == Err::<[u8; 3], VersionError>(VersionError::MalformedPatch),
        parse_u8_spec(major@) is Some && parse_u8_spec(minor@) is Some && parse_u8_spec(
            patch@,
        ) is Some ==> r is Ok,
        r is Ok ==> parse_u8_spec(major@) is Some && parse_u8_spec(minor@) is Some
            && parse_u8_spec(patch@) is Some,
        r matches Ok(v) ==> v@ == seq![
            parse_u8_spec(major@)->0,
            parse_u8_spec(minor@)->0,
            parse_u8_spec(patch@)->0,
        ],
{
    let major = match parse_u8(major) {
        Some(v) => v,
        None => return Err(VersionError::MalformedMajor),
    };
    let minor = match parse_u8(minor) {
        Some(v) => v,
        None => return Err(VersionError::MalformedMinor),
    };
    let patch = match parse_u8(patch) {
        Some(v) => v,
        None => return Err(VersionError::MalformedPatch),
    };
    let v = [major, minor, patch];
    assert(v@ =~= seq![major, minor, patch]);
    Ok(v)
}

} // verus!
