//! Release versions of the form `X.Y.Z`, with an optional `v` or `V` prefix,
//! and which of two is newer.

use vstd::prelude::*;
use vstd::string::*;

verus! {

/// What `str::trim` leaves of `s`.
pub uninterp spec fn trimmed(s: Seq<char>) -> Seq<char>;

/// Relies on `str::trim`: the text without leading and trailing whitespace.
#[verifier::external_body]
pub(crate) fn trim<'a>(s: &'a str) -> (r: &'a str)
    ensures
        r@ == trimmed(s@),
{
    s.trim()
}

/// `s` without the run of `c` it starts with.
pub open spec fn strip_leading(s: Seq<char>, c: char) -> Seq<char>
    decreases s.len(),
{
    if s.len() > 0 && s[0] == c {
        strip_leading(s.drop_first(), c)
    } else {
        s
    }
}

/// Whether `c` is one of the ASCII digits `0` to `9`.
pub open spec fn is_digit(c: char) -> bool {
    '0' <= c <= '9'
}

/// The pieces of `s` between the occurrences of `sep`; one piece more than
/// there are separators.
pub open spec fn split_on(s: Seq<char>, sep: char) -> Seq<Seq<char>>
    decreases s.len(),
{
    if s.len() == 0 {
        seq![Seq::empty()]
    } else {
        let rest = split_on(s.drop_last(), sep);
        if s.last() == sep {
            rest.push(Seq::empty())
        } else {
            rest.update(rest.len() - 1, rest.last().push(s.last()))
        }
    }
}

/// The value of the decimal digits `s`.
pub open spec fn digits_value(s: Seq<char>) -> int
    decreases s.len(),
{
    if s.len() == 0 {
        0
    } else {
        digits_value(s.drop_last()) * 10 + (s.last() as u32 - '0' as u32)
    }
}

/// The number that `s` spells as a `u32`: an optional `+`, then one or more
/// decimal digits of a value that fits.
pub open spec fn parsed_u32(s: Seq<char>) -> Option<u32> {
    let d = if s.len() > 0 && s[0] == '+' {
        s.drop_first()
    } else {
        s
    };
    if d.len() > 0 && (forall|i: int| 0 <= i < d.len() ==> is_digit(#[trigger] d[i]))
        && digits_value(d) <= u32::MAX {
        Some(digits_value(d) as u32)
    } else {
        None
    }
}

/// Relies on `str::parse::<u32>`: an optional `+` sign followed by decimal
/// digits only, of a value that fits; anything else is an error.
#[verifier::external_body]
fn parse_u32(s: &str) -> (r: Option<u32>)
    ensures
        r == parsed_u32(s@),
{
    s.parse::<u32>().ok()
}

/// The texts of a sequence of string slices.
pub open spec fn texts<'a>(v: Seq<&'a str>) -> Seq<Seq<char>> {
    v.map_values(|p: &'a str| p@)
}

/// `s` without the run of `c` it starts with.
fn strip_leading_char<'a>(s: &'a str, c: char) -> (r: &'a str)
    ensures
        r@ == strip_leading(s@, c),
{
    let n = s.unicode_len();
    let mut i: usize = 0;
    assert(s@.subrange(0, n as int) =~= s@);
    while i < n
        invariant
            i <= n,
            n == s@.len(),
            strip_leading(s@, c) == strip_leading(s@.subrange(i as int, n as int), c),
        ensures
            strip_leading(s@, c) == s@.subrange(i as int, n as int),
        decreases n - i,
    {
        if s.get_char(i) != c {
            assert(s@.subrange(i as int, n as int)[0] == s@[i as int]);
            break;
        }
        assert(s@.subrange(i as int, n as int).drop_first() =~= s@.subrange(i + 1, n as int));
        i = i + 1;
    }
    s.substring_char(i, n)
}

/// The pieces of `s` between its dots.
fn split_dots<'a>(s: &'a str) -> (r: Vec<&'a str>)
    ensures
        texts(r@) == split_on(s@, '.'),
{
    let n = s.unicode_len();
    let mut parts: Vec<&'a str> = Vec::new();
    let mut start: usize = 0;
    let mut i: usize = 0;
    assert(s@.subrange(0, 0) =~= Seq::<char>::empty());
    assert(texts(parts@).push(s@.subrange(0, 0)) =~= seq![Seq::<char>::empty()]);
    while i < n
        invariant
            start <= i <= n,
            n == s@.len(),
            split_on(s@.subrange(0, i as int), '.') == texts(parts@).push(
                s@.subrange(start as int, i as int),
            ),
        decreases n - i,
    {
        let c = s.get_char(i);
        let ghost before = parts@;
        let ghost old_start = start;
        assert(s@.subrange(0, i + 1).drop_last() =~= s@.subrange(0, i as int));
        assert(s@.subrange(0, i + 1).last() == c);
        if c == '.' {
            parts.push(s.substring_char(start, i));
            start = i + 1;
            assert(texts(parts@) =~= texts(before).push(s@.subrange(old_start as int, i as int)));
            assert(s@.subrange(start as int, i + 1) =~= Seq::<char>::empty());
            assert(texts(parts@).push(s@.subrange(start as int, i + 1)) == split_on(
                s@.subrange(0, i + 1),
                '.',
            ));
        } else {
            let ghost rest = split_on(s@.subrange(0, i as int), '.');
            let ghost piece = s@.subrange(start as int, i + 1);
            assert(piece =~= s@.subrange(start as int, i as int).push(c));
            assert(rest.update(rest.len() - 1, rest.last().push(c)) =~= texts(parts@).push(piece));
            assert(texts(parts@).push(piece) == split_on(s@.subrange(0, i + 1), '.'));
        }
        i = i + 1;
    }
    parts.push(s.substring_char(start, n));
    assert(s@.subrange(0, n as int) =~= s@);
    assert(texts(parts@) =~= split_on(s@, '.'));
    parts
}

/// A release version: major, minor and patch numbers.
pub type Version = (u32, u32, u32);

/// What reading `original` as a version gives, where `text` is what
/// `str::trim` leaves of it: the numbers, or the message of the error.
pub open spec fn version_outcome(original: Seq<char>, text: Seq<char>) -> Result<Version, Seq<char>> {
    let clean = strip_leading(strip_leading(text, 'v'), 'V');
    let parts = split_on(clean, '.');
    if !(clean.len() > 0 && is_digit(clean[0])) {
        Err("Invalid version format: "@ + original + " (must start with a number)"@)
    } else if parts.len() != 3 {
        Err("Invalid version format: "@ + original + " (must be in format X.Y.Z)"@)
    } else if parsed_u32(parts[0]) is None {
        Err("Invalid major version: "@ + parts[0])
    } else if parsed_u32(parts[1]) is None {
        Err("Invalid minor version: "@ + parts[1])
    } else if parsed_u32(parts[2]) is None {
        Err("Invalid patch version: "@ + parts[2])
    } else {
        Ok((parsed_u32(parts[0])->Some_0, parsed_u32(parts[1])->Some_0, parsed_u32(parts[2])->Some_0))
    }
}

/// A result with its error message as text.
pub open spec fn outcome_text<T>(r: Result<T, String>) -> Result<T, Seq<char>> {
    match r {
        Ok(v) => Ok(v),
        Err(e) => Err(e@),
    }
}

/// `a` followed by `b`.
fn joined(a: &str, b: &str) -> (r: String)
    ensures
        r@ == a@ + b@,
{
    let mut m = String::from_str(a);
    m.append(b);
    m
}

/// Reads a version from `trimmed_text`, the text that trimming
/// `version_str` leaves; error messages quote `version_str`.
pub fn parse_trimmed_version(version_str: &str, trimmed_text: &str) -> (r: Result<Version, String>)
    ensures
        outcome_text(r) == version_outcome(version_str@, trimmed_text@),
{
    let clean = strip_leading_char(strip_leading_char(trimmed_text, 'v'), 'V');
    let starts_with_digit = clean.unicode_len() > 0 && {
        let c = clean.get_char(0);
        '0' <= c && c <= '9'
    };
    if !starts_with_digit {
        let mut m = joined("Invalid version format: ", version_str);
        m.append(" (must start with a number)");
        return Err(m);
    }
    let parts = split_dots(clean);
    assert(parts@.len() == texts(parts@).len());
    if parts.len() != 3 {
        let mut m = joined("Invalid version format: ", version_str);
        m.append(" (must be in format X.Y.Z)");
        return Err(m);
    }
    assert(texts(parts@)[0] == parts@[0]@);
    assert(texts(parts@)[1] == parts@[1]@);
    assert(texts(parts@)[2] == parts@[2]@);
    let major = match parse_u32(parts[0]) {
        Some(v) => v,
        None => return Err(joined("Invalid major version: ", parts[0])),
    };
    let minor = match parse_u32(parts[1]) {
        Some(v) => v,
        None => return Err(joined("Invalid minor version: ", parts[1])),
    };
    let patch = match parse_u32(parts[2]) {
        Some(v) => v,
        None => return Err(joined("Invalid patch version: ", parts[2])),
    };
    Ok((major, minor, patch))
}

/// Reads a version such as `v1.2.3`: surrounding whitespace and a leading
/// run of `v` and then of `V` are ignored, and three dot-separated numbers
/// must follow.
pub fn parse_version(version_str: &str) -> (r: Result<Version, String>)
    ensures
        outcome_text(r) == version_outcome(version_str@, trimmed(version_str@)),
{
    parse_trimmed_version(version_str, trim(version_str))
}

/// Whether `latest` comes after `current`, comparing major, then minor, then
/// patch numbers.
pub open spec fn newer(current: Version, latest: Version) -> bool {
    ||| latest.0 > current.0
    ||| latest.0 == current.0 && latest.1 > current.1
    ||| latest.0 == current.0 && latest.1 == current.1 && latest.2 > current.2
}

/// Whether the version `latest` comes after `current`.
pub fn is_newer_release(current: Version, latest: Version) -> (r: bool)
    ensures
        r == newer(current, latest),
{
    if latest.0 > current.0 {
        return true;
    } else if latest.0 < current.0 {
        return false;
    }
    if latest.1 > current.1 {
        return true;
    } else if latest.1 < current.1 {
        return false;
    }
    latest.2 > current.2
}

/// What comparing the versions `current` and `latest` gives, where each is
/// read from what trimming leaves of it: the first error met, or whether
/// `latest` is newer.
pub open spec fn comparison_outcome(current: Seq<char>, latest: Seq<char>) -> Result<bool, Seq<char>> {
    match version_outcome(current, trimmed(current)) {
        Err(e) => Err(e),
        Ok(c) => match version_outcome(latest, trimmed(latest)) {
            Err(e) => Err(e),
            Ok(l) => Ok(newer(c, l)),
        },
    }
}

/// Reads both versions and tells whether `latest` is newer than `current`.
pub fn is_version_newer(current: &str, latest: &str) -> (r: Result<bool, String>)
    ensures
        outcome_text(r) == comparison_outcome(current@, latest@),
{
    let c = match parse_version(current) {
        Ok(v) => v,
        Err(e) => return Err(e),
    };
    let l = match parse_version(latest) {
        Ok(v) => v,
        Err(e) => return Err(e),
    };
    Ok(is_newer_release(c, l))
}

} // verus!
