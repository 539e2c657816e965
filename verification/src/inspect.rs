//! Inspection of the locally installed binary's version.
//!
//! The binary itself is the authoritative source when it runs: the last
//! whitespace-separated token of its version-query output is parsed. When
//! the query fails or its output does not parse, the sidecar record written
//! at download time is the fallback. When both fail, the version is
//! `Unknown`, which the staleness decision treats as "assume outdated".
//!
//! Whitespace here is the ASCII kind (space, tab, line feed, carriage
//! return), a documented simplification of full Unicode whitespace.

use vstd::prelude::*;
use crate::version::SemanticVersion;
use crate::version::spec_version_of;
use crate::version::parse_version;

verus! {

/// What is known of the installed binary's version.
///
/// `Unknown` is not a fault: it means "assume outdated", so the next
/// staleness check fetches rather than trusts a binary it cannot read.
#[derive(Clone, Copy, Debug, PartialEq, Eq, Structural)]
pub enum LocalVersion {
    Known(SemanticVersion),
    Unknown,
}

/// An ASCII whitespace character.
pub open spec fn is_space(c: char) -> bool {
    c == ' ' || c == '\t' || c == '\n' || c == '\r'
}

/// The string with trailing whitespace removed.
pub open spec fn spec_trim_end(s: Seq<char>) -> Seq<char>
    decreases s.len(),
{
    if s.len() > 0 && is_space(s.last()) {
        spec_trim_end(s.drop_last())
    } else {
        s
    }
}

/// The string with leading whitespace removed.
pub open spec fn spec_trim_start(s: Seq<char>) -> Seq<char>
    decreases s.len(),
{
    if s.len() > 0 && is_space(s[0]) {
        spec_trim_start(s.subrange(1, s.len() as int))
    } else {
        s
    }
}

/// The string with whitespace removed at both ends.
pub open spec fn spec_trim(s: Seq<char>) -> Seq<char> {
    spec_trim_start(spec_trim_end(s))
}

/// The maximal run of non-whitespace characters ending the string.
pub open spec fn spec_nonspace_suffix(s: Seq<char>) -> Seq<char>
    decreases s.len(),
{
    if s.len() == 0 || is_space(s.last()) {
        Seq::empty()
    } else {
        spec_nonspace_suffix(s.drop_last()).push(s.last())
    }
}

/// The last whitespace-separated token, if the string has one.
pub open spec fn spec_last_token(s: Seq<char>) -> Option<Seq<char>>
    decreases s.len(),
{
    if s.len() == 0 {
        None
    } else if is_space(s.last()) {
        spec_last_token(s.drop_last())
    } else {
        Some(spec_nonspace_suffix(s))
    }
}

fn char_is_space(c: char) -> (r: bool)
    ensures
        r == is_space(c),
{
    c == ' ' || c == '\t' || c == '\n' || c == '\r'
}

/// The string with whitespace trimmed at both ends.
pub fn trimmed<'a>(s: &'a str) -> (r: &'a str)
    ensures
        r@ == spec_trim(s@),
{
    let n = s.unicode_len();
    let mut e = n;
    proof {
        assert(s@.take(n as int) =~= s@);
    }
    while e > 0 && char_is_space(s.get_char(e - 1))
        invariant
            0 <= e <= n == s@.len(),
            spec_trim_end(s@) == spec_trim_end(s@.take(e as int)),
        decreases e,
    {
        proof {
            assert(s@.take(e as int).drop_last() =~= s@.take(e - 1));
        }
        e -= 1;
    }
    proof {
        if e == 0 {
            assert(s@.take(0) =~= Seq::<char>::empty());
        }
        assert(spec_trim_end(s@) == s@.take(e as int));
    }
    let mut b: usize = 0;
    while b < e && char_is_space(s.get_char(b))
        invariant
            0 <= b <= e <= n == s@.len(),
            spec_trim_end(s@) == s@.take(e as int),
            spec_trim_start(s@.take(e as int)) == spec_trim_start(
                s@.subrange(b as int, e as int),
            ),
        decreases e - b,
    {
        proof {
            assert(s@.subrange(b as int, e as int).subrange(
                1,
                s@.subrange(b as int, e as int).len() as int,
            ) =~= s@.subrange(b + 1, e as int));
        }
        b += 1;
    }
    proof {
        assert(s@.take(e as int) =~= s@.subrange(0, e as int));
        if b == e {
            assert(s@.subrange(b as int, e as int) =~= Seq::<char>::empty());
        }
        assert(spec_trim_start(s@.take(e as int)) == s@.subrange(b as int, e as int));
    }
    s.substring_char(b, e)
}

/// The last whitespace-separated token of the string, if any.
pub fn last_token<'a>(s: &'a str) -> (r: Option<&'a str>)
    ensures
        (match r {
            Some(t) => spec_last_token(s@) == Some(t@),
            None => spec_last_token(s@) is None,
        }),
{
    let n = s.unicode_len();
    let mut e = n;
    proof {
        assert(s@.take(n as int) =~= s@);
    }
    while e > 0 && char_is_space(s.get_char(e - 1))
        invariant
            0 <= e <= n == s@.len(),
            spec_last_token(s@) == spec_last_token(s@.take(e as int)),
        decreases e,
    {
        proof {
            assert(s@.take(e as int).drop_last() =~= s@.take(e - 1));
        }
        e -= 1;
    }
    if e == 0 {
        proof {
            assert(s@.take(0) =~= Seq::<char>::empty());
        }
        return None;
    }
    assert(spec_last_token(s@) == Some(spec_nonspace_suffix(s@.take(e as int))));
    let mut b = e;
    while b > 0 && !char_is_space(s.get_char(b - 1))
        invariant
            0 <= b <= e <= n == s@.len(),
            spec_nonspace_suffix(s@.take(e as int)) =~= spec_nonspace_suffix(s@.take(b as int))
                + s@.subrange(b as int, e as int),
        decreases b,
    {
        proof {
            assert(s@.take(b as int).drop_last() =~= s@.take(b - 1));
            assert(spec_nonspace_suffix(s@.take(b as int)) == spec_nonspace_suffix(
                s@.take(b - 1),
            ).push(s@[b - 1]));
            assert(spec_nonspace_suffix(s@.take(b - 1)).push(s@[b - 1]) + s@.subrange(
                b as int,
                e as int,
            ) =~= spec_nonspace_suffix(s@.take(b - 1)) + s@.subrange(b - 1, e as int));
        }
        b -= 1;
    }
    proof {
        if b == 0 {
            assert(s@.take(0) =~= Seq::<char>::empty());
            assert(spec_nonspace_suffix(Seq::<char>::empty()) =~= Seq::<char>::empty());
        }
        assert(spec_nonspace_suffix(s@.take(b as int)) =~= Seq::<char>::empty());
        assert(spec_nonspace_suffix(s@.take(e as int)) =~= s@.subrange(b as int, e as int));
    }
    Some(s.substring_char(b, e))
}

/// The version a sidecar record denotes: its whole trimmed contents read as
/// a version string, `Unknown` when that does not parse.
pub open spec fn spec_sidecar_version(content: Seq<char>) -> LocalVersion {
    match spec_version_of(spec_trim(content)) {
        Some(v) => LocalVersion::Known(v),
        None => LocalVersion::Unknown,
    }
}

/// The two-tier inspection rule. `query_output` is the standard output of
/// the binary's version query when that invocation succeeded, `None` when
/// it could not run or exited non-zero; `sidecar` is the record's contents
/// when the file could be read.
pub open spec fn spec_local_version(
    query_output: Option<Seq<char>>,
    sidecar: Option<Seq<char>>,
) -> LocalVersion {
    let from_query = match query_output {
        Some(out) => match spec_last_token(out) {
            Some(tok) => spec_version_of(tok),
            None => None,
        },
        None => None,
    };
    match from_query {
        Some(v) => LocalVersion::Known(v),
        None => match sidecar {
            Some(content) => spec_sidecar_version(content),
            None => LocalVersion::Unknown,
        },
    }
}

/// Reads a sidecar record.
pub fn sidecar_version(content: &str) -> (r: LocalVersion)
    ensures
        r == spec_sidecar_version(content@),
{
    let t = trimmed(content);
    match parse_version(t) {
        Ok(v) => LocalVersion::Known(v),
        Err(_) => LocalVersion::Unknown,
    }
}

/// Determines the installed binary's version from what was observed.
///
/// The query output, when present and carrying a parsable last token, wins;
/// otherwise the sidecar record is read; otherwise the version is `Unknown`.
pub fn local_version(query_output: Option<&str>, sidecar: Option<&str>) -> (r: LocalVersion)
    ensures
        r == spec_local_version(
            match query_output {
                Some(q) => Some(q@),
                None => None,
            },
            match sidecar {
                Some(c) => Some(c@),
                None => None,
            },
        ),
{
    if let Some(out) = query_output {
        if let Some(tok) = last_token(out) {
            if let Ok(v) = parse_version(tok) {
                return LocalVersion::Known(v);
            }
        }
    }
    match sidecar {
        Some(content) => sidecar_version(content),
        None => LocalVersion::Unknown,
    }
}

} // verus!
