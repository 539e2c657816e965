//! Parsing, ordering and formatting of semantic versions.
//!
//! A version string is `MAJOR.MINOR.PATCH`: three decimal numbers without
//! leading zeroes, separated by dots. Pre-release and build metadata are
//! rejected rather than ordered, a documented simplification of full semver.
//! Registry tags may carry a conventional leading `v`, which tag parsing
//! strips before reading the numbers.

use vstd::prelude::*;
use crate::error::UpdateError;

verus! {

/// A parsed semantic version, totally ordered by (major, minor, patch).
#[derive(Clone, Copy, Debug, PartialEq, Eq, Structural)]
pub struct SemanticVersion {
    pub major: u64,
    pub minor: u64,
    pub patch: u64,
}

/// A decimal digit.
pub open spec fn is_digit(c: char) -> bool {
    '0' as u32 <= c as u32 && c as u32 <= '9' as u32
}

/// The numeric value of a decimal digit.
pub open spec fn digit_val(c: char) -> nat {
    (c as u32 - '0' as u32) as nat
}

/// A well-formed decimal number: non-empty, digits only, no leading zero.
pub open spec fn is_num_seq(s: Seq<char>) -> bool {
    &&& s.len() > 0
    &&& forall|i: int| 0 <= i < s.len() ==> is_digit(#[trigger] s[i])
    &&& s.len() > 1 ==> s[0] != '0'
}

/// The value of a digit sequence read as a decimal number.
pub open spec fn num_val(s: Seq<char>) -> nat
    decreases s.len(),
{
    if s.len() == 0 {
        0
    } else {
        num_val(s.drop_last()) * 10 + digit_val(s.last())
    }
}

/// The index of the first `.` at or after `from`, if any.
pub open spec fn find_dot(s: Seq<char>, from: int) -> Option<int>
    decreases s.len() - from,
{
    if from < 0 || from >= s.len() {
        None
    } else if s[from] == '.' {
        Some(from)
    } else {
        find_dot(s, from + 1)
    }
}

/// The three numbers of a version string, unbounded; `None` when the string
/// is not three well-formed decimal numbers joined by exactly two dots.
pub open spec fn spec_parse_triple(s: Seq<char>) -> Option<(nat, nat, nat)> {
    match find_dot(s, 0) {
        None => None,
        Some(i) => match find_dot(s, i + 1) {
            None => None,
            Some(j) => {
                let a = s.subrange(0, i);
                let b = s.subrange(i + 1, j);
                let c = s.subrange(j + 1, s.len() as int);
                if is_num_seq(a) && is_num_seq(b) && is_num_seq(c) {
                    Some((num_val(a), num_val(b), num_val(c)))
                } else {
                    None
                }
            },
        },
    }
}

/// The version a string denotes; `None` when the string is malformed or a
/// number does not fit the machine representation.
pub open spec fn spec_version_of(s: Seq<char>) -> Option<SemanticVersion> {
    match spec_parse_triple(s) {
        None => None,
        Some(t) => if t.0 <= u64::MAX && t.1 <= u64::MAX && t.2 <= u64::MAX {
            Some(SemanticVersion { major: t.0 as u64, minor: t.1 as u64, patch: t.2 as u64 })
        } else {
            None
        },
    }
}

/// A tag string with its conventional leading `v`, if any, removed.
pub open spec fn spec_strip_tag(s: Seq<char>) -> Seq<char> {
    if s.len() > 0 && s[0] == 'v' {
        s.subrange(1, s.len() as int)
    } else {
        s
    }
}

/// The version a registry tag denotes.
pub open spec fn spec_tag_version(s: Seq<char>) -> Option<SemanticVersion> {
    spec_version_of(spec_strip_tag(s))
}

/// Strict precedence: major first, then minor, then patch.
pub open spec fn spec_lt(a: SemanticVersion, b: SemanticVersion) -> bool {
    ||| a.major < b.major
    ||| (a.major == b.major && a.minor < b.minor)
    ||| (a.major == b.major && a.minor == b.minor && a.patch < b.patch)
}

proof fn lemma_num_val_prefix(s: Seq<char>, k: int)
    requires
        0 <= k <= s.len(),
    ensures
        num_val(s) >= num_val(s.take(k)),
    decreases s.len() - k,
{
    if k == s.len() {
        assert(s.take(k) =~= s);
    } else {
        lemma_num_val_prefix(s, k + 1);
        assert(s.take(k + 1).drop_last() =~= s.take(k));
        assert(s.take(k + 1).last() == s[k]);
    }
}

/// Parses `s[from..to]` as a decimal number fitting a `u64`.
fn parse_num_range(s: &str, from: usize, to: usize) -> (r: Option<u64>)
    requires
        from <= to <= s@.len(),
    ensures
        (match r {
            Some(v) => is_num_seq(s@.subrange(from as int, to as int))
                && num_val(s@.subrange(from as int, to as int)) == v as nat,
            None => !(is_num_seq(s@.subrange(from as int, to as int))
                && num_val(s@.subrange(from as int, to as int)) <= u64::MAX),
        }),
{
    let ghost part = s@.subrange(from as int, to as int);
    if from == to {
        return None;
    }
    if to - from > 1 && s.get_char(from) == '0' {
        proof {
            assert(part[0] == s@[from as int]);
        }
        return None;
    }
    let mut acc: u64 = 0;
    let mut k = from;
    while k < to
        invariant
            from <= k <= to <= s@.len(),
            part == s@.subrange(from as int, to as int),
            forall|m: int| from <= m < k ==> is_digit(#[trigger] s@[m]),
            acc as nat == num_val(s@.subrange(from as int, k as int)),
        decreases to - k,
    {
        let c = s.get_char(k);
        if !(c as u32 >= '0' as u32 && c as u32 <= '9' as u32) {
            proof {
                assert(part[k - from] == s@[k as int]);
            }
            return None;
        }
        let d: u64 = (c as u32 - '0' as u32) as u64;
        proof {
            assert(s@.subrange(from as int, k + 1).drop_last() =~= s@.subrange(
                from as int,
                k as int,
            ));
            assert(s@.subrange(from as int, k + 1).last() == s@[k as int]);
        }
        if acc > (u64::MAX - d) / 10 {
            proof {
                assert(acc * 10 + d > u64::MAX) by (nonlinear_arith)
                    requires
                        acc > (u64::MAX - d) / 10,
                        d <= 9,
                ;
                lemma_num_val_prefix(part, k + 1 - from);
                assert(part.take(k + 1 - from) =~= s@.subrange(from as int, k + 1));
            }
            return None;
        }
        acc = acc * 10 + d;
        k += 1;
    }
    proof {
        assert(part =~= s@.subrange(from as int, k as int));
    }
    Some(acc)
}

/// Parses a version string.
///
/// Returns the denoted version exactly when the string is well formed and
/// each number fits a `u64`; every other string is rejected as
/// `InvalidVersionFormat`, never read as a default version.
pub fn parse_version(s: &str) -> (r: Result<SemanticVersion, UpdateError>)
    ensures
        (match r {
            Ok(v) => spec_version_of(s@) == Some(v),
            Err(e) => spec_version_of(s@) is None && e == UpdateError::InvalidVersionFormat,
        }),
{
    let n = s.unicode_len();
    let mut i: usize = 0;
    while i < n && s.get_char(i) != '.'
        invariant
            0 <= i <= n == s@.len(),
            find_dot(s@, 0) == find_dot(s@, i as int),
        decreases n - i,
    {
        i += 1;
    }
    if i == n {
        assert(find_dot(s@, 0) is None);
        return Err(UpdateError::InvalidVersionFormat);
    }
    assert(find_dot(s@, 0) == Some(i as int));
    let mut j: usize = i + 1;
    while j < n && s.get_char(j) != '.'
        invariant
            i + 1 <= j <= n == s@.len(),
            find_dot(s@, i + 1) == find_dot(s@, j as int),
        decreases n - j,
    {
        j += 1;
    }
    if j == n {
        assert(find_dot(s@, i + 1) is None);
        return Err(UpdateError::InvalidVersionFormat);
    }
    assert(find_dot(s@, i + 1) == Some(j as int));
    let major = parse_num_range(s, 0, i);
    let minor = parse_num_range(s, i + 1, j);
    let patch = parse_num_range(s, j + 1, n);
    match (major, minor, patch) {
        (Some(a), Some(b), Some(c)) => Ok(SemanticVersion { major: a, minor: b, patch: c }),
        _ => Err(UpdateError::InvalidVersionFormat),
    }
}

/// Parses a registry tag: a leading `v`, if present, is stripped first.
pub fn parse_tag(s: &str) -> (r: Result<SemanticVersion, UpdateError>)
    ensures
        (match r {
            Ok(v) => spec_tag_version(s@) == Some(v),
            Err(e) => spec_tag_version(s@) is None && e == UpdateError::InvalidVersionFormat,
        }),
{
    let n = s.unicode_len();
    if n > 0 && s.get_char(0) == 'v' {
        let rest = s.substring_char(1, n);
        parse_version(rest)
    } else {
        parse_version(s)
    }
}

/// The character of a decimal digit.
pub open spec fn char_of_digit(d: nat) -> char {
    if d == 0 {
        '0'
    } else if d == 1 {
        '1'
    } else if d == 2 {
        '2'
    } else if d == 3 {
        '3'
    } else if d == 4 {
        '4'
    } else if d == 5 {
        '5'
    } else if d == 6 {
        '6'
    } else if d == 7 {
        '7'
    } else if d == 8 {
        '8'
    } else {
        '9'
    }
}

/// The decimal rendering of a number, most significant digit first.
pub open spec fn spec_dec(n: nat) -> Seq<char>
    decreases n,
{
    if n < 10 {
        seq![char_of_digit(n)]
    } else {
        spec_dec(n / 10).push(char_of_digit(n % 10))
    }
}

/// The canonical string form of a version: the three numbers in decimal,
/// joined by dots, nothing else.
pub open spec fn spec_canonical(v: SemanticVersion) -> Seq<char> {
    spec_dec(v.major as nat) + seq!['.'] + spec_dec(v.minor as nat) + seq!['.'] + spec_dec(
        v.patch as nat,
    )
}

fn digit_str(d: u64) -> (r: &'static str)
    requires
        d < 10,
    ensures
        r@ == seq![char_of_digit(d as nat)],
{
    let r: &'static str = if d == 0 {
        "0"
    } else if d == 1 {
        "1"
    } else if d == 2 {
        "2"
    } else if d == 3 {
        "3"
    } else if d == 4 {
        "4"
    } else if d == 5 {
        "5"
    } else if d == 6 {
        "6"
    } else if d == 7 {
        "7"
    } else if d == 8 {
        "8"
    } else {
        "9"
    };
    proof {
        reveal_strlit("0");
        reveal_strlit("1");
        reveal_strlit("2");
        reveal_strlit("3");
        reveal_strlit("4");
        reveal_strlit("5");
        reveal_strlit("6");
        reveal_strlit("7");
        reveal_strlit("8");
        reveal_strlit("9");
        assert(r@ =~= seq![char_of_digit(d as nat)]);
    }
    r
}

fn append_dec(buf: &mut String, n: u64)
    ensures
        final(buf)@ == old(buf)@ + spec_dec(n as nat),
    decreases n,
{
    if n >= 10 {
        append_dec(buf, n / 10);
    }
    let s = digit_str(n % 10);
    buf.append(s);
    proof {
        if n < 10 {
            assert(buf@ =~= old(buf)@ + spec_dec(n as nat));
        } else {
            assert(spec_dec(n as nat) == spec_dec(n as nat / 10).push(char_of_digit(n as nat % 10)));
            assert(buf@ =~= old(buf)@ + spec_dec(n as nat));
        }
    }
}

/// Renders a version in canonical `MAJOR.MINOR.PATCH` form.
pub fn canonical_string(v: &SemanticVersion) -> (r: String)
    ensures
        r@ == spec_canonical(*v),
{
    let mut buf = String::new();
    append_dec(&mut buf, v.major);
    buf.append(".");
    append_dec(&mut buf, v.minor);
    buf.append(".");
    append_dec(&mut buf, v.patch);
    proof {
        reveal_strlit(".");
        assert(buf@ =~= spec_canonical(*v));
    }
    buf
}

/// Renders a number in decimal.
pub fn decimal_string(n: u64) -> (r: String)
    ensures
        r@ == spec_dec(n as nat),
{
    let mut buf = String::new();
    append_dec(&mut buf, n);
    proof {
        assert(buf@ =~= spec_dec(n as nat));
    }
    buf
}

/// Every digit's character reads back as that digit.
proof fn lemma_char_of_digit_val(d: nat)
    requires
        d < 10,
    ensures
        is_digit(char_of_digit(d)),
        digit_val(char_of_digit(d)) == d,
{
}

/// A decimal rendering is a well-formed number and reads back as its value.
proof fn lemma_dec_is_num(n: nat)
    ensures
        is_num_seq(spec_dec(n)),
        num_val(spec_dec(n)) == n,
        n > 0 ==> spec_dec(n)[0] != '0',
    decreases n,
{
    if n < 10 {
        lemma_char_of_digit_val(n);
        let s = spec_dec(n);
        assert(s.drop_last() =~= Seq::<char>::empty());
        assert(s.last() == char_of_digit(n));
        assert(num_val(Seq::<char>::empty()) == 0);
    } else {
        lemma_dec_is_num(n / 10);
        lemma_char_of_digit_val(n % 10);
        let s = spec_dec(n / 10);
        let c = char_of_digit(n % 10);
        assert(s.push(c).drop_last() =~= s);
        assert(s.push(c).last() == c);
        assert(num_val(s.push(c)) == (n / 10) * 10 + n % 10);
        assert(forall|i: int|
            0 <= i < s.push(c).len() ==> is_digit(#[trigger] s.push(c)[i])) by {
            assert(forall|i: int| 0 <= i < s.len() ==> #[trigger] s.push(c)[i] == s[i]);
        }
        assert(s.push(c)[0] == s[0]);
    }
}

proof fn lemma_find_dot_found(s: Seq<char>, from: int, i: int)
    requires
        0 <= from <= i < s.len(),
        s[i] == '.',
        forall|k: int| from <= k < i ==> s[k] != '.',
    ensures
        find_dot(s, from) == Some(i),
    decreases i - from,
{
    if from < i {
        lemma_find_dot_found(s, from + 1, i);
    }
}

/// Re-parsing the canonical rendering of any version yields that version:
/// formatting loses nothing and parsing is exact.
pub proof fn lemma_canonical_round_trip(v: SemanticVersion)
    ensures
        spec_version_of(spec_canonical(v)) == Some(v),
{
    let a = spec_dec(v.major as nat);
    let b = spec_dec(v.minor as nat);
    let c = spec_dec(v.patch as nat);
    lemma_dec_is_num(v.major as nat);
    lemma_dec_is_num(v.minor as nat);
    lemma_dec_is_num(v.patch as nat);
    let s = spec_canonical(v);
    let i = a.len() as int;
    let j = i + 1 + b.len() as int;
    assert(s.len() == a.len() + 1 + b.len() + 1 + c.len());
    assert(forall|k: int| 0 <= k < i ==> s[k] == a[k]);
    assert(s[i] == '.');
    assert(forall|k: int| i + 1 <= k < j ==> s[k] == b[k - (i + 1)]);
    assert(s[j] == '.');
    assert(forall|k: int| j + 1 <= k < s.len() ==> s[k] == c[k - (j + 1)]);
    assert(forall|k: int| 0 <= k < i ==> #[trigger] s[k] != '.') by {
        assert(forall|k: int| 0 <= k < a.len() ==> is_digit(#[trigger] a[k]));
    }
    assert(forall|k: int| i + 1 <= k < j ==> #[trigger] s[k] != '.') by {
        assert(forall|k: int| 0 <= k < b.len() ==> is_digit(#[trigger] b[k]));
    }
    lemma_find_dot_found(s, 0, i);
    lemma_find_dot_found(s, i + 1, j);
    assert(s.subrange(0, i) =~= a);
    assert(s.subrange(i + 1, j) =~= b);
    assert(s.subrange(j + 1, s.len() as int) =~= c);
}

/// A tag with the conventional leading `v` and the same tag without it
/// denote the same version.
pub proof fn lemma_tag_prefix(s: Seq<char>)
    requires
        s.len() == 0 || s[0] != 'v',
    ensures
        spec_tag_version(seq!['v'] + s) == spec_tag_version(s),
{
    let t = seq!['v'] + s;
    assert(t[0] == 'v');
    assert(t.subrange(1, t.len() as int) =~= s);
}

/// Version precedence is transitive.
pub proof fn lemma_lt_transitive(a: SemanticVersion, b: SemanticVersion, c: SemanticVersion)
    requires
        spec_lt(a, b),
        spec_lt(b, c),
    ensures
        spec_lt(a, c),
{
}

/// Version precedence is total: of two versions, exactly one of
/// "first precedes second", "second precedes first", "both equal" holds.
pub proof fn lemma_lt_total(a: SemanticVersion, b: SemanticVersion)
    ensures
        spec_lt(a, b) || spec_lt(b, a) || a == b,
        spec_lt(a, b) ==> !spec_lt(b, a) && a != b,
        spec_lt(b, a) ==> !spec_lt(a, b) && a != b,
        a == b ==> !spec_lt(a, b) && !spec_lt(b, a),
{
}

impl SemanticVersion {
    /// Strict precedence test: does `self` precede `other`?
    pub fn lt(&self, other: &SemanticVersion) -> (r: bool)
        ensures
            r == spec_lt(*self, *other),
    {
        if self.major != other.major {
            self.major < other.major
        } else if self.minor != other.minor {
            self.minor < other.minor
        } else {
            self.patch < other.patch
        }
    }
}

} // verus!
