//! Independent `major.minor` version identifiers for the canonical schema and the
//! data-provider interface, the compatibility check a host runs before loading a
//! plugin, and the `"major.minor"` text form of a version.

use vstd::prelude::*;

verus! {

/// A `major.minor` version identifier for either the canonical schema or the
/// data-provider interface.
#[derive(Debug, Clone, Copy, PartialEq, Eq, Structural, PartialOrd, Ord, Hash)]
pub struct Version {
    /// Major version. A mismatch is always incompatible.
    pub major: u16,
    /// Minor version. A host may run a plugin targeting an equal or lower minor version.
    pub minor: u16,
}

/// Error returned when a string is not a `"major.minor"` version; it carries the
/// rejected string.
#[derive(Debug, Clone, PartialEq, Eq)]
pub struct ParseVersionError(String);

impl View for ParseVersionError {
    type V = Seq<char>;

    /// The string that failed to parse.
    closed spec fn view(&self) -> Seq<char> {
        self.0@
    }
}

impl ParseVersionError {
    /// The error for the rejected string `input`.
    pub fn new(input: &str) -> (e: Self)
        ensures
            e@ == input@,
    {
        ParseVersionError(String::from_str(input))
    }

    /// The string that failed to parse.
    pub fn input(&self) -> (s: &str)
        ensures
            s@ == self@,
    {
        self.0.as_str()
    }
}

/// Whether a host supporting `host` may load a plugin built against `target`: the majors
/// agree and the host's minor is at least the plugin's.
pub open spec fn compatible(host: Version, target: Version) -> bool {
    host.major == target.major && host.minor >= target.minor
}

/// An ASCII decimal digit.
pub open spec fn is_digit(c: char) -> bool {
    '0' <= c && c <= '9'
}

/// The value of an ASCII decimal digit.
pub open spec fn digit_value(c: char) -> int {
    (c as int) - ('0' as int)
}

/// The digit character for `d < 10`.
pub open spec fn digit_char(d: nat) -> char {
    ((d + ('0' as int)) as int) as char
}

/// Every character of `s` is an ASCII decimal digit.
pub open spec fn all_digits(s: Seq<char>) -> bool {
    forall|i: int| 0 <= i < s.len() ==> #[trigger] is_digit(s[i])
}

/// The number that a string of decimal digits denotes, most significant digit first.
pub open spec fn digits_value(s: Seq<char>) -> int
    decreases s.len(),
{
    if s.len() == 0 {
        0
    } else {
        digits_value(s.drop_last()) * 10 + digit_value(s.last())
    }
}

/// The `u16` that `s` denotes as an unsigned decimal number: an optional `+` followed by
/// one or more ASCII digits (leading zeros allowed) whose value fits in a `u16`.
pub open spec fn parse_u16_spec(s: Seq<char>) -> Option<u16> {
    let d = if s.len() > 0 && s[0] == '+' {
        s.drop_first()
    } else {
        s
    };
    if d.len() > 0 && all_digits(d) && digits_value(d) <= u16::MAX {
        Some(digits_value(d) as u16)
    } else {
        None
    }
}

/// `i` is the position of the first `.` in `s`.
pub open spec fn is_first_dot(s: Seq<char>, i: int) -> bool {
    &&& 0 <= i < s.len()
    &&& s[i] == '.'
    &&& forall|j: int| 0 <= j < i ==> s[j] != '.'
}

/// The version that `s` denotes: the text before the first `.` is the major version and
/// the whole text after it the minor version, each an unsigned decimal `u16`.
pub open spec fn parse_version_spec(s: Seq<char>) -> Option<Version> {
    if exists|i: int| is_first_dot(s, i) {
        let i = choose|i: int| is_first_dot(s, i);
        match (parse_u16_spec(s.take(i)), parse_u16_spec(s.skip(i + 1))) {
            (Some(major), Some(minor)) => Some(Version { major, minor }),
            _ => None,
        }
    } else {
        None
    }
}

/// The shortest decimal form of `n`, most significant digit first.
pub open spec fn decimal(n: nat) -> Seq<char>
    decreases n,
{
    if n < 10 {
        seq![digit_char(n)]
    } else {
        decimal(n / 10).push(digit_char(n % 10))
    }
}

/// The text form of a version: the decimal major, a `.`, and the decimal minor.
pub open spec fn version_text(v: Version) -> Seq<char> {
    decimal(v.major as nat) + seq!['.'] + decimal(v.minor as nat)
}

/// Every version accepts itself: a plugin built against the host's own version loads.
pub proof fn lemma_compatible_reflexive(v: Version)
    ensures
        compatible(v, v),
{
}

/// Compatibility chains: a host that accepts an intermediate version also accepts every
/// version that the intermediate one accepts, so a newer minor on the host side never
/// loses a plugin an older minor could load.
pub proof fn lemma_compatible_transitive(a: Version, b: Version, c: Version)
    requires
        compatible(a, b),
        compatible(b, c),
    ensures
        compatible(a, c),
{
}

/// A host accepts exactly the plugins of its own major version whose minor version is
/// no higher than its own: a differing major, in either direction, is never accepted,
/// and neither is a higher minor.
pub proof fn lemma_compatible_exactly(host: Version, target: Version)
    ensures
        compatible(host, target) ==> host.major == target.major,
        compatible(host, target) ==> target.minor <= host.minor,
        host.major == target.major && target.minor <= host.minor ==> compatible(host, target),
{
}

/// A digit character names its digit again.
proof fn lemma_digit_char(d: nat)
    requires
        d < 10,
    ensures
        is_digit(digit_char(d)),
        digit_value(digit_char(d)) == d,
{
}

/// `decimal(n)` is a non-empty run of digits that denotes `n`.
proof fn lemma_decimal(n: nat)
    ensures
        decimal(n).len() > 0,
        all_digits(decimal(n)),
        digits_value(decimal(n)) == n,
    decreases n,
{
    if n < 10 {
        lemma_digit_char(n);
        assert(decimal(n).drop_last() =~= Seq::<char>::empty());
        assert(digits_value(decimal(n)) == digits_value(decimal(n).drop_last()) * 10
            + digit_value(decimal(n).last()));
    } else {
        lemma_decimal(n / 10);
        lemma_digit_char(n % 10);
        let s = decimal(n);
        assert(s.drop_last() =~= decimal(n / 10));
        assert(s.last() == digit_char(n % 10));
        assert(digits_value(s) == digits_value(decimal(n / 10)) * 10 + digit_value(s.last()));
        assert((n / 10) * 10 + n % 10 == n);
        assert forall|i: int| 0 <= i < s.len() implies #[trigger] is_digit(s[i]) by {
            if i < s.len() - 1 {
                assert(s[i] == decimal(n / 10)[i]);
            }
        }
    }
}

/// A run of digits denotes a non-negative number.
proof fn lemma_digits_value_nonneg(t: Seq<char>)
    requires
        all_digits(t),
    ensures
        digits_value(t) >= 0,
    decreases t.len(),
{
    if t.len() > 0 {
        assert(all_digits(t.drop_last())) by {
            assert forall|i: int| 0 <= i < t.drop_last().len() implies #[trigger] is_digit(
                t.drop_last()[i],
            ) by {
                assert(is_digit(t[i]));
            }
        }
        lemma_digits_value_nonneg(t.drop_last());
        assert(is_digit(t[t.len() - 1]));
    }
}

/// A prefix of a run of digits denotes no more than the whole run.
proof fn lemma_digits_value_prefix(t: Seq<char>, k: int)
    requires
        all_digits(t),
        0 <= k <= t.len(),
    ensures
        digits_value(t.take(k)) <= digits_value(t),
    decreases t.len(),
{
    if k < t.len() {
        let u = t.drop_last();
        assert(all_digits(u)) by {
            assert forall|i: int| 0 <= i < u.len() implies #[trigger] is_digit(u[i]) by {
                assert(is_digit(t[i]));
            }
        }
        lemma_digits_value_prefix(u, k);
        assert(u.take(k) =~= t.take(k));
        lemma_digits_value_nonneg(u);
        assert(is_digit(t[t.len() - 1]));
    } else {
        assert(t.take(k) =~= t);
    }
}

/// The `u16` that the characters `from..to` of `s` denote as an unsigned decimal number,
/// or `None` where they denote none.
fn parse_u16_in(s: &str, from: usize, to: usize) -> (r: Option<u16>)
    requires
        from <= to <= s@.len(),
    ensures
        r == parse_u16_spec(s@.subrange(from as int, to as int)),
{
    let ghost t = s@.subrange(from as int, to as int);
    let mut start = from;
    if from < to && s.get_char(from) == '+' {
        start = from + 1;
    }
    let ghost d = s@.subrange(start as int, to as int);
    assert(d =~= (if t.len() > 0 && t[0] == '+' {
        t.drop_first()
    } else {
        t
    }));
    if start == to {
        return None;
    }
    let mut acc: u32 = 0;
    let mut i = start;
    assert(s@.subrange(start as int, start as int) =~= Seq::<char>::empty());
    while i < to
        invariant
            from <= start < to <= s@.len(),
            start <= i <= to,
            d == s@.subrange(start as int, to as int),
            t == s@.subrange(from as int, to as int),
            d == (if t.len() > 0 && t[0] == '+' {
                t.drop_first()
            } else {
                t
            }),
            all_digits(s@.subrange(start as int, i as int)),
            acc == digits_value(s@.subrange(start as int, i as int)),
            acc <= 65535,
        decreases to - i,
    {
        let c = s.get_char(i);
        let ghost p = s@.subrange(start as int, i as int);
        let ghost q = s@.subrange(start as int, i + 1);
        assert(q.drop_last() =~= p);
        assert(d[i - start] == c);
        if !('0' <= c && c <= '9') {
            assert(!is_digit(d[i - start]));
            return None;
        }
        let dv = (c as u32) - ('0' as u32);
        acc = acc * 10 + dv;
        assert(all_digits(q)) by {
            assert forall|j: int| 0 <= j < q.len() implies #[trigger] is_digit(q[j]) by {
                if j < p.len() {
                    assert(q[j] == p[j]);
                }
            }
        }
        assert(acc == digits_value(q));
        if acc > 65535 {
            proof {
                if all_digits(d) {
                    lemma_digits_value_prefix(d, i + 1 - start);
                    assert(d.take(i + 1 - start) =~= q);
                }
            }
            return None;
        }
        i += 1;
    }
    assert(s@.subrange(start as int, i as int) =~= d);
    Some(acc as u16)
}

/// The decimal form of a `u16` reads back as that `u16`.
proof fn lemma_parse_decimal(n: u16)
    ensures
        parse_u16_spec(decimal(n as nat)) == Some(n),
{
    lemma_decimal(n as nat);
    let d = decimal(n as nat);
    assert(is_digit(d[0]));
}

/// Reading a version back from its text form gives the same version: for every `v`,
/// parsing `"{major}.{minor}"` yields `v`.
pub proof fn lemma_version_text_round_trip(v: Version)
    ensures
        parse_version_spec(version_text(v)) == Some(v),
{
    let a = decimal(v.major as nat);
    let b = decimal(v.minor as nat);
    let s = version_text(v);
    lemma_decimal(v.major as nat);
    lemma_decimal(v.minor as nat);
    lemma_parse_decimal(v.major);
    lemma_parse_decimal(v.minor);
    let k = a.len() as int;
    assert forall|j: int| 0 <= j < k implies s[j] != '.' by {
        assert(s[j] == a[j]);
        assert(is_digit(a[j]));
    }
    assert(is_first_dot(s, k));
    let i = choose|i: int| is_first_dot(s, i);
    if i < k {
        assert(s[i] == a[i]);
        assert(is_digit(a[i]));
    }
    assert(i == k);
    assert(s.take(k) =~= a);
    assert(s.skip(k + 1) =~= b);
}

/// The one-character text of the digit `d`.
fn digit_text(d: u16) -> (t: &'static str)
    requires
        d < 10,
    ensures
        t@ == seq![digit_char(d as nat)],
{
    proof {
        reveal_strlit("0");
        reveal_strlit("1");
        reveal_strlit("2");
        reveal_strlit("3");
        reveal_strlit("4");
        reveal_strlit("5");
        reveal_strlit("6");
        reveal_strlit("7");
        reveal_strlit("8");
        reveal_strlit("9");
    }
    match d {
        0 => "0",
        1 => "1",
        2 => "2",
        3 => "3",
        4 => "4",
        5 => "5",
        6 => "6",
        7 => "7",
        8 => "8",
        _ => "9",
    }
}

/// Appends the decimal form of `n` to `out`.
fn push_decimal(out: &mut String, n: u16)
    ensures
        final(out)@ == old(out)@ + decimal(n as nat),
    decreases n,
{
    if n >= 10 {
        push_decimal(out, n / 10);
    }
    out.append(digit_text(n % 10));
    assert(decimal(n as nat) =~= if n < 10 {
        seq![digit_char(n as nat)]
    } else {
        decimal((n / 10) as nat).push(digit_char((n % 10) as nat))
    });
}

/// A text that holds a `.` anywhere denotes no `u16`: every character of an accepted
/// text is a digit, except for an optional leading `+`.
pub proof fn lemma_u16_text_shape(t: Seq<char>)
    ensures
        parse_u16_spec(t) is Some ==> t.len() > 0 && forall|j: int|
            0 <= j < t.len() ==> is_digit(#[trigger] t[j]) || (j == 0 && t[j] == '+'),
{
    if parse_u16_spec(t) is Some {
        let d = if t.len() > 0 && t[0] == '+' {
            t.drop_first()
        } else {
            t
        };
        assert forall|j: int| 0 <= j < t.len() implies is_digit(#[trigger] t[j]) || (j == 0
            && t[j] == '+') by {
            if t.len() > 0 && t[0] == '+' {
                if j > 0 {
                    assert(t[j] == d[j - 1]);
                    assert(is_digit(d[j - 1]));
                }
            } else {
                assert(is_digit(d[j]));
            }
        }
    }
}

/// A version text is accepted only when it is one `.` with a `u16` text on each side:
/// the version's major is what the text before the only `.` denotes and its minor what
/// the whole text after it denotes.
pub proof fn lemma_version_text_shape(s: Seq<char>, v: Version)
    requires
        parse_version_spec(s) == Some(v),
    ensures
        exists|i: int|
            0 <= i < s.len() && s[i] == '.' && (forall|j: int|
                0 <= j < s.len() && j != i ==> s[j] != '.') && parse_u16_spec(s.take(i)) == Some(
                v.major,
            ) && parse_u16_spec(s.skip(i + 1)) == Some(v.minor),
{
    let i = choose|i: int| is_first_dot(s, i);
    let rest = s.skip(i + 1);
    lemma_u16_text_shape(rest);
    assert forall|j: int| 0 <= j < s.len() && j != i implies s[j] != '.' by {
        if j > i {
            assert(s[j] == rest[j - i - 1]);
            assert(is_digit(rest[j - i - 1]) || (j - i - 1 == 0 && rest[j - i - 1] == '+'));
        }
    }
}

/// A text with two `.` is never a version.
pub proof fn lemma_two_dots_rejected(s: Seq<char>, i: int, j: int)
    requires
        0 <= i < j < s.len(),
        s[i] == '.',
        s[j] == '.',
    ensures
        parse_version_spec(s) is None,
{
    if parse_version_spec(s) is Some {
        let v = parse_version_spec(s)->0;
        lemma_version_text_shape(s, v);
        let k = choose|k: int|
            0 <= k < s.len() && s[k] == '.' && (forall|m: int|
                0 <= m < s.len() && m != k ==> s[m] != '.') && parse_u16_spec(s.take(k)) == Some(
                v.major,
            ) && parse_u16_spec(s.skip(k + 1)) == Some(v.minor);
        if k == i {
            assert(s[j] != '.');
        } else {
            assert(s[i] != '.');
        }
    }
}

impl Version {
    /// Creates a new version identifier.
    pub fn new(major: u16, minor: u16) -> (v: Self)
        ensures
            v.major == major,
            v.minor == minor,
    {
        Version { major, minor }
    }

    /// Returns whether `self`, acting as the host's supported version, accepts a plugin
    /// declaring `target` as the version it was built against.
    ///
    /// Compatible when the major versions match and the host's minor version is equal to
    /// or greater than the plugin's, since a higher host minor version is a superset of
    /// what the plugin was built against.
    pub fn accepts(self, target: Self) -> (ok: bool)
        ensures
            ok == compatible(self, target),
    {
        self.major == target.major && self.minor >= target.minor
    }

    /// Parses a `"major.minor"` version string: the text before the first `.` and the
    /// whole text after it must each be an unsigned decimal `u16` (an optional `+`, then
    /// one or more ASCII digits). Otherwise the error carries `s`.
    pub fn parse(s: &str) -> (r: Result<Version, ParseVersionError>)
        ensures
            match r {
                Ok(v) => parse_version_spec(s@) == Some(v),
                Err(e) => parse_version_spec(s@) is None && e@ == s@,
            },
    {
        let n = s.unicode_len();
        let mut i: usize = 0;
        let mut found = false;
        while i < n && !found
            invariant
                n == s@.len(),
                i <= n,
                found ==> i < n && s@[i as int] == '.',
                forall|j: int| 0 <= j < i ==> s@[j] != '.',
            decreases n - i + (if found { 0int } else { 1int }),
        {
            if s.get_char(i) == '.' {
                found = true;
            } else {
                i += 1;
            }
        }
        if !found {
            assert(!exists|k: int| is_first_dot(s@, k));
            return Err(ParseVersionError(String::from_str(s)));
        }
        assert(is_first_dot(s@, i as int));
        let ghost k = choose|k: int| is_first_dot(s@, k);
        assert(k == i) by {
            if k < i {
                assert(s@[k] != '.');
            } else if k > i {
                assert(s@[i as int] != '.');
            }
        }
        assert(s@.take(i as int) =~= s@.subrange(0, i as int));
        assert(s@.skip(i + 1) =~= s@.subrange(i + 1, n as int));
        let major = parse_u16_in(s, 0, i);
        let minor = parse_u16_in(s, i + 1, n);
        match (major, minor) {
            (Some(major), Some(minor)) => Ok(Version { major, minor }),
            _ => Err(ParseVersionError(String::from_str(s))),
        }
    }

    /// The text form of this version, `"{major}.{minor}"` in decimal; what `Display`
    /// writes for a version.
    pub fn to_string(&self) -> (s: String)
        ensures
            s@ == version_text(*self),
    {
        let mut out = String::new();
        push_decimal(&mut out, self.major);
        proof {
            reveal_strlit(".");
        }
        out.append(".");
        push_decimal(&mut out, self.minor);
        out
    }
}

impl core::str::FromStr for Version {
    type Err = ParseVersionError;

    /// Parses a `"major.minor"` version string; see [`Version::parse`].
    fn from_str(s: &str) -> (r: Result<Self, Self::Err>)
        ensures
            match r {
                Ok(v) => parse_version_spec(s@) == Some(v),
                Err(e) => parse_version_spec(s@) is None && e@ == s@,
            },
    {
        Version::parse(s)
    }
}

} // verus!
