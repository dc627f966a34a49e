//! Two-part version identifiers: parsing, ordering and formatting.
use vstd::prelude::*;
use std::cmp::Ordering;
use crate::error::UpdateError;
use crate::numeral::{
    decimal, is_digit, is_numeral, lemma_decimal, lemma_numeral_value_grows, numeral_value,
    push_decimal,
};

verus! {

/// A release identifier `major.minor`, ordered by major then minor number.
#[derive(Debug, Clone, Copy, PartialEq, Eq, Structural, PartialOrd, Ord, Hash)]
pub struct TTDashVersion {
    pub major: u32,
    pub minor: u32,
}

/// The characters that `char::is_whitespace` accepts (Unicode White_Space).
pub open spec fn is_space(c: char) -> bool {
    ||| ('\u{9}' <= c && c <= '\u{d}')
    ||| c == ' '
    ||| c == '\u{85}'
    ||| c == '\u{a0}'
    ||| c == '\u{1680}'
    ||| ('\u{2000}' <= c && c <= '\u{200a}')
    ||| c == '\u{2028}'
    ||| c == '\u{2029}'
    ||| c == '\u{202f}'
    ||| c == '\u{205f}'
    ||| c == '\u{3000}'
}

pub open spec fn trim_start(s: Seq<char>) -> Seq<char>
    decreases s.len(),
{
    if s.len() > 0 && is_space(s[0]) {
        trim_start(s.drop_first())
    } else {
        s
    }
}

pub open spec fn trim_end(s: Seq<char>) -> Seq<char>
    decreases s.len(),
{
    if s.len() > 0 && is_space(s.last()) {
        trim_end(s.drop_last())
    } else {
        s
    }
}

/// `s` without leading and trailing whitespace.
pub open spec fn trim(s: Seq<char>) -> Seq<char> {
    trim_end(trim_start(s))
}

/// `t` is two numerals that fit in `u32`, joined by the dot at `k`.
pub open spec fn splits_at(t: Seq<char>, k: int) -> bool {
    &&& 0 <= k < t.len()
    &&& t[k] == '.'
    &&& is_numeral(t.take(k))
    &&& is_numeral(t.skip(k + 1))
    &&& numeral_value(t.take(k)) <= u32::MAX
    &&& numeral_value(t.skip(k + 1)) <= u32::MAX
}

/// The version that a text names, if it names one: after trimming, exactly
/// two dot-separated runs of decimal digits.
pub open spec fn parsed_version(s: Seq<char>) -> Option<TTDashVersion> {
    let t = trim(s);
    if exists|k: int| splits_at(t, k) {
        let k = choose|k: int| splits_at(t, k);
        Some(
            TTDashVersion {
                major: numeral_value(t.take(k)) as u32,
                minor: numeral_value(t.skip(k + 1)) as u32,
            },
        )
    } else {
        None
    }
}

/// The text `major.minor` of a version.
pub open spec fn version_text(v: TTDashVersion) -> Seq<char> {
    decimal(v.major as nat) + seq!['.'] + decimal(v.minor as nat)
}

/// Lexicographic order on `(major, minor)`.
pub open spec fn version_order(a: TTDashVersion, b: TTDashVersion) -> Ordering {
    if a.major > b.major {
        Ordering::Greater
    } else if a.major < b.major {
        Ordering::Less
    } else if a.minor > b.minor {
        Ordering::Greater
    } else if a.minor < b.minor {
        Ordering::Less
    } else {
        Ordering::Equal
    }
}

/// `a` is a strictly later release than `b`.
pub open spec fn is_newer(a: TTDashVersion, b: TTDashVersion) -> bool {
    version_order(a, b) == Ordering::Greater
}

impl TTDashVersion {
    pub fn new(major: u32, minor: u32) -> (r: TTDashVersion)
        ensures
            r.major == major,
            r.minor == minor,
    {
        TTDashVersion { major, minor }
    }

    /// The text `major.minor`.
    pub fn to_string(&self) -> (r: String)
        ensures
            r@ == version_text(*self),
    {
        let mut out = String::new();
        push_decimal(&mut out, self.major as u64);
        out.append(".");
        push_decimal(&mut out, self.minor as u64);
        proof {
            reveal_strlit(".");
        }
        assert(out@ =~= version_text(*self));
        out
    }

    /// Compares by major number, then by minor number.
    pub fn compare(&self, other: &TTDashVersion) -> (r: Ordering)
        ensures
            r == version_order(*self, *other),
            r == Ordering::Greater <==> (self.major > other.major || (self.major == other.major
                && self.minor > other.minor)),
            r == Ordering::Less <==> (self.major < other.major || (self.major == other.major
                && self.minor < other.minor)),
            r == Ordering::Equal <==> *self == *other,
    {
        if self.major > other.major {
            Ordering::Greater
        } else if self.major < other.major {
            Ordering::Less
        } else if self.minor > other.minor {
            Ordering::Greater
        } else if self.minor < other.minor {
            Ordering::Less
        } else {
            Ordering::Equal
        }
    }
}

fn is_space_char(c: char) -> (r: bool)
    ensures
        r == is_space(c),
{
    ('\u{9}' <= c && c <= '\u{d}') || c == ' ' || c == '\u{85}' || c == '\u{a0}' || c
        == '\u{1680}' || ('\u{2000}' <= c && c <= '\u{200a}') || c == '\u{2028}' || c
        == '\u{2029}' || c == '\u{202f}' || c == '\u{205f}' || c == '\u{3000}'
}

/// The value of the digits `s[a..b]`, when they form a numeral that fits in `u32`.
fn parse_numeral(s: &str, a: usize, b: usize) -> (r: Option<u32>)
    requires
        a <= b <= s@.len(),
    ensures
        r is Some <==> is_numeral(s@.subrange(a as int, b as int)) && numeral_value(
            s@.subrange(a as int, b as int),
        ) <= u32::MAX,
        r is Some ==> r->0 == numeral_value(s@.subrange(a as int, b as int)),
{
    if a == b {
        return None;
    }
    let mut acc: u64 = 0;
    let mut i: usize = a;
    while i < b
        invariant
            a <= i <= b <= s@.len(),
            acc == numeral_value(s@.subrange(a as int, i as int)),
            acc <= u32::MAX,
            forall|j: int| a <= j < i ==> is_digit(#[trigger] s@[j]),
        decreases b - i,
    {
        let c = s.get_char(i);
        if !('0' <= c && c <= '9') {
            assert(s@.subrange(a as int, b as int)[i - a] == c);
            return None;
        }
        let ghost sub = s@.subrange(a as int, (i + 1) as int);
        assert(sub.drop_last() =~= s@.subrange(a as int, i as int));
        acc = acc * 10 + (c as u32 - '0' as u32) as u64;
        i = i + 1;
        if acc > u32::MAX as u64 {
            proof {
                if is_numeral(s@.subrange(a as int, b as int)) {
                    let whole = s@.subrange(a as int, b as int);
                    let rest = s@.subrange(i as int, b as int);
                    assert(whole =~= sub + rest);
                    assert forall|j: int| 0 <= j < sub.len() implies is_digit(#[trigger] sub[j]) by {
                        assert(sub[j] == whole[j]);
                    }
                    assert forall|j: int| 0 <= j < rest.len() implies is_digit(#[trigger] rest[j]) by {
                        assert(rest[j] == whole[j + sub.len()]);
                    }
                    lemma_numeral_value_grows(sub, rest);
                }
            }
            return None;
        }
    }
    let ghost whole = s@.subrange(a as int, b as int);
    assert forall|j: int| 0 <= j < whole.len() implies is_digit(#[trigger] whole[j]) by {
        assert(whole[j] == s@[a + j]);
    }
    Some(acc as u32)
}

proof fn lemma_trim_start_step(s: Seq<char>, i: int)
    requires
        0 <= i < s.len(),
        is_space(s[i]),
    ensures
        trim_start(s.skip(i)) == trim_start(s.skip(i + 1)),
{
    assert(s.skip(i).drop_first() =~= s.skip(i + 1));
}

proof fn lemma_trim_end_step(s: Seq<char>, a: int, j: int)
    requires
        0 <= a < j <= s.len(),
        is_space(s[j - 1]),
    ensures
        trim_end(s.subrange(a, j)) == trim_end(s.subrange(a, j - 1)),
{
    assert(s.subrange(a, j).drop_last() =~= s.subrange(a, j - 1));
}

/// Parses `major.minor`, ignoring surrounding whitespace. Each part must be a
/// non-empty run of decimal digits whose value fits in `u32`; anything else is
/// a `MalformedVersion` naming the text.
pub fn parse_version(version_str: &str) -> (r: Result<TTDashVersion, UpdateError>)
    ensures
        r is Ok <==> parsed_version(version_str@) is Some,
        r is Ok ==> r->Ok_0 == parsed_version(version_str@)->0,
        r is Err ==> (r->Err_0 matches UpdateError::MalformedVersion(m) && m@ == version_str@),
{
    let ghost s = version_str@;
    let n = version_str.unicode_len();
    let mut start: usize = 0;
    assert(s.skip(0) =~= s);
    while start < n && is_space_char(version_str.get_char(start))
        invariant
            start <= n,
            n == s.len(),
            s == version_str@,
            trim_start(s) == trim_start(s.skip(start as int)),
        decreases n - start,
    {
        proof {
            lemma_trim_start_step(s, start as int);
        }
        start = start + 1;
    }
    proof {
        if start < n {
            assert(trim_start(s.skip(start as int)) == s.skip(start as int));
        } else {
            assert(s.skip(start as int) =~= Seq::<char>::empty());
        }
        assert(s.skip(start as int) =~= s.subrange(start as int, n as int));
    }
    let mut end: usize = n;
    while end > start && is_space_char(version_str.get_char(end - 1))
        invariant
            start <= end <= n,
            n == s.len(),
            s == version_str@,
            trim_start(s) == s.subrange(start as int, n as int),
            trim(s) == trim_end(s.subrange(start as int, end as int)),
        decreases end - start,
    {
        proof {
            lemma_trim_end_step(s, start as int, end as int);
        }
        end = end - 1;
    }
    let ghost t = s.subrange(start as int, end as int);
    proof {
        if end > start {
            assert(t.last() == s[end - 1]);
        } else {
            assert(t =~= Seq::<char>::empty());
        }
        assert(trim(s) == t);
    }
    let mut dot: usize = start;
    while dot < end && version_str.get_char(dot) != '.'
        invariant
            start <= dot <= end <= n,
            n == s.len(),
            s == version_str@,
            forall|j: int| start <= j < dot ==> s[j] != '.',
        decreases end - dot,
    {
        dot = dot + 1;
    }
    if dot == end {
        proof {
            assert forall|k: int| !splits_at(t, k) by {
                if 0 <= k < t.len() {
                    assert(t[k] == s[start + k]);
                }
            }
        }
        return Err(UpdateError::MalformedVersion(String::from_str(version_str)));
    }
    let ghost k = dot - start;
    proof {
        assert forall|k2: int| splits_at(t, k2) implies k2 == k by {
            if k2 < k {
                assert(t[k2] == s[start + k2]);
            } else if k2 > k {
                assert(t.take(k2)[k] == t[k]);
                assert(t[k] == s[dot as int]);
            }
        }
        assert(t.take(k) =~= s.subrange(start as int, dot as int));
        assert(t.skip(k + 1) =~= s.subrange(dot + 1, end as int));
    }
    let major = parse_numeral(version_str, start, dot);
    let minor = parse_numeral(version_str, dot + 1, end);
    match (major, minor) {
        (Some(major), Some(minor)) => {
            assert(splits_at(t, k));
            Ok(TTDashVersion { major, minor })
        },
        _ => {
            assert(!splits_at(t, k));
            Err(UpdateError::MalformedVersion(String::from_str(version_str)))
        },
    }
}

/// Writing a version as `major.minor` and parsing that text gives the same
/// version back, so formatting what was parsed from such a text gives the
/// text again.
pub proof fn lemma_version_text_round_trip(v: TTDashVersion)
    ensures
        parsed_version(version_text(v)) == Some(v),
        version_text(parsed_version(version_text(v))->0) == version_text(v),
{
    let a = decimal(v.major as nat);
    let b = decimal(v.minor as nat);
    let t = version_text(v);
    lemma_decimal(v.major as nat);
    lemma_decimal(v.minor as nat);
    let k = a.len() as int;
    assert(t[0] == a[0]);
    assert(!is_space(t[0]));
    assert(trim_start(t) == t);
    assert(t.last() == b.last());
    assert(!is_space(t.last()));
    assert(trim_end(t) == t);
    assert(trim(t) == t);
    assert(t.take(k) =~= a);
    assert(t.skip(k + 1) =~= b);
    assert(t[k] == '.');
    assert(splits_at(t, k));
    assert forall|k2: int| splits_at(t, k2) implies k2 == k by {
        if k2 < k {
            assert(t[k2] == a[k2]);
        } else if k2 > k {
            assert(t[k2] == b[k2 - k - 1]);
        }
    }
}

} // verus!
