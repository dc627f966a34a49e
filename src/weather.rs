//! Forecast periods as the weather service writes them: a start time and a
//! duration (`2019-08-12T19:00:00+00:00/PT1H30M`, `P1DT12H`).
use vstd::prelude::*;
use crate::numeral::{decimal, digit_value, is_digit, push_decimal};

verus! {

/// Seconds in one of a unit: days before the `T`, hours, minutes and
/// seconds after it.
pub open spec fn unit_seconds(c: char, time_part: bool) -> Option<int> {
    if time_part {
        if c == 'H' {
            Some(3600)
        } else if c == 'M' {
            Some(60)
        } else if c == 'S' {
            Some(1)
        } else {
            None
        }
    } else if c == 'D' {
        Some(86400)
    } else {
        None
    }
}

/// One character of a duration's body read into `(total seconds, pending
/// number, in time part)`; `None` for a character that is no digit, no `T`
/// and no unit of the current part, or where a value leaves `i64`.
pub open spec fn scan_step(st: (int, int, bool), c: char) -> Option<(int, int, bool)> {
    if c == 'T' {
        Some((st.0, st.1, true))
    } else if is_digit(c) {
        let acc = 10 * st.1 + digit_value(c);
        if acc <= i64::MAX {
            Some((st.0, acc, st.2))
        } else {
            None
        }
    } else {
        match unit_seconds(c, st.2) {
            Some(u) => {
                let total = st.0 + u * st.1;
                if total <= i64::MAX {
                    Some((total, 0, st.2))
                } else {
                    None
                }
            },
            None => None,
        }
    }
}

pub open spec fn scan(s: Seq<char>) -> Option<(int, int, bool)>
    decreases s.len(),
{
    if s.len() == 0 {
        Some((0, 0, false))
    } else {
        match scan(s.drop_last()) {
            Some(st) => scan_step(st, s.last()),
            None => None,
        }
    }
}

/// The seconds that a duration text `P...` stands for: the sum of each number
/// times its unit; digits with no unit after them count for nothing.
pub open spec fn duration_seconds(s: Seq<char>) -> Option<int> {
    if s.len() > 0 && s[0] == 'P' {
        match scan(s.drop_first()) {
            Some(st) => Some(st.0),
            None => None,
        }
    } else {
        None
    }
}

proof fn lemma_scan_stays_failed(s: Seq<char>, i: int)
    requires
        0 <= i <= s.len(),
        scan(s.take(i)) is None,
    ensures
        scan(s) is None,
    decreases s.len() - i,
{
    if i < s.len() {
        assert(s.take(i + 1).drop_last() =~= s.take(i));
        lemma_scan_stays_failed(s, i + 1);
    } else {
        assert(s.take(i) =~= s);
    }
}

/// The message for a duration without the `P` prefix.
pub open spec fn malformed_duration_text(input: Seq<char>) -> Seq<char> {
    "Malformed duration "@ + input
}

/// The message for a duration whose body fails at character `k` after the
/// prefix.
pub open spec fn bad_duration_text(input: Seq<char>, k: nat) -> Seq<char> {
    "Bad duration string '"@ + input + "' at char #"@ + decimal(k) + ". "@
}

fn malformed(input: &str) -> (r: String)
    ensures
        r@ == malformed_duration_text(input@),
{
    let mut message = String::from_str("Malformed duration ");
    message.append(input);
    message
}

fn bad_at(input: &str, k: usize) -> (r: String)
    ensures
        r@ == bad_duration_text(input@, k as nat),
{
    let mut message = String::from_str("Bad duration string '");
    message.append(input);
    message.append("' at char #");
    push_decimal(&mut message, k as u64);
    message.append(". ");
    message
}

/// Reads an ISO 8601 duration of days, hours, minutes and seconds into
/// seconds.
pub fn parse_duration(input: &str) -> (r: Result<i64, String>)
    ensures
        r is Ok <==> duration_seconds(input@) is Some,
        r is Ok ==> r->Ok_0 == duration_seconds(input@)->0,
        r is Err && !(input@.len() > 0 && input@[0] == 'P') ==> r->Err_0@
            == malformed_duration_text(input@),
        r is Err && input@.len() > 0 && input@[0] == 'P' ==> exists|k: nat|
            k < input@.len() - 1 && scan(input@.drop_first().take(k as int)) is Some && scan(
                input@.drop_first().take(k as int + 1),
            ) is None && r->Err_0@ == bad_duration_text(input@, k),
{
    let ghost s = input@;
    let n = input.unicode_len();
    if n == 0 || input.get_char(0) != 'P' {
        return Err(malformed(input));
    }
    let ghost body = s.drop_first();
    let mut total: i64 = 0;
    let mut acc: i64 = 0;
    let mut time_part = false;
    let mut i: usize = 1;
    assert(body.take(0) =~= Seq::<char>::empty());
    while i < n
        invariant
            1 <= i <= n,
            n == s.len(),
            s == input@,
            body == s.drop_first(),
            s[0] == 'P',
            scan(body.take(i - 1)) == Some((total as int, acc as int, time_part)),
            total >= 0,
            acc >= 0,
        decreases n - i,
    {
        let c = input.get_char(i);
        let ghost prefix = body.take(i as int);
        assert(prefix.drop_last() =~= body.take(i - 1));
        assert(prefix.last() == c);
        if c == 'T' {
            time_part = true;
        } else if '0' <= c && c <= '9' {
            let d = (c as u32 - '0' as u32) as i128;
            let next = 10 * (acc as i128) + d;
            if next > i64::MAX as i128 {
                proof {
                    lemma_scan_stays_failed(body, i as int);
                }
                return Err(bad_at(input, i - 1));
            }
            acc = next as i64;
        } else {
            let unit: i128 = if !time_part && c == 'D' {
                86400
            } else if time_part && c == 'H' {
                3600
            } else if time_part && c == 'M' {
                60
            } else if time_part && c == 'S' {
                1
            } else {
                proof {
                    lemma_scan_stays_failed(body, i as int);
                }
                return Err(bad_at(input, i - 1));
            };
            let next = (total as i128) + unit * (acc as i128);
            if next > i64::MAX as i128 {
                proof {
                    lemma_scan_stays_failed(body, i as int);
                }
                return Err(bad_at(input, i - 1));
            }
            total = next as i64;
            acc = 0;
        }
        i = i + 1;
    }
    assert(body.take(n - 1) =~= body);
    Ok(total)
}

/// The instant that an RFC 3339 date-time names, in seconds since the Unix
/// epoch; `None` when the text is not one.
pub uninterp spec fn rfc3339_seconds(s: Seq<char>) -> Option<int>;

/// Relies on chrono's `DateTime::parse_from_rfc3339` and
/// `DateTime::timestamp`: the instant depends on the text alone.
#[verifier::external_body]
fn rfc3339_timestamp(s: &str) -> (r: Option<i64>)
    ensures
        r is Some <==> rfc3339_seconds(s@) is Some,
        r is Some ==> r->0 == rfc3339_seconds(s@)->0,
{
    match chrono::DateTime::parse_from_rfc3339(s) {
        Ok(t) => Some(t.timestamp()),
        Err(_) => None,
    }
}

/// `s` up to its first `c`, or all of it.
pub open spec fn until_char(s: Seq<char>, c: char) -> Seq<char>
    decreases s.len(),
{
    if s.len() == 0 {
        s
    } else if s[0] == c {
        Seq::empty()
    } else {
        seq![s[0]] + until_char(s.drop_first(), c)
    }
}

/// `s` after its first `c`, if it has one.
pub open spec fn after_char(s: Seq<char>, c: char) -> Option<Seq<char>>
    decreases s.len(),
{
    if s.len() == 0 {
        None
    } else if s[0] == c {
        Some(s.drop_first())
    } else {
        after_char(s.drop_first(), c)
    }
}

/// The start (seconds since the epoch) and length (seconds) of a period
/// written `<start>/<duration>`; text after a second `/` is ignored.
pub open spec fn period_of(s: Seq<char>) -> Option<(int, int)> {
    match after_char(s, '/') {
        Some(rest) => match (rfc3339_seconds(until_char(s, '/')), duration_seconds(until_char(rest, '/'))) {
            (Some(start), Some(length)) => Some((start, length)),
            _ => None,
        },
        None => None,
    }
}

/// The index of the first `c` in `s[from..]`, or the length of `s`.
fn find_char(s: &str, from: usize, c: char) -> (r: usize)
    requires
        from <= s@.len(),
    ensures
        from <= r <= s@.len(),
        until_char(s@.skip(from as int), c) == s@.subrange(from as int, r as int),
        r < s@.len() ==> s@[r as int] == c && after_char(s@.skip(from as int), c) == Some(
            s@.skip(r + 1),
        ),
        r == s@.len() ==> after_char(s@.skip(from as int), c) is None,
{
    let n = s.unicode_len();
    let mut i: usize = from;
    assert(s@.subrange(from as int, from as int) =~= Seq::<char>::empty());
    while i < n && s.get_char(i) != c
        invariant
            from <= i <= n,
            n == s@.len(),
            until_char(s@.skip(from as int), c) == s@.subrange(from as int, i as int) + until_char(
                s@.skip(i as int),
                c,
            ),
            after_char(s@.skip(from as int), c) == after_char(s@.skip(i as int), c),
        decreases n - i,
    {
        assert(s@.skip(i as int).drop_first() =~= s@.skip(i + 1));
        assert(s@.subrange(from as int, i as int) + seq![s@[i as int]] =~= s@.subrange(
            from as int,
            i + 1,
        ));
        assert(s@.skip(i as int)[0] == s@[i as int]);
        i = i + 1;
    }
    if i == n {
        assert(s@.skip(i as int) =~= Seq::<char>::empty());
    } else {
        assert(s@.skip(i as int)[0] == s@[i as int]);
        assert(s@.skip(i as int).drop_first() =~= s@.skip(i + 1));
    }
    assert(s@.subrange(from as int, i as int) + Seq::<char>::empty() =~= s@.subrange(
        from as int,
        i as int,
    ));
    i
}

/// Reads a period `<RFC 3339 start>/<ISO 8601 duration>` into its start
/// (seconds since the epoch) and length (seconds).
pub fn parse_time_and_duration(input: &str) -> (r: Result<(i64, i64), String>)
    ensures
        r is Ok <==> period_of(input@) is Some,
        r matches Ok(p) ==> period_of(input@) == Some((p.0 as int, p.1 as int)),
{
    let n = input.unicode_len();
    assert(input@.skip(0) =~= input@);
    let a = find_char(input, 0, '/');
    if a == n {
        let mut message = String::from_str("Couldn't parse time+duration string: '");
        message.append(input);
        message.append("'");
        return Err(message);
    }
    let b = find_char(input, a + 1, '/');
    let start = rfc3339_timestamp(input.substring_char(0, a));
    let length = parse_duration(input.substring_char(a + 1, b));
    match (start, length) {
        (Some(start), Ok(length)) => Ok((start, length)),
        (None, _) => {
            let mut message = String::from_str("malformed start of period: ");
            message.append(input);
            Err(message)
        },
        (_, Err(message)) => Err(message),
    }
}

} // verus!
