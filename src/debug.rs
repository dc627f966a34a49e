//! Requests to the debug web server: which page a URL asks for, and which
//! log file.
use vstd::prelude::*;
use crate::update::opt_view;

verus! {

/// The pieces of `s` between the occurrences of `c`; one empty piece for an
/// empty `s`.
pub open spec fn split_char(s: Seq<char>, c: char) -> Seq<Seq<char>>
    decreases s.len(),
{
    if s.len() == 0 {
        seq![Seq::empty()]
    } else {
        let rest = split_char(s.drop_last(), c);
        if s.last() == c {
            rest.push(Seq::empty())
        } else {
            rest.update(rest.len() - 1, rest.last().push(s.last()))
        }
    }
}

/// The `key=value` pairs of `&`-separated pieces: a piece without `=` is
/// skipped, and a value ends at a second `=`.
pub open spec fn pairs_of(pieces: Seq<Seq<char>>) -> Seq<(Seq<char>, Seq<char>)>
    decreases pieces.len(),
{
    if pieces.len() == 0 {
        Seq::empty()
    } else {
        let rest = pairs_of(pieces.drop_last());
        let parts = split_char(pieces.last(), '=');
        if parts.len() >= 2 {
            rest.push((parts[0], parts[1]))
        } else {
            rest
        }
    }
}

/// The pairs of a query string.
pub open spec fn query_pairs(query: Seq<char>) -> Seq<(Seq<char>, Seq<char>)> {
    pairs_of(split_char(query, '&'))
}

pub open spec fn pairs_view(v: Seq<(String, String)>) -> Seq<(Seq<char>, Seq<char>)> {
    v.map_values(|p: (String, String)| (p.0@, p.1@))
}

/// Relies on `querystring::querify`, which splits on `&`, skips a piece
/// without `=`, and takes the text before the first `=` and up to the second.
#[verifier::external_body]
fn querify(query: &str) -> (r: Vec<(String, String)>)
    ensures
        pairs_view(r@) == query_pairs(query@),
{
    querystring::querify(query).into_iter().map(|(k, v)| (k.to_string(), v.to_string())).collect()
}

/// What follows the first `?` of a URL; empty without one.
pub open spec fn query_of(url: Seq<char>) -> Seq<char>
    decreases url.len(),
{
    if url.len() == 0 {
        Seq::empty()
    } else if url[0] == '?' {
        url.drop_first()
    } else {
        query_of(url.drop_first())
    }
}

/// The value of the first `log` parameter that names a `.log` file.
pub open spec fn first_log(pairs: Seq<(Seq<char>, Seq<char>)>) -> Option<Seq<char>>
    decreases pairs.len(),
{
    if pairs.len() == 0 {
        None
    } else if pairs[0].0 == "log"@ && ends_with_log(pairs[0].1) {
        Some(pairs[0].1)
    } else {
        first_log(pairs.drop_first())
    }
}

pub open spec fn ends_with_log(s: Seq<char>) -> bool {
    s.len() >= 4 && s.skip(s.len() - 4) == ".log"@
}

fn query_part(url: &str) -> (r: &str)
    ensures
        r@ == query_of(url@),
{
    let n = url.unicode_len();
    let mut i: usize = 0;
    assert(url@.skip(0) =~= url@);
    while i < n && url.get_char(i) != '?'
        invariant
            i <= n,
            n == url@.len(),
            query_of(url@) == query_of(url@.skip(i as int)),
        decreases n - i,
    {
        assert(url@.skip(i as int).drop_first() =~= url@.skip(i + 1));
        i = i + 1;
    }
    if i == n {
        assert(url@.skip(i as int) =~= Seq::<char>::empty());
        url.substring_char(n, n)
    } else {
        assert(url@.skip(i as int)[0] == url@[i as int]);
        assert(url@.skip(i as int).drop_first() =~= url@.subrange(i + 1, n as int));
        url.substring_char(i + 1, n)
    }
}

fn is_log_name(s: &str) -> (r: bool)
    ensures
        r == ends_with_log(s@),
{
    proof {
        reveal_strlit(".log");
    }
    let n = s.unicode_len();
    if n < 4 {
        return false;
    }
    let r = s.get_char(n - 4) == '.' && s.get_char(n - 3) == 'l' && s.get_char(n - 2) == 'o'
        && s.get_char(n - 1) == 'g';
    assert(r ==> s@.skip(n - 4) =~= ".log"@);
    assert(s@.skip(n - 4) == ".log"@ ==> r) by {
        if s@.skip(n - 4) == ".log"@ {
            assert(s@.skip(n - 4)[0] == s@[n - 4]);
            assert(s@.skip(n - 4)[1] == s@[n - 3]);
            assert(s@.skip(n - 4)[2] == s@[n - 2]);
            assert(s@.skip(n - 4)[3] == s@[n - 1]);
        }
    }
    r
}

/// The log file that a `/dumplog?log=<name>.log` request asks for: the first
/// `log` parameter whose value ends in `.log`.
pub fn which_log(url: &str) -> (r: Option<String>)
    ensures
        opt_view(r) == first_log(query_pairs(query_of(url@))),
{
    let pairs = querify(query_part(url));
    let ghost all = pairs_view(pairs@);
    let mut i: usize = 0;
    assert(all.skip(0) =~= all);
    while i < pairs.len()
        invariant
            i <= pairs@.len(),
            all == pairs_view(pairs@),
            all == query_pairs(query_of(url@)),
            first_log(all) == first_log(all.skip(i as int)),
        decreases pairs@.len() - i,
    {
        let (k, v) = &pairs[i];
        proof {
            reveal_strlit("log");
            assert(all.skip(i as int)[0] == (k@, v@));
            assert(all.skip(i as int).drop_first() =~= all.skip(i + 1));
        }
        if text_eq(k.as_str(), "log") && is_log_name(v.as_str()) {
            return Some(v.clone());
        }
        i = i + 1;
    }
    assert(all.skip(i as int) =~= Seq::<(Seq<char>, Seq<char>)>::empty());
    None
}

/// The pages of the debug server.
#[derive(Debug, Clone, Copy, PartialEq, Eq, Structural)]
pub enum DebugPage {
    /// `/`: version, current image and log files.
    Main,
    /// `/dumplog...`: the contents of a log file.
    DumpLog,
    /// `/current_image`: the last rendered image.
    CurrentImage,
    /// Anything else.
    Unknown,
}

pub open spec fn page_of(url: Seq<char>) -> DebugPage {
    if url == "/"@ {
        DebugPage::Main
    } else if url.len() >= 8 && url.take(8) == "/dumplog"@ {
        DebugPage::DumpLog
    } else if url == "/current_image"@ {
        DebugPage::CurrentImage
    } else {
        DebugPage::Unknown
    }
}

fn text_eq(a: &str, b: &str) -> (r: bool)
    ensures
        r == (a@ == b@),
{
    let n = a.unicode_len();
    if n != b.unicode_len() {
        return false;
    }
    let mut i: usize = 0;
    while i < n
        invariant
            i <= n,
            n == a@.len(),
            n == b@.len(),
            forall|j: int| 0 <= j < i ==> a@[j] == b@[j],
        decreases n - i,
    {
        if a.get_char(i) != b.get_char(i) {
            return false;
        }
        i = i + 1;
    }
    assert(a@ =~= b@);
    true
}

/// The page a request URL asks for.
pub fn route(url: &str) -> (r: DebugPage)
    ensures
        r == page_of(url@),
{
    proof {
        reveal_strlit("/dumplog");
    }
    if text_eq(url, "/") {
        DebugPage::Main
    } else if url.unicode_len() >= 8 && text_eq(url.substring_char(0, 8), "/dumplog") {
        DebugPage::DumpLog
    } else if text_eq(url, "/current_image") {
        DebugPage::CurrentImage
    } else {
        DebugPage::Unknown
    }
}

} // verus!
