//! URL handling for the crawler: deciding whether a candidate URL is
//! site-relative, building its absolute form, stripping query strings off
//! redirect locations, spotting the human-verification marker in a redirect
//! target, and the two parser calls the fetch client leans on.

use vstd::prelude::*;
use vstd::seq_lib::*;

verus! {

/// True when the string opens with the scheme prefix `http`.
pub open spec fn starts_with_http(s: Seq<char>) -> bool {
    s.len() >= 4 && s.subrange(0, 4) == "http"@
}

/// A candidate URL is site-relative (local) when it carries no scheme.
pub open spec fn is_local_of(raw: Seq<char>) -> bool {
    !starts_with_http(raw)
}

/// The absolute form of a candidate URL: a string that already carries a
/// scheme is kept as it is; a site-relative one is appended to the base URL.
pub open spec fn abs_url_of(base: Seq<char>, raw: Seq<char>) -> Seq<char> {
    if starts_with_http(raw) {
        raw
    } else {
        base + raw
    }
}

/// Tests the scheme prefix on an executable string.
fn str_starts_with_http(s: &str) -> (r: bool)
    ensures
        r == starts_with_http(s@),
{
    proof {
        reveal_strlit("http");
    }
    let n = s.unicode_len();
    if n < 4 {
        return false;
    }
    let r = s.get_char(0) == 'h' && s.get_char(1) == 't' && s.get_char(2) == 't'
        && s.get_char(3) == 'p';
    proof {
        if s@.subrange(0, 4) == "http"@ {
            assert(s@[0] == s@.subrange(0, 4)[0]);
            assert(s@[1] == s@.subrange(0, 4)[1]);
            assert(s@[2] == s@.subrange(0, 4)[2]);
            assert(s@[3] == s@.subrange(0, 4)[3]);
        }
        if s@[0] == 'h' && s@[1] == 't' && s@[2] == 't' && s@[3] == 'p' {
            assert(s@.subrange(0, 4) =~= "http"@);
        }
    }
    r
}

/// Decides whether `url` is site-relative and builds its absolute form
/// against `base_url`.
pub fn build_abs_url(base_url: &str, url: &str) -> (r: (String, bool))
    ensures
        r.0@ == abs_url_of(base_url@, url@),
        r.1 == is_local_of(url@),
{
    if str_starts_with_http(url) {
        (url.to_owned(), false)
    } else {
        let mut s = base_url.to_owned();
        s.append(url);
        (s, true)
    }
}

/// A redirect location with its query string removed: the prefix before the
/// first `?`, or the whole string when it has none.
pub open spec fn strip_query_spec(s: Seq<char>) -> Seq<char> {
    match s.index_of_first('?') {
        Some(i) => s.subrange(0, i),
        None => s,
    }
}

/// Stripping never lengthens a string, and what is left holds no `?`.
pub proof fn lemma_strip_query_shape(s: Seq<char>)
    ensures
        strip_query_spec(s).len() <= s.len(),
        forall|j: int| 0 <= j < strip_query_spec(s).len() ==> strip_query_spec(s)[j] != '?',
{
    s.index_of_first_ensures('?');
    if s.index_of_first('?') is None {
        assert forall|j: int| 0 <= j < strip_query_spec(s).len() implies strip_query_spec(s)[j]
            != '?' by {
            if s[j] == '?' {
                assert(s.contains('?'));
            }
        }
    }
}

/// Strips the query string off a redirect location.
pub fn strip_query(s: &str) -> (r: String)
    ensures
        r@ == strip_query_spec(s@),
        r@.len() <= s@.len(),
{
    proof {
        lemma_strip_query_shape(s@);
    }
    let n = s.unicode_len();
    let mut i: usize = 0;
    while i < n
        invariant
            0 <= i <= n,
            n == s@.len(),
            forall|j: int| 0 <= j < i ==> s@[j] != '?',
        decreases n - i,
    {
        if s.get_char(i) == '?' {
            proof {
                s@.index_of_first_ensures('?');
                match s@.index_of_first('?') {
                    Some(k) => {
                        if k < i {
                            assert(s@[k] != '?');
                        }
                        if k > i {
                            assert(s@[i as int] != '?');
                        }
                    },
                    None => {
                        assert(!s@.contains('?'));
                        assert(s@[i as int] == '?');
                    },
                }
            }
            return s.substring_char(0, i).to_owned();
        }
        i = i + 1;
    }
    proof {
        s@.index_of_first_ensures('?');
        if let Some(k) = s@.index_of_first('?') {
            assert(s@[k] == '?');
        }
    }
    s.to_owned()
}

/// True when `p` occurs in `s` starting at index `i`.
pub open spec fn matches_at(s: Seq<char>, p: Seq<char>, i: int) -> bool {
    0 <= i && i + p.len() <= s.len() && s.subrange(i, i + p.len() as int) == p
}

/// True when `p` occurs somewhere in `s`.
pub open spec fn contains_seq(s: Seq<char>, p: Seq<char>) -> bool {
    exists|i: int| matches_at(s, p, i)
}

/// The path marker of a human-verification (captcha) wall.
pub open spec fn human_marker() -> Seq<char> {
    "/Human/"@
}

/// Compares `p` against the slice of `s` that starts at `i`.
pub(crate) fn str_eq_at(s: &str, p: &str, i: usize, n: usize, m: usize) -> (r: bool)
    requires
        n == s@.len(),
        m == p@.len(),
        i + m <= n,
    ensures
        r == (s@.subrange(i as int, i + m) == p@),
{
    let mut j: usize = 0;
    while j < m
        invariant
            0 <= j <= m,
            n == s@.len(),
            m == p@.len(),
            i + m <= n,
            forall|l: int| 0 <= l < j ==> s@[i + l] == p@[l],
        decreases m - j,
    {
        if s.get_char(i + j) != p.get_char(j) {
            proof {
                if s@.subrange(i as int, i + m) == p@ {
                    assert(s@[i + j] == s@.subrange(i as int, i + m)[j as int]);
                }
            }
            return false;
        }
        j = j + 1;
    }
    proof {
        assert(s@.subrange(i as int, i + m) =~= p@);
    }
    true
}

/// Searches `s` for an occurrence of `p`.
pub(crate) fn str_contains(s: &str, p: &str) -> (r: bool)
    ensures
        r == contains_seq(s@, p@),
{
    let n = s.unicode_len();
    let m = p.unicode_len();
    if m > n {
        proof {
            assert(forall|i: int| !matches_at(s@, p@, i));
        }
        return false;
    }
    if m == 0 {
        proof {
            assert(s@.subrange(0, 0) =~= p@);
            assert(matches_at(s@, p@, 0));
        }
        return true;
    }
    let mut i: usize = 0;
    while i <= n - m
        invariant
            0 <= i <= n - m + 1,
            1 <= m <= n,
            n == s@.len(),
            m == p@.len(),
            forall|k: int| 0 <= k < i ==> !matches_at(s@, p@, k),
        decreases n + 1 - m - i,
    {
        if str_eq_at(s, p, i, n, m) {
            proof {
                assert(matches_at(s@, p@, i as int));
            }
            return true;
        }
        i = i + 1;
    }
    proof {
        assert(forall|k: int| i <= k ==> !matches_at(s@, p@, k));
    }
    false
}

/// Tests a redirect target for the human-verification marker.
pub fn contains_human_marker(s: &str) -> (r: bool)
    ensures
        r == contains_seq(s@, human_marker()),
{
    str_contains(s, "/Human/")
}

/// The host component of a URL, as the `http` crate's URI parser reads it;
/// the result depends on the string alone.
pub uninterp spec fn host_of(url: Seq<char>) -> Option<Seq<char>>;

/// Relies on `http::Uri`'s parser (`Uri::try_from`, `Uri::host`): extracts
/// the host component of a URL, or nothing when the string does not parse as
/// a URI with an authority.
#[verifier::external_body]
pub(crate) fn uri_host(url: &str) -> (r: Option<String>)
    ensures
        r.deep_view() == host_of(url@),
{
    match http::Uri::try_from(url) {
        Ok(u) => u.host().map(|h| h.to_owned()),
        Err(_) => None,
    }
}

/// Bound on the combined length of the two strings handed to the URL
/// re-serializer. The `url` crate writes serializations into a buffer it
/// indexes with `u32` and panics past that range; one character serializes
/// to at most twelve bytes, so inputs under this many characters keep the
/// buffer well within range.
pub const REBASE_LENGTH_LIMIT: usize = 0x0800_0000;

/// The serialization of `url` with its path replaced by `path`, as the `url`
/// crate computes it; the result depends on the two strings alone.
pub uninterp spec fn rebased(url: Seq<char>, path: Seq<char>) -> Option<Seq<char>>;

/// Relies on `url::Url` (`Url::parse`, `Url::set_path`, `Url::as_str`):
/// re-serializes `url` with its path replaced by `path`, keeping the
/// original scheme and host, or nothing when `url` does not parse. The
/// length bound keeps `Url::set_path` away from the `u32` overflow on
/// which it would panic.
#[verifier::external_body]
pub(crate) fn rebase_url(url: &str, path: &str) -> (r: Option<String>)
    requires
        url@.len() + path@.len() < REBASE_LENGTH_LIMIT,
    ensures
        r.deep_view() == rebased(url@, path@),
{
    match url::Url::parse(url) {
        Ok(mut u) => {
            u.set_path(path);
            Some(u.as_str().to_owned())
        },
        Err(_) => None,
    }
}

} // verus!
