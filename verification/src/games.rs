//! Pure string work of the calendar-scraping step: the month-calendar URL,
//! the home/away split of a schedule line, the date-time string a schedule
//! entry parses into, the client's fixed cookie header, and the site filter
//! of the repository query.

use vstd::prelude::*;

use crate::urls::contains_seq;
use crate::urls::str_contains;
use crate::urls::str_eq_at;

verus! {

/// `s` with every occurrence of `p` removed, scanning left to right over
/// non-overlapping occurrences, the way `str::replace` with an empty
/// replacement reads a string.
pub open spec fn remove_all(s: Seq<char>, p: Seq<char>) -> Seq<char>
    decreases s.len(),
{
    if p.len() == 0 || s.len() < p.len() {
        s
    } else if s.subrange(0, p.len() as int) == p {
        remove_all(s.skip(p.len() as int), p)
    } else {
        seq![s[0]] + remove_all(s.skip(1), p)
    }
}

/// Removes every occurrence of `p` from `s`.
fn remove_pattern(s: &str, p: &str) -> (r: String)
    ensures
        r@ == remove_all(s@, p@),
{
    let n = s.unicode_len();
    let m = p.unicode_len();
    if m == 0 {
        return s.to_owned();
    }
    let mut out = String::new();
    let mut i: usize = 0;
    proof {
        assert(s@.skip(0) =~= s@);
        assert(Seq::<char>::empty() + remove_all(s@, p@) =~= remove_all(s@, p@));
    }
    while m <= n && i <= n - m
        invariant
            0 <= i <= n,
            1 <= m,
            n == s@.len(),
            m == p@.len(),
            out@ + remove_all(s@.skip(i as int), p@) == remove_all(s@, p@),
        decreases n - i,
    {
        if str_eq_at(s, p, i, n, m) {
            proof {
                assert(s@.skip(i as int).subrange(0, m as int) =~= s@.subrange(
                    i as int,
                    i + m,
                ));
                assert(s@.skip(i as int).skip(m as int) =~= s@.skip(i + m));
            }
            i = i + m;
        } else {
            proof {
                assert(s@.skip(i as int).subrange(0, m as int) =~= s@.subrange(
                    i as int,
                    i + m,
                ));
                assert(s@.skip(i as int).skip(1) =~= s@.skip(i + 1));
                assert(s@.skip(i as int)[0] == s@[i as int]);
            }
            let ghost pre_out = out@;
            let c = s.substring_char(i, i + 1);
            out.append(c);
            proof {
                assert(c@ =~= seq![s@[i as int]]);
                assert(pre_out + seq![s@[i as int]] + remove_all(s@.skip(i + 1), p@) =~= pre_out
                    + (seq![s@[i as int]] + remove_all(s@.skip(i + 1), p@)));
            }
            i = i + 1;
        }
    }
    proof {
        assert(s@.skip(i as int).len() < m);
    }
    let rest = s.substring_char(i, n);
    out.append(rest);
    proof {
        assert(rest@ =~= s@.skip(i as int));
        assert(remove_all(s@.skip(i as int), p@) == s@.skip(i as int));
    }
    out
}

/// The home and away teams of one schedule line. A subject text that
/// carries `@ ` names the home team itself (the owner plays away);
/// otherwise the owner is home and the text names the guest after `vs `.
/// The marker is removed wherever it occurs, as `str::replace` would.
pub fn split_teams(subject_owner: &str, subject_text: &str) -> (r: (String, String))
    ensures
        contains_seq(subject_text@, "@ "@) ==> r.0@ == remove_all(subject_text@, "@ "@) && r.1@
            == subject_owner@,
        !contains_seq(subject_text@, "@ "@) ==> r.0@ == subject_owner@ && r.1@ == remove_all(
            subject_text@,
            "vs "@,
        ),
{
    if str_contains(subject_text, "@ ") {
        (remove_pattern(subject_text, "@ "), subject_owner.to_owned())
    } else {
        (subject_owner.to_owned(), remove_pattern(subject_text, "vs "))
    }
}

/// The home/away split as the month-based schedule parser reads it. Its
/// away marker is a bare `@` anywhere in the subject text, while only the
/// spaced `@ ` marker is removed from the team name — a subject text
/// holding `@` without a following space keeps it.
pub fn split_teams_month(subject_owner: &str, subject_text: &str) -> (r: (String, String))
    ensures
        contains_seq(subject_text@, "@"@) ==> r.0@ == remove_all(subject_text@, "@ "@) && r.1@
            == subject_owner@,
        !contains_seq(subject_text@, "@"@) ==> r.0@ == subject_owner@ && r.1@ == remove_all(
            subject_text@,
            "vs "@,
        ),
{
    if str_contains(subject_text, "@") {
        (remove_pattern(subject_text, "@ "), subject_owner.to_owned())
    } else {
        (subject_owner.to_owned(), remove_pattern(subject_text, "vs "))
    }
}

/// The month-calendar URL of a site.
pub fn build_month_url(base_url: &str, mm: &str, yyyy: &str) -> (r: String)
    ensures
        r@ == base_url@ + "/Calendar/?Month="@ + mm@ + "&Year="@ + yyyy@,
{
    let mut s = base_url.to_owned();
    s.append("/Calendar/?Month=");
    s.append(mm);
    s.append("&Year=");
    s.append(yyyy);
    s
}

/// The `yyyy-mm-dd hh:mm am/pm` string one schedule entry's day and time
/// parse into.
pub fn build_datetime_string(yyyy: &str, mm: &str, day: &str, time: &str) -> (r: String)
    ensures
        r@ == yyyy@ + "-"@ + mm@ + "-"@ + day@ + " "@ + time@,
{
    let mut s = yyyy.to_owned();
    s.append("-");
    s.append(mm);
    s.append("-");
    s.append(day);
    s.append(" ");
    s.append(time);
    s
}

/// The fixed human-check cookie the client sends, around the two time
/// stamps the driver formats: when the check passed and when it expires.
pub fn build_cookie_value(from_dt: &str, to_dt: &str) -> (r: String)
    ensures
        r@ == "MBSW_IS_HUMAN=Passed "@ + from_dt@ + "; expires="@ + to_dt@
            + " GMT; path=/; SameSite=Strict"@,
{
    let mut s = String::new();
    s.append("MBSW_IS_HUMAN=Passed ");
    s.append(from_dt);
    s.append("; expires=");
    s.append(to_dt);
    s.append(" GMT; path=/; SameSite=Strict");
    s
}

/// True when the site filter asks for every site: the single entry `all`.
pub fn wants_all_sites(sites: &Vec<String>) -> (r: bool)
    ensures
        r == (sites@.len() == 1 && sites@[0]@ == "all"@),
{
    if sites.len() == 1 {
        let all = String::from_str("all");
        sites[0].eq(&all)
    } else {
        false
    }
}

} // verus!
