use regex::{Regex, RegexSet};
use vstd::prelude::*;

verus! {

#[verifier::external_type_specification]
#[verifier::external_body]
pub struct ExRegex(Regex);

#[verifier::external_type_specification]
#[verifier::external_body]
pub struct ExRegexSet(RegexSet);

/// Whether `regex::Regex::new` accepts the pattern.
pub uninterp spec fn pattern_compiles(pattern: Seq<char>) -> bool;

/// Whether `regex::RegexSet::new` accepts the list of patterns.
pub uninterp spec fn set_compiles(patterns: Seq<Seq<char>>) -> bool;

/// What `regex::Regex::as_str` returns: the pattern the regex was compiled from.
pub uninterp spec fn regex_source(re: Regex) -> Seq<char>;

/// What `regex::RegexSet::patterns` returns: the patterns of the set, in order.
pub uninterp spec fn set_sources(set: RegexSet) -> Seq<Seq<char>>;

/// Whether the regular expression `pattern` matches somewhere in `haystack`.
pub uninterp spec fn regex_matches(pattern: Seq<char>, haystack: Seq<char>) -> bool;

/// The capture groups of the first match of `pattern` in `haystack`, group 0
/// (the whole match) first; a group that took no part in the match is `None`.
pub uninterp spec fn capture_groups_of(pattern: Seq<char>, haystack: Seq<char>) -> Option<
    Seq<Option<Seq<char>>>,
>;

/// The character sequences of a list of strings.
pub open spec fn views_of(strings: Seq<String>) -> Seq<Seq<char>> {
    strings.map_values(|s: String| s@)
}

/// The character sequences of a list of optional strings.
pub open spec fn group_views(groups: Seq<Option<String>>) -> Seq<Option<Seq<char>>> {
    groups.map_values(|g: Option<String>| opt_view(g))
}

pub open spec fn opt_view(g: Option<String>) -> Option<Seq<char>> {
    match g {
        Some(s) => Some(s@),
        None => None,
    }
}

/// The substrings of the groups that took part in a match, in group order.
pub open spec fn participating(groups: Seq<Option<Seq<char>>>) -> Seq<Seq<char>>
    decreases groups.len(),
{
    if groups.len() == 0 {
        Seq::empty()
    } else {
        let rest = participating(groups.drop_last());
        match groups.last() {
            Some(s) => rest.push(s),
            None => rest,
        }
    }
}

/// The captures handed to a handler: absent when there was no match or the
/// pattern has no groups beyond the whole match; otherwise the participating
/// groups, the whole match left out.
pub open spec fn captures_spec(groups: Option<Seq<Option<Seq<char>>>>) -> Option<Seq<Seq<char>>> {
    match groups {
        None => None,
        Some(g) => if g.len() <= 1 {
            None
        } else {
            Some(participating(g.subrange(1, g.len() as int)))
        },
    }
}

/// Relies on `regex::Regex::new`, which accepts or refuses a pattern, and on
/// `regex::Regex::as_str`, which gives back the pattern it was built from.
#[verifier::external_body]
pub(crate) fn compile_regex(pattern: &String) -> (r: Option<Regex>)
    ensures
        r is Some <==> pattern_compiles(pattern@),
        r matches Some(re) ==> regex_source(re) == pattern@,
{
    Regex::new(pattern).ok()
}

/// Relies on `regex::RegexSet::new`, which accepts or refuses the list, and on
/// `regex::RegexSet::patterns`, which gives back the patterns in the order given.
#[verifier::external_body]
pub(crate) fn compile_set(patterns: &Vec<String>) -> (r: Option<RegexSet>)
    ensures
        r is Some <==> set_compiles(views_of(patterns@)),
        r matches Some(s) ==> set_sources(s) == views_of(patterns@),
{
    RegexSet::new(patterns.iter()).ok()
}

/// Relies on `regex::RegexSet::matches`: the indices of the patterns that
/// match the haystack, iterated in ascending order.
#[verifier::external_body]
pub(crate) fn matching_indices(set: &RegexSet, haystack: &str) -> (r: Vec<usize>)
    ensures
        forall|k: int, l: int| 0 <= k < l < r@.len() ==> r@[k] < r@[l],
        forall|k: int| 0 <= k < r@.len() ==> r@[k] < set_sources(*set).len(),
        forall|i: int|
            0 <= i < set_sources(*set).len() ==> (r@.contains(i as usize) <==> regex_matches(
                #[trigger] set_sources(*set)[i],
                haystack@,
            )),
{
    set.matches(haystack).into_iter().collect()
}

/// Relies on `regex::Regex::captures`: `None` exactly when the regex does not
/// match, else every group of the first match, group 0 (always present) first.
#[verifier::external_body]
fn capture_groups(re: &Regex, haystack: &str) -> (r: Option<Vec<Option<String>>>)
    ensures
        r is Some <==> regex_matches(regex_source(*re), haystack@),
        r matches Some(g) ==> (Some(group_views(g@)) == capture_groups_of(
            regex_source(*re),
            haystack@,
        ) && g@.len() >= 1),
{
    re.captures(haystack).map(|c| c.iter().map(|m| m.map(|m| m.as_str().to_string())).collect())
}

/// Turns the groups of a match into the captures handed to a handler.
pub fn captures_from_groups(groups: Option<Vec<Option<String>>>) -> (r: Option<Vec<String>>)
    ensures
        match r {
            None => captures_spec(groups_opt_view(groups)) is None,
            Some(v) => captures_spec(groups_opt_view(groups)) == Some(views_of(v@)),
        },
{
    match groups {
        None => None,
        Some(g) => {
            if g.len() <= 1 {
                None
            } else {
                let ghost gv = group_views(g@);
                let mut out: Vec<String> = Vec::new();
                let mut i: usize = 1;
                while i < g.len()
                    invariant
                        1 <= i <= g@.len(),
                        gv == group_views(g@),
                        views_of(out@) == participating(gv.subrange(1, i as int)),
                    decreases g@.len() - i,
                {
                    assert(gv.subrange(1, i + 1).drop_last() =~= gv.subrange(1, i as int));
                    match &g[i] {
                        Some(s) => {
                            out.push(s.clone());
                            assert(views_of(out@) =~= participating(gv.subrange(1, i + 1)));
                        },
                        None => {},
                    }
                    i = i + 1;
                }
                assert(gv.subrange(1, g@.len() as int) =~= gv.subrange(1, gv.len() as int));
                Some(out)
            }
        },
    }
}

pub open spec fn groups_opt_view(groups: Option<Vec<Option<String>>>) -> Option<
    Seq<Option<Seq<char>>>,
> {
    match groups {
        None => None,
        Some(g) => Some(group_views(g@)),
    }
}

/// The captures of `re` on `haystack`: the participating groups after the whole match.
pub(crate) fn get_captures(re: &Regex, haystack: &str) -> (r: Option<Vec<String>>)
    ensures
        match r {
            None => captures_spec(capture_groups_of(regex_source(*re), haystack@)) is None
                || !regex_matches(regex_source(*re), haystack@),
            Some(v) => regex_matches(regex_source(*re), haystack@) && captures_spec(
                capture_groups_of(regex_source(*re), haystack@),
            ) == Some(views_of(v@)),
        },
{
    let groups = capture_groups(re, haystack);
    captures_from_groups(groups)
}

} // verus!
