use vstd::prelude::*;

use crate::text::views;

verus! {

/// The pattern that a platform version string matches.
pub const VERSION_REGEX: &'static str = r"^1\.\d{1,2}(?:\.\d{1,2})?$";

/// What compiling the regular expression `pattern` and searching `haystack` with it gives,
/// as the `regex` crate decides it: `None` when the pattern does not compile, else whether
/// `haystack` holds a match.
pub uninterp spec fn regex_outcome(pattern: Seq<char>, haystack: Seq<char>) -> Option<bool>;

/// Relies on `regex::Regex::new` to compile `pattern` and on `regex::Regex::is_match` to
/// tell whether `haystack` holds a match; both depend on their arguments alone.
#[verifier::external_body]
fn regex_is_match(pattern: &str, haystack: &str) -> (r: Option<bool>)
    ensures
        r == regex_outcome(pattern@, haystack@),
{
    regex::Regex::new(pattern).ok().map(|re| re.is_match(haystack))
}

/// Whether a string is a platform version such as `1.20` or `1.20.4`.
pub open spec fn is_version(s: Seq<char>) -> bool {
    regex_outcome(VERSION_REGEX@, s) == Some(true)
}

/// Whether a string is a platform version such as `1.20` or `1.20.4`.
pub fn is_valid(input: &str) -> (r: bool)
    ensures
        r == is_version(input@),
{
    match regex_is_match(VERSION_REGEX, input) {
        Some(b) => b,
        None => false,
    }
}

/// A link target without its `.json` suffix, when it has one.
pub open spec fn strip_json(href: Seq<char>) -> Seq<char> {
    if href.len() >= 5 && href.subrange(href.len() - 5, href.len() as int) == ".json"@ {
        href.subrange(0, href.len() - 5)
    } else {
        href
    }
}

/// Removes a trailing `.json` from a link target.
pub fn strip_json_suffix(href: &str) -> (r: &str)
    ensures
        r@ == strip_json(href@),
{
    let n = href.unicode_len();
    if n >= 5 && crate::text::str_equal(href.substring_char(n - 5, n), ".json") {
        href.substring_char(0, n - 5)
    } else {
        href
    }
}

/// The versions named by a list of link targets, in their order: each target loses a
/// trailing `.json` and is kept when what remains is a version.
pub open spec fn versions_of(hrefs: Seq<Seq<char>>) -> Seq<Seq<char>>
    decreases hrefs.len(),
{
    if hrefs.len() == 0 {
        Seq::empty()
    } else {
        let prev = versions_of(hrefs.drop_last());
        let h = strip_json(hrefs.last());
        if is_version(h) {
            prev.push(h)
        } else {
            prev
        }
    }
}

/// The platform versions named by a list of link targets, as `versions_of` gives them.
pub fn filter_versions(hrefs: &Vec<String>) -> (r: Vec<String>)
    ensures
        views(r@) == versions_of(views(hrefs@)),
{
    let mut r: Vec<String> = Vec::new();
    let mut j: usize = 0;
    while j < hrefs.len()
        invariant
            j <= hrefs.len(),
            views(r@) == versions_of(views(hrefs@).subrange(0, j as int)),
        decreases hrefs.len() - j,
    {
        let ghost before = r@;
        let href = strip_json_suffix(hrefs[j].as_str());
        let keep = is_valid(href);
        if keep {
            r.push(String::from_str(href));
        }
        proof {
            let prefix = views(hrefs@).subrange(0, j + 1);
            assert(prefix.drop_last() =~= views(hrefs@).subrange(0, j as int));
            assert(prefix.last() == hrefs@[j as int]@);
            if keep {
                assert(views(r@) =~= views(before).push(href@));
            } else {
                assert(views(r@) =~= views(before));
            }
        }
        j = j + 1;
    }
    assert(views(hrefs@).subrange(0, j as int) =~= views(hrefs@));
    r
}

} // verus!
