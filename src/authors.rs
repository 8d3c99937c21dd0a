use vstd::prelude::*;

use crate::license::{LicenseError, LicenseErrorView};

verus! {

/// Recognizes a git-style author, `Name <email>`, and captures the name.
pub const GIT_AUTHOR_PATTERN: &'static str = "(?P<name>.+) <(?P<email>.+)>";

/// The capture group of [`GIT_AUTHOR_PATTERN`] that holds the name.
pub const NAME_GROUP: &'static str = "name";

#[verifier::external_type_specification]
#[verifier::external_body]
pub struct ExRegexError(regex::Error);

/// What the `regex` crate gives for a pattern, a haystack and a group name:
/// `None` where the pattern does not compile (never for the author
/// pattern, which is valid and small), else the text of the group in
/// the first match, if there is a match and the group takes part in it.
pub uninterp spec fn regex_group(pattern: Seq<char>, haystack: Seq<char>, group: Seq<char>) -> Option<Option<Seq<char>>>;

/// `i` ends the name of a git-style author `s`: the name `s[0..i]` is not
/// empty, `" <"` follows it, and a `>` stands at least one character later.
pub open spec fn is_name_end(s: Seq<char>, i: int) -> bool {
    &&& 1 <= i
    &&& i + 1 < s.len()
    &&& s[i] == ' ' && s[i + 1] == '<'
    &&& exists|j: int| i + 3 <= j < s.len() && s[j] == '>'
}

/// The name of a git-style author `s`: the longest prefix that
/// [`is_name_end`] allows, where there is one.
pub open spec fn git_author_name(s: Seq<char>) -> Option<Seq<char>> {
    if exists|i: int| is_name_end(s, i) {
        Some(
            s.subrange(
                0,
                choose|i: int| is_name_end(s, i) && forall|k: int| is_name_end(s, k) ==> k <= i,
            ),
        )
    } else {
        None
    }
}

/// Relies on `regex::Regex::new` (fails only on the pattern), then
/// `Regex::captures` and `Captures::name`: the text of the named group in
/// the leftmost-first match. For the author pattern on a single line, `.+`
/// is greedy and matches any character but a line break, so the match
/// starts at the first character and the name is the longest prefix that
/// `" <"`, a non-empty email and `>` can follow.
#[verifier::external_body]
fn capture_group<'h>(pattern: &str, haystack: &'h str, group: &str) -> (r: Result<Option<&'h str>, regex::Error>)
    ensures
        match r {
            Ok(Some(m)) => regex_group(pattern@, haystack@, group@) == Some(Some(m@)),
            Ok(None) => regex_group(pattern@, haystack@, group@) == Some(None::<Seq<char>>),
            Err(_) => regex_group(pattern@, haystack@, group@) is None,
        },
        pattern@ == GIT_AUTHOR_PATTERN@ ==> r is Ok,
        pattern@ == GIT_AUTHOR_PATTERN@ && group@ == NAME_GROUP@ && !haystack@.contains('\n')
            ==> match r {
            Ok(Some(m)) => git_author_name(haystack@) == Some(m@),
            Ok(None) => git_author_name(haystack@) is None,
            Err(_) => false,
        },
{
    let re = regex::Regex::new(pattern)?;
    Ok(re.captures(haystack).and_then(|caps| caps.name(group)).map(|m| m.as_str()))
}

/// What the author pattern captures of `author` (the pattern compiles).
pub open spec fn captured_name(author: Seq<char>) -> Option<Option<Seq<char>>> {
    regex_group(GIT_AUTHOR_PATTERN@, author, NAME_GROUP@)
}

/// The name to show for an author: the captured name where there is one,
/// else the author unchanged.
pub open spec fn display_name_of(author: Seq<char>, captured: Option<Seq<char>>) -> Seq<char> {
    match captured {
        Some(n) => n,
        None => author,
    }
}

/// The name to show for `author`, given what the author pattern captured of
/// it.
pub fn display_name<'a>(author: &'a str, captured: Option<&'a str>) -> (r: &'a str)
    ensures
        r@ == display_name_of(
            author@,
            match captured {
                Some(n) => Some(n@),
                None => None,
            },
        ),
{
    match captured {
        Some(n) => n,
        None => author,
    }
}

fn parse_git_style_author<'a>(author: &'a str) -> (r: Option<&'a str>)
    ensures
        captured_name(author@) == Some(
            match r {
                Some(n) => Some(n@),
                None => None,
            },
        ),
        !author@.contains('\n') ==> captured_name(author@) == Some(git_author_name(author@)),
{
    match capture_group(GIT_AUTHOR_PATTERN, author, NAME_GROUP) {
        Ok(c) => c,
        Err(_) => None,
    }
}

/// Parses author names from a list of authors, some of which may be
/// git-style (`John Doe <jd@example.com>`): of those only the name is kept,
/// the others stay as they are.
pub fn parse_author_names<'a>(authors: &[&'a str]) -> (r: Result<Vec<&'a str>, LicenseError>)
    ensures
        r is Err <==> authors@.len() == 0,
        r is Err ==> r->Err_0@ == LicenseErrorView::NoAuthors,
        r is Ok ==> {
            let names = r->Ok_0@;
            &&& names.len() == authors@.len()
            &&& forall|i: int|
                0 <= i < names.len() ==> #[trigger] names[i]@ == display_name_of(
                    authors@[i]@,
                    captured_name(authors@[i]@)->Some_0,
                )
            &&& forall|i: int|
                0 <= i < names.len() && !(#[trigger] authors@[i]@).contains('\n')
                    ==> names[i]@ == display_name_of(authors@[i]@, git_author_name(authors@[i]@))
        },
{
    if authors.len() == 0 {
        return Err(LicenseError::NoAuthors);
    }
    let mut names: Vec<&'a str> = Vec::new();
    let mut i: usize = 0;
    while i < authors.len()
        invariant
            i <= authors@.len(),
            names@.len() == i,
            forall|k: int| 0 <= k < i ==> #[trigger] captured_name(authors@[k]@) is Some,
            forall|k: int|
                0 <= k < i && !(#[trigger] authors@[k]@).contains('\n')
                    ==> captured_name(authors@[k]@) == Some(git_author_name(authors@[k]@)),
            forall|k: int|
                0 <= k < i ==> #[trigger] names@[k]@ == display_name_of(
                    authors@[k]@,
                    captured_name(authors@[k]@)->Some_0,
                ),
        decreases authors.len() - i,
    {
        let author = authors[i];
        let captured = parse_git_style_author(author);
        names.push(display_name(author, captured));
        i += 1;
    }
    Ok(names)
}

} // verus!
