use vstd::prelude::*;

use crate::catalog::{catalog, licenses};
use crate::license::{License, LicenseError, LicenseErrorView, LicenseView, licenses_view};
use crate::spdx::{is_spdx_id, is_valid_spdx_id};

verus! {

/// The characters with the Unicode `White_Space` property.
pub open spec fn is_whitespace(c: char) -> bool {
    ||| c == '\t' || c == '\n' || c == '\u{0B}' || c == '\u{0C}' || c == '\r' || c == ' '
    ||| c == '\u{85}' || c == '\u{A0}' || c == '\u{1680}'
    ||| ('\u{2000}' <= c && c <= '\u{200A}')
    ||| c == '\u{2028}' || c == '\u{2029}' || c == '\u{202F}' || c == '\u{205F}' || c == '\u{3000}'
}

/// The separator of the tokens: `/` in slash mode, else any whitespace.
pub open spec fn is_separator(c: char, slash: bool) -> bool {
    if slash {
        c == '/'
    } else {
        is_whitespace(c)
    }
}

/// The fields of `s` between separators, empty ones included: `k`
/// separators give `k + 1` fields.
pub open spec fn split_fields(s: Seq<char>, slash: bool) -> Seq<Seq<char>>
    decreases s.len(),
{
    if s.len() == 0 {
        seq![Seq::empty()]
    } else {
        let prev = split_fields(s.drop_last(), slash);
        if is_separator(s.last(), slash) {
            prev.push(Seq::empty())
        } else {
            prev.update(prev.len() - 1, prev.last().push(s.last()))
        }
    }
}

/// The boolean operators of an expression, which name no license.
pub open spec fn is_operator(t: Seq<char>) -> bool {
    t == "WITH"@ || t == "OR"@ || t == "AND"@
}

/// A field names a license: it is no operator, and in whitespace mode it is
/// not empty (runs of whitespace separate one pair of tokens).
pub open spec fn keeps_field(t: Seq<char>, slash: bool) -> bool {
    (slash || t.len() > 0) && !is_operator(t)
}

/// The fields that name licenses, in order.
pub open spec fn kept_fields(fs: Seq<Seq<char>>, slash: bool) -> Seq<Seq<char>>
    decreases fs.len(),
{
    if fs.len() == 0 {
        fs
    } else {
        let prev = kept_fields(fs.drop_last(), slash);
        if keeps_field(fs.last(), slash) {
            prev.push(fs.last())
        } else {
            prev
        }
    }
}

/// The license tokens of an expression: split on `/` where the expression
/// holds one, else on whitespace, with the operators left out.
pub open spec fn license_tokens(expr: Seq<char>) -> Seq<Seq<char>> {
    let slash = expr.contains('/');
    kept_fields(split_fields(expr, slash), slash)
}

/// The first license of `cat` with the SPDX identifier `id`.
pub open spec fn catalog_lookup(cat: Seq<LicenseView>, id: Seq<char>) -> Option<LicenseView>
    decreases cat.len(),
{
    if cat.len() == 0 {
        None
    } else if cat[0].spdx == id {
        Some(cat[0])
    } else {
        catalog_lookup(cat.drop_first(), id)
    }
}

/// The license that a token names, or why it names none.
pub open spec fn resolve_token(t: Seq<char>) -> Result<LicenseView, LicenseErrorView> {
    if !is_spdx_id(t) {
        Err(LicenseErrorView::InvalidSpdxId(t))
    } else {
        match catalog_lookup(catalog(), t) {
            Some(l) => Ok(l),
            None => Err(LicenseErrorView::UnsupportedLicense(t)),
        }
    }
}

/// The licenses that the tokens name, in order, or the failure of the first
/// token that names none.
pub open spec fn resolve_tokens(ts: Seq<Seq<char>>) -> Result<Seq<LicenseView>, LicenseErrorView>
    decreases ts.len(),
{
    if ts.len() == 0 {
        Ok(Seq::empty())
    } else {
        match resolve_token(ts[0]) {
            Err(e) => Err(e),
            Ok(l) => match resolve_tokens(ts.drop_first()) {
                Ok(rest) => Ok(seq![l] + rest),
                Err(e) => Err(e),
            },
        }
    }
}

/// What parsing an expression gives.
pub open spec fn parse_model(expr: Seq<char>) -> Result<Seq<LicenseView>, LicenseErrorView> {
    resolve_tokens(license_tokens(expr))
}

/// The view of the outcome of [`parse_spdx`].
pub open spec fn parse_outcome(r: Result<Vec<License>, LicenseError>) -> Result<
    Seq<LicenseView>,
    LicenseErrorView,
> {
    match r {
        Ok(v) => Ok(licenses_view(v@)),
        Err(e) => Err(e@),
    }
}

spec fn prefixed(
    out: Seq<LicenseView>,
    rest: Result<Seq<LicenseView>, LicenseErrorView>,
) -> Result<Seq<LicenseView>, LicenseErrorView> {
    match rest {
        Ok(r) => Ok(out + r),
        Err(e) => Err(e),
    }
}

fn is_separator_char(c: char, slash: bool) -> (r: bool)
    ensures
        r == is_separator(c, slash),
{
    if slash {
        c == '/'
    } else {
        c == '\t' || c == '\n' || c == '\u{0B}' || c == '\u{0C}' || c == '\r' || c == ' '
            || c == '\u{85}' || c == '\u{A0}' || c == '\u{1680}' || ('\u{2000}' <= c && c
            <= '\u{200A}') || c == '\u{2028}' || c == '\u{2029}' || c == '\u{202F}' || c
            == '\u{205F}' || c == '\u{3000}'
    }
}

fn contains_slash(s: &str) -> (r: bool)
    ensures
        r == s@.contains('/'),
{
    let n = s.unicode_len();
    let mut i: usize = 0;
    while i < n
        invariant
            n == s@.len(),
            forall|k: int| 0 <= k < i ==> s@[k] != '/',
        decreases n - i,
    {
        if s.get_char(i) == '/' {
            return true;
        }
        i += 1;
    }
    false
}

/// The fields of `s` between separators.
pub fn split_expr(s: &str, slash: bool) -> (r: Vec<String>)
    ensures
        r@.map_values(|t: String| t@) == split_fields(s@, slash),
{
    let n = s.unicode_len();
    let mut fields: Vec<String> = Vec::new();
    let mut start: usize = 0;
    let mut i: usize = 0;
    assert(s@.subrange(0, 0) =~= Seq::<char>::empty());
    assert(fields@.map_values(|t: String| t@).push(s@.subrange(0, 0)) =~= seq![
        Seq::<char>::empty(),
    ]);
    while i < n
        invariant
            n == s@.len(),
            start <= i <= n,
            fields@.map_values(|t: String| t@).push(s@.subrange(start as int, i as int))
                == split_fields(s@.subrange(0, i as int), slash),
        decreases n - i,
    {
        let c = s.get_char(i);
        let ghost prev = split_fields(s@.subrange(0, i as int), slash);
        let ghost old_fields = fields@.map_values(|t: String| t@);
        assert(s@.subrange(0, i + 1).drop_last() =~= s@.subrange(0, i as int));
        if is_separator_char(c, slash) {
            let field = String::from_str(s.substring_char(start, i));
            fields.push(field);
            start = i + 1;
            assert(fields@.map_values(|t: String| t@) =~= old_fields.push(field@));
            assert(s@.subrange(start as int, i + 1) =~= Seq::<char>::empty());
        } else {
            assert(s@.subrange(start as int, i + 1) =~= s@.subrange(start as int, i as int).push(
                c,
            ));
            assert(prev.update(prev.len() - 1, prev.last().push(c)) =~= old_fields.push(
                s@.subrange(start as int, i + 1),
            ));
        }
        i += 1;
    }
    let ghost old_fields = fields@.map_values(|t: String| t@);
    let last = String::from_str(s.substring_char(start, n));
    fields.push(last);
    assert(fields@.map_values(|t: String| t@) =~= old_fields.push(last@));
    assert(s@.subrange(0, n as int) =~= s@);
    fields
}

fn is_operator_token(t: &String) -> (r: bool)
    ensures
        r == is_operator(t@),
{
    let with = String::from_str("WITH");
    let or = String::from_str("OR");
    let and = String::from_str("AND");
    *t == with || *t == or || *t == and
}

/// The fields that name licenses, in order.
pub fn keep_fields(fields: Vec<String>, slash: bool) -> (r: Vec<String>)
    ensures
        r@.map_values(|t: String| t@) == kept_fields(fields@.map_values(|t: String| t@), slash),
{
    let ghost fs = fields@.map_values(|t: String| t@);
    let mut kept: Vec<String> = Vec::new();
    let mut i: usize = 0;
    assert(fs.subrange(0, 0) =~= Seq::<Seq<char>>::empty());
    while i < fields.len()
        invariant
            fs == fields@.map_values(|t: String| t@),
            i <= fields.len(),
            kept@.map_values(|t: String| t@) == kept_fields(fs.subrange(0, i as int), slash),
        decreases fields.len() - i,
    {
        let t = &fields[i];
        let ghost old_kept = kept@.map_values(|t: String| t@);
        assert(fs.subrange(0, i + 1).drop_last() =~= fs.subrange(0, i as int));
        assert(fs.subrange(0, i + 1).last() == t@);
        if (slash || t.unicode_len() > 0) && !is_operator_token(t) {
            kept.push(t.clone());
            assert(kept@.map_values(|t: String| t@) =~= old_kept.push(t@));
        }
        i += 1;
    }
    assert(fs.subrange(0, fields.len() as int) =~= fs);
    kept
}

/// The license of the catalog `cat` that a token names, or why it names none.
fn resolve(cat: &Vec<License>, token: &String) -> (r: Result<License, LicenseError>)
    requires
        licenses_view(cat@) == catalog(),
    ensures
        match r {
            Ok(l) => resolve_token(token@) == Ok::<LicenseView, LicenseErrorView>(l@),
            Err(e) => resolve_token(token@) == Err::<LicenseView, LicenseErrorView>(e@),
        },
{
    if !is_valid_spdx_id(token.as_str()) {
        return Err(LicenseError::InvalidSpdxId(token.clone()));
    }
    let ghost cv = licenses_view(cat@);
    assert(cv.subrange(0, cv.len() as int) =~= cv);
    let mut k: usize = 0;
    while k < cat.len()
        invariant
            cv == licenses_view(cat@),
            cv == catalog(),
            is_spdx_id(token@),
            k <= cat.len(),
            catalog_lookup(cv, token@) == catalog_lookup(cv.subrange(k as int, cv.len() as int), token@),
        decreases cat.len() - k,
    {
        let ghost rest = cv.subrange(k as int, cv.len() as int);
        assert(rest.drop_first() =~= cv.subrange(k + 1, cv.len() as int));
        assert(rest[0] == cat@[k as int]@);
        if cat[k].spdx == *token {
            assert(catalog_lookup(rest, token@) == Some(rest[0]));
            return Ok(cat[k].duplicate());
        }
        k += 1;
    }
    assert(cv.subrange(k as int, cv.len() as int) =~= Seq::<LicenseView>::empty());
    Err(LicenseError::UnsupportedLicense(token.clone()))
}

/// Parses the licenses that an SPDX license expression names, in order.
///
/// Where the expression holds a `/` (as package manifests join licenses) it
/// is split on `/`, else on whitespace; the operators `WITH`, `OR` and `AND`
/// are left out. Each remaining token must be a known SPDX identifier
/// (else `InvalidSpdxId`) of a license in the catalog (else
/// `UnsupportedLicense`); the first token that fails decides the error.
///
/// A license named twice is returned twice, and an expression without
/// license tokens (empty, or only operators) gives no license: what to make
/// of either is left to the caller.
pub fn parse_spdx(license_expr: &str) -> (r: Result<Vec<License>, LicenseError>)
    ensures
        parse_outcome(r) == parse_model(license_expr@),
{
    let cat = licenses();
    let slash = contains_slash(license_expr);
    let tokens = keep_fields(split_expr(license_expr, slash), slash);
    let ghost ts = tokens@.map_values(|t: String| t@);
    assert(ts == license_tokens(license_expr@));
    let mut out: Vec<License> = Vec::new();
    let mut i: usize = 0;
    assert(ts.subrange(0, ts.len() as int) =~= ts);
    assert(licenses_view(out@) =~= Seq::<LicenseView>::empty());
    assert(prefixed(Seq::empty(), resolve_tokens(ts)) == resolve_tokens(ts)) by {
        match resolve_tokens(ts) {
            Ok(r) => assert(Seq::<LicenseView>::empty() + r =~= r),
            Err(_) => {},
        }
    }
    while i < tokens.len()
        invariant
            ts == tokens@.map_values(|t: String| t@),
            ts == license_tokens(license_expr@),
            licenses_view(cat@) == catalog(),
            i <= tokens.len(),
            resolve_tokens(ts) == prefixed(
                licenses_view(out@),
                resolve_tokens(ts.subrange(i as int, ts.len() as int)),
            ),
        decreases tokens.len() - i,
    {
        let ghost rest = ts.subrange(i as int, ts.len() as int);
        assert(rest.drop_first() =~= ts.subrange(i + 1, ts.len() as int));
        assert(rest[0] == tokens@[i as int]@);
        match resolve(&cat, &tokens[i]) {
            Err(e) => {
                return Err(e);
            },
            Ok(l) => {
                let ghost before = licenses_view(out@);
                out.push(l);
                assert(licenses_view(out@) =~= before.push(l@));
                assert(resolve_tokens(ts) == prefixed(
                    licenses_view(out@),
                    resolve_tokens(ts.subrange(i + 1, ts.len() as int)),
                )) by {
                    match resolve_tokens(ts.subrange(i + 1, ts.len() as int)) {
                        Ok(r) => assert(before + (seq![l@] + r) =~= before.push(l@) + r),
                        Err(_) => {},
                    }
                }
            },
        }
        i += 1;
    }
    assert(ts.subrange(i as int, ts.len() as int) =~= Seq::<Seq<char>>::empty());
    assert(licenses_view(out@) + Seq::<LicenseView>::empty() =~= licenses_view(out@));
    Ok(out)
}

} // verus!
