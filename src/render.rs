use vstd::prelude::*;

use crate::catalog::catalog;
use crate::license::{License, LicenseError, LicenseErrorView, LicenseView, licenses_view};

verus! {

#[verifier::external_type_specification]
#[verifier::external_body]
pub struct ExRenderError(handlebars::RenderError);

/// What handlebars gives for a template rendered with the inputs `year` and
/// `copyright_holders`: `None` where it refuses the template.
pub uninterp spec fn rendered_text(template: Seq<char>, year: int, holders: Seq<char>) -> Option<Seq<char>>;

/// Relies on `handlebars::Handlebars::render_template`, on a new registry,
/// with the data `{"year": year, "copyright_holders": holders}`. Only the
/// catalog's templates are rendered: handlebars does not stop a partial that
/// includes itself, which none of them holds.
#[verifier::external_body]
fn render_template(template: &str, year: i32, holders: &str) -> (r: Result<String, handlebars::RenderError>)
    requires
        is_catalog_text(template@),
    ensures
        match r {
            Ok(s) => rendered_text(template@, year as int, holders@) == Some(s@),
            Err(_) => rendered_text(template@, year as int, holders@) is None,
        },
{
    let mut data = serde_json::Map::new();
    data.insert(String::from("year"), serde_json::Value::from(year));
    data.insert(String::from("copyright_holders"), serde_json::Value::from(holders));
    handlebars::Handlebars::new().render_template(template, &data)
}

/// `t` is the template of a license of the catalog.
pub open spec fn is_catalog_text(t: Seq<char>) -> bool {
    exists|i: int| 0 <= i < catalog().len() && catalog()[i].text == t
}

/// Every license of `ls` is an entry of the catalog.
pub open spec fn all_in_catalog(ls: Seq<License>) -> bool {
    forall|i: int| 0 <= i < ls.len() ==> catalog().contains(#[trigger] ls[i]@)
}

/// The parts joined, with `sep` between each two of them.
pub open spec fn joined(parts: Seq<Seq<char>>, sep: Seq<char>) -> Seq<char>
    decreases parts.len(),
{
    if parts.len() == 0 {
        Seq::empty()
    } else if parts.len() == 1 {
        parts[0]
    } else {
        joined(parts.drop_last(), sep) + sep + parts.last()
    }
}

/// The copyright holders of a license text: the authors joined with `", "`.
pub open spec fn copyright_holders(authors: Seq<&str>) -> Seq<char> {
    joined(authors.map_values(|a: &str| a@), ", "@)
}

/// The name of the file of a license with this identifier, among `count`
/// licenses: `LICENSE` for a single one, else `LICENSE-{identifier}`.
pub open spec fn license_file_name(count: nat, identifier: Seq<char>) -> Seq<char> {
    if count == 1 {
        "LICENSE"@
    } else {
        "LICENSE-"@ + identifier
    }
}

/// The file name of each license, in order.
pub open spec fn file_names(ls: Seq<LicenseView>) -> Seq<Seq<char>> {
    Seq::new(ls.len(), |i: int| license_file_name(ls.len(), ls[i].identifier))
}

/// The files of a rendering, as pairs of name and text.
pub open spec fn files_view(files: Seq<(String, String)>) -> Seq<(Seq<char>, Seq<char>)> {
    files.map_values(|f: (String, String)| (f.0@, f.1@))
}

/// The view of the outcome of a rendering.
pub open spec fn render_outcome(r: Result<Vec<(String, String)>, LicenseError>) -> Result<
    Seq<(Seq<char>, Seq<char>)>,
    LicenseErrorView,
> {
    match r {
        Ok(v) => Ok(files_view(v@)),
        Err(e) => Err(e@),
    }
}

/// `out` is what rendering the licenses `ls` for `authors` in `year` gives:
/// for each license in order its file name and its rendered template, or,
/// where a template cannot be rendered, `TemplateSyntax` with the SPDX
/// identifier of the first such license.
pub open spec fn renders_as(
    ls: Seq<LicenseView>,
    authors: Seq<&str>,
    year: int,
    out: Result<Seq<(Seq<char>, Seq<char>)>, LicenseErrorView>,
) -> bool {
    let holders = copyright_holders(authors);
    match out {
        Ok(files) => {
            &&& files.len() == ls.len()
            &&& forall|i: int|
                0 <= i < ls.len() ==> #[trigger] files[i].0 == file_names(ls)[i]
                    && rendered_text(ls[i].text, year, holders) == Some(files[i].1)
        },
        Err(e) => exists|k: int|
            {
                &&& 0 <= k < ls.len()
                &&& #[trigger] rendered_text(ls[k].text, year, holders) is None
                &&& forall|j: int|
                    0 <= j < k ==> #[trigger] rendered_text(ls[j].text, year, holders) is Some
                &&& e == LicenseErrorView::TemplateSyntax(ls[k].spdx)
            },
    }
}

fn join_authors(authors: &[&str]) -> (r: String)
    ensures
        r@ == copyright_holders(authors@),
{
    let ghost parts = authors@.map_values(|a: &str| a@);
    let mut s = String::new();
    let mut i: usize = 0;
    assert(parts.subrange(0, 0) =~= Seq::<Seq<char>>::empty());
    while i < authors.len()
        invariant
            parts == authors@.map_values(|a: &str| a@),
            i <= authors@.len(),
            s@ == joined(parts.subrange(0, i as int), ", "@),
        decreases authors.len() - i,
    {
        let ghost prev = s@;
        assert(parts.subrange(0, i + 1).drop_last() =~= parts.subrange(0, i as int));
        if i > 0 {
            s.append(", ");
        }
        s.append(authors[i]);
        proof {
            if i == 0 {
                assert(prev =~= Seq::<char>::empty());
                assert(s@ =~= parts.subrange(0, 1)[0]);
            }
        }
        i += 1;
    }
    assert(parts.subrange(0, authors.len() as int) =~= parts);
    s
}

/// The file name of each license, in order: `LICENSE` where there is a
/// single license, else `LICENSE-{identifier}` for each.
pub fn license_file_names(licenses: &[License]) -> (r: Vec<String>)
    ensures
        r@.map_values(|s: String| s@) == file_names(licenses_view(licenses@)),
{
    let n = licenses.len();
    let mut names: Vec<String> = Vec::new();
    let mut i: usize = 0;
    while i < n
        invariant
            n == licenses@.len(),
            i <= n,
            names@.len() == i,
            forall|k: int|
                0 <= k < i ==> #[trigger] names@[k]@ == license_file_name(
                    n as nat,
                    licenses@[k].identifier@,
                ),
        decreases n - i,
    {
        if n == 1 {
            names.push(String::from_str("LICENSE"));
        } else {
            let mut name = String::from_str("LICENSE-");
            name.append(licenses[i].identifier.as_str());
            names.push(name);
        }
        i += 1;
    }
    assert(names@.map_values(|s: String| s@) =~= file_names(licenses_view(licenses@)));
    names
}

/// The files of the licenses: the name of each paired with its rendered
/// text, in order.
pub fn license_files(licenses: &[License], texts: Vec<String>) -> (r: Vec<(String, String)>)
    requires
        texts@.len() == licenses@.len(),
    ensures
        r@.len() == licenses@.len(),
        forall|i: int|
            0 <= i < licenses@.len() ==> #[trigger] files_view(r@)[i] == (
                file_names(licenses_view(licenses@))[i],
                texts@[i]@,
            ),
{
    let names = license_file_names(licenses);
    let ghost names_view = names@.map_values(|s: String| s@);
    let mut files: Vec<(String, String)> = Vec::new();
    let mut i: usize = 0;
    assert(names_view.len() == names@.len());
    assert(file_names(licenses_view(licenses@)).len() == licenses@.len());
    while i < texts.len()
        invariant
            names_view == names@.map_values(|s: String| s@),
            names_view == file_names(licenses_view(licenses@)),
            texts@.len() == licenses@.len(),
            names@.len() == texts@.len(),
            i <= texts@.len(),
            files@.len() == i,
            forall|k: int|
                0 <= k < i ==> #[trigger] files_view(files@)[k] == (names_view[k], texts@[k]@),
        decreases texts.len() - i,
    {
        let ghost before = files_view(files@);
        let f = (names[i].clone(), texts[i].clone());
        files.push(f);
        assert(files_view(files@) =~= before.push((f.0@, f.1@)));
        i += 1;
    }
    files
}

/// Renders the licenses for the authors in the given year (the caller
/// reads the clock): the file name of each license paired with its
/// template, rendered with `year` and the authors joined by `", "`. The licenses are entries of the catalog, as
/// [`crate::parse_spdx`] gives them.
///
/// There is one file per license, in order. A license given twice (as in
/// `MIT OR MIT`) gives two equal entries, name and text alike, so writing
/// them all leaves one file of that name.
pub fn render_license_text(licenses: &[License], authors: &[&str], year: i32) -> (r:
    Result<Vec<(String, String)>, LicenseError>)
    requires
        all_in_catalog(licenses@),
    ensures
        renders_as(licenses_view(licenses@), authors@, year as int, render_outcome(r)),
{
    let holders = join_authors(authors);
    let ghost ls = licenses_view(licenses@);
    let mut texts: Vec<String> = Vec::new();
    let mut i: usize = 0;
    while i < licenses.len()
        invariant
            ls == licenses_view(licenses@),
            all_in_catalog(licenses@),
            holders@ == copyright_holders(authors@),
            i <= licenses@.len(),
            texts@.len() == i,
            forall|k: int|
                0 <= k < i ==> #[trigger] rendered_text(ls[k].text, year as int, holders@) == Some(
                    texts@[k]@,
                ),
        decreases licenses.len() - i,
    {
        proof {
            let k = catalog().index_of(licenses@[i as int]@);
            assert(catalog()[k].text == licenses@[i as int].text@);
        }
        match render_template(licenses[i].text.as_str(), year, holders.as_str()) {
            Ok(text) => {
                texts.push(text);
            },
            Err(_) => {
                let r = Err(LicenseError::TemplateSyntax(licenses[i].spdx.clone()));
                assert(rendered_text(ls[i as int].text, year as int, holders@) is None);
                assert forall|j: int| 0 <= j < i implies #[trigger] rendered_text(
                    ls[j].text,
                    year as int,
                    holders@,
                ) is Some by {
                    assert(rendered_text(ls[j].text, year as int, holders@) == Some(texts@[j]@));
                }
                return r;
            },
        }
        i += 1;
    }
    let files = license_files(licenses, texts);
    assert forall|i: int| 0 <= i < ls.len() implies #[trigger] files_view(files@)[i].0
        == file_names(ls)[i] && rendered_text(ls[i].text, year as int, holders@) == Some(
        files_view(files@)[i].1,
    ) by {
        assert(files_view(files@)[i] == (file_names(ls)[i], texts@[i]@));
        assert(rendered_text(ls[i].text, year as int, holders@) == Some(texts@[i]@));
    }
    Ok(files)
}

} // verus!
