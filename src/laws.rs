use vstd::prelude::*;

use crate::catalog::catalog;
use crate::expr::{
    catalog_lookup, is_operator, is_separator, is_whitespace, kept_fields, license_tokens,
    parse_model, resolve_token, resolve_tokens, split_fields,
};
use crate::license::{LicenseErrorView, LicenseView};
use crate::manifest::DEFAULT_LICENSE;
use crate::render::file_names;
use crate::spdx::{is_spdx_id, spdx_ids, spdx_ids_1, spdx_ids_2};

verus! {

/// `t` can stand alone as one token of an expression: it is not empty, holds
/// no whitespace and no `/`, and is no operator.
pub open spec fn is_single_token(t: Seq<char>) -> bool {
    &&& t.len() > 0
    &&& forall|k: int| 0 <= k < t.len() ==> !is_whitespace(#[trigger] t[k]) && t[k] != '/'
    &&& !is_operator(t)
}

proof fn lemma_split_nonempty(s: Seq<char>, slash: bool)
    ensures
        split_fields(s, slash).len() >= 1,
    decreases s.len(),
{
    if s.len() > 0 {
        lemma_split_nonempty(s.drop_last(), slash);
    }
}

proof fn lemma_split_plain(s: Seq<char>, slash: bool)
    requires
        forall|k: int| 0 <= k < s.len() ==> !is_separator(#[trigger] s[k], slash),
    ensures
        split_fields(s, slash) == seq![s],
    decreases s.len(),
{
    if s.len() == 0 {
        assert(s =~= Seq::<char>::empty());
    } else {
        let p = s.drop_last();
        assert forall|k: int| 0 <= k < p.len() implies !is_separator(#[trigger] p[k], slash) by {
            assert(p[k] == s[k]);
        }
        lemma_split_plain(p, slash);
        assert(!is_separator(s[s.len() - 1], slash));
        assert(p.push(s.last()) =~= s);
        assert(seq![p].update(0, p.push(s.last())) =~= seq![s]);
    }
}

proof fn lemma_split_extend(x: Seq<char>, y: Seq<char>, slash: bool)
    requires
        forall|k: int| 0 <= k < y.len() ==> !is_separator(#[trigger] y[k], slash),
    ensures
        split_fields(x + y, slash) == split_fields(x, slash).update(
            split_fields(x, slash).len() - 1,
            split_fields(x, slash).last() + y,
        ),
    decreases y.len(),
{
    let sx = split_fields(x, slash);
    lemma_split_nonempty(x, slash);
    if y.len() == 0 {
        assert(x + y =~= x);
        assert(sx.update(sx.len() - 1, sx.last() + y) =~= sx);
    } else {
        let y0 = y.drop_last();
        assert forall|k: int| 0 <= k < y0.len() implies !is_separator(#[trigger] y0[k], slash) by {
            assert(y0[k] == y[k]);
        }
        lemma_split_extend(x, y0, slash);
        assert((x + y).drop_last() =~= x + y0);
        assert((x + y).last() == y[y.len() - 1]);
        let prev = split_fields(x + y0, slash);
        assert(prev.len() == sx.len());
        assert(prev.update(prev.len() - 1, prev.last().push(y.last())) =~= sx.update(
            sx.len() - 1,
            sx.last() + y,
        )) by {
            assert(sx.last() + y0 + seq![y.last()] =~= sx.last() + y);
            assert((sx.last() + y0).push(y.last()) =~= sx.last() + y);
        }
    }
}

proof fn lemma_split_separator(x: Seq<char>, c: char, slash: bool)
    requires
        is_separator(c, slash),
    ensures
        split_fields(x.push(c), slash) == split_fields(x, slash).push(Seq::empty()),
{
    assert(x.push(c).drop_last() =~= x);
}

/// Splitting `a`, a separator, `b`, where `a` and `b` hold no separator,
/// gives `a` and `b`.
proof fn lemma_split_pair(a: Seq<char>, c: char, b: Seq<char>, slash: bool)
    requires
        forall|k: int| 0 <= k < a.len() ==> !is_separator(#[trigger] a[k], slash),
        forall|k: int| 0 <= k < b.len() ==> !is_separator(#[trigger] b[k], slash),
        is_separator(c, slash),
    ensures
        split_fields(a.push(c) + b, slash) == seq![a, b],
{
    lemma_split_plain(a, slash);
    lemma_split_separator(a, c, slash);
    lemma_split_extend(a.push(c), b, slash);
    assert(Seq::<char>::empty() + b =~= b);
    assert(seq![a, Seq::<char>::empty()].update(1, Seq::<char>::empty() + b) =~= seq![a, b]);
}

proof fn lemma_single_token_fields(t: Seq<char>, slash: bool)
    requires
        is_single_token(t),
    ensures
        forall|k: int| 0 <= k < t.len() ==> !is_separator(#[trigger] t[k], slash),
{
}

proof fn lemma_kept_one(t: Seq<char>, slash: bool)
    requires
        is_single_token(t),
    ensures
        kept_fields(seq![t], slash) == seq![t],
{
    let e = Seq::<Seq<char>>::empty();
    assert(seq![t].drop_last() =~= e);
    assert(kept_fields(e, slash) == e);
    assert(seq![t].last() == t);
    assert(e.push(t) =~= seq![t]);
}

proof fn lemma_kept_two(a: Seq<char>, b: Seq<char>, slash: bool)
    requires
        is_single_token(a),
        is_single_token(b),
    ensures
        kept_fields(seq![a, b], slash) == seq![a, b],
{
    assert(seq![a, b].drop_last() =~= seq![a]);
    assert(seq![a, b].last() == b);
    lemma_kept_one(a, slash);
    assert(seq![a].push(b) =~= seq![a, b]);
}

proof fn lemma_kept_three(a: Seq<char>, op: Seq<char>, b: Seq<char>)
    requires
        is_single_token(a),
        is_single_token(b),
        is_operator(op),
    ensures
        kept_fields(seq![a, op, b], false) == seq![a, b],
{
    assert(seq![a, op, b].drop_last() =~= seq![a, op]);
    assert(seq![a, op].drop_last() =~= seq![a]);
    lemma_kept_one(a, false);
    assert(seq![a, op].last() == op);
    assert(kept_fields(seq![a, op], false) == seq![a]);
    assert(seq![a, op, b].last() == b);
    assert(seq![a].push(b) =~= seq![a, b]);
}

proof fn lemma_resolve_pair(a: Seq<char>, b: Seq<char>)
    ensures
        resolve_tokens(seq![a, b]) == match (resolve_token(a), resolve_token(b)) {
            (Ok(la), Ok(lb)) => Ok(seq![la, lb]),
            (Err(e), _) => Err(e),
            (Ok(_), Err(e)) => Err::<Seq<LicenseView>, LicenseErrorView>(e),
        },
{
    assert(seq![a, b].drop_first() =~= seq![b]);
    assert(seq![b].drop_first() =~= Seq::<Seq<char>>::empty());
    let e = Seq::<LicenseView>::empty();
    assert(resolve_tokens(Seq::<Seq<char>>::empty()) == Ok::<Seq<LicenseView>, LicenseErrorView>(e));
    assert(seq![a, b][0] == a);
    assert(seq![b][0] == b);
    lemma_resolve_one(b);
    if let (Ok(la), Ok(lb)) = (resolve_token(a), resolve_token(b)) {
        assert(seq![lb] + e =~= seq![lb]);
        assert(seq![la] + seq![lb] =~= seq![la, lb]);
    }
}

proof fn lemma_resolve_one(t: Seq<char>)
    ensures
        resolve_tokens(seq![t]) == match resolve_token(t) {
            Ok(l) => Ok(seq![l]),
            Err(e) => Err::<Seq<LicenseView>, LicenseErrorView>(e),
        },
{
    assert(seq![t].drop_first() =~= Seq::<Seq<char>>::empty());
    assert(seq![t][0] == t);
    assert(resolve_tokens(Seq::<Seq<char>>::empty()) == Ok::<Seq<LicenseView>, LicenseErrorView>(
        Seq::empty(),
    ));
    if let Ok(l) = resolve_token(t) {
        assert(seq![l] + Seq::<LicenseView>::empty() =~= seq![l]);
    }
}

/// A single token is the one token of the expression that it forms.
pub proof fn lemma_single_token_expression(t: Seq<char>)
    requires
        is_single_token(t),
    ensures
        license_tokens(t) == seq![t],
        parse_model(t) == match resolve_token(t) {
            Ok(l) => Ok(seq![l]),
            Err(e) => Err::<Seq<LicenseView>, LicenseErrorView>(e),
        },
{
    assert(!t.contains('/'));
    lemma_single_token_fields(t, false);
    lemma_split_plain(t, false);
    lemma_kept_one(t, false);
    lemma_resolve_one(t);
}

/// An expression of a single token that is not in the SPDX list fails with
/// `InvalidSpdxId` naming that token.
pub proof fn law_unknown_token_is_invalid(t: Seq<char>)
    requires
        is_single_token(t),
        !is_spdx_id(t),
    ensures
        parse_model(t) == Err::<Seq<LicenseView>, LicenseErrorView>(
            LicenseErrorView::InvalidSpdxId(t),
        ),
{
    lemma_single_token_expression(t);
}

proof fn lemma_lookup_absent(cat: Seq<LicenseView>, id: Seq<char>)
    requires
        forall|i: int| 0 <= i < cat.len() ==> (#[trigger] cat[i]).spdx != id,
    ensures
        catalog_lookup(cat, id) is None,
    decreases cat.len(),
{
    if cat.len() > 0 {
        assert(cat[0].spdx != id);
        assert forall|i: int| 0 <= i < cat.drop_first().len() implies (
        #[trigger] cat.drop_first()[i]).spdx != id by {
            assert(cat.drop_first()[i] == cat[i + 1]);
        }
        lemma_lookup_absent(cat.drop_first(), id);
    }
}

/// An expression of a single token that is in the SPDX list, but that no
/// license of the catalog has as its SPDX identifier, fails with
/// `UnsupportedLicense` naming that token.
pub proof fn law_absent_token_is_unsupported(t: Seq<char>)
    requires
        is_single_token(t),
        is_spdx_id(t),
        forall|i: int| 0 <= i < catalog().len() ==> (#[trigger] catalog()[i]).spdx != t,
    ensures
        parse_model(t) == Err::<Seq<LicenseView>, LicenseErrorView>(
            LicenseErrorView::UnsupportedLicense(t),
        ),
{
    lemma_lookup_absent(catalog(), t);
    lemma_single_token_expression(t);
}

proof fn lemma_lookup_first(cat: Seq<LicenseView>, i: int)
    requires
        0 <= i < cat.len(),
        forall|j: int| 0 <= j < i ==> (#[trigger] cat[j]).spdx != cat[i].spdx,
    ensures
        catalog_lookup(cat, cat[i].spdx) == Some(cat[i]),
    decreases i,
{
    if i > 0 {
        let rest = cat.drop_first();
        assert(rest[i - 1] == cat[i]);
        assert forall|j: int| 0 <= j < i - 1 implies (#[trigger] rest[j]).spdx != rest[i - 1].spdx by {
            assert(rest[j] == cat[j + 1]);
        }
        assert(cat[0].spdx != cat[i].spdx);
        lemma_lookup_first(rest, i - 1);
    }
}

/// Each SPDX identifier of the catalog is a single token, and looking it up
/// in the catalog finds its own entry.
proof fn lemma_catalog_id(i: int)
    requires
        0 <= i < catalog().len(),
    ensures
        is_single_token(catalog()[i].spdx),
        catalog_lookup(catalog(), catalog()[i].spdx) == Some(catalog()[i]),
{
    reveal_strlit("MIT");
    reveal_strlit("Apache-2.0");
    reveal_strlit("GPL-3.0");
    reveal_strlit("MPL-2.0");
    reveal_strlit("WITH");
    reveal_strlit("OR");
    reveal_strlit("AND");
    let c = catalog();
    assert(c[0].spdx[0] != "AND"@[0] && c[0].spdx.len() != "OR"@.len() && c[0].spdx.len()
        != "WITH"@.len());
    assert(c[1].spdx.len() == 10);
    assert(c[2].spdx.len() == 7 && c[3].spdx.len() == 7);
    assert(c[2].spdx[0] != c[3].spdx[0]);
    assert(c[0].spdx.len() == 3);
    assert forall|j: int| 0 <= j < i implies (#[trigger] c[j]).spdx != c[i].spdx by {
        if c[j].spdx == c[i].spdx {
            assert(c[j].spdx.len() == c[i].spdx.len());
            if j == 2 {
                assert(c[j].spdx[0] == c[i].spdx[0]);
            }
        }
    }
    lemma_lookup_first(c, i);
}

/// Every SPDX identifier of the catalog is in the SPDX license list.
pub proof fn lemma_catalog_ids_listed(i: int)
    requires
        0 <= i < catalog().len(),
    ensures
        is_spdx_id(catalog()[i].spdx),
{
    let ids = spdx_ids();
    assert(spdx_ids_1().len() == 120);
    assert(spdx_ids_1()[27] == "Apache-2.0"@);
    assert(spdx_ids_2()[20] == "GPL-3.0"@);
    assert(spdx_ids_2()[59] == "MIT"@);
    assert(spdx_ids_2()[67] == "MPL-2.0"@);
    assert(ids[27] == catalog()[1].spdx);
    assert(ids[140] == catalog()[2].spdx);
    assert(ids[179] == catalog()[0].spdx);
    assert(ids[187] == catalog()[3].spdx);
}

/// An SPDX identifier of the catalog resolves to its own entry.
proof fn lemma_resolve_catalog_id(i: int)
    requires
        0 <= i < catalog().len(),
    ensures
        resolve_token(catalog()[i].spdx) == Ok::<LicenseView, LicenseErrorView>(catalog()[i]),
        is_single_token(catalog()[i].spdx),
{
    lemma_catalog_ids_listed(i);
    lemma_catalog_id(i);
}

/// An expression of one SPDX identifier of the catalog's licenses resolves
/// to exactly that license.
pub proof fn law_single_known_id(i: int)
    requires
        0 <= i < catalog().len(),
    ensures
        parse_model(catalog()[i].spdx) == Ok::<Seq<LicenseView>, LicenseErrorView>(
            seq![catalog()[i]],
        ),
{
    lemma_resolve_catalog_id(i);
    lemma_single_token_expression(catalog()[i].spdx);
}

proof fn lemma_two_tokens_slash(a: Seq<char>, b: Seq<char>)
    requires
        is_single_token(a),
        is_single_token(b),
    ensures
        license_tokens(a.push('/') + b) == seq![a, b],
{
    let s = a.push('/') + b;
    assert(s[a.len() as int] == '/');
    assert(s.contains('/'));
    lemma_single_token_fields(a, true);
    lemma_single_token_fields(b, true);
    lemma_split_pair(a, '/', b, true);
    lemma_kept_two(a, b, true);
}

proof fn lemma_two_tokens_operator(a: Seq<char>, op: Seq<char>, b: Seq<char>)
    requires
        is_single_token(a),
        is_single_token(b),
        is_operator(op),
        forall|k: int| 0 <= k < op.len() ==> !is_whitespace(#[trigger] op[k]) && op[k] != '/',
    ensures
        license_tokens((a.push(' ') + op).push(' ') + b) == seq![a, b],
{
    let x1 = a.push(' ');
    let x2 = x1 + op;
    let x3 = x2.push(' ');
    let s = x3 + b;
    assert forall|k: int| 0 <= k < s.len() implies s[k] != '/' by {
        if k < a.len() {
            assert(s[k] == a[k]);
        } else if k == a.len() {
            assert(s[k] == ' ');
        } else if k < a.len() + 1 + op.len() {
            assert(s[k] == op[k - a.len() - 1]);
        } else if k == a.len() + 1 + op.len() {
            assert(s[k] == ' ');
        } else {
            assert(s[k] == b[k - a.len() - 2 - op.len()]);
        }
    }
    assert(!s.contains('/'));
    lemma_single_token_fields(a, false);
    lemma_single_token_fields(b, false);
    lemma_split_plain(a, false);
    lemma_split_separator(a, ' ', false);
    assert forall|k: int| 0 <= k < op.len() implies !is_separator(#[trigger] op[k], false) by {
        assert(!is_whitespace(op[k]));
    }
    assert(is_separator(' ', false));
    lemma_split_extend(x1, op, false);
    assert(Seq::<char>::empty() + op =~= op);
    assert(seq![a, Seq::<char>::empty()].update(1, Seq::<char>::empty() + op) =~= seq![a, op]);
    lemma_split_separator(x2, ' ', false);
    assert(seq![a, op].push(Seq::<char>::empty()) =~= seq![a, op, Seq::<char>::empty()]);
    lemma_split_extend(x3, b, false);
    assert(Seq::<char>::empty() + b =~= b);
    assert(seq![a, op, Seq::<char>::empty()].update(2, Seq::<char>::empty() + b) =~= seq![a, op, b]);
    assert(split_fields(s, false) == seq![a, op, b]);
    lemma_kept_three(a, op, b);
}

/// Two SPDX identifiers of the catalog's licenses, joined by `/`, by ` OR `
/// or by ` AND `, resolve to those two licenses, left to right, whichever
/// the separator.
pub proof fn law_two_known_ids(i: int, j: int)
    requires
        0 <= i < catalog().len(),
        0 <= j < catalog().len(),
    ensures
        parse_model(catalog()[i].spdx + "/"@ + catalog()[j].spdx) == Ok::<
            Seq<LicenseView>,
            LicenseErrorView,
        >(seq![catalog()[i], catalog()[j]]),
        parse_model(catalog()[i].spdx + " OR "@ + catalog()[j].spdx) == Ok::<
            Seq<LicenseView>,
            LicenseErrorView,
        >(seq![catalog()[i], catalog()[j]]),
        parse_model(catalog()[i].spdx + " AND "@ + catalog()[j].spdx) == Ok::<
            Seq<LicenseView>,
            LicenseErrorView,
        >(seq![catalog()[i], catalog()[j]]),
{
    let a = catalog()[i].spdx;
    let b = catalog()[j].spdx;
    lemma_resolve_catalog_id(i);
    lemma_resolve_catalog_id(j);
    lemma_resolve_pair(a, b);
    reveal_strlit("/");
    reveal_strlit(" OR ");
    reveal_strlit(" AND ");
    reveal_strlit("OR");
    reveal_strlit("AND");
    assert(a + "/"@ + b =~= a.push('/') + b);
    lemma_two_tokens_slash(a, b);
    assert(a + " OR "@ + b =~= (a.push(' ') + "OR"@).push(' ') + b);
    lemma_two_tokens_operator(a, "OR"@, b);
    assert(a + " AND "@ + b =~= (a.push(' ') + "AND"@).push(' ') + b);
    lemma_two_tokens_operator(a, "AND"@, b);
}

/// Two single tokens joined by `/` parse as they do joined by ` OR `.
pub proof fn law_slash_and_or_agree(a: Seq<char>, b: Seq<char>)
    requires
        is_single_token(a),
        is_single_token(b),
    ensures
        parse_model(a + "/"@ + b) == parse_model(a + " OR "@ + b),
{
    reveal_strlit("/");
    reveal_strlit(" OR ");
    reveal_strlit("OR");
    assert(a + "/"@ + b =~= a.push('/') + b);
    lemma_two_tokens_slash(a, b);
    assert(a + " OR "@ + b =~= (a.push(' ') + "OR"@).push(' ') + b);
    lemma_two_tokens_operator(a, "OR"@, b);
}

/// A single license is written to the file `LICENSE`; of two or more, each
/// is written to `LICENSE-{identifier}` and none to `LICENSE`.
pub proof fn law_file_names(ls: Seq<LicenseView>)
    ensures
        ls.len() == 1 ==> file_names(ls) == seq!["LICENSE"@],
        ls.len() >= 2 ==> forall|i: int|
            0 <= i < ls.len() ==> #[trigger] file_names(ls)[i] == "LICENSE-"@ + ls[i].identifier
                && file_names(ls)[i] != "LICENSE"@,
{
    reveal_strlit("LICENSE");
    reveal_strlit("LICENSE-");
    if ls.len() == 1 {
        assert(file_names(ls) =~= seq!["LICENSE"@]);
    }
    assert forall|i: int| ls.len() >= 2 && 0 <= i < ls.len() implies #[trigger] file_names(ls)[i]
        == "LICENSE-"@ + ls[i].identifier && file_names(ls)[i] != "LICENSE"@ by {
        assert(file_names(ls)[i].len() >= 8);
    }
}

/// The license that a manifest without one gets resolves to the MIT and the
/// Apache-2.0 licenses, in that order, written to `LICENSE-MIT` and
/// `LICENSE-APACHE`.
pub proof fn law_default_license()
    ensures
        parse_model(DEFAULT_LICENSE@) == Ok::<Seq<LicenseView>, LicenseErrorView>(
            seq![catalog()[0], catalog()[1]],
        ),
        file_names(seq![catalog()[0], catalog()[1]]) == seq!["LICENSE-MIT"@, "LICENSE-APACHE"@],
{
    law_two_known_ids(0, 1);
    reveal_strlit("MIT OR Apache-2.0");
    reveal_strlit("MIT");
    reveal_strlit(" OR ");
    reveal_strlit("Apache-2.0");
    assert(DEFAULT_LICENSE@ =~= catalog()[0].spdx + " OR "@ + catalog()[1].spdx);
    reveal_strlit("LICENSE-");
    reveal_strlit("LICENSE-MIT");
    reveal_strlit("LICENSE-APACHE");
    reveal_strlit("APACHE");
    let names = file_names(seq![catalog()[0], catalog()[1]]);
    assert(names[0] =~= "LICENSE-MIT"@);
    assert(names[1] =~= "LICENSE-APACHE"@);
    assert(names =~= seq!["LICENSE-MIT"@, "LICENSE-APACHE"@]);
}

} // verus!
