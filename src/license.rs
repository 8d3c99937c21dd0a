use vstd::prelude::*;

verus! {

/// An open-source license of the catalog.
#[derive(Debug, PartialEq, Eq)]
pub struct License {
    /// The identifier for the license when several license files are written,
    /// for example `APACHE` in `LICENSE-APACHE`.
    pub identifier: String,
    /// The SPDX license identifier, for example `Apache-2.0`.
    pub spdx: String,
    /// A handlebars template of the license text, with the inputs `year`
    /// and `copyright_holders`.
    pub text: String,
}

/// What a [`License`] holds, as sequences of characters.
pub struct LicenseView {
    pub identifier: Seq<char>,
    pub spdx: Seq<char>,
    pub text: Seq<char>,
}

impl View for License {
    type V = LicenseView;

    open spec fn view(&self) -> LicenseView {
        LicenseView { identifier: self.identifier@, spdx: self.spdx@, text: self.text@ }
    }
}

impl License {
    /// A copy of this license, field by field.
    pub fn duplicate(&self) -> (r: License)
        ensures
            r@ == self@,
    {
        License {
            identifier: self.identifier.clone(),
            spdx: self.spdx.clone(),
            text: self.text.clone(),
        }
    }
}

/// The ways in which resolving or rendering licenses can fail.
#[derive(Debug, PartialEq, Eq)]
pub enum LicenseError {
    /// The list of authors is empty.
    NoAuthors,
    /// The token is not a known SPDX license identifier.
    InvalidSpdxId(String),
    /// The token is a known SPDX license identifier, but the catalog has no
    /// text for it.
    UnsupportedLicense(String),
    /// The template of the license with this SPDX identifier could not be
    /// rendered.
    TemplateSyntax(String),
}

/// What a [`LicenseError`] holds, with its text as a sequence of characters.
pub enum LicenseErrorView {
    NoAuthors,
    InvalidSpdxId(Seq<char>),
    UnsupportedLicense(Seq<char>),
    TemplateSyntax(Seq<char>),
}

impl View for LicenseError {
    type V = LicenseErrorView;

    open spec fn view(&self) -> LicenseErrorView {
        match self {
            LicenseError::NoAuthors => LicenseErrorView::NoAuthors,
            LicenseError::InvalidSpdxId(t) => LicenseErrorView::InvalidSpdxId(t@),
            LicenseError::UnsupportedLicense(t) => LicenseErrorView::UnsupportedLicense(t@),
            LicenseError::TemplateSyntax(t) => LicenseErrorView::TemplateSyntax(t@),
        }
    }
}

impl LicenseError {
    /// A readable message for this error.
    pub fn message(&self) -> (r: String)
        ensures
            r@ == match self@ {
                LicenseErrorView::NoAuthors => "at least one author is required"@,
                LicenseErrorView::InvalidSpdxId(t) => "invalid SPDX license ID: "@ + t,
                LicenseErrorView::UnsupportedLicense(t) => "SPDX ID '"@ + t
                    + "' is valid, but unsupported by this program. Please open a PR!"@,
                LicenseErrorView::TemplateSyntax(t) => "syntax error in license template: "@ + t,
            },
    {
        match self {
            LicenseError::NoAuthors => String::from_str("at least one author is required"),
            LicenseError::InvalidSpdxId(t) => {
                let mut m = String::from_str("invalid SPDX license ID: ");
                m.append(t.as_str());
                m
            },
            LicenseError::UnsupportedLicense(t) => {
                let mut m = String::from_str("SPDX ID '");
                m.append(t.as_str());
                m.append("' is valid, but unsupported by this program. Please open a PR!");
                m
            },
            LicenseError::TemplateSyntax(t) => {
                let mut m = String::from_str("syntax error in license template: ");
                m.append(t.as_str());
                m
            },
        }
    }
}

/// The view of every license of a sequence.
pub open spec fn licenses_view(ls: Seq<License>) -> Seq<LicenseView> {
    ls.map_values(|l: License| l@)
}

} // verus!
