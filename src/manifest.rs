use vstd::prelude::*;

verus! {

/// The license expression that a package manifest without a license gets.
pub const DEFAULT_LICENSE: &'static str = "MIT OR Apache-2.0";

/// The license expression to apply to a package, and whether its manifest
/// must be written back.
///
/// A license that the manifest holds is kept. Where it holds none, the
/// requested expression, or else [`DEFAULT_LICENSE`], is applied and goes
/// into the manifest, which then differs from what it was.
pub fn manifest_license(current: Option<&str>, requested: Option<&str>) -> (r: (String, bool))
    ensures
        r.0@ == match current {
            Some(c) => c@,
            None => match requested {
                Some(q) => q@,
                None => DEFAULT_LICENSE@,
            },
        },
        r.1 == current is None,
{
    match current {
        Some(c) => (String::from_str(c), false),
        None => match requested {
            Some(q) => (String::from_str(q), true),
            None => (String::from_str(DEFAULT_LICENSE), true),
        },
    }
}

} // verus!
