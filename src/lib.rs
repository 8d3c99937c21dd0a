//! Applies open-source license text to a project: resolves an SPDX-like
//! license expression against a bundled catalog of license templates,
//! normalizes author names and renders one text per resolved license.

pub mod authors;
pub mod catalog;
pub mod expr;
pub mod laws;
pub mod license;
pub mod manifest;
pub mod render;
pub mod spdx;

pub use authors::{display_name, parse_author_names};
pub use catalog::licenses;
pub use expr::parse_spdx;
pub use license::{License, LicenseError};
pub use manifest::{manifest_license, DEFAULT_LICENSE};
pub use render::{license_file_names, license_files, render_license_text};
pub use spdx::is_valid_spdx_id;
