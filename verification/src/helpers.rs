//! Project-level helpers: what the build and deploy steps read out of the
//! project manifest, the derived artifact path, and the base URL of the
//! remote service.
//!
//! The manifest is TOML; picking fields out of it is delegated to the toml
//! crate behind three trusted wrappers. Each wrapper's result is a function
//! of the manifest text alone and is given a name here; everything built on
//! those names is verified.

use crate::errors::{CoreError, ErrorView};
use crate::text::{sanitized, sanitized_name, str_eq, trim_spec, trimmed};
use vstd::prelude::*;

verus! {

/// The `package.name` string of a manifest text, if the text parses and
/// carries one.
pub uninterp spec fn toml_package_name(text: Seq<char>) -> Option<Seq<char>>;

/// The `package.description` string of a manifest text, if the text parses
/// and carries one.
pub uninterp spec fn toml_package_description(text: Seq<char>) -> Option<Seq<char>>;

/// The `package.metadata.tilt.program_id` string of a manifest text, if
/// the text parses and carries one.
pub uninterp spec fn toml_program_id(text: Seq<char>) -> Option<Seq<char>>;

/// Relies on the toml crate: `str::parse::<toml::Table>`, `Value::get` and
/// `Value::as_str` pick the `package.name` string out of a manifest text,
/// a function of the text alone.
#[verifier::external_body]
fn read_package_name(text: &str) -> (r: Option<String>)
    ensures
        (match r {
            Some(s) => toml_package_name(text@) == Some(s@),
            None => toml_package_name(text@) is None,
        }),
{
    let table: toml::Table = match text.parse() {
        Ok(t) => t,
        Err(_) => return None,
    };
    table.get("package").and_then(|p| p.get("name")).and_then(|n| n.as_str()).map(|s| s.to_string())
}

/// Relies on the toml crate: `str::parse::<toml::Table>`, `Value::get` and
/// `Value::as_str` pick the `package.description` string out of a manifest
/// text, a function of the text alone.
#[verifier::external_body]
fn read_package_description(text: &str) -> (r: Option<String>)
    ensures
        (match r {
            Some(s) => toml_package_description(text@) == Some(s@),
            None => toml_package_description(text@) is None,
        }),
{
    let table: toml::Table = match text.parse() {
        Ok(t) => t,
        Err(_) => return None,
    };
    table
        .get("package")
        .and_then(|p| p.get("description"))
        .and_then(|d| d.as_str())
        .map(|s| s.to_string())
}

/// Relies on the toml crate: `str::parse::<toml::Table>`, `Value::get` and
/// `Value::as_str` pick the `package.metadata.tilt.program_id` string out
/// of a manifest text, a function of the text alone.
#[verifier::external_body]
fn read_program_id(text: &str) -> (r: Option<String>)
    ensures
        (match r {
            Some(s) => toml_program_id(text@) == Some(s@),
            None => toml_program_id(text@) is None,
        }),
{
    let table: toml::Table = match text.parse() {
        Ok(t) => t,
        Err(_) => return None,
    };
    table
        .get("package")
        .and_then(|p| p.get("metadata"))
        .and_then(|m| m.get("tilt"))
        .and_then(|t| t.get("program_id"))
        .and_then(|i| i.as_str())
        .map(|s| s.to_string())
}

/// The name and description the upload carries: the manifest's
/// `package.name` as it stands, the description defaulting to empty when
/// the manifest has none. Absent name (or unparsable text) means the
/// manifest is unusable.
pub open spec fn package_metadata_spec(text: Seq<char>) -> Option<(Seq<char>, Seq<char>)> {
    match toml_package_name(text) {
        Some(n) => Some(
            (
                n,
                match toml_package_description(text) {
                    Some(d) => d,
                    None => Seq::empty(),
                },
            ),
        ),
        None => None,
    }
}

/// The project's name and description, read from the manifest text.
pub fn get_package_metadata(manifest_text: &str) -> (r: Result<(String, String), CoreError>)
    ensures
        match package_metadata_spec(manifest_text@) {
            Some(nd) => r matches Ok(p) && p.0@ == nd.0 && p.1@ == nd.1,
            None => r matches Err(e) && e@ == ErrorView::StorageError,
        },
{
    match read_package_name(manifest_text) {
        Some(name) => {
            let description = match read_package_description(manifest_text) {
                Some(d) => d,
                None => String::new(),
            };
            Ok((name, description))
        },
        None => Err(CoreError::StorageError),
    }
}

/// The program id the manifest records, unless the entry is absent or
/// still holds the scaffold's placeholder (surrounding whitespace aside).
pub open spec fn recorded_program_id(text: Seq<char>) -> Option<Seq<char>> {
    match toml_program_id(text) {
        Some(id) => if trim_spec(id) == "{program_id}"@ {
            None
        } else {
            Some(id)
        },
        None => None,
    }
}

/// The program id already assigned to this project, if the manifest
/// records a real one.
pub fn check_program_id(manifest_text: &str) -> (r: Option<String>)
    ensures
        match r {
            Some(id) => recorded_program_id(manifest_text@) == Some(id@),
            None => recorded_program_id(manifest_text@) is None,
        },
{
    match read_program_id(manifest_text) {
        Some(id) => {
            let t = trimmed(id.as_str());
            if str_eq(t.as_str(), "{program_id}") {
                None
            } else {
                Some(id)
            }
        },
        None => None,
    }
}

/// The id the build step stamps into the manifest: the recorded one where
/// the manifest already carries a real id, else the freshly drawn one the
/// caller supplies.
pub fn next_program_id(manifest_text: &str, fresh_id: String) -> (r: String)
    ensures
        match recorded_program_id(manifest_text@) {
            Some(id) => r@ == id,
            None => r@ == fresh_id@,
        },
{
    match check_program_id(manifest_text) {
        Some(id) => id,
        None => fresh_id,
    }
}

/// The fixed release directory of the cross-compilation target, around the
/// given file stem.
pub fn release_path(filename: &str) -> (r: String)
    ensures
        r@ == "./target/wasm32-unknown-unknown/release/"@ + filename@ + ".wasm"@,
{
    let mut s = String::from_str("./target/wasm32-unknown-unknown/release/");
    s.append(filename);
    s.append(".wasm");
    s
}

/// Where the toolchain leaves the compiled artifact for a project of this
/// name: the fixed release directory, with the project name sanitized the
/// way the toolchain names modules (`-` becomes `_`). The artifact is
/// looked up at this derived path, never discovered by a directory scan.
pub fn artifact_path(project_name: &str) -> (r: String)
    ensures
        r@ == "./target/wasm32-unknown-unknown/release/"@ + sanitized(project_name@) + ".wasm"@,
{
    let s = sanitized_name(project_name);
    release_path(s.as_str())
}

/// The base URL the toggle selects: an affirmative value picks the staging
/// host, anything else (absence included) the production host.
pub open spec fn base_url_spec(toggle: Option<Seq<char>>) -> Seq<char> {
    if toggle == Some("true"@) || toggle == Some("1"@) {
        "https://staging.tilt.rest"@
    } else {
        "https://production.tilt.rest"@
    }
}

/// The base URL for API requests. The argument is the staging toggle's
/// value in the environment, if it is set; the host hands it in.
pub fn url_from_env(toggle: Option<&str>) -> (r: String)
    ensures
        r@ == base_url_spec(match toggle {
            Some(t) => Some(t@),
            None => None,
        }),
{
    match toggle {
        Some(t) => {
            if str_eq(t, "true") || str_eq(t, "1") {
                String::from_str("https://staging.tilt.rest")
            } else {
                String::from_str("https://production.tilt.rest")
            }
        },
        None => String::from_str("https://production.tilt.rest"),
    }
}

/// The endpoint programs are uploaded to and listed from.
pub fn programs_url(base_url: &str) -> (r: String)
    ensures
        r@ == base_url@ + "/programs"@,
{
    let mut s = String::from_str(base_url);
    s.append("/programs");
    s
}

} // verus!
