//! Version resolution: which installation directory a version identifier
//! names, and which program binary that installation carries.
//!
//! An installation whose directory is named by a semantic version with
//! major version 1 and minor version at most 8 ships the legacy binary;
//! every other installation, including ones with non-numeric names such as
//! `latest`, ships the current binary.

use vstd::prelude::*;
use vstd::string::*;

use crate::paths::{join, spec_file_name, spec_join, file_name};
use crate::request::Args;

verus! {

/// Major and minor version that `semver::Version::parse` reads out of a
/// text, or nothing where the text is not a semantic version.
pub uninterp spec fn semver_major_minor(s: Seq<char>) -> Option<(u64, u64)>;

/// Relies on semver::Version::parse: the parse is a function of the text
/// alone, and a successful parse carries the major and minor numbers.
#[verifier::external_body]
fn parse_major_minor(s: &str) -> (r: Option<(u64, u64)>)
    ensures
        r == semver_major_minor(s@),
{
    match semver::Version::parse(s) {
        Ok(v) => Some((v.major, v.minor)),
        Err(_) => None,
    }
}

/// The program binary name an installation ships, given the version its
/// directory name parses to: the legacy name for major 1 up to minor 8,
/// the current name otherwise.
pub open spec fn spec_program_name(v: Option<(u64, u64)>) -> Seq<char> {
    if v matches Some((major, minor)) && major == 1 && minor <= 8 {
        "pflotran"@
    } else {
        "cirrus"@
    }
}

/// Chooses the program binary name for a parsed directory-name version.
pub fn program_name_for(v: Option<(u64, u64)>) -> (r: String)
    ensures
        r@ == spec_program_name(v),
{
    match v {
        Some((major, minor)) if major == 1 && minor <= 8 => "pflotran".to_owned(),
        _ => "cirrus".to_owned(),
    }
}

/// The program binary name for the installation rooted at `root`: decided
/// by the final component of the root path.
pub fn get_program_name(root: &str) -> (r: String)
    ensures
        r@ == spec_program_name(semver_major_minor(spec_file_name(root@))),
{
    let name = file_name(root);
    let parsed = parse_major_minor(name.as_str());
    program_name_for(parsed)
}

/// The directory the request's version identifier names, before any
/// filesystem resolution: the versions root joined with the identifier.
pub fn version_path(a: &Args) -> (r: String)
    ensures
        r@ == spec_join(a.cirrus_versions_path@, a.cirrus_version@),
{
    join(a.cirrus_versions_path.as_str(), a.cirrus_version.as_str())
}

/// A resolved installation: its canonical root directory and the program
/// binary name that applies to it.
#[derive(Debug)]
pub struct InstallationInfo {
    pub root_dir: String,
    pub program_name: String,
}

impl InstallationInfo {
    /// Derives the installation facts from a canonical root directory.
    pub fn resolve(root_dir: String) -> (info: InstallationInfo)
        ensures
            info.root_dir@ == root_dir@,
            info.program_name@ == spec_program_name(semver_major_minor(spec_file_name(root_dir@))),
    {
        let program_name = get_program_name(root_dir.as_str());
        InstallationInfo { root_dir, program_name }
    }

    /// The absolute path of the installation's program binary.
    pub fn program_path(&self) -> (r: String)
        ensures
            r@ == spec_join(spec_join(self.root_dir@, "bin"@), self.program_name@),
    {
        let bin = join(self.root_dir.as_str(), "bin");
        join(bin.as_str(), self.program_name.as_str())
    }
}

} // verus!
