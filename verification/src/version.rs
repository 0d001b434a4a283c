//! The version service: which build is running.

use vstd::prelude::*;
use vstd::string::StringExecFns;

verus! {

/// The build that is running.
#[derive(Debug)]
pub struct VersionInfo {
    pub git_commit: String,
    pub git_commit_full: String,
    pub build_date: String,
    pub rust_version: String,
}

/// The version service.
#[derive(Debug)]
pub struct VersionServiceImpl;

/// A value of the build environment, or `unknown` where it is not set.
pub open spec fn or_unknown(value: Option<String>) -> Seq<char> {
    match value {
        Some(value) => value@,
        None => "unknown"@,
    }
}

fn known(value: Option<String>) -> (text: String)
    ensures
        text@ == or_unknown(value),
{
    match value {
        Some(value) => value,
        None => String::from_str("unknown"),
    }
}

impl VersionServiceImpl {
    /// The version service.
    pub fn new() -> (service: Self)
        ensures
            service == VersionServiceImpl,
    {
        VersionServiceImpl
    }

    /// Describes the build from what the build environment holds: the full
    /// and the short commit, the build date, and the version of the package.
    /// A value that is not set reads `unknown`.
    pub fn get_version(
        &self,
        git_commit: Option<String>,
        git_commit_short: Option<String>,
        build_date: Option<String>,
        package_version: &str,
    ) -> (info: VersionInfo)
        ensures
            info.git_commit@ == or_unknown(git_commit_short),
            info.git_commit_full@ == or_unknown(git_commit),
            info.build_date@ == or_unknown(build_date),
            info.rust_version@ == package_version@,
    {
        VersionInfo {
            git_commit: known(git_commit_short),
            git_commit_full: known(git_commit),
            build_date: known(build_date),
            rust_version: String::from_str(package_version),
        }
    }
}

impl Default for VersionServiceImpl {
    fn default() -> (service: Self)
        ensures
            service == VersionServiceImpl,
    {
        VersionServiceImpl::new()
    }
}

} // verus!
