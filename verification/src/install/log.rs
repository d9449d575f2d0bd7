//! The lines that an installation writes to the log.

use crate::error::{rendered, Error};
use crate::id::{version_text, PackageId, Version};
use vstd::prelude::*;
use vstd::string::StringExecFns;

verus! {

/// What stands before every line that an installation logs: the package
/// and the version that it installs.
pub open spec fn log_prefix(id: Seq<char>, version: Version) -> Seq<char> {
    "Install "@ + id + "@"@ + version_text(version) + ": "@
}

/// A line of the log of an installation.
pub open spec fn log_line_text(id: Seq<char>, version: Version, message: Seq<char>) -> Seq<char> {
    log_prefix(id, version) + message
}

/// A line of the log of an installation: the message, with the package and
/// the version before it.
pub fn log_line(id: &PackageId, version: &Version, message: &str) -> (line: String)
    ensures
        line@ == log_line_text(id@, *version, message@),
{
    let mut line = String::from_str("Install ");
    line.append(id.as_str());
    line.append("@");
    line.append(version.to_text().as_str());
    line.append(": ");
    line.append(message);
    line
}

/// The warning for a cache that could not be opened or read, which counts
/// as a cache that holds nothing.
pub fn cache_warning(id: &PackageId, version: &Version, error: &Error) -> (line: String)
    ensures
        line@ == log_line_text(id@, *version, "Could not open cache: "@ + rendered(error@)),
{
    let mut message = String::from_str("Could not open cache: ");
    message.append(error.render().as_str());
    log_line(id, version, message.as_str())
}

} // verus!
