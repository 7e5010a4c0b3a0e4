//! The marks by which the host's operating system writes paths. The host
//! decides them; the library takes them over once and hands them out.
use vstd::prelude::*;

verus! {

/// The marks as the host gave them.
#[derive(Debug, Clone)]
pub struct HostPath {
    /// The mark between the paths of a list: `;` on Windows, `:` on POSIX.
    pub delimiter: String,
    /// The mark between the segments of a path: `\\` on Windows, `/` on
    /// POSIX.
    pub sep: String,
}

/// The mark between the paths of a list, as the host gave it.
pub fn delimiter(host: &HostPath) -> (mark: String)
    ensures
        mark == host.delimiter,
{
    host.delimiter.clone()
}

/// The mark between the segments of a path, as the host gave it.
pub fn sep(host: &HostPath) -> (mark: String)
    ensures
        mark == host.sep,
{
    host.sep.clone()
}

} // verus!
