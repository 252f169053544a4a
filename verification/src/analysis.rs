//! Dating a capture by the time at which its file was created.

use vstd::prelude::*;

verus! {

/// A point in time as a file system reports it: the whole seconds since
/// 1970-01-01T00:00:00Z, and the nanoseconds past the last of them.
#[derive(Clone, Copy, Debug, PartialEq, Eq, Hash, Structural)]
pub struct FileTime {
    pub seconds: u64,
    pub nanos: u32,
}

/// The last second that can be dated: 9999-12-31T23:59:59Z.
pub const LAST_SECOND: u64 = 253_402_300_799;

impl FileTime {
    /// The time lies within the years that a date can be written for.
    pub open spec fn datable(self) -> bool {
        self.seconds <= LAST_SECOND && self.nanos < 1_000_000_000
    }

    pub fn is_datable(&self) -> (datable: bool)
        ensures
            datable == self.datable(),
    {
        self.seconds <= LAST_SECOND && self.nanos < 1_000_000_000
    }
}

/// Calls chrono: converts the time to a `DateTime<Local>` and formats it
/// with `to_rfc3339`. The text depends on the time zone of the machine, so
/// the contract claims only what chrono writes for every zone: at least the
/// date, and so never an empty text. Times past `LAST_SECOND` are left out
/// because chrono cannot hold every one of them.
#[verifier::external_body]
fn local_rfc3339(time: FileTime) -> (stamp: String)
    requires
        time.datable(),
    ensures
        stamp@.len() > 0,
{
    let since_epoch = std::time::Duration::new(time.seconds, time.nanos);
    chrono::DateTime::<chrono::Local>::from(std::time::UNIX_EPOCH + since_epoch).to_rfc3339()
}

/// Dates a capture: the local date and time at which its file was created,
/// in RFC 3339 form, or the empty text where the file system knows no
/// creation time.
pub fn analyze_images(created: Option<FileTime>) -> (stamp: String)
    requires
        created matches Some(time) ==> time.datable(),
    ensures
        created is None <==> stamp@.len() == 0,
{
    match created {
        Some(time) => local_rfc3339(time),
        None => String::new(),
    }
}

} // verus!
