//! What the command line asks for.

use vstd::prelude::*;
use crate::schedule::{Instant, NANOS_PER_SECOND};

verus! {

/// The command line.
#[derive(Debug)]
pub struct Cli {
    pub command: Command,
}

/// What is to be done.
#[derive(Debug)]
pub enum Command {
    /// Write a configuration file.
    MakeConfig(MakeConfigArgs),
    /// Run the course selection.
    Run(RunArgs),
}

/// What goes into a configuration file, and where the file is written.
#[derive(Debug)]
pub struct MakeConfigArgs {
    pub output_path: String,
    pub username: String,
    pub password: String,
    /// The time at which the selection opens, as it was read on the command
    /// line: local time, read as if it were UTC.
    pub time: Instant,
    pub crn_list: Vec<String>,
    pub scrn_list: Vec<String>,
}

/// Where the configuration file is read from.
#[derive(Debug)]
pub struct RunArgs {
    pub config_path: Option<String>,
}

/// Why a time on the command line was not taken.
#[derive(Clone, Copy, Debug, PartialEq, Eq, Structural)]
pub enum TimeError {
    /// The text is no timestamp.
    Unreadable,
    /// The timestamp is too late to be written down.
    OutOfRange,
}

/// The timestamp that `humantime` reads in a text such as
/// `2025-02-10 14:00:00`, in seconds and nanoseconds since the Unix epoch;
/// `None` where it reads none.
pub uninterp spec fn rfc3339_weak_time(text: Seq<char>) -> Option<(u64, u32)>;

/// `humantime::parse_rfc3339_weak`, and the time since `UNIX_EPOCH` of what
/// it gives. The nanoseconds are those of a `Duration`, less than a second.
#[verifier::external_body]
fn read_timestamp(text: &str) -> (r: Option<(u64, u32)>)
    ensures
        r == rfc3339_weak_time(text@),
        r matches Some((_, nanos)) ==> nanos < NANOS_PER_SECOND,
{
    match humantime::parse_rfc3339_weak(text) {
        Ok(time) => match time.duration_since(std::time::UNIX_EPOCH) {
            Ok(since) => Some((since.as_secs(), since.subsec_nanos())),
            Err(_) => None,
        },
        Err(_) => None,
    }
}

/// The instant that a timestamp names, or why it names none.
pub open spec fn time_of(timestamp: Option<(u64, u32)>) -> Result<(i64, u32), TimeError> {
    match timestamp {
        None => Err(TimeError::Unreadable),
        Some((secs, nanos)) => if secs <= i64::MAX && nanos < NANOS_PER_SECOND {
            Ok((secs as i64, nanos))
        } else {
            Err(TimeError::OutOfRange)
        },
    }
}

/// Turns what was read of a timestamp into an instant.
pub fn instant_of(timestamp: Option<(u64, u32)>) -> (r: Result<Instant, TimeError>)
    ensures
        match r {
            Ok(instant) => time_of(timestamp) == Ok::<(i64, u32), TimeError>(
                (instant.secs(), instant.subsec_nanos()),
            ),
            Err(error) => time_of(timestamp) == Err::<(i64, u32), TimeError>(error),
        },
{
    match timestamp {
        None => Err(TimeError::Unreadable),
        Some((secs, nanos)) => {
            if secs > i64::MAX as u64 {
                return Err(TimeError::OutOfRange);
            }
            match Instant::new(secs as i64, nanos) {
                Some(instant) => Ok(instant),
                None => Err(TimeError::OutOfRange),
            }
        },
    }
}

/// Reads a time given on the command line, such as `2025-02-10 14:00:00` or
/// `2025-02-10T14:00:00Z`.
pub fn parse_time(arg: &str) -> (r: Result<Instant, TimeError>)
    ensures
        match r {
            Ok(instant) => time_of(rfc3339_weak_time(arg@)) == Ok::<(i64, u32), TimeError>(
                (instant.secs(), instant.subsec_nanos()),
            ),
            Err(error) => time_of(rfc3339_weak_time(arg@)) == Err::<(i64, u32), TimeError>(error),
        },
{
    instant_of(read_timestamp(arg))
}

} // verus!
