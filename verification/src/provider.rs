//! Identity of a metric stream: timestamps, hierarchical paths and the
//! immutable description handed to the collecting engine at registration.

use vstd::prelude::*;
use vstd::string::StringExecFns;

verus! {

/// A wall-clock sample, in milliseconds since the Unix epoch.
#[derive(Debug, Clone, Copy, PartialEq, Eq, Structural)]
pub struct Timestamp {
    pub millis: u64,
}

impl Timestamp {
    /// Builds a timestamp from a number of milliseconds since the epoch.
    pub fn from_millis(millis: u64) -> (r: Timestamp)
        ensures
            r.millis == millis,
    {
        Timestamp { millis }
    }
}

/// The error returned when a stream path cannot be parsed.
#[derive(Debug, Clone, Copy, PartialEq, Eq, Structural)]
pub struct PathError;

/// Hierarchical name identifying one logical metric stream.
#[derive(Debug)]
pub struct Path {
    pub name: String,
}

impl Path {
    /// Wraps a ready-made stream name.
    pub fn new(name: String) -> (r: Path)
        ensures
            r.name@ == name@,
    {
        Path { name }
    }

    /// The textual form of the path.
    pub fn as_str(&self) -> (r: &str)
        ensures
            r@ == self.name@,
    {
        self.name.as_str()
    }

    /// A fresh path naming the same stream.
    pub fn duplicate(&self) -> (r: Path)
        ensures
            r.name@ == self.name@,
    {
        Path { name: self.name.clone() }
    }
}

impl core::str::FromStr for Path {
    type Err = PathError;

    fn from_str(s: &str) -> (r: Result<Path, PathError>)
        ensures
            r matches Ok(p) ==> p.name@ == s@,
            r is Ok,
    {
        Ok(Path { name: s.to_owned() })
    }
}

/// Immutable description of one metric stream, shared between the tracer
/// and the collecting engine.
#[derive(Debug)]
pub struct Description {
    pub path: Path,
    pub info: String,
    pub stream_type: String,
}

impl Description {
    /// Builds the description for a stream: the human-readable label is
    /// the path followed by the stream-type token.
    pub fn new(path: Path, stream_type: String) -> (r: Description)
        ensures
            r.path.name@ == path.name@,
            r.stream_type@ == stream_type@,
            r.info@ == path.name@ + " - "@ + stream_type@,
    {
        let mut info = path.name.clone();
        info.append(" - ");
        info.append(stream_type.as_str());
        Description { path, info, stream_type }
    }

    /// A fresh copy of the description.
    pub fn duplicate(&self) -> (r: Description)
        ensures
            r.path.name@ == self.path.name@,
            r.info@ == self.info@,
            r.stream_type@ == self.stream_type@,
    {
        Description {
            path: self.path.duplicate(),
            info: self.info.clone(),
            stream_type: self.stream_type.clone(),
        }
    }
}

} // verus!
