//! Rotation policy of an output file whose path is derived from a timestamp.

use crate::error::Error;
use resol_vbus::chrono::{DateTime, FixedOffset};
use std::fmt::Write;
use vstd::prelude::*;

verus! {

/// An instant together with the offset of the local time zone at that
/// instant, both in seconds.
#[derive(Clone, Copy, Debug, PartialEq, Eq)]
pub struct LocalTimestamp {
    /// Seconds since the epoch, UTC.
    pub secs: i64,
    /// Seconds east of UTC.
    pub offset_secs: i32,
}

/// What chrono's `strftime`-style formatting gives for the instant `secs`
/// shown at `offset_secs` east of UTC, or `None` where the offset or the
/// instant is out of chrono's range or the pattern is not a valid format.
pub uninterp spec fn formatted_time(pattern: Seq<char>, secs: i64, offset_secs: i32) -> Option<Seq<char>>;

/// `DateTime::format` on `DateTime::from_timestamp(secs, 0)` moved to
/// `FixedOffset::east_opt(offset_secs)`, written out with `write!`. `None`
/// where either constructor gives none or the formatter reports an error.
#[verifier::external_body]
pub(crate) fn format_timestamp(pattern: &str, secs: i64, offset_secs: i32) -> (text: Option<String>)
    ensures
        match text {
            Some(t) => formatted_time(pattern@, secs, offset_secs) == Some(t@),
            None => formatted_time(pattern@, secs, offset_secs) is None,
        },
{
    let offset = FixedOffset::east_opt(offset_secs)?;
    let utc = DateTime::from_timestamp(secs, 0)?;
    let mut text = String::new();
    write!(text, "{}", utc.with_timezone(&offset).format(pattern)).ok()?;
    Some(text)
}

/// What the owner of the file handle has to do before the next write.
#[derive(Clone, Debug, PartialEq, Eq)]
pub enum FileStep {
    /// The file that is open, if any, stays.
    Keep,
    /// Open this path for appending, creating it where it is missing, and
    /// report back with `file_opened`.
    Open(String),
    /// The pattern gives no file name for the timestamp.
    Unformattable,
}

/// The step as a mathematical value: `None` for `Unformattable`, else the
/// path to open, if any.
pub open spec fn step_for(derived: Option<Seq<char>>, current: Option<Seq<char>>) -> Option<
    Option<Seq<char>>,
> {
    match derived {
        None => None,
        Some(name) => if current == Some(name) {
            Some(None)
        } else {
            Some(Some(name))
        },
    }
}

/// The step that a check comes to: nothing to do unless the timestamp was
/// set since the last check.
pub open spec fn write_step(
    dirty: bool,
    derived: Option<Seq<char>>,
    current: Option<Seq<char>>,
) -> Option<Option<Seq<char>>> {
    if dirty {
        step_for(derived, current)
    } else {
        Some(None)
    }
}

impl FileStep {
    /// See `step_for`.
    pub open spec fn model(&self) -> Option<Option<Seq<char>>> {
        match self {
            FileStep::Keep => Some(None),
            FileStep::Open(name) => Some(Some(name@)),
            FileStep::Unformattable => None,
        }
    }

    /// Whether a new file has to be opened.
    pub fn is_open(&self) -> (b: bool)
        ensures
            b == (self is Open),
    {
        match self {
            FileStep::Open(_) => true,
            _ => false,
        }
    }
}

/// Rotation state of one output file.
pub struct TimestampFileWriter {
    filename_pattern: String,
    timestamp: LocalTimestamp,
    timestamp_changed: bool,
    current_filename: Option<String>,
}

impl TimestampFileWriter {
    /// The pattern that paths are derived from.
    pub closed spec fn pattern(&self) -> Seq<char> {
        self.filename_pattern@
    }

    /// The timestamp that the next write belongs to.
    pub closed spec fn timestamp(&self) -> LocalTimestamp {
        self.timestamp
    }

    /// The timestamp was set since the path was last derived.
    pub closed spec fn dirty(&self) -> bool {
        self.timestamp_changed
    }

    /// The path of the file that is open, if any.
    pub closed spec fn current(&self) -> Option<Seq<char>> {
        match self.current_filename {
            Some(name) => Some(name@),
            None => None,
        }
    }

    /// The path that the pattern gives for the current timestamp.
    pub open spec fn derived(&self) -> Option<Seq<char>> {
        formatted_time(self.pattern(), self.timestamp().secs, self.timestamp().offset_secs)
    }

    /// A writer with no file open; the first check derives a path.
    pub fn new(filename_pattern: String, timestamp: LocalTimestamp) -> (w: TimestampFileWriter)
        ensures
            w.pattern() == filename_pattern@,
            w.timestamp() == timestamp,
            w.dirty(),
            w.current() is None,
    {
        TimestampFileWriter {
            filename_pattern,
            timestamp,
            timestamp_changed: true,
            current_filename: None,
        }
    }

    /// Moves the writer to `timestamp` and says whether that calls for
    /// another file: `Keep` where the derived path is the one that is open,
    /// `Open` with the derived path where it is not.
    pub fn set_timestamp(&mut self, timestamp: LocalTimestamp) -> (step: FileStep)
        ensures
            final(self).pattern() == old(self).pattern(),
            final(self).timestamp() == timestamp,
            !final(self).dirty(),
            final(self).current() == old(self).current(),
            step.model() == step_for(final(self).derived(), old(self).current()),
    {
        self.timestamp = timestamp;
        self.timestamp_changed = true;
        self.check_timestamp_change()
    }

    /// The path of the file that is open, if any.
    pub fn filename(&self) -> (name: Option<&str>)
        ensures
            match name {
                Some(n) => self.current() == Some(n@),
                None => self.current() is None,
            },
    {
        match &self.current_filename {
            None => None,
            Some(filename) => Some(filename.as_str()),
        }
    }

    /// Derives the path again if the timestamp was set since the last check,
    /// and compares it with the path that is open. Without a new timestamp
    /// nothing is derived and the file stays.
    pub fn check_timestamp_change(&mut self) -> (step: FileStep)
        ensures
            final(self).pattern() == old(self).pattern(),
            final(self).timestamp() == old(self).timestamp(),
            !final(self).dirty(),
            final(self).current() == old(self).current(),
            step.model() == write_step(old(self).dirty(), old(self).derived(), old(self).current()),
    {
        if self.timestamp_changed {
            self.timestamp_changed = false;
            let derived = format_timestamp(
                self.filename_pattern.as_str(),
                self.timestamp.secs,
                self.timestamp.offset_secs,
            );
            self.decide(derived)
        } else {
            FileStep::Keep
        }
    }

    /// Compares a derived path with the path that is open: the file stays
    /// where they are the same, else the derived path is to be opened.
    pub fn decide(&self, derived: Option<String>) -> (step: FileStep)
        ensures
            step.model() == step_for(
                match derived {
                    Some(name) => Some(name@),
                    None => None,
                },
                self.current(),
            ),
    {
        match derived {
            None => FileStep::Unformattable,
            Some(filename) => {
                let same = match &self.current_filename {
                    Some(current) => *current == filename,
                    None => false,
                };
                if same {
                    FileStep::Keep
                } else {
                    FileStep::Open(filename)
                }
            },
        }
    }

    /// The step before a write: derives the path if the timestamp was set
    /// since the last check. A write fails where the pattern gives no path,
    /// and where no file is open and none is to be opened.
    pub fn begin_write(&mut self) -> (result: Result<FileStep, Error>)
        ensures
            final(self).pattern() == old(self).pattern(),
            final(self).timestamp() == old(self).timestamp(),
            !final(self).dirty(),
            final(self).current() == old(self).current(),
            match write_step(old(self).dirty(), old(self).derived(), old(self).current()) {
                None => result is Err && result->Err_0.description_text()
                    == "Unable to derive the file name"@,
                Some(None) => if old(self).current() is Some {
                    result is Ok && result->Ok_0 is Keep
                } else {
                    result is Err && result->Err_0.description_text() == "No file created!"@
                },
                Some(Some(name)) => result is Ok && result->Ok_0.model() == Some(Some(name)),
            },
    {
        let step = self.check_timestamp_change();
        match step {
            FileStep::Unformattable => Err(Error::from_text("Unable to derive the file name")),
            FileStep::Keep => {
                if self.current_filename.is_some() {
                    Ok(FileStep::Keep)
                } else {
                    Err(Error::from_text("No file created!"))
                }
            },
            FileStep::Open(name) => Ok(FileStep::Open(name)),
        }
    }

    /// Records that the file at `filename` was opened and is now the one
    /// written to.
    pub fn file_opened(&mut self, filename: String)
        ensures
            final(self).pattern() == old(self).pattern(),
            final(self).timestamp() == old(self).timestamp(),
            final(self).dirty() == old(self).dirty(),
            final(self).current() == Some(filename@),
    {
        self.current_filename = Some(filename);
    }

    /// Whether a write can go ahead: only once a file was opened.
    pub fn can_write(&self) -> (b: bool)
        ensures
            b == (self.current() is Some),
    {
        self.current_filename.is_some()
    }
}

/// Setting a timestamp whose derived path is the one already open asks for
/// no file to be opened; one whose derived path differs asks for exactly
/// that path, and the open path is only replaced once the owner reports the
/// new file.
pub proof fn lemma_rotation_follows_path(derived: Seq<char>, current: Option<Seq<char>>)
    ensures
        current == Some(derived) ==> step_for(Some(derived), current) == Some(
            None::<Seq<char>>,
        ),
        current != Some(derived) ==> step_for(Some(derived), current) == Some(Some(derived)),
{
}

} // verus!
