//! The timestamping element: adds the time of processing to each item.
use vstd::prelude::*;

use crate::settings::TimestampingSettings;

verus! {

/// The time zones available for timestamps.
#[derive(Clone, Copy, Debug, PartialEq, Eq, Structural)]
pub enum TimeOffset {
    /// The system's local time zone.
    Local,
    /// UTC.
    Utc,
}

/// The formats available for timestamps.
#[derive(Clone, Debug)]
pub enum TimeFormat {
    /// RFC 2822, as in "Wed, 9 Jan 2019 20:05:56 -0800".
    Rfc2822,
    /// RFC 3339 and ISO 8601, as in "2019-01-09T20:05:56-08:00".
    Rfc3339,
    /// A strftime format string, as "%D %H:%M:%S" gives "01/09/19 20:20:17".
    Format(String),
    /// Seconds since the Unix epoch, as in "1547094087".
    Timestamp,
    /// Milliseconds since the Unix epoch, as in "1547094141733".
    TimestampMs,
}

/// The format that a settings string names: one of the four names, or else a
/// format string.
pub open spec fn format_named(s: Seq<char>) -> TimeFormat {
    if s == "Rfc2822"@ {
        TimeFormat::Rfc2822
    } else if s == "Rfc3339"@ {
        TimeFormat::Rfc3339
    } else if s == "Timestamp"@ {
        TimeFormat::Timestamp
    } else if s == "TimestampMs"@ {
        TimeFormat::TimestampMs
    } else {
        TimeFormat::Format(arbitrary())
    }
}

/// Whether `f` is the format that the settings string `s` names.
pub open spec fn is_format_named(f: TimeFormat, s: Seq<char>) -> bool {
    match format_named(s) {
        TimeFormat::Format(_) => f matches TimeFormat::Format(g) && g@ == s,
        named => f == named,
    }
}

/// Adds a timestamp to each item, in a given time zone and format, under a given field.
pub struct Timestamping {
    pub offset: TimeOffset,
    pub format: TimeFormat,
    pub field: String,
}

impl Timestamping {
    /// Timestamps under the field "timestamp".
    pub fn new(offset: TimeOffset, format: TimeFormat) -> (r: Self)
        ensures
            r.offset == offset,
            r.format == format,
            r.field@ == "timestamp"@,
    {
        Timestamping { offset, format, field: "timestamp".to_owned() }
    }

    /// UTC timestamps in the given format.
    pub fn with_format(format: TimeFormat) -> (r: Self)
        ensures
            r.offset == TimeOffset::Utc,
            r.format == format,
            r.field@ == "timestamp"@,
    {
        Timestamping::new(TimeOffset::Utc, format)
    }

    /// Timestamps in seconds, in the given time zone.
    pub fn with_offset(offset: TimeOffset) -> (r: Self)
        ensures
            r.offset == offset,
            r.format == TimeFormat::Timestamp,
            r.field@ == "timestamp"@,
    {
        Timestamping::new(offset, TimeFormat::Timestamp)
    }

    /// The element that the settings describe.
    pub fn from_settings(settings: TimestampingSettings) -> (r: Self)
        ensures
            r.offset == settings.offset,
            is_format_named(r.format, settings.format@),
            r.field == settings.field,
    {
        let name = settings.format;
        let format = if name == "Rfc2822".to_owned() {
            TimeFormat::Rfc2822
        } else if name == "Rfc3339".to_owned() {
            TimeFormat::Rfc3339
        } else if name == "Timestamp".to_owned() {
            TimeFormat::Timestamp
        } else if name == "TimestampMs".to_owned() {
            TimeFormat::TimestampMs
        } else {
            TimeFormat::Format(name)
        };
        Timestamping { offset: settings.offset, format, field: settings.field }
    }

    /// Sets the item field that receives the timestamp.
    pub fn set_field(&mut self, name: &str)
        ensures
            final(self).field@ == name@,
            final(self).offset == old(self).offset,
            final(self).format == old(self).format,
    {
        self.field = name.to_owned();
    }
}

} // verus!
