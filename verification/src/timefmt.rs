//! Timestamp configuration and rendering.
//!
//! A failed timestamp never aborts a log call: rendering errors degrade to
//! an empty timestamp string at the call site.

use vstd::prelude::*;

verus! {

/// The default timestamp pattern.
pub open spec fn spec_default_time_format() -> Seq<char> {
    "[year]-[month]-[day] [hour]:[minute]:[second] [offset_hour sign:mandatory]:[offset_minute]:[offset_second]"@
}

/// The default timestamp pattern: date, time of day and UTC offset.
pub fn default_time_format() -> (r: &'static str)
    ensures
        r@ == spec_default_time_format(),
{
    "[year]-[month]-[day] [hour]:[minute]:[second] [offset_hour sign:mandatory]:[offset_minute]:[offset_second]"
}

/// Why a timestamp could not be rendered.
#[derive(Clone, Copy, PartialEq, Eq, Structural, Debug)]
pub enum TimeError {
    /// The local UTC offset could not be determined.
    IndeterminateOffset,
    /// The pattern did not parse, or the formatting run itself failed.
    Format,
}

#[verifier::external_type_specification]
#[verifier::external_body]
pub struct ExOffsetDateTime(time::OffsetDateTime);

/// Relies on `time::OffsetDateTime::now_local`: captures the current local
/// time, or yields nothing when the local UTC offset is indeterminate.
#[verifier::external_body]
fn now_local_time() -> (r: Option<time::OffsetDateTime>) {
    time::OffsetDateTime::now_local().ok()
}

/// Relies on `time::OffsetDateTime::now_utc`: captures the current UTC time.
#[verifier::external_body]
fn now_utc_time() -> (r: time::OffsetDateTime) {
    time::OffsetDateTime::now_utc()
}

/// Relies on `time::format_description::parse` and
/// `time::OffsetDateTime::format`: renders `t` according to `pattern`,
/// yielding `None` when the pattern does not parse or the formatting run
/// fails.
#[verifier::external_body]
fn format_instant(t: time::OffsetDateTime, pattern: &str) -> (r: Option<String>) {
    let items = match time::format_description::parse(pattern) {
        Ok(items) => items,
        Err(_) => return None,
    };
    match t.format(&items) {
        Ok(s) => Some(s),
        Err(_) => None,
    }
}

/// Timestamp settings: the pattern, the zone choice, and whether a
/// timestamp is emitted at all.
#[derive(Clone, PartialEq, Eq, Debug)]
pub struct TimeOption {
    /// The format pattern handed to the time formatter.
    pub time_format: String,
    /// Capture local time when true, UTC otherwise.
    pub use_local: bool,
    /// Emit a timestamp at all; when false the rendered timestamp is
    /// always the empty string.
    pub log_time: bool,
}

impl TimeOption {
    /// Default settings: default pattern, local zone, timestamps on.
    pub fn new() -> (r: TimeOption)
        ensures
            r.time_format@ == spec_default_time_format(),
            r.use_local,
            r.log_time,
    {
        TimeOption {
            time_format: default_time_format().to_owned(),
            use_local: true,
            log_time: true,
        }
    }

    /// Renders the current time per the configuration.  When timestamp
    /// emission is disabled this deterministically yields an empty string;
    /// otherwise the value depends on the clock, and the only errors are an
    /// indeterminate local offset (local zone only) or a formatting failure.
    pub fn get_time(&self) -> (r: Result<String, TimeError>)
        ensures
            !self.log_time ==> r is Ok && r->Ok_0@ == Seq::<char>::empty(),
            self.log_time && !self.use_local && r is Err ==> r->Err_0 == TimeError::Format,
    {
        if self.enabled() {
            let now = if self.use_local {
                match now_local_time() {
                    Some(t) => t,
                    None => {
                        return Err(TimeError::IndeterminateOffset);
                    },
                }
            } else {
                now_utc_time()
            };
            match format_instant(now, self.time_format.as_str()) {
                Some(s) => Ok(s),
                None => Err(TimeError::Format),
            }
        } else {
            Ok(String::new())
        }
    }

    /// Replaces the timestamp pattern.
    pub fn set_time_format(&mut self, f: &str)
        ensures
            final(self).time_format@ == f@,
            final(self).use_local == old(self).use_local,
            final(self).log_time == old(self).log_time,
    {
        self.time_format = f.to_owned();
    }

    /// Whether a timestamp is emitted.
    pub fn enabled(&self) -> (r: bool)
        ensures
            r == self.log_time,
    {
        self.log_time
    }

    /// Chooses between the local zone and UTC.
    pub fn set_use_local(&mut self, is_use: bool)
        ensures
            final(self).use_local == is_use,
            final(self).time_format == old(self).time_format,
            final(self).log_time == old(self).log_time,
    {
        if is_use != self.use_local {
            self.use_local = is_use;
        }
    }

    /// Switches timestamp emission on or off.
    pub fn set_log_time(&mut self, is_open: bool)
        ensures
            final(self).log_time == is_open,
            final(self).time_format == old(self).time_format,
            final(self).use_local == old(self).use_local,
    {
        if is_open != self.log_time {
            self.log_time = is_open;
        }
    }

    /// Degrades a timestamp result to a plain string: a rendering failure
    /// becomes the empty timestamp, so a log call never aborts on time
    /// errors.  A caller that wants to report the indeterminate-offset
    /// cause on a diagnostic stream can inspect the result first.
    pub fn resolve_time_error(result: Result<String, TimeError>) -> (r: String)
        ensures
            result is Ok ==> r@ == result->Ok_0@,
            result is Err ==> r@ == Seq::<char>::empty(),
    {
        match result {
            Ok(t) => t,
            Err(_) => String::new(),
        }
    }
}

} // verus!
