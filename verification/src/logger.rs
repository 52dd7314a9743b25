//! The backend orchestrator: composes one output line per event and routes
//! it to the console or the buffered file sink.
//!
//! The backend itself performs no I/O.  Each event yields a [`LogAction`]
//! that tells the embedding application what to do: print a composed line,
//! or append a flushed buffer to the destination file.  The application is
//! expected to serialize calls with one lock around the whole backend.

use vstd::prelude::*;
use vstd::string::StringExecFns;

use crate::color::{colorize, reset_escape, Color, ColorOption, ColorTable};
use crate::dest::{DestOption, FlushError, FlushJob};
use crate::facade::{Facade, InstallError};
use crate::severity::{lemma_label_chars, Severity};
use crate::timefmt::{spec_default_time_format, TimeOption};

verus! {

/// What the embedding application must do with one rendered event.
#[derive(Clone, PartialEq, Eq, Debug)]
pub enum LogAction {
    /// Console route: print this composed line on standard output.
    Print(String),
    /// File route: append this job's data to its destination file.
    Append(FlushJob),
}

/// The composed output line for one event:
/// `"<level> <timestamp>\r\n<message>\r\n"`.
pub open spec fn spec_compose(level_text: Seq<char>, time: Seq<char>, msg: Seq<char>) -> Seq<
    char,
> {
    level_text + seq![' '] + time + seq!['\r', '\n'] + msg + seq!['\r', '\n']
}

/// Composes the output line for one event.
pub fn compose_line(level_text: &str, time: &str, msg: &str) -> (r: String)
    ensures
        r@ == spec_compose(level_text@, time@, msg@),
{
    proof {
        reveal_strlit(" ");
        reveal_strlit("\r\n");
        assert(" "@ =~= seq![' ']);
        assert("\r\n"@ =~= seq!['\r', '\n']);
    }
    let mut s = level_text.to_owned();
    s.append(" ");
    s.append(time);
    s.append("\r\n");
    s.append(msg);
    s.append("\r\n");
    s
}

/// The logging backend: timestamp settings, coloring settings, the sink
/// state, and the minimum severity the process-wide filter should admit.
#[derive(Clone, PartialEq, Eq, Debug)]
pub struct ELogger {
    pub time_option: TimeOption,
    pub color_option: ColorOption,
    pub dest: DestOption,
    /// The severity floor this backend asks the facade to enforce.
    pub max_level: Severity,
}

impl ELogger {
    /// The foreground color configured for a severity.
    pub open spec fn fg_of(self, sev: Severity) -> Color {
        self.color_option.level_to_color.spec_lookup(sev).0
    }

    /// The console lines that one event may render to: the plain composed
    /// line when coloring is off; with coloring on, either the plain line or
    /// the line whose level token is wrapped in the configured foreground
    /// escape (the terminal runtime decides whether escapes are emitted).
    pub open spec fn console_line_ok(
        self,
        sev: Severity,
        time: Seq<char>,
        msg: Seq<char>,
        line: Seq<char>,
    ) -> bool {
        if self.color_option.use_color {
            line == spec_compose(sev.spec_label(), time, msg) || line == spec_compose(
                self.fg_of(sev).fg_escape() + sev.spec_label() + reset_escape(),
                time,
                msg,
            )
        } else {
            line == spec_compose(sev.spec_label(), time, msg)
        }
    }

    /// Full behaviour of one `log` step, given the timestamp string that
    /// was rendered for it.
    pub open spec fn log_post(
        pre: ELogger,
        post: ELogger,
        sev: Severity,
        time: Seq<char>,
        msg: Seq<char>,
        r: Result<LogAction, FlushError>,
    ) -> bool {
        &&& post.time_option == pre.time_option
        &&& post.color_option == pre.color_option
        &&& post.max_level == pre.max_level
        &&& post.dest.use_dest == pre.dest.use_dest
        &&& post.dest.dest_out == pre.dest.dest_out
        &&& (!pre.dest.use_dest ==> {
            &&& post.dest == pre.dest
            &&& r is Ok
            &&& r->Ok_0 is Print
            &&& pre.console_line_ok(sev, time, msg, r->Ok_0->Print_0@)
        })
        &&& (pre.dest.use_dest && pre.dest.dest_out is Some ==> {
            &&& r is Ok
            &&& r->Ok_0 is Append
            &&& r->Ok_0->Append_0.path@ == pre.dest.dest_out->0@
            &&& r->Ok_0->Append_0.data@ == pre.dest.output_stream@ + spec_compose(
                sev.spec_label(),
                time,
                msg,
            )
            &&& post.dest.output_stream@ == Seq::<char>::empty()
        })
        &&& (pre.dest.use_dest && pre.dest.dest_out is None ==> {
            &&& r is Err
            &&& r->Err_0 == FlushError::NoDestination
            &&& post.dest.output_stream@ == pre.dest.output_stream@ + spec_compose(
                sev.spec_label(),
                time,
                msg,
            )
        })
    }

    /// The default backend: console route, coloring on, local time with the
    /// default pattern, and an `Info` severity floor.
    pub open spec fn is_default(self) -> bool {
        &&& self.time_option.time_format@ == spec_default_time_format()
        &&& self.time_option.use_local
        &&& self.time_option.log_time
        &&& self.color_option.use_color
        &&& self.color_option.level_to_color == ColorTable::default_spec()
        &&& !self.dest.use_dest
        &&& self.dest.dest_out is None
        &&& self.dest.output_stream@ == Seq::<char>::empty()
        &&& self.max_level == Severity::Info
    }

    /// Builds the default backend.
    pub fn new() -> (r: ELogger)
        ensures
            r.is_default(),
    {
        ELogger {
            time_option: TimeOption::new(),
            color_option: ColorOption::new(true, ColorTable::defaults()),
            dest: DestOption::new(),
            max_level: Severity::Info,
        }
    }

    /// The default backend, except that output is routed to the file `dest`.
    pub fn new_dest(dest: &str) -> (r: ELogger)
        ensures
            r.time_option.time_format@ == spec_default_time_format(),
            r.time_option.use_local,
            r.time_option.log_time,
            r.color_option.use_color,
            r.color_option.level_to_color == ColorTable::default_spec(),
            r.max_level == Severity::Info,
            r.dest.use_dest,
            r.dest.dest_out is Some,
            r.dest.dest_out->0@ == dest@,
            r.dest.output_stream@ == Seq::<char>::empty(),
    {
        let mut s = ELogger::new();
        s.dest = DestOption::new_with_dest(dest);
        s
    }

    /// Sets the severity floor the facade should enforce.
    pub fn set_max_level(self, l: Severity) -> (r: ELogger)
        ensures
            r == (ELogger { max_level: l, ..self }),
    {
        let mut s = self;
        s.max_level = l;
        s
    }

    /// Replaces the timestamp pattern.
    pub fn set_time_format(self, format: &str) -> (r: ELogger)
        ensures
            r.time_option.time_format@ == format@,
            r.time_option.use_local == self.time_option.use_local,
            r.time_option.log_time == self.time_option.log_time,
            r.color_option == self.color_option,
            r.dest == self.dest,
            r.max_level == self.max_level,
    {
        let mut s = self;
        s.time_option.set_time_format(format);
        s
    }

    /// Renders the current timestamp; a rendering failure degrades to the
    /// empty string, so this never aborts a log call.
    pub fn get_time(&self) -> (r: String)
        ensures
            !self.time_option.log_time ==> r@ == Seq::<char>::empty(),
    {
        TimeOption::resolve_time_error(self.time_option.get_time())
    }

    /// Chooses between the local zone and UTC for timestamps.
    pub fn set_use_local(self, is_use: bool) -> (r: ELogger)
        ensures
            r.time_option.use_local == is_use,
            r.time_option.time_format == self.time_option.time_format,
            r.time_option.log_time == self.time_option.log_time,
            r.color_option == self.color_option,
            r.dest == self.dest,
            r.max_level == self.max_level,
    {
        let mut s = self;
        s.time_option.set_use_local(is_use);
        s
    }

    /// Switches timestamp emission on or off.
    pub fn set_log_time(self, is_open: bool) -> (r: ELogger)
        ensures
            r.time_option.log_time == is_open,
            r.time_option.time_format == self.time_option.time_format,
            r.time_option.use_local == self.time_option.use_local,
            r.color_option == self.color_option,
            r.dest == self.dest,
            r.max_level == self.max_level,
    {
        let mut s = self;
        s.time_option.set_log_time(is_open);
        s
    }

    /// Enables colored console output.
    pub fn enable_use_color(self) -> (r: ELogger)
        ensures
            r == (ELogger {
                color_option: (ColorOption { use_color: true, ..self.color_option }),
                ..self
            }),
    {
        let mut s = self;
        s.color_option.set_use_color(true);
        s
    }

    /// Disables colored console output.
    pub fn disable_use_color(self) -> (r: ELogger)
        ensures
            r == (ELogger {
                color_option: (ColorOption { use_color: false, ..self.color_option }),
                ..self
            }),
    {
        let mut s = self;
        s.color_option.set_use_color(false);
        s
    }

    /// Whether console output is colored.
    pub fn is_use_color(&self) -> (r: bool)
        ensures
            r == self.color_option.use_color,
    {
        self.color_option.get_use_color()
    }

    /// The (foreground, background) color pair configured for a severity.
    pub fn get_color(&self, l: Severity) -> (r: (Color, Color))
        ensures
            r == self.color_option.level_to_color.spec_lookup(l),
    {
        self.color_option.get_color_from_level(l)
    }

    /// Whether output is routed to the destination file.
    pub fn is_use_dest(&self) -> (r: bool)
        ensures
            r == self.dest.use_dest,
    {
        self.dest.is_use_dest()
    }

    /// Appends a rendered chunk to the pending buffer.
    pub fn push_output(&mut self, stream: &str)
        ensures
            final(self).dest.output_stream@ == old(self).dest.output_stream@ + stream@,
            final(self).dest.use_dest == old(self).dest.use_dest,
            final(self).dest.dest_out == old(self).dest.dest_out,
            final(self).time_option == old(self).time_option,
            final(self).color_option == old(self).color_option,
            final(self).max_level == old(self).max_level,
    {
        self.dest.push_output(stream);
    }

    /// Switches between the file route and the console route.
    pub fn set_use_dest(self, is_open: bool) -> (r: ELogger)
        ensures
            r == (ELogger { dest: (DestOption { use_dest: is_open, ..self.dest }), ..self }),
    {
        let mut s = self;
        s.dest.set_use_dest(is_open);
        s
    }

    /// The facade-side enabled check; severity filtering is delegated
    /// entirely to the facade's global filter, so this is always true.
    pub fn enabled(&self) -> (r: bool)
        ensures
            r,
    {
        true
    }

    /// Flushes the pending buffer: yields one write job carrying the
    /// destination path and the whole buffered content, and clears the
    /// buffer.  Flushing without a configured destination fails and leaves
    /// the backend unchanged; the embedding application treats that as
    /// fatal.
    pub fn flush(&mut self) -> (r: Result<FlushJob, FlushError>)
        ensures
            final(self).time_option == old(self).time_option,
            final(self).color_option == old(self).color_option,
            final(self).max_level == old(self).max_level,
            final(self).dest.use_dest == old(self).dest.use_dest,
            final(self).dest.dest_out == old(self).dest.dest_out,
            old(self).dest.dest_out is Some ==> {
                &&& r is Ok
                &&& r->Ok_0.path@ == old(self).dest.dest_out->0@
                &&& r->Ok_0.data@ == old(self).dest.output_stream@
                &&& final(self).dest.output_stream@ == Seq::<char>::empty()
            },
            old(self).dest.dest_out is None ==> {
                &&& r is Err
                &&& r->Err_0 == FlushError::NoDestination
                &&& *final(self) == *old(self)
            },
    {
        let path = match &self.dest.dest_out {
            Some(p) => p.clone(),
            None => {
                return Err(FlushError::NoDestination);
            },
        };
        let data = self.dest.output_stream.clone();
        self.dest.output_stream = String::new();
        Ok(FlushJob { path, data })
    }

    /// Handles one event whose timestamp has already been rendered: looks
    /// up the color pair, composes the line, and either hands it to the
    /// console or appends it to the buffer and flushes at once.
    pub fn log_with_time(&mut self, sev: Severity, time: &str, msg: &str) -> (r: Result<
        LogAction,
        FlushError,
    >)
        ensures
            ELogger::log_post(*old(self), *final(self), sev, time@, msg@, r),
    {
        let label = sev.label();
        let (fg, _bg) = self.color_option.get_color_from_level(sev);
        if self.dest.is_use_dest() {
            let line = compose_line(label, time, msg);
            self.dest.push_output(line.as_str());
            match self.flush() {
                Ok(job) => Ok(LogAction::Append(job)),
                Err(e) => Err(e),
            }
        } else {
            let shown: String;
            if self.color_option.get_use_color() {
                proof {
                    lemma_label_chars(sev);
                }
                shown = colorize(label, fg);
            } else {
                shown = label.to_owned();
            }
            let line = compose_line(shown.as_str(), time, msg);
            Ok(LogAction::Print(line))
        }
    }

    /// One `log` step for some rendered timestamp: the timestamp string is
    /// whatever the clock and formatter produced, but it is empty whenever
    /// timestamp emission is disabled.
    pub open spec fn log_step_ok(
        pre: ELogger,
        post: ELogger,
        sev: Severity,
        msg: Seq<char>,
        r: Result<LogAction, FlushError>,
    ) -> bool {
        exists|t: Seq<char>|
            {
                &&& #[trigger] ELogger::log_post(pre, post, sev, t, msg, r)
                &&& (!pre.time_option.log_time ==> t == Seq::<char>::empty())
            }
    }

    /// Handles one event: renders the timestamp (degrading to an empty
    /// string on failure) and steps the backend as `log_with_time` does.
    /// With timestamp emission disabled, the timestamp field is empty and
    /// the line is otherwise unchanged in structure.
    pub fn log(&mut self, sev: Severity, msg: &str) -> (r: Result<LogAction, FlushError>)
        ensures
            ELogger::log_step_ok(*old(self), *final(self), sev, msg@, r),
            !old(self).time_option.log_time ==> ELogger::log_post(
                *old(self),
                *final(self),
                sev,
                Seq::<char>::empty(),
                msg@,
                r,
            ),
    {
        let time = self.get_time();
        let r = self.log_with_time(sev, time.as_str(), msg);
        proof {
            assert(ELogger::log_post(*old(self), *self, sev, time@, msg@, r));
        }
        r
    }

    /// Consumes the configured backend and installs it as the process's
    /// single active one.  Fails, leaving the active backend in place, if
    /// one is already installed.
    pub fn init(self, facade: &mut Facade) -> (r: Result<(), InstallError>)
        ensures
            old(facade).active is Some ==> {
                &&& r is Err
                &&& r->Err_0 == InstallError::AlreadyInstalled
                &&& *final(facade) == *old(facade)
            },
            old(facade).active is None ==> {
                &&& r is Ok
                &&& final(facade).active == Some(self)
            },
    {
        facade.install(self)
    }
}

} // verus!
