use elogger::color::{Color, ColorTable};
use elogger::dest::{DestOption, FlushError};
use elogger::facade::{Facade, InstallError};
use elogger::logger::{compose_line, ELogger, LogAction};
use elogger::severity::Severity;
use elogger::timefmt::{TimeError, TimeOption};

fn print_line(r: Option<Result<LogAction, FlushError>>) -> String {
    match r {
        Some(Ok(LogAction::Print(line))) => line,
        _ => panic!("expected a console line"),
    }
}

fn append_data(r: Option<Result<LogAction, FlushError>>) -> (String, String) {
    match r {
        Some(Ok(LogAction::Append(job))) => (job.path, job.data),
        _ => panic!("expected a file append"),
    }
}

#[test]
fn default_color_table_is_total_and_stable() {
    let table = ColorTable::defaults();
    assert_eq!(table.lookup(Severity::Trace), (Color::White, Color::BrightBlack));
    assert_eq!(table.lookup(Severity::Debug), (Color::BrightWhite, Color::Black));
    assert_eq!(table.lookup(Severity::Info), (Color::BrightBlue, Color::Black));
    assert_eq!(table.lookup(Severity::Warn), (Color::BrightYellow, Color::Black));
    assert_eq!(table.lookup(Severity::Error), (Color::BrightRed, Color::Black));
    // stable: a second lookup returns the same pair
    assert_eq!(table.lookup(Severity::Info), table.lookup(Severity::Info));
    let logger = ELogger::new();
    assert_eq!(logger.get_color(Severity::Info), (Color::BrightBlue, Color::Black));
}

#[test]
fn console_color_enabled_wraps_level_token() {
    colored::control::set_override(true);
    let mut facade = Facade::new();
    let logger = ELogger::new().set_log_time(false).enable_use_color();
    logger.init(&mut facade).unwrap();
    let line = print_line(facade.dispatch(Severity::Info, "hello"));
    assert!(line.contains("\u{1b}[94m[INFO]\u{1b}[0m"));
    assert_eq!(line, "\u{1b}[94m[INFO]\u{1b}[0m \r\nhello\r\n");
}

#[test]
fn console_color_disabled_has_no_escapes() {
    let mut facade = Facade::new();
    let logger = ELogger::new().set_log_time(false).disable_use_color();
    logger.init(&mut facade).unwrap();
    let line = print_line(facade.dispatch(Severity::Info, "hello"));
    assert_eq!(line, "[INFO] \r\nhello\r\n");
    assert!(!line.contains('\u{1b}'));
}

#[test]
fn two_file_events_concatenate_exactly() {
    let mut facade = Facade::new();
    let logger = ELogger::new_dest("out.log").set_log_time(false);
    logger.init(&mut facade).unwrap();
    let (path_a, data_a) = append_data(facade.dispatch(Severity::Info, "A"));
    let (path_b, data_b) = append_data(facade.dispatch(Severity::Info, "B"));
    assert_eq!(path_a, "out.log");
    assert_eq!(path_b, "out.log");
    // the buffer was cleared between flushes: each job holds only its line
    assert_eq!(data_a, "[INFO] \r\nA\r\n");
    assert_eq!(data_b, "[INFO] \r\nB\r\n");
    let file_content = format!("{data_a}{data_b}");
    assert_eq!(file_content, "[INFO] \r\nA\r\n[INFO] \r\nB\r\n");
}

#[test]
fn disabled_timestamp_leaves_field_empty() {
    let mut facade = Facade::new();
    let logger = ELogger::new_dest("out.log").set_log_time(false);
    logger.init(&mut facade).unwrap();
    let (_, data) = append_data(facade.dispatch(Severity::Warn, "watch out"));
    // same structure as always, with an empty timestamp field
    assert_eq!(data, "[WARN] \r\nwatch out\r\n");
    assert_eq!(data, compose_line("[WARN]", "", "watch out"));
}

#[test]
fn n_events_round_trip_in_order() {
    let mut facade = Facade::new();
    let logger = ELogger::new_dest("round.log").set_log_time(false);
    logger.init(&mut facade).unwrap();
    let events = [
        (Severity::Info, "first"),
        (Severity::Warn, "second"),
        (Severity::Error, "third"),
    ];
    let mut file_content = String::new();
    for (sev, msg) in events.iter() {
        let (_, data) = append_data(facade.dispatch(*sev, msg));
        file_content.push_str(&data);
    }
    assert_eq!(
        file_content,
        "[INFO] \r\nfirst\r\n[WARN] \r\nsecond\r\n[ERROR] \r\nthird\r\n",
    );
    // read back: exactly N well-formed records, in emission order
    let segments: Vec<&str> = file_content.split("\r\n").collect();
    assert_eq!(segments.len(), 2 * events.len() + 1);
    assert_eq!(segments[2 * events.len()], "");
    for (k, (sev, msg)) in events.iter().enumerate() {
        let header = segments[2 * k];
        let body = segments[2 * k + 1];
        let label = match sev {
            Severity::Trace => "[TRACE]",
            Severity::Debug => "[DEBUG]",
            Severity::Info => "[INFO]",
            Severity::Warn => "[WARN]",
            Severity::Error => "[ERROR]",
        };
        assert_eq!(header, format!("{label} "));
        assert_eq!(body, *msg);
    }
}

#[test]
fn flush_without_destination_fails() {
    let mut logger = ELogger::new();
    assert_eq!(logger.flush(), Err(FlushError::NoDestination));
    // file-routed without a destination file, a log event also fails
    let mut routed = ELogger::new().set_use_dest(true);
    let r = routed.log(Severity::Info, "nowhere to go");
    assert_eq!(r, Err(FlushError::NoDestination));
}

#[test]
fn second_install_fails_and_first_stays_active() {
    let mut facade = Facade::new();
    let first = ELogger::new_dest("first.log").set_log_time(false);
    assert_eq!(first.init(&mut facade), Ok(()));
    let second = ELogger::new();
    assert_eq!(second.init(&mut facade), Err(InstallError::AlreadyInstalled));
    // the first backend is still active and functional: events still go to
    // its destination file
    let (path, data) = append_data(facade.dispatch(Severity::Info, "still here"));
    assert_eq!(path, "first.log");
    assert_eq!(data, "[INFO] \r\nstill here\r\n");
}

#[test]
fn severity_filter_gates_dispatch() {
    let mut facade = Facade::new();
    let logger = ELogger::new().set_max_level(Severity::Error).set_log_time(false);
    logger.init(&mut facade).unwrap();
    assert!(facade.dispatch(Severity::Info, "too quiet").is_none());
    assert!(facade.dispatch(Severity::Error, "loud enough").is_some());
}

#[test]
fn push_output_accumulates_and_flush_clears() {
    let mut logger = ELogger::new_dest("buf.log");
    logger.push_output("abc");
    logger.push_output("def");
    let job = logger.flush().unwrap();
    assert_eq!(job.path, "buf.log");
    assert_eq!(job.data, "abcdef");
    let again = logger.flush().unwrap();
    assert_eq!(again.data, "");
}

#[test]
fn time_disabled_renders_empty() {
    let logger = ELogger::new().set_log_time(false);
    assert_eq!(logger.get_time(), "");
    let mut opt = TimeOption::new();
    opt.set_log_time(false);
    assert_eq!(opt.get_time(), Ok(String::new()));
}

#[test]
fn utc_time_renders_from_pattern() {
    let logger = ELogger::new()
        .set_use_local(false)
        .set_time_format("[year]-[month]-[day] [hour]:[minute]:[second]");
    let t = logger.get_time();
    // the formatter really ran: output is non-empty and is not the pattern
    assert!(!t.is_empty());
    assert!(!t.contains('['));
    assert_eq!(t.len(), "0000-00-00 00:00:00".len());
}

#[test]
fn bad_pattern_is_a_format_error() {
    let mut opt = TimeOption::new();
    opt.set_use_local(false);
    opt.set_time_format("[not a real token]");
    assert_eq!(opt.get_time(), Err(TimeError::Format));
}

#[test]
fn resolve_time_error_degrades_to_empty() {
    assert_eq!(TimeOption::resolve_time_error(Ok(String::from("now"))), "now");
    assert_eq!(TimeOption::resolve_time_error(Err(TimeError::Format)), "");
    assert_eq!(TimeOption::resolve_time_error(Err(TimeError::IndeterminateOffset)), "");
}

#[test]
fn severity_order_and_labels() {
    assert!(Severity::Error.passes(Severity::Info));
    assert!(Severity::Info.passes(Severity::Info));
    assert!(!Severity::Debug.passes(Severity::Info));
    assert_eq!(Severity::Trace.label(), "[TRACE]");
    assert_eq!(Severity::Debug.label(), "[DEBUG]");
    assert_eq!(Severity::Info.label(), "[INFO]");
    assert_eq!(Severity::Warn.label(), "[WARN]");
    assert_eq!(Severity::Error.label(), "[ERROR]");
}

#[test]
fn dest_option_routing() {
    let d = DestOption::new();
    assert!(!d.is_use_dest());
    let mut d2 = DestOption::new_with_dest("a.log");
    assert!(d2.is_use_dest());
    d2.set_use_dest(false);
    assert!(!d2.is_use_dest());
    d2.set_use_dest(true);
    assert!(d2.is_use_dest());
}

#[test]
fn empty_message_keeps_structure() {
    let mut logger = ELogger::new_dest("e.log").set_log_time(false);
    let r = logger.log(Severity::Debug, "");
    match r {
        Ok(LogAction::Append(job)) => assert_eq!(job.data, "[DEBUG] \r\n\r\n"),
        _ => panic!("expected a file append"),
    }
}
