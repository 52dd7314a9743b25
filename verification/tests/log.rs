use elogger::facade::Facade;
use elogger::logger::{ELogger, LogAction};
use elogger::severity::Severity;
use elogger::{init_use_dest, quick_init};

#[test]
fn test_log() {
    let mut facade = Facade::new();
    quick_init(&mut facade).unwrap();
    let r = facade.dispatch(Severity::Info, "initialization completed");
    assert!(r.is_some());
    assert!(r.unwrap().is_ok());
}

#[test]
fn test_chain_call() {
    let mut facade = Facade::new();
    let logger = ELogger::new()
        .set_max_level(Severity::Trace)
        .set_use_local(false)
        .set_log_time(true)
        .enable_use_color();
    logger.init(&mut facade).unwrap();
    let r = facade.dispatch(Severity::Info, "initialization completed");
    assert!(r.is_some());
}

#[test]
fn test_color() {
    let mut facade = Facade::new();
    let logger = ELogger::new().disable_use_color();
    assert!(!logger.is_use_color());
    let logger = logger.enable_use_color();
    assert!(logger.is_use_color());
    logger.init(&mut facade).unwrap();
    let r = facade.dispatch(Severity::Info, "initialization completed");
    assert!(r.is_some());
}

#[test]
fn test_time_format() {
    let mut facade = Facade::new();
    let logger = ELogger::new()
        .set_time_format("[year]-[month]-[day] [hour]:[minute]:[second]")
        .set_use_local(false);
    let t = logger.get_time();
    assert!(!t.is_empty());
    logger.init(&mut facade).unwrap();
    let r = facade.dispatch(Severity::Info, "initialization completed");
    assert!(r.is_some());
}

fn log_from_helper(facade: &mut Facade) -> Option<Result<LogAction, elogger::dest::FlushError>> {
    facade.dispatch(Severity::Warn, "logged from a helper")
}

#[test]
fn test_module() {
    let mut facade = Facade::new();
    quick_init(&mut facade).unwrap();
    let r = log_from_helper(&mut facade);
    assert!(r.is_some());
}

#[test]
fn test_flush() {
    let mut facade = Facade::new();
    init_use_dest(&mut facade, "log.txt").unwrap();
    let messages = [
        "initialization completed",
        "initialization completed1",
        "initialization completed2",
        "initialization completed3",
        "initialization completed4",
    ];
    for m in messages.iter() {
        let r = facade.dispatch(Severity::Info, m);
        match r {
            Some(Ok(LogAction::Append(job))) => {
                assert_eq!(job.path, "log.txt");
                assert!(job.data.ends_with(&format!("{m}\r\n")));
            },
            _ => panic!("expected a file append for every event"),
        }
    }
}
