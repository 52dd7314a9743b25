//! The process-wide installation point for the single active backend.
//!
//! The logging front end owns exactly one backend per process.  This module
//! models that slot as a value with init-once semantics: the embedding
//! application keeps one `Facade` behind its global registration (and its
//! lock) and routes every event through it.

use vstd::prelude::*;

use crate::dest::FlushError;
use crate::logger::{ELogger, LogAction};
use crate::severity::Severity;

verus! {

/// Why a backend could not be installed.
#[derive(Clone, Copy, PartialEq, Eq, Structural, Debug)]
pub enum InstallError {
    /// A backend is already active; a process installs at most one for its
    /// lifetime, and the active one stays in place.
    AlreadyInstalled,
}

/// The single slot for the process's active backend.
#[derive(Clone, PartialEq, Eq, Debug)]
pub struct Facade {
    /// The installed backend, if any.
    pub active: Option<ELogger>,
}

impl Facade {
    /// A fresh facade with no backend installed.
    pub fn new() -> (r: Facade)
        ensures
            r.active is None,
    {
        Facade { active: None }
    }

    /// Installs `logger` as the single active backend.  A second
    /// installation fails and leaves the first backend active, unchanged.
    pub fn install(&mut self, logger: ELogger) -> (r: Result<(), InstallError>)
        ensures
            old(self).active is Some ==> {
                &&& r is Err
                &&& r->Err_0 == InstallError::AlreadyInstalled
                &&& *final(self) == *old(self)
            },
            old(self).active is None ==> {
                &&& r is Ok
                &&& final(self).active == Some(logger)
            },
    {
        match &self.active {
            Some(_) => Err(InstallError::AlreadyInstalled),
            None => {
                self.active = Some(logger);
                Ok(())
            },
        }
    }

    /// Routes one event to the active backend, if there is one and the
    /// event passes the backend's severity floor; the backend steps exactly
    /// as `ELogger::log` says.
    pub fn dispatch(&mut self, sev: Severity, msg: &str) -> (r: Option<
        Result<LogAction, FlushError>,
    >)
        ensures
            old(self).active is None ==> r is None && *final(self) == *old(self),
            old(self).active is Some && sev.rank() < old(self).active->0.max_level.rank() ==> r
                is None && *final(self) == *old(self),
            old(self).active is Some && sev.rank() >= old(self).active->0.max_level.rank() ==> {
                &&& r is Some
                &&& final(self).active is Some
                &&& ELogger::log_step_ok(
                    old(self).active->0,
                    final(self).active->0,
                    sev,
                    msg@,
                    r->0,
                )
            },
    {
        let cur = self.active.take();
        match cur {
            None => None,
            Some(mut l) => {
                if sev.passes(l.max_level) {
                    let ghost pre = l;
                    let out = l.log(sev, msg);
                    let ghost post = l;
                    self.active = Some(l);
                    proof {
                        assert(ELogger::log_step_ok(pre, post, sev, msg@, out));
                        assert(self.active->0 == post);
                        assert(old(self).active->0 == pre);
                    }
                    Some(out)
                } else {
                    self.active = Some(l);
                    None
                }
            },
        }
    }
}

} // verus!
