//! A pluggable logging backend.
//!
//! The library receives structured log events (severity plus rendered
//! message), formats each one as a line with an optional timestamp and a
//! bracketed level token, and routes the result either to the console
//! (optionally colored) or to an in-memory buffer that is flushed to a named
//! destination file after every event.  Installation into the process-wide
//! facade is modeled by [`facade::Facade`]; the embedding application owns
//! the actual global registration and all file and console I/O.

pub mod color;
pub mod dest;
pub mod facade;
pub mod logger;
pub mod records;
pub mod severity;
pub mod timefmt;

use vstd::prelude::*;

use crate::facade::{Facade, InstallError};
use crate::logger::ELogger;

verus! {

/// Builds the default backend (console route, colored, local time, `Info`
/// floor) and installs it; nothing else is configured.
pub fn quick_init(facade: &mut Facade) -> (r: Result<(), InstallError>)
    ensures
        old(facade).active is Some ==> {
            &&& r is Err
            &&& r->Err_0 == InstallError::AlreadyInstalled
            &&& *final(facade) == *old(facade)
        },
        old(facade).active is None ==> {
            &&& r is Ok
            &&& final(facade).active is Some
            &&& final(facade).active->0.is_default()
        },
{
    ELogger::new().init(facade)
}

/// Builds the default backend routed to the file `dest` and installs it.
pub fn init_use_dest(facade: &mut Facade, dest: &str) -> (r: Result<(), InstallError>)
    ensures
        old(facade).active is Some ==> {
            &&& r is Err
            &&& r->Err_0 == InstallError::AlreadyInstalled
            &&& *final(facade) == *old(facade)
        },
        old(facade).active is None ==> {
            &&& r is Ok
            &&& final(facade).active is Some
            &&& final(facade).active->0.dest.use_dest
            &&& final(facade).active->0.dest.dest_out is Some
            &&& final(facade).active->0.dest.dest_out->0@ == dest@
            &&& final(facade).active->0.dest.output_stream@ == Seq::<char>::empty()
        },
{
    ELogger::new_dest(dest).init(facade)
}

} // verus!
