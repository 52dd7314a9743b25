//! Destination routing and the pending output buffer.
//!
//! When output is routed to a file, rendered lines accumulate in an
//! in-memory buffer; a flush hands the whole buffer to the embedding
//! application as one append-mode write job and clears it.

use vstd::prelude::*;
use vstd::string::StringExecFns;

verus! {

/// Why a flush could not produce a write job.
#[derive(Clone, Copy, PartialEq, Eq, Structural, Debug)]
pub enum FlushError {
    /// File-routed output was flushed while no destination file is
    /// configured.  The embedding application treats this as fatal.
    NoDestination,
}

/// One pending write: append `data` to the file named by `path`.
#[derive(Clone, PartialEq, Eq, Debug)]
pub struct FlushJob {
    pub path: String,
    pub data: String,
}

/// The sink state: the route (console or file), the destination file name,
/// and the pending buffer of rendered lines awaiting a flush.
#[derive(Clone, PartialEq, Eq, Debug)]
pub struct DestOption {
    /// Route to the destination file when true, to the console otherwise.
    pub use_dest: bool,
    /// The destination file name; consulted only on the file route.
    pub dest_out: Option<String>,
    /// Rendered lines accumulated since the last flush.
    pub output_stream: String,
}

impl DestOption {
    /// Console routing, no destination, empty buffer.
    pub fn new() -> (r: DestOption)
        ensures
            !r.use_dest,
            r.dest_out is None,
            r.output_stream@ == Seq::<char>::empty(),
    {
        DestOption { use_dest: false, dest_out: None, output_stream: String::new() }
    }

    /// File routing to `dest`, empty buffer.
    pub fn new_with_dest(dest: &str) -> (r: DestOption)
        ensures
            r.use_dest,
            r.dest_out is Some,
            r.dest_out->0@ == dest@,
            r.output_stream@ == Seq::<char>::empty(),
    {
        DestOption { use_dest: true, dest_out: Some(dest.to_owned()), output_stream: String::new() }
    }

    /// Whether output is routed to the destination file.
    pub fn is_use_dest(&self) -> (r: bool)
        ensures
            r == self.use_dest,
    {
        self.use_dest
    }

    /// Switches between the file route and the console route.
    pub fn set_use_dest(&mut self, is_open: bool)
        ensures
            final(self).use_dest == is_open,
            final(self).dest_out == old(self).dest_out,
            final(self).output_stream == old(self).output_stream,
    {
        if self.use_dest != is_open {
            self.use_dest = is_open;
        }
    }

    /// Appends a rendered chunk to the pending buffer; no output is
    /// performed yet.
    pub fn push_output(&mut self, stream: &str)
        ensures
            final(self).output_stream@ == old(self).output_stream@ + stream@,
            final(self).use_dest == old(self).use_dest,
            final(self).dest_out == old(self).dest_out,
    {
        self.output_stream.append(stream);
    }
}

} // verus!
