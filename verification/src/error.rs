use vstd::prelude::*;

verus! {

/// Why setting up a stream failed. The errors of the media framework and of
/// I/O are kept as their messages.
#[derive(Debug)]
pub enum Error {
    /// An error reported by GLib.
    GlibError(String),
    /// An I/O error.
    IoError(String),
    /// A GLib call that reported failure.
    GlibBoolError(String),
    /// A pipeline that could not change state.
    GstStateChangeError(String),
    /// A failure that carries no information.
    Empty,
}

impl From<()> for Error {
    fn from(_none: ()) -> (r: Self) {
        Error::Empty
    }
}

impl vstd::std_specs::convert::FromSpecImpl<()> for Error {
    open spec fn obeys_from_spec() -> bool {
        true
    }

    open spec fn from_spec(v: ()) -> Self {
        Error::Empty
    }
}

} // verus!
