//! Session environment detection.
//!
//! The probes themselves (environment variables, terminal test) are outside
//! work; the precedence among them is decided here.

use vstd::prelude::*;
use crate::error::Error;

verus! {

/// The runtime environment a backend is picked for.
#[derive(Debug, Clone, Copy, PartialEq, Eq, Structural)]
pub enum Backend {
    Wayland,
    X11,
    Tty,
}

/// Pick the backend from the observed session probes.
///
/// A Wayland display wins over everything; an X11 display comes next;
/// a terminal on standard input or a console session type means the
/// console backend; otherwise no supported environment is present.
pub fn detect_backend(
    wayland_display: bool,
    x11_display: bool,
    stdin_is_terminal: bool,
    session_type_tty: bool,
) -> (r: Result<Backend, Error>)
    ensures
        wayland_display ==> r == Ok::<Backend, Error>(Backend::Wayland),
        !wayland_display && x11_display ==> r == Ok::<Backend, Error>(Backend::X11),
        !wayland_display && !x11_display && (stdin_is_terminal || session_type_tty)
            ==> r == Ok::<Backend, Error>(Backend::Tty),
        !wayland_display && !x11_display && !stdin_is_terminal && !session_type_tty
            ==> r == Err::<Backend, Error>(Error::UnsupportedEnvironment),
{
    if wayland_display {
        Ok(Backend::Wayland)
    } else if x11_display {
        Ok(Backend::X11)
    } else if stdin_is_terminal {
        Ok(Backend::Tty)
    } else if session_type_tty {
        Ok(Backend::Tty)
    } else {
        Err(Error::UnsupportedEnvironment)
    }
}

} // verus!
