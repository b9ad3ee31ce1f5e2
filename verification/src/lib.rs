//! Console display power control.
//!
//! The crate models the logic of a small tool that turns physical display
//! outputs on and off.  In a graphical session the work is relayed to the
//! compositor; on a bare console a daemon process holds the display device
//! and keeps the output powered off until it is told to restore it.
//!
//! Everything that decides — command parsing, display-name resolution, the
//! daemon lifecycle state machine, the pipeline search over connector data,
//! the on-disk daemon record codec — lives here and carries contracts.  The
//! thin shell that performs process, file and device operations hands this
//! crate plain values and acts on the decisions it returns.

pub mod backend;
pub mod cli;
pub mod daemon;
pub mod display;
pub mod drm_ops;
pub mod env;
pub mod error;
pub mod output;
pub mod text;
pub mod tty;
