//! A local bridge between an external caller and a singleton desktop
//! application that shares one lazily loaded inference resource.
//!
//! The crate covers the length-prefixed message framing spoken over a byte
//! stream, the search for the companion executable, the translation of a
//! bridge request into a launch plan, the parsing of a dispatched argument
//! vector, and the lifecycle of the shared resource handle.

use vstd::prelude::*;

pub mod framing;
pub mod text;
pub mod dispatch;
pub mod lifecycle;
pub mod config;
pub mod model_manager;
pub mod jsontext;
pub mod bridge;
pub mod locator;
pub mod tags;
pub mod registry;

verus! {

/// Identifies which executable-name and search-path conventions apply.
#[derive(Clone, Copy, PartialEq, Eq, Structural, Debug)]
pub enum Platform {
    Windows,
    Unix,
}

} // verus!
