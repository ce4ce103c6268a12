//! The life cycle that every engine service shares.

use vstd::prelude::*;

verus! {

/// A part of the engine that is started once and stopped once. A service
/// that needs neither leaves the methods as they are.
pub trait Service {
    /// What the service is configured with.
    type Configuration;

    fn init(&mut self, configuration: Option<&mut Self::Configuration>) {
    }

    fn shutdown(&mut self) {
    }
}

} // verus!
