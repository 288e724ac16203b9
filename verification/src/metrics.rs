//! Request metrics.
//!
//! The counter registry and the middleware that feeds it live in the
//! surrounding application; this marker configures that middleware.

use vstd::prelude::*;

verus! {

/// pushes basic metrics to the global metrics registry
#[derive(Debug, Clone, Copy, Default)]
pub struct Prometheus;

impl Prometheus {
    pub fn new() -> (p: Prometheus) {
        Prometheus
    }
}

} // verus!
