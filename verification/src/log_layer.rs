//! The interceptor chain: generic, composable request-processing wrappers.
//!
//! A [`LogLayer`] wraps any inner request-processor in a [`LogService`],
//! which carries a label identifying the wrapped service and delegates to
//! the inner processor. Stages compose in a fixed order around the service
//! adapter without modifying it. The recording call itself, and the
//! readiness signalling that passes through unmodified, are transport-side
//! work and live outside the library.

use vstd::prelude::*;

verus! {

/// Factory for one interceptor stage, fixed to a label.
#[derive(Clone)]
pub struct LogLayer {
    target: &'static str,
}

impl LogLayer {
    /// The label stamped on every stage this layer makes.
    pub closed spec fn spec_target(self) -> &'static str {
        self.target
    }

    pub fn new(target: &'static str) -> (r: Self)
        ensures
            r.spec_target() == target,
    {
        LogLayer { target }
    }

    /// The label this layer stamps on its stages.
    pub fn target(&self) -> (r: &'static str)
        ensures
            r == self.spec_target(),
    {
        self.target
    }

    /// Wraps `service` in a stage carrying this layer's label. The inner
    /// processor is kept whole: delegation passes requests through it
    /// unchanged.
    pub fn layer<S>(&self, service: S) -> (r: LogService<S>)
        ensures
            r.spec_target() == self.spec_target(),
            r.spec_service() == service,
    {
        LogService { target: self.target, service }
    }
}

/// One interceptor stage: a label beside the inner processor it delegates
/// to.
#[derive(Clone)]
pub struct LogService<S> {
    target: &'static str,
    service: S,
}

impl<S> LogService<S> {
    pub closed spec fn spec_target(self) -> &'static str {
        self.target
    }

    pub closed spec fn spec_service(self) -> S {
        self.service
    }

    /// The stage's label, for the record written before delegation.
    pub fn target(&self) -> (r: &'static str)
        ensures
            r == self.spec_target(),
    {
        self.target
    }

    /// Borrows the inner processor, for readiness checks that pass through
    /// unmodified.
    pub fn inner(&self) -> (r: &S)
        ensures
            r == self.spec_service(),
    {
        &self.service
    }

    /// Takes the stage apart: its label and the inner processor.
    pub fn into_parts(self) -> (r: (&'static str, S))
        ensures
            r.0 == self.spec_target(),
            r.1 == self.spec_service(),
    {
        (self.target, self.service)
    }
}

} // verus!
