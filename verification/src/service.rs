//! The service adapter: one operation that issues an identifier and presents
//! it as a fixed-width decimal string.
//!
//! The adapter is stateless beyond a shared reference to one identifier
//! source; it performs no retries, since an immediate retry would observe the
//! same regressed clock. Transport-level wrapping of the result (and of the
//! fault message) is the caller's concern.

use vstd::prelude::*;
use std::sync::Arc;

use crate::decimal::{format_padded_decimal, spec_padded_decimal};
use crate::generator::{IdErr, IdGenerator};

verus! {

/// The width identifiers are zero-padded to.
pub const ID_WIDTH: usize = 18;

/// The transport-level message for the clock-regression fault.
pub fn fault_message(e: &IdErr) -> (r: String)
    ensures
        r@ == "Clock source not monotonic."@,
{
    match e {
        IdErr::NonMonotonic => "Clock source not monotonic.".to_owned(),
    }
}

/// The service exposing one operation over a shared identifier source.
pub struct IdGenService<I: IdGenerator> {
    generator: Arc<I>,
}

impl<I: IdGenerator> IdGenService<I> {
    /// The identifier source this service draws from.
    pub closed spec fn spec_generator(self) -> I {
        *self.generator
    }

    /// The service's validity: its source is valid.
    pub open spec fn wf(self) -> bool {
        self.spec_generator().inv()
    }

    pub fn new(generator: Arc<I>) -> (r: Self)
        requires
            (*generator).inv(),
        ensures
            r.wf(),
            r.spec_generator() == *generator,
    {
        IdGenService { generator }
    }

    /// Issues one identifier and returns its decimal representation,
    /// left-zero-padded to [`ID_WIDTH`] characters; a clock-regression fault
    /// passes through for the transport to map.
    pub fn get_next_id(&self) -> (r: Result<String, IdErr>)
        requires
            self.wf(),
        ensures
            r matches Ok(s) ==> exists|id: u64| s@ == spec_padded_decimal(id as nat, 18),
            r matches Err(e) ==> e == IdErr::NonMonotonic,
    {
        match self.generator.get_id() {
            Ok(id) => {
                let s = format_padded_decimal(id, ID_WIDTH);
                proof {
                    assert(s@ == spec_padded_decimal(id as nat, 18));
                }
                Ok(s)
            },
            Err(e) => Err(e),
        }
    }
}

} // verus!
