//! Ownership model for opaque native resources.
//!
//! Every native open or alloc call yields a raw address.  A non-null
//! address is captured into a [`NativeHandle`]; a null one means the
//! native allocation failed and surfaces as out-of-memory.  A handle is
//! never null while held, is never copied, and gives its address up
//! exactly once: `release` consumes the handle, so handing the same
//! resource to its native free call twice is rejected when the crate is
//! compiled.

use vstd::prelude::*;

use crate::avutil::Error;
use crate::avutil::AVERROR_ENOMEM;

verus! {

/// Exclusive ownership of one non-null native resource address.
pub struct NativeHandle {
    addr: usize,
}

impl NativeHandle {
    pub closed spec fn spec_addr(&self) -> usize {
        self.addr
    }

    /// A held handle is never null.
    #[verifier::type_invariant]
    pub closed spec fn wf(&self) -> bool {
        self.spec_addr() != 0
    }

    /// Captures the address a native open or alloc call returned: a
    /// null address fails as out-of-memory, anything else is owned from
    /// here on.
    pub fn capture(raw: usize) -> (r: Result<NativeHandle, Error>)
        ensures
            raw == 0 ==> (r matches Err(e) && e.spec_code() == AVERROR_ENOMEM),
            raw != 0 ==> (r matches Ok(h) && h.spec_addr() == raw),
    {
        if raw == 0 {
            Err(Error::enomem())
        } else {
            Ok(NativeHandle { addr: raw })
        }
    }

    /// The owned address, for native calls that borrow the resource.
    pub fn addr(&self) -> (r: usize)
        ensures
            r == self.spec_addr(),
            r != 0,
    {
        proof {
            use_type_invariant(&*self);
        }
        self.addr
    }

    /// Gives the address up for the resource's matching native free
    /// call.  The handle is consumed: each resource can be released
    /// this way only once.
    pub fn release(self) -> (r: usize)
        ensures
            r == self.spec_addr(),
            r != 0,
    {
        proof {
            use_type_invariant(&self);
        }
        self.addr
    }
}

} // verus!
