//! The execution context the host supplies with every call.

use crate::sys::FsContext;
use vstd::prelude::*;

verus! {

/// A context handle of the host that is known not to be null. It does not own
/// what it refers to and is good for the host call it came with.
#[derive(Clone, Copy)]
pub struct Context {
    raw: FsContext,
}

impl Context {
    #[verifier::type_invariant]
    spec fn non_null(&self) -> bool {
        self.raw != 0
    }

    /// The handle as the host gave it.
    pub closed spec fn view(&self) -> FsContext {
        self.raw
    }

    /// Wraps a handle the host supplied, which must not be null.
    pub fn from_raw(ctx: FsContext) -> (context: Context)
        requires
            ctx != 0,
        ensures
            context@ == ctx,
    {
        Context { raw: ctx }
    }

    /// Wraps a handle if it is not null.
    pub fn try_from_raw(ctx: FsContext) -> (context: Option<Context>)
        ensures
            match context {
                Some(c) => ctx != 0 && c@ == ctx,
                None => ctx == 0,
            },
    {
        if ctx != 0 {
            Some(Context { raw: ctx })
        } else {
            None
        }
    }

    /// The address the handle refers to, which is never null.
    pub fn as_ptr(&self) -> (addr: u64)
        ensures
            addr == self@,
            addr != 0,
    {
        proof {
            use_type_invariant(self);
        }
        self.raw
    }

    /// The handle as the host takes it.
    pub fn fs_context(&self) -> (ctx: FsContext)
        ensures
            ctx == self@,
            ctx != 0,
    {
        proof {
            use_type_invariant(self);
        }
        self.raw
    }
}

} // verus!
