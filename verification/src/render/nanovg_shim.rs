//! The drawing back end for native builds: one shim context per gauge
//! instance, kept under the instance's execution context.
//!
//! The shim itself is outside this library. What is decided here is when a
//! shim has to be created, which shim a call goes to, and when one has to be
//! deleted.

use crate::sys::FsContext;
use std::collections::HashMap;
use vstd::prelude::*;

verus! {

/// The shim contexts by gauge instance, each by its address.
pub struct ShimTable {
    map: HashMap<FsContext, usize>,
}

/// The shim for `ctx`, if one is kept.
pub open spec fn shim_of(shims: Map<FsContext, usize>, ctx: FsContext) -> Option<usize> {
    if shims.contains_key(ctx) {
        Some(shims[ctx])
    } else {
        None
    }
}

impl ShimTable {
    /// The addresses of the shims kept, by gauge instance.
    pub closed spec fn view(&self) -> Map<FsContext, usize> {
        self.map@
    }

    /// No shims.
    pub fn new() -> (table: Self)
        ensures
            table@ == Map::<FsContext, usize>::empty(),
    {
        ShimTable { map: HashMap::new() }
    }

    /// Takes the address of the shim that was created for `ctx`. A null
    /// address means that none could be created: nothing is kept and the
    /// result is `false`.
    pub fn created(&mut self, ctx: FsContext, shim: usize) -> (kept: bool)
        ensures
            kept == (shim != 0),
            final(self)@ == (if shim != 0 {
                old(self)@.insert(ctx, shim)
            } else {
                old(self)@
            }),
    {
        if shim == 0 {
            return false;
        }
        self.map.insert(ctx, shim);
        true
    }
}

/// Decides whether a shim has to be created for `ctx`: not if one is kept
/// already. Returns the flags to create one with, or `None` where the
/// instance is ready as it is.
pub fn init(table: &ShimTable, ctx: FsContext, flags: i32) -> (create: Option<i32>)
    ensures
        create == (if table@.contains_key(ctx) {
            None
        } else {
            Some(flags)
        }),
{
    if table.map.contains_key(&ctx) {
        None
    } else {
        Some(flags)
    }
}

/// The shim to ask for the drawing context of `ctx`, if one is kept.
pub fn nvg(table: &ShimTable, ctx: FsContext) -> (shim: Option<usize>)
    ensures
        shim == shim_of(table@, ctx),
{
    match table.map.get(&ctx) {
        Some(s) => Some(*s),
        None => None,
    }
}

/// The drawing context at `addr`, unless the address is null.
pub fn nvg_context(addr: usize) -> (context: Option<usize>)
    ensures
        context == (if addr == 0 {
            None
        } else {
            Some(addr)
        }),
{
    if addr == 0 {
        None
    } else {
        Some(addr)
    }
}

/// The shim to point at a framebuffer for `ctx`, if one is kept.
pub fn set_framebuffer_rgba8888(table: &ShimTable, ctx: FsContext) -> (shim: Option<usize>)
    ensures
        shim == shim_of(table@, ctx),
{
    nvg(table, ctx)
}

/// Forgets the shim of `ctx` and returns it for deletion, if one is kept.
pub fn kill(table: &mut ShimTable, ctx: FsContext) -> (shim: Option<usize>)
    ensures
        shim == shim_of(old(table)@, ctx),
        final(table)@ == old(table)@.remove(ctx),
{
    table.map.remove(&ctx)
}

} // verus!
