//! Comm-bus messaging: persistent subscriptions to named events and calls
//! that publish to them.
//!
//! A subscription owns one callback cell for as long as it is registered.
//! The host may deliver any number of events to it; each delivery borrows the
//! cell and leaves it in the registry. The cell is given up only after the
//! host has been told to stop delivering.

use crate::buffer::{payload, payload_of};
use crate::host_string::{has_nul, is_first_nul, HostString, NulError};
use crate::registry::{after_settle, cell_at, CallbackRegistry};
use crate::sys::{
    FsCommBusBroadcastFlags, FS_COMM_BUS_BROADCAST_ALL, FS_COMM_BUS_BROADCAST_ALL_WASM,
    FS_COMM_BUS_BROADCAST_DEFAULT, FS_COMM_BUS_BROADCAST_JS, FS_COMM_BUS_BROADCAST_WASM,
    FS_COMM_BUS_BROADCAST_WASM_SELF_CALL,
};
use vstd::prelude::*;
use vstd::string::StringSliceAdditionalSpecFns;

verus! {

/// The receivers of a comm-bus call, as a set of bits: the script runtime,
/// other modules, and the calling module itself.
#[derive(Debug, Clone, Copy, PartialEq, Eq, Structural)]
pub struct BroadcastFlags {
    bits: u8,
}

impl BroadcastFlags {
    /// Delivery to the script runtime.
    pub fn js() -> (flags: Self)
        ensures
            flags@ == FS_COMM_BUS_BROADCAST_JS,
    {
        BroadcastFlags { bits: FS_COMM_BUS_BROADCAST_JS }
    }

    /// Delivery to the other modules.
    pub fn wasm() -> (flags: Self)
        ensures
            flags@ == FS_COMM_BUS_BROADCAST_WASM,
    {
        BroadcastFlags { bits: FS_COMM_BUS_BROADCAST_WASM }
    }

    /// Delivery to the calling module itself.
    pub fn wasm_self() -> (flags: Self)
        ensures
            flags@ == FS_COMM_BUS_BROADCAST_WASM_SELF_CALL,
    {
        BroadcastFlags { bits: FS_COMM_BUS_BROADCAST_WASM_SELF_CALL }
    }

    /// Delivery to the script runtime and the other modules, which is what
    /// the host does when nothing else is asked for.
    pub fn default_receivers() -> (flags: Self)
        ensures
            flags@ == FS_COMM_BUS_BROADCAST_DEFAULT,
    {
        BroadcastFlags { bits: FS_COMM_BUS_BROADCAST_DEFAULT }
    }

    /// Delivery to every module, the calling one included.
    pub fn all_wasm() -> (flags: Self)
        ensures
            flags@ == FS_COMM_BUS_BROADCAST_ALL_WASM,
    {
        BroadcastFlags { bits: FS_COMM_BUS_BROADCAST_ALL_WASM }
    }

    /// The bits of the set.
    pub closed spec fn view(&self) -> u8 {
        self.bits
    }

    /// The bits of the set.
    pub fn bits(&self) -> (bits: u8)
        ensures
            bits == self@,
    {
        self.bits
    }

    /// The set with no receiver.
    pub fn empty() -> (flags: Self)
        ensures
            flags@ == 0,
    {
        BroadcastFlags { bits: 0 }
    }

    /// The set with every receiver.
    pub fn all() -> (flags: Self)
        ensures
            flags@ == FS_COMM_BUS_BROADCAST_ALL,
    {
        BroadcastFlags { bits: FS_COMM_BUS_BROADCAST_ALL }
    }

    /// The set with exactly these bits, if each of them names a receiver.
    pub fn from_bits(bits: u8) -> (flags: Option<Self>)
        ensures
            flags is Some <==> bits & !FS_COMM_BUS_BROADCAST_ALL == 0,
            flags matches Some(f) ==> f@ == bits,
    {
        if bits & !FS_COMM_BUS_BROADCAST_ALL == 0 {
            Some(BroadcastFlags { bits })
        } else {
            None
        }
    }

    /// The set with those of these bits that name a receiver.
    pub fn from_bits_truncate(bits: u8) -> (flags: Self)
        ensures
            flags@ == bits & FS_COMM_BUS_BROADCAST_ALL,
    {
        BroadcastFlags { bits: bits & FS_COMM_BUS_BROADCAST_ALL }
    }

    /// Whether the set has no receiver.
    pub fn is_empty(&self) -> (empty: bool)
        ensures
            empty == (self@ == 0),
    {
        self.bits == 0
    }

    /// Whether every receiver of `other` is in the set.
    pub fn contains(&self, other: BroadcastFlags) -> (all_in: bool)
        ensures
            all_in == (self@ & other@ == other@),
    {
        self.bits & other.bits == other.bits
    }

    /// The receivers of either set.
    pub fn union(self, other: BroadcastFlags) -> (flags: Self)
        ensures
            flags@ == self@ | other@,
    {
        BroadcastFlags { bits: self.bits | other.bits }
    }

    /// The receivers of both sets.
    pub fn intersection(self, other: BroadcastFlags) -> (flags: Self)
        ensures
            flags@ == self@ & other@,
    {
        BroadcastFlags { bits: self.bits & other.bits }
    }

    /// The set as the host takes it.
    pub fn to_ffi(self) -> (raw: FsCommBusBroadcastFlags)
        ensures
            raw == self@,
    {
        self.bits
    }
}

impl core::ops::BitOr for BroadcastFlags {
    type Output = BroadcastFlags;

    fn bitor(self, rhs: BroadcastFlags) -> (flags: BroadcastFlags) {
        BroadcastFlags { bits: self.bits | rhs.bits }
    }
}

impl vstd::std_specs::ops::BitOrSpecImpl for BroadcastFlags {
    open spec fn obeys_bitor_spec() -> bool {
        true
    }

    open spec fn bitor_req(self, rhs: BroadcastFlags) -> bool {
        true
    }

    closed spec fn bitor_spec(self, rhs: BroadcastFlags) -> BroadcastFlags {
        BroadcastFlags { bits: self.bits | rhs.bits }
    }
}

/// `a | b` holds the bits of both sets.
pub proof fn lemma_bitor_is_union(a: BroadcastFlags, b: BroadcastFlags)
    ensures
        vstd::std_specs::ops::BitOrSpec::bitor_spec(a, b)@ == a@ | b@,
{
}

/// Why a subscription could not be made.
#[derive(Debug, Clone, Copy, PartialEq, Eq, Structural)]
pub enum SubscribeError {
    /// The event name holds a zero byte and cannot be handed to the host.
    Nul(NulError),
    /// The host refused the registration.
    Rejected,
}

/// A registration that is ready to be handed to the host: the event name in
/// the host's encoding and the token that stands for the callback cell.
pub struct PendingSubscription {
    event: HostString,
    token: usize,
}

/// A subscription the host has accepted. It owns the callback cell stored
/// under its token until it is released.
pub struct Subscription {
    event: HostString,
    token: usize,
}

/// A subscription that has been withdrawn but whose cell is still stored. The
/// host has to be told to unregister before the cell may be given up, and only
/// this value can give it up.
pub struct Unregistration {
    event: HostString,
    token: usize,
}

impl PendingSubscription {
    /// The event name, without its closing zero.
    pub closed spec fn event(&self) -> Seq<u8> {
        self.event@
    }

    /// The token that stands for the callback cell.
    pub closed spec fn token(&self) -> usize {
        self.token
    }

    /// The event name to register under.
    pub fn event_name(&self) -> (name: &HostString)
        ensures
            name@ == self.event(),
    {
        &self.event
    }

    /// The token to hand to the host as its user pointer.
    pub fn user_token(&self) -> (token: usize)
        ensures
            token == self.token(),
    {
        self.token
    }

    /// Takes the host's answer to the registration. If the host accepted, the
    /// cell stays where it is and the subscription is returned. If it refused,
    /// the cell is given up at once, since no delivery will ever come for it.
    pub fn complete<C>(self, registry: &mut CallbackRegistry<C>, accepted: bool) -> (outcome: Result<
        Subscription,
        SubscribeError,
    >)
        ensures
            final(registry)@ == after_settle(old(registry)@, self.token(), accepted),
            match outcome {
                Ok(sub) => accepted && sub.event() == self.event() && sub.token() == self.token(),
                Err(e) => !accepted && e == SubscribeError::Rejected,
            },
    {
        if accepted {
            Ok(Subscription { event: self.event, token: self.token })
        } else {
            let _ = registry.reclaim(self.token);
            Err(SubscribeError::Rejected)
        }
    }
}

impl Subscription {
    /// The event name, without its closing zero.
    pub closed spec fn event(&self) -> Seq<u8> {
        self.event@
    }

    /// The token that stands for the callback cell.
    pub closed spec fn token(&self) -> usize {
        self.token
    }

    /// Prepares a subscription to `event`. An event name with a zero byte in
    /// it is refused before anything is stored. Otherwise `cb` is stored in a
    /// fresh cell, and the result names the event and the cell for the host.
    pub fn subscribe<C>(registry: &mut CallbackRegistry<C>, event: &str, cb: C) -> (prepared: Result<
        PendingSubscription,
        SubscribeError,
    >)
        ensures
            match prepared {
                Ok(pending) => {
                    &&& !has_nul(event.spec_bytes())
                    &&& pending.event() == event.spec_bytes()
                    &&& pending.token() != 0
                    &&& !old(registry)@.contains_key(pending.token())
                    &&& final(registry)@ == old(registry)@.insert(pending.token(), cb)
                },
                Err(e) => {
                    &&& e matches SubscribeError::Nul(nul)
                    &&& is_first_nul(event.spec_bytes(), nul.position())
                    &&& final(registry)@ == old(registry)@
                },
            },
    {
        match HostString::new(event) {
            Err(nul) => Err(SubscribeError::Nul(nul)),
            Ok(name) => {
                let token = registry.register(cb);
                Ok(PendingSubscription { event: name, token })
            },
        }
    }

    /// The event name the subscription is registered under.
    pub fn event_name(&self) -> (name: &HostString)
        ensures
            name@ == self.event(),
    {
        &self.event
    }

    /// The token the host holds for this subscription.
    pub fn user_token(&self) -> (token: usize)
        ensures
            token == self.token(),
    {
        self.token
    }

    /// Withdraws the subscription. Nothing is given up yet: the result names
    /// what the host has to unregister first.
    pub fn unsubscribe(self) -> (withdrawn: Unregistration)
        ensures
            withdrawn.event() == self.event(),
            withdrawn.token() == self.token(),
    {
        Unregistration { event: self.event, token: self.token }
    }
}

impl Unregistration {
    /// The event name, without its closing zero.
    pub closed spec fn event(&self) -> Seq<u8> {
        self.event@
    }

    /// The token that stands for the callback cell.
    pub closed spec fn token(&self) -> usize {
        self.token
    }

    /// The event name to unregister.
    pub fn event_name(&self) -> (name: &HostString)
        ensures
            name@ == self.event(),
    {
        &self.event
    }

    /// The token the host holds for the subscription.
    pub fn user_token(&self) -> (token: usize)
        ensures
            token == self.token(),
    {
        self.token
    }

    /// Gives up the cell, once the host has unregistered the subscription and
    /// can deliver to it no more.
    pub fn release<C>(self, registry: &mut CallbackRegistry<C>) -> (cell: Option<C>)
        ensures
            cell == cell_at(old(registry)@, self.token()),
            final(registry)@ == old(registry)@.remove(self.token()),
    {
        registry.reclaim(self.token)
    }
}

/// Entry point for an event the host delivers to the cell behind `ctx`.
///
/// The payload is the buffer cut down to what may be read, which is nothing
/// for a null address or a size of zero. The cell is lent out, not given up:
/// it stays in the registry under the same token, holding whatever the
/// callback leaves in it. A null or dead `ctx` gets no cell.
pub fn commbus_trampoline<'a, 'b, C>(
    registry: &'a mut CallbackRegistry<C>,
    buf_addr: usize,
    buf_size: u32,
    ctx: usize,
    mem: &'b [u8],
) -> (delivery: (Option<&'a mut C>, &'b [u8]))
    ensures
        delivery.1@ == payload_of(buf_addr, buf_size as int, mem@),
        match delivery.0 {
            Some(cell) => cell_at(old(registry)@, ctx) == Some(*cell) && final(registry)@ == old(
                registry,
            )@.insert(ctx, *final(cell)),
            None => cell_at(old(registry)@, ctx) is None && final(registry)@ == old(registry)@,
        },
{
    let bytes = payload(buf_addr, buf_size as i64, mem);
    let cell = registry.borrow_mut(ctx);
    (cell, bytes)
}

/// A call the host is asked to publish: the event name in the host's
/// encoding, the payload size as the host counts it, and the receivers.
pub struct BusCall {
    event: HostString,
    size: u32,
    flags: FsCommBusBroadcastFlags,
}

impl BusCall {
    /// The event name, without its closing zero.
    pub closed spec fn event(&self) -> Seq<u8> {
        self.event@
    }

    /// The payload size handed to the host.
    pub closed spec fn size(&self) -> u32 {
        self.size
    }

    /// The receivers handed to the host.
    pub closed spec fn flags(&self) -> FsCommBusBroadcastFlags {
        self.flags
    }

    /// The event name to publish to.
    pub fn event_name(&self) -> (name: &HostString)
        ensures
            name@ == self.event(),
    {
        &self.event
    }

    /// The payload size to hand to the host.
    pub fn payload_size(&self) -> (size: u32)
        ensures
            size == self.size(),
    {
        self.size
    }

    /// The receivers to hand to the host.
    pub fn broadcast_flags(&self) -> (flags: FsCommBusBroadcastFlags)
        ensures
            flags == self.flags(),
    {
        self.flags
    }
}

/// Prepares a call that publishes `payload` to `event`. An event name with a
/// zero byte in it is refused. The host counts the payload in 32 bits, so a
/// longer payload is announced with its length modulo 2^32.
pub fn call(event: &str, payload: &[u8], broadcast: BroadcastFlags) -> (prepared: Result<
    BusCall,
    NulError,
>)
    ensures
        match prepared {
            Ok(c) => {
                &&& !has_nul(event.spec_bytes())
                &&& c.event() == event.spec_bytes()
                &&& c.size() == payload@.len() % 0x1_0000_0000
                &&& c.flags() == broadcast@
            },
            Err(nul) => is_first_nul(event.spec_bytes(), nul.position()),
        },
{
    match HostString::new(event) {
        Err(nul) => Err(nul),
        Ok(name) => {
            let size = (payload.len() as u64 % 0x1_0000_0000u64) as u32;
            Ok(BusCall { event: name, size, flags: broadcast.to_ffi() })
        },
    }
}

} // verus!
