//! The state behind the entry points the host calls: made when the module is
//! initialised, lent to every later call, and dropped when it is killed.

use vstd::prelude::*;

verus! {

/// The place where an exported module keeps its state between host calls.
pub struct ModuleSlot<S> {
    state: Option<S>,
}

impl<S> ModuleSlot<S> {
    /// The state, if the module has been initialised and not killed since.
    pub closed spec fn view(&self) -> Option<S> {
        self.state
    }

    /// A slot without state.
    pub fn new() -> (slot: Self)
        ensures
            slot@ is None,
    {
        ModuleSlot { state: None }
    }

    /// Puts a fresh state in place, as initialisation does, and lends it
    /// out. Whatever state was there before is dropped.
    pub fn install(&mut self, state: S) -> (lent: &mut S)
        ensures
            *lent == state,
            final(self)@ == Some(*final(lent)),
    {
        self.state.insert(state)
    }

    /// Lends the state to a call of the host. There is none before
    /// initialisation and after the module has been killed.
    pub fn with(&mut self) -> (lent: Option<&mut S>)
        ensures
            match lent {
                Some(state) => old(self)@ == Some(*state) && final(self)@ == Some(*final(state)),
                None => old(self)@ is None && final(self)@ is None,
            },
    {
        self.state.as_mut()
    }

    /// Takes the state out, as killing the module does once its state has
    /// been told.
    pub fn clear(&mut self) -> (state: Option<S>)
        ensures
            state == old(self)@,
            final(self)@ is None,
    {
        self.state.take()
    }
}

/// What an entry point answers the host: the answer of the module, and
/// `false` where there was no state to ask.
pub fn answer(result: Option<bool>) -> (ok: bool)
    ensures
        ok == (result == Some(true)),
{
    match result {
        Some(ok) => ok,
        None => false,
    }
}

} // verus!
