//! Strings in the host's convention: a run of bytes closed by a zero byte, so
//! that no zero byte may occur inside.

use vstd::prelude::*;
use vstd::slice::slice_subrange;
use crate::text::{digits, push_number};
use vstd::string::{StringExecFns, StringSliceAdditionalSpecFns};

verus! {

/// Whether a zero byte occurs in `bytes`.
pub open spec fn has_nul(bytes: Seq<u8>) -> bool {
    exists|i: int| 0 <= i < bytes.len() && bytes[i] == 0
}

/// Whether `position` is the index of the first zero byte of `bytes`.
pub open spec fn is_first_nul(bytes: Seq<u8>, position: int) -> bool {
    &&& 0 <= position < bytes.len()
    &&& bytes[position] == 0
    &&& forall|j: int| 0 <= j < position ==> bytes[j] != 0
}

/// A string that cannot be encoded for the host because a zero byte occurs
/// inside it.
#[derive(Debug, Clone, Copy, PartialEq, Eq, Structural)]
pub struct NulError {
    position: usize,
}

impl NulError {
    /// Index of the first zero byte.
    pub closed spec fn position(&self) -> int {
        self.position as int
    }

    /// Index of the first zero byte of the rejected string.
    pub fn nul_position(&self) -> (position: usize)
        ensures
            position == self.position(),
    {
        self.position
    }

    /// The error in words.
    pub open spec fn text(&self) -> Seq<char> {
        "nul byte found in provided data at position: "@ + digits(self.position() as nat, 10)
    }

    /// The error in words.
    pub fn message(&self) -> (message: String)
        ensures
            message@ == self.text(),
    {
        let mut message = String::from_str("nul byte found in provided data at position: ");
        push_number(&mut message, self.position as u64, 10);
        message
    }
}

/// A string encoded for the host: its bytes followed by the closing zero,
/// in one buffer that stays where it is for as long as the value lives.
pub struct HostString {
    bytes: Vec<u8>,
}

impl HostString {
    #[verifier::type_invariant]
    spec fn well_formed(&self) -> bool {
        &&& self.bytes@.len() >= 1
        &&& self.bytes@.last() == 0
        &&& !has_nul(self.bytes@.drop_last())
    }

    /// The bytes of the string, without the closing zero.
    pub closed spec fn view(&self) -> Seq<u8> {
        self.bytes@.drop_last()
    }

    /// Encodes `bytes`. Fails exactly when a zero byte occurs in them, and
    /// then reports where the first one stands.
    pub fn from_bytes(bytes: &[u8]) -> (encoded: Result<HostString, NulError>)
        ensures
            match encoded {
                Ok(s) => !has_nul(bytes@) && s@ == bytes@,
                Err(e) => is_first_nul(bytes@, e.position()),
            },
    {
        let mut copy: Vec<u8> = Vec::new();
        let mut i: usize = 0;
        while i < bytes.len()
            invariant
                i <= bytes.len(),
                copy@ == bytes@.subrange(0, i as int),
                forall|j: int| 0 <= j < i ==> bytes@[j] != 0,
            decreases bytes.len() - i,
        {
            if bytes[i] == 0 {
                return Err(NulError { position: i });
            }
            copy.push(bytes[i]);
            i += 1;
        }
        assert(bytes@.subrange(0, bytes@.len() as int) == bytes@);
        copy.push(0u8);
        assert(copy@.drop_last() =~= bytes@);
        Ok(HostString { bytes: copy })
    }

    /// Encodes the UTF-8 bytes of `s`. Fails exactly when a zero byte occurs
    /// in them.
    pub fn new(s: &str) -> (encoded: Result<HostString, NulError>)
        ensures
            match encoded {
                Ok(h) => !has_nul(s.spec_bytes()) && h@ == s.spec_bytes(),
                Err(e) => is_first_nul(s.spec_bytes(), e.position()),
            },
    {
        HostString::from_bytes(s.as_bytes())
    }

    /// The bytes of the string, without the closing zero. None of them is
    /// zero.
    pub fn as_bytes(&self) -> (bytes: &[u8])
        ensures
            bytes@ == self@,
            !has_nul(self@),
    {
        proof {
            use_type_invariant(self);
        }
        let all = self.bytes.as_slice();
        let bytes = slice_subrange(all, 0, all.len() - 1);
        assert(bytes@ =~= self@);
        bytes
    }

    /// Number of bytes before the closing zero.
    pub fn len(&self) -> (n: usize)
        ensures
            n == self@.len(),
    {
        proof {
            use_type_invariant(self);
        }
        self.bytes.len() - 1
    }

    /// The bytes the host reads: the string followed by one zero byte, which
    /// is the only zero among them.
    pub fn as_bytes_with_nul(&self) -> (bytes: &[u8])
        ensures
            bytes@ == self@.push(0u8),
            is_first_nul(bytes@, self@.len() as int),
    {
        proof {
            use_type_invariant(self);
            assert(self.bytes@ =~= self@.push(0u8));
            assert forall|j: int| 0 <= j < self@.len() implies self.bytes@[j] != 0 by {
                assert(self@[j] == self.bytes@[j]);
            }
        }
        self.bytes.as_slice()
    }
}

} // verus!
