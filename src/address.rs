//! Account addresses as 32 plain bytes.

use vstd::prelude::*;
use std::str::FromStr;

verus! {

/// A 32-byte account address.
#[derive(Clone, Copy, Debug, PartialEq, Eq)]
pub struct Address {
    pub bytes: [u8; 32],
}

/// The address bytes that base58 text decodes to, if it is a valid address.
pub uninterp spec fn decoded_address(s: Seq<char>) -> Option<Seq<u8>>;

/// Relies on solana_sdk's `Pubkey::from_str`: base58 text to 32 address bytes,
/// or an error where the text is not a valid address.
#[verifier::external_body]
pub(crate) fn parse_address(s: &str) -> (r: Option<Address>)
    ensures
        r.is_some() <==> decoded_address(s@).is_some(),
        r matches Some(a) ==> decoded_address(s@) == Some(a.bytes@),
{
    match solana_sdk::pubkey::Pubkey::from_str(s) {
        Ok(p) => Some(Address { bytes: p.to_bytes() }),
        Err(_) => None,
    }
}

impl View for Address {
    type V = Seq<u8>;

    open spec fn view(&self) -> Seq<u8> {
        self.bytes@
    }
}

impl Address {
    /// Builds an address from its bytes.
    pub fn new(bytes: [u8; 32]) -> (r: Address)
        ensures
            r.bytes == bytes,
    {
        Address { bytes }
    }

    /// Whether two addresses hold the same bytes.
    pub fn same_as(&self, other: &Address) -> (r: bool)
        ensures
            r <==> self.bytes@ == other.bytes@,
    {
        let mut i: usize = 0;
        while i < 32
            invariant
                i <= 32,
                self.bytes@.len() == 32,
                other.bytes@.len() == 32,
                self.bytes@.subrange(0, i as int) == other.bytes@.subrange(0, i as int),
            decreases 32 - i,
        {
            if self.bytes[i] != other.bytes[i] {
                assert(self.bytes@[i as int] != other.bytes@[i as int]);
                return false;
            }
            assert(self.bytes@.subrange(0, i + 1) == self.bytes@.subrange(0, i as int).push(self.bytes@[i as int]));
            assert(other.bytes@.subrange(0, i + 1) == other.bytes@.subrange(0, i as int).push(other.bytes@[i as int]));
            i = i + 1;
        }
        assert(self.bytes@ == self.bytes@.subrange(0, 32));
        assert(other.bytes@ == other.bytes@.subrange(0, 32));
        true
    }
}

} // verus!
