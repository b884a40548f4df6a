//! 32-byte account addresses.

use std::str::FromStr;
use vstd::prelude::*;
use anchor_lang::solana_program::pubkey::ParsePubkeyError;

verus! {

/// A 32-byte account address.
#[derive(Debug, Clone, Copy)]
pub struct Pubkey {
    pub bytes: [u8; 32],
}

impl View for Pubkey {
    type V = Seq<u8>;

    open spec fn view(&self) -> Seq<u8> {
        self.bytes@
    }
}

impl Pubkey {
    /// The address with the given bytes.
    pub fn new_from_array(bytes: [u8; 32]) -> (r: Pubkey)
        ensures
            r@ == bytes@,
    {
        Pubkey { bytes }
    }

    /// The address's bytes.
    pub fn to_bytes(&self) -> (r: [u8; 32])
        ensures
            r@ == self@,
    {
        self.bytes
    }
}

impl PartialEq for Pubkey {
    fn eq(&self, other: &Pubkey) -> (r: bool) {
        let mut i: usize = 0;
        while i < 32
            invariant
                i <= 32,
                self@.len() == 32,
                other@.len() == 32,
                forall|j: int| 0 <= j < i ==> self@[j] == other@[j],
            decreases 32 - i,
        {
            if self.bytes[i] != other.bytes[i] {
                return false;
            }
            i = i + 1;
        }
        assert(self@ =~= other@);
        true
    }
}

impl Eq for Pubkey {
}

impl vstd::std_specs::cmp::PartialEqSpecImpl for Pubkey {
    open spec fn obeys_eq_spec() -> bool {
        true
    }

    open spec fn eq_spec(&self, other: &Pubkey) -> bool {
        self@ == other@
    }
}

/// The error of the runtime's address parser.
#[verifier::external_type_specification]
#[verifier::external_body]
pub struct ExParsePubkeyError(ParsePubkeyError);

/// The 32 bytes that the runtime's address parser decodes from a base58
/// text, or `None` where it refuses the text.
pub uninterp spec fn base58_pubkey(s: Seq<char>) -> Option<Seq<u8>>;

/// Calls `FromStr::from_str` of the runtime's `Pubkey` (solana-pubkey) and
/// converts the address to its bytes. Claimed: the result is the named
/// decoding of the text, and a text longer than 44 characters is refused
/// (the parser refuses more than 44 bytes first, and a text has at least as
/// many bytes as characters).
#[verifier::external_body]
fn pubkey_from_str(s: &str) -> (r: Result<Pubkey, ParsePubkeyError>)
    ensures
        match r {
            Ok(k) => base58_pubkey(s@) == Some(k@),
            Err(_) => base58_pubkey(s@) is None,
        },
        s@.len() > 44 ==> r is Err,
{
    match anchor_lang::solana_program::pubkey::Pubkey::from_str(s) {
        Ok(k) => Ok(Pubkey { bytes: k.to_bytes() }),
        Err(e) => Err(e),
    }
}

/// Parses a base58 address text: `None` where the runtime's parser refuses it.
pub fn parse_pubkey(s: &str) -> (r: Option<Pubkey>)
    ensures
        match r {
            Some(k) => base58_pubkey(s@) == Some(k@),
            None => base58_pubkey(s@) is None,
        },
{
    match pubkey_from_str(s) {
        Ok(k) => Some(k),
        Err(_) => None,
    }
}

/// The address of the only authority that may set up and drain the treasury.
pub const ADMIN_PUBKEY: &'static str = "Bt9AAsmv7ocm2kJsusYrk2gG1Sm6Fy6rS6dRtiC8xFGX";

/// The bytes of the treasury authority's address, as the parser decodes them.
pub open spec fn admin_key() -> Option<Seq<u8>> {
    base58_pubkey(ADMIN_PUBKEY@)
}

/// The treasury authority's address, parsed from its base58 text.
pub fn admin_pubkey() -> (r: Option<Pubkey>)
    ensures
        match r {
            Some(k) => admin_key() == Some(k@),
            None => admin_key() is None,
        },
{
    parse_pubkey(ADMIN_PUBKEY)
}

} // verus!
