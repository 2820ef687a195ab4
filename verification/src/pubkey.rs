//! Account and program addresses.

use vstd::prelude::*;

verus! {

/// The address of an account or of a program: 32 bytes. Its view is those
/// bytes.
#[derive(Clone, Copy, Debug, PartialEq, Eq, Hash)]
pub struct Pubkey {
    pub bytes: [u8; 32],
}

impl View for Pubkey {
    type V = Seq<u8>;

    open spec fn view(&self) -> Seq<u8> {
        self.bytes@
    }
}

impl Pubkey {
    /// The address made of the given bytes.
    pub fn new_from_array(bytes: [u8; 32]) -> (key: Pubkey)
        ensures
            key.bytes == bytes,
    {
        Pubkey { bytes }
    }

    /// The bytes of the address.
    pub fn to_bytes(&self) -> (bytes: [u8; 32])
        ensures
            bytes == self.bytes,
    {
        self.bytes
    }
}

/// The text that `anchor_lang::prelude::Pubkey` writes for the address made
/// of `bytes` when it is formatted with `{:?}`: its base-58 form. Nothing is
/// assumed of it but that it is a function of the bytes.
pub uninterp spec fn pubkey_text(bytes: Seq<u8>) -> Seq<char>;

/// Formats the address as `anchor_lang::prelude::Pubkey` does under `{:?}`,
/// by that type's own `Debug::fmt`.
///
/// Trusted, not proved: the text returned is `pubkey_text` of the bytes, that
/// is, the call always returns and what it returns depends on the 32 bytes
/// and on nothing else.
#[verifier::external_body]
pub(crate) fn debug_text(key: &Pubkey) -> (text: String)
    ensures
        text@ == pubkey_text(key@),
{
    format!("{:?}", anchor_lang::prelude::Pubkey::new_from_array(key.bytes))
}

} // verus!
