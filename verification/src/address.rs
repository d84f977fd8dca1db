//! Program identifiers: 32-byte addresses and their textual form.
use vstd::prelude::*;
use anchor_lang::prelude::Pubkey;

verus! {

/// The text that the framework prints for the address made of `bytes`: its
/// base-58 rendering. The encoding is the framework's; this crate only names
/// its result, which depends on the bytes alone.
pub uninterp spec fn address_text(bytes: Seq<u8>) -> Seq<char>;

/// The address of a deployed program, held as its 32 raw bytes.
#[derive(Clone, Copy, Debug)]
pub struct ProgramId {
    bytes: [u8; 32],
}

impl View for ProgramId {
    type V = Seq<u8>;

    closed spec fn view(&self) -> Seq<u8> {
        self.bytes@
    }
}

impl ProgramId {
    /// Wraps 32 raw bytes as a program identifier.
    pub fn new_from_array(bytes: [u8; 32]) -> (id: ProgramId)
        ensures
            id@ == bytes@,
    {
        ProgramId { bytes }
    }

    /// The 32 raw bytes of the identifier.
    pub fn to_bytes(&self) -> (bytes: [u8; 32])
        ensures
            bytes@ == self@,
    {
        self.bytes
    }

    /// Whether two identifiers name the same program, byte for byte.
    pub fn same(&self, other: &ProgramId) -> (eq: bool)
        ensures
            eq <==> self@ == other@,
    {
        let mut i: usize = 0;
        while i < 32
            invariant
                i <= 32,
                forall|j: int| 0 <= j < i ==> self.bytes@[j] == other.bytes@[j],
            decreases 32 - i,
        {
            if self.bytes[i] != other.bytes[i] {
                return false;
            }
            i += 1;
        }
        assert(self@ =~= other@);
        true
    }

    /// The identifier as the framework prints it.
    pub fn to_text(&self) -> (text: String)
        ensures
            text@ == address_text(self@),
    {
        debug_text(self)
    }
}

/// Formats `anchor_lang::prelude::Pubkey::new_from_array` of the bytes of `id` with `{:?}`,
/// that is, through the `Debug` impl of the framework's address type, which
/// writes the base-58 encoding of the 32 bytes. Trusted, not proved: the
/// returned string is that rendering of exactly these bytes. Nothing is claimed
/// of its length or of its characters.
#[verifier::external_body]
pub(crate) fn debug_text(id: &ProgramId) -> (text: String)
    ensures
        text@ == address_text(id@),
{
    format!("{:?}", Pubkey::new_from_array(id.bytes))
}

} // verus!
