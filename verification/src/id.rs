//! Program addresses: 32 raw bytes, shown to users as base-58 text.

use vstd::prelude::*;

verus! {

/// A program's on-chain address.
///
/// The canonical form is the 32 raw bytes; the runtime and every tool show an
/// address as base-58 text. This crate reasons about the bytes and treats the
/// base-58 rendering as an opaque function of them (`base58_of`).
#[derive(Clone, Copy, PartialEq, Eq, Debug)]
pub struct ProgramId {
    pub bytes: [u8; 32],
}

impl View for ProgramId {
    type V = Seq<u8>;

    open spec fn view(&self) -> Seq<u8> {
        self.bytes@
    }
}

impl ProgramId {
    /// Wrap 32 raw bytes as an address.
    pub fn new(bytes: [u8; 32]) -> (r: ProgramId)
        ensures
            r@ == bytes@,
    {
        ProgramId { bytes }
    }
}

/// The bytes of the address this program is declared under: the base-58 text
/// `GRAhvAGfjdQK6nMEYbpziQhpmFJhdxtJZWbgN2rC6mpC` decodes to exactly these.
pub open spec fn declared_id_bytes() -> Seq<u8> {
    seq![
        229u8, 16u8, 55u8, 161u8, 146u8, 82u8, 1u8, 153u8,
        94u8, 103u8, 236u8, 129u8, 69u8, 157u8, 15u8, 74u8,
        20u8, 228u8, 60u8, 39u8, 252u8, 98u8, 91u8, 213u8,
        148u8, 234u8, 97u8, 229u8, 97u8, 58u8, 4u8, 185u8,
    ]
}

/// The address this program is declared under.
pub fn declared_id() -> (r: ProgramId)
    ensures
        r@ == declared_id_bytes(),
{
    let bytes: [u8; 32] = [
        229u8, 16u8, 55u8, 161u8, 146u8, 82u8, 1u8, 153u8,
        94u8, 103u8, 236u8, 129u8, 69u8, 157u8, 15u8, 74u8,
        20u8, 228u8, 60u8, 39u8, 252u8, 98u8, 91u8, 213u8,
        148u8, 234u8, 97u8, 229u8, 97u8, 58u8, 4u8, 185u8,
    ];
    proof {
        assert(bytes@ =~= declared_id_bytes());
    }
    ProgramId { bytes }
}

/// The base-58 text of 32 address bytes, as the runtime renders it.
pub uninterp spec fn base58_of(bytes: Seq<u8>) -> Seq<char>;

/// Relies on the `Debug` impl of `anchor_lang::prelude::Pubkey`: it writes
/// the base-58 encoding of the 32 bytes, a function of the bytes alone.
#[verifier::external_body]
pub(crate) fn base58_text(id: &ProgramId) -> (r: String)
    ensures
        r@ == base58_of(id@),
{
    format!("{:?}", anchor_lang::prelude::Pubkey::new_from_array(id.bytes))
}

} // verus!
