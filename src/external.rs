//! Types of the host runtime that the registry carries without looking inside.
use vstd::prelude::*;

verus! {

/// Relies on solana_program's `Pubkey` (re-exported by anchor_lang): the
/// runtime's account address. The registry only copies it into an entry, so
/// it stays opaque.
#[verifier::external_type_specification]
#[verifier::external_body]
pub struct ExPubkey(anchor_lang::solana_program::pubkey::Pubkey);

} // verus!
