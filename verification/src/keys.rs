use vstd::prelude::*;

verus! {

/// The 32-byte account key of the ledger. The library never looks inside a
/// key: it stores keys, hands them back and compares them.
#[verifier::external_type_specification]
#[verifier::external_body]
pub struct ExPubkey(anchor_lang::solana_program::pubkey::Pubkey);

/// Compares two keys with the `==` of `Pubkey`, which its crate derives
/// over the 32 bytes of the key. Trusted: the result is true exactly when
/// the two keys are the same value.
#[verifier::external_body]
pub(crate) fn same_key(
    a: &anchor_lang::solana_program::pubkey::Pubkey,
    b: &anchor_lang::solana_program::pubkey::Pubkey,
) -> (same: bool)
    ensures
        same == (*a == *b),
{
    a == b
}

/// The key that `Pubkey::default()` gives, a placeholder for records that
/// name nobody yet. Trusted to return; nothing is claimed of the key.
#[verifier::external_body]
pub(crate) fn blank_key() -> (key: anchor_lang::solana_program::pubkey::Pubkey) {
    anchor_lang::solana_program::pubkey::Pubkey::default()
}

} // verus!
