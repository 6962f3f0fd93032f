//! The derivation engine for vault authorities.
//!
//! Each vault is controlled by a key-less authority derived deterministically
//! from a role tag (`"vault_a"` or `"vault_b"`), the booth's key, the asset's
//! key and the admin's key, under the booth program's own key.  The chosen
//! bump (nonce) is persisted in the booth record and presented, together with
//! the same seed tuple, for every later transfer out of the vault.

use crate::account::ExchangeBooth;
use vstd::prelude::*;

verus! {

/// The derived authority (32-byte key and bump) that the asset ledger's
/// address derivation yields for the seed tuple
/// `(tag, booth, token, admin)` under `program`, or `None` in the
/// statistically improbable event that no bump yields a valid authority.
/// Identical inputs always yield the identical result.
pub uninterp spec fn pda_of(
    tag: Seq<u8>,
    booth: Seq<u8>,
    token: Seq<u8>,
    admin: Seq<u8>,
    program: Seq<u8>,
) -> Option<(Seq<u8>, u8)>;

/// The role tag of the vault that custodies the booth's first asset:
/// the bytes of `"vault_a"`.
pub open spec fn vault_a_tag() -> Seq<u8> {
    seq![118u8, 97u8, 117u8, 108u8, 116u8, 95u8, 97u8]
}

/// The role tag of the vault that custodies the booth's second asset:
/// the bytes of `"vault_b"`.
pub open spec fn vault_b_tag() -> Seq<u8> {
    seq![118u8, 97u8, 117u8, 108u8, 116u8, 95u8, 98u8]
}

/// Build the role tag bytes for one of the two vaults.
pub fn make_seed_tag(use_vault_a: bool) -> (tag: Vec<u8>)
    ensures
        use_vault_a ==> tag@ == vault_a_tag(),
        !use_vault_a ==> tag@ == vault_b_tag(),
{
    let mut tag: Vec<u8> = Vec::new();
    tag.push(118);  // 'v'
    tag.push(97);  // 'a'
    tag.push(117);  // 'u'
    tag.push(108);  // 'l'
    tag.push(116);  // 't'
    tag.push(95);  // '_'
    if use_vault_a {
        tag.push(97);  // 'a'
        proof {
            assert(tag@ =~= vault_a_tag());
        }
    } else {
        tag.push(98);  // 'b'
        proof {
            assert(tag@ =~= vault_b_tag());
        }
    }
    tag
}

/// Relies on `solana_pubkey::Pubkey::try_find_program_address`: for a fixed
/// seed tuple and program key the derived address and bump depend on those
/// bytes alone; a derived address is 32 bytes; `None` comes back when no
/// bump yields a valid address (or a seed exceeds the ledger's seed limits).
#[verifier::external_body]
pub(crate) fn try_find_vault_authority(
    tag: &Vec<u8>,
    booth: &Vec<u8>,
    token: &Vec<u8>,
    admin: &Vec<u8>,
    program: &Vec<u8>,
) -> (r: Option<(Vec<u8>, u8)>)
    requires
        program@.len() == 32,
    ensures
        r is Some <==> pda_of(tag@, booth@, token@, admin@, program@) is Some,
        r matches Some(p) ==> pda_of(tag@, booth@, token@, admin@, program@) == Some((p.0@, p.1)),
        r matches Some(p) ==> p.0@.len() == 32,
{
    let mut program_bytes = [0u8; 32];
    program_bytes.copy_from_slice(program.as_slice());
    let program_id = solana_pubkey::Pubkey::new_from_array(program_bytes);
    let seeds: [&[u8]; 4] = [tag.as_slice(), booth.as_slice(), token.as_slice(), admin.as_slice()];
    let found = solana_pubkey::Pubkey::try_find_program_address(&seeds, &program_id);
    found.map(|(key, bump)| (key.to_bytes().to_vec(), bump))
}

/// The seed-tuple pieces a handler presents to authorize a transfer out of
/// the vault bound to `token`: the role tag and the persisted bump.  The
/// vault for the booth's first asset is selected exactly when `token` is
/// that asset; any other token selects the second vault's tuple.
pub fn vault_signer_seeds(booth: &ExchangeBooth, token: &Vec<u8>) -> (r: (Vec<u8>, u8))
    ensures
        token@ == booth.token_a@ ==> r.0@ == vault_a_tag() && r.1 == booth.vault_a_bump,
        token@ != booth.token_a@ ==> r.0@ == vault_b_tag() && r.1 == booth.vault_b_bump,
{
    let use_vault_a = crate::account::key_eq(token, &booth.token_a);
    let tag = make_seed_tag(use_vault_a);
    let bump = if use_vault_a {
        booth.vault_a_bump
    } else {
        booth.vault_b_bump
    };
    (tag, bump)
}

} // verus!
