use exchange_booth::account::{ExchangeBooth, TokenAccount};
use exchange_booth::authority::{make_seed_tag, vault_signer_seeds};
use exchange_booth::context::{Deposit, Exchange, InitializeExchange, Withdraw};
use exchange_booth::error::ProgramErrorCode;
use exchange_booth::{deposit, initialize_exchange_booth};

fn key(tag: u8) -> Vec<u8> {
    vec![tag; 32]
}

fn init_ctx() -> InitializeExchange {
    InitializeExchange {
        exchange_booth: key(20),
        admin: key(5),
        token_a: key(1),
        token_b: key(2),
        program_id: key(30),
    }
}

#[test]
fn initialize_with_zero_rate_allocates_nothing() {
    let r = initialize_exchange_booth(&init_ctx(), 0);
    assert_eq!(r, Err(ProgramErrorCode::ZeroRateConfig));
}

#[test]
fn initialize_builds_bound_empty_vaults() {
    let state = initialize_exchange_booth(&init_ctx(), 2).unwrap();
    let booth = &state.exchange_booth;
    assert_eq!(booth.admin, key(5));
    assert_eq!(booth.token_a, key(1));
    assert_eq!(booth.token_b, key(2));
    assert_eq!(booth.rate, 2);
    assert_eq!(state.vault_a.id, booth.vault_a);
    assert_eq!(state.vault_b.id, booth.vault_b);
    assert_eq!(state.vault_a.mint, key(1));
    assert_eq!(state.vault_b.mint, key(2));
    assert_eq!(state.vault_a.owner, state.vault_a.id);
    assert_eq!(state.vault_b.owner, state.vault_b.id);
    assert_eq!(state.vault_a.amount, 0);
    assert_eq!(state.vault_b.amount, 0);
}

#[test]
fn initialize_derives_fresh_distinct_authorities() {
    let state = initialize_exchange_booth(&init_ctx(), 2).unwrap();
    let booth = &state.exchange_booth;
    // Derived authorities are 32-byte keys of their own, not any input key.
    assert_eq!(booth.vault_a.len(), 32);
    assert_eq!(booth.vault_b.len(), 32);
    assert_ne!(booth.vault_a, booth.vault_b);
    for input in [key(20), key(5), key(1), key(2), key(30)] {
        assert_ne!(booth.vault_a, input);
        assert_ne!(booth.vault_b, input);
    }
}

#[test]
fn initialize_is_deterministic() {
    let first = initialize_exchange_booth(&init_ctx(), 2).unwrap();
    let second = initialize_exchange_booth(&init_ctx(), 2).unwrap();
    assert_eq!(first, second);
    // A different seed (another admin) derives other authorities.
    let mut other = init_ctx();
    other.admin = key(6);
    other.exchange_booth = key(20);
    let third = initialize_exchange_booth(&other, 2).unwrap();
    assert_ne!(first.exchange_booth.vault_a, third.exchange_booth.vault_a);
    assert_ne!(first.exchange_booth.vault_b, third.exchange_booth.vault_b);
}

#[test]
fn initialized_booth_accepts_admin_deposit() {
    // The vault records Initialize allocates are exactly the ones the
    // deposit binding checks accept.
    let state = initialize_exchange_booth(&init_ctx(), 2).unwrap();
    let mut ctx = Deposit {
        exchange_booth: state.exchange_booth.clone(),
        vault: state.vault_a.clone(),
        deposit_token: key(1),
        admin_token_account: TokenAccount { id: key(6), mint: key(1), owner: key(5), amount: 100 },
        admin: key(5),
    };
    assert_eq!(deposit(&mut ctx, 60), Ok(()));
    assert_eq!(ctx.vault.amount, 60);
    assert_eq!(ctx.admin_token_account.amount, 40);
}

#[test]
fn seed_tags_spell_the_vault_roles() {
    assert_eq!(make_seed_tag(true), b"vault_a".to_vec());
    assert_eq!(make_seed_tag(false), b"vault_b".to_vec());
}

#[test]
fn signer_seeds_follow_the_asset() {
    let booth = ExchangeBooth {
        vault_a_bump: 254,
        vault_b_bump: 251,
        token_a: key(1),
        token_b: key(2),
        vault_a: key(3),
        vault_b: key(4),
        admin: key(5),
        rate: 2,
    };
    let (tag_a, bump_a) = vault_signer_seeds(&booth, &key(1));
    assert_eq!(tag_a, b"vault_a".to_vec());
    assert_eq!(bump_a, 254);
    let (tag_b, bump_b) = vault_signer_seeds(&booth, &key(2));
    assert_eq!(tag_b, b"vault_b".to_vec());
    assert_eq!(bump_b, 251);
    // Any unknown asset falls to the second vault's tuple.
    let (tag_u, bump_u) = vault_signer_seeds(&booth, &key(9));
    assert_eq!(tag_u, b"vault_b".to_vec());
    assert_eq!(bump_u, 251);
}

#[test]
fn deposit_leg_routes_source_to_vault_under_admin() {
    let ctx = Deposit {
        exchange_booth: ExchangeBooth {
            vault_a_bump: 254,
            vault_b_bump: 253,
            token_a: key(1),
            token_b: key(2),
            vault_a: key(3),
            vault_b: key(4),
            admin: key(5),
            rate: 2,
        },
        vault: TokenAccount { id: key(3), mint: key(1), owner: key(3), amount: 0 },
        deposit_token: key(1),
        admin_token_account: TokenAccount { id: key(6), mint: key(1), owner: key(5), amount: 9 },
        admin: key(5),
    };
    let t = ctx.into_transfer_token_to_vault();
    assert_eq!(t.from, key(6));
    assert_eq!(t.to, key(3));
    assert_eq!(t.authority, key(5));
}

#[test]
fn withdraw_leg_routes_vault_to_recipient_under_vault_authority() {
    let ctx = Withdraw {
        exchange_booth: ExchangeBooth {
            vault_a_bump: 254,
            vault_b_bump: 253,
            token_a: key(1),
            token_b: key(2),
            vault_a: key(3),
            vault_b: key(4),
            admin: key(5),
            rate: 2,
        },
        vault: TokenAccount { id: key(3), mint: key(1), owner: key(3), amount: 9 },
        withdraw_token: key(1),
        recipient_token_account: TokenAccount { id: key(7), mint: key(1), owner: key(5), amount: 0 },
        admin: key(5),
    };
    let t = ctx.into_withdraw_token_from_vault();
    assert_eq!(t.from, key(3));
    assert_eq!(t.to, key(7));
    assert_eq!(t.authority, key(3));
}

#[test]
fn exchange_legs_route_by_direction() {
    let ctx = Exchange {
        exchange_booth: ExchangeBooth {
            vault_a_bump: 254,
            vault_b_bump: 253,
            token_a: key(1),
            token_b: key(2),
            vault_a: key(3),
            vault_b: key(4),
            admin: key(5),
            rate: 2,
        },
        vault_a: TokenAccount { id: key(3), mint: key(1), owner: key(3), amount: 0 },
        vault_b: TokenAccount { id: key(4), mint: key(2), owner: key(4), amount: 0 },
        exchanger_send_token_account: TokenAccount {
            id: key(8),
            mint: key(1),
            owner: key(10),
            amount: 0,
        },
        exchanger_receive_token_account: TokenAccount {
            id: key(9),
            mint: key(2),
            owner: key(10),
            amount: 0,
        },
        exchanger: key(10),
    };
    let leg_in_a = ctx.into_transfer_token_to_vault(true);
    assert_eq!(leg_in_a.from, key(8));
    assert_eq!(leg_in_a.to, key(3));
    assert_eq!(leg_in_a.authority, key(10));
    let leg_in_b = ctx.into_transfer_token_to_vault(false);
    assert_eq!(leg_in_b.to, key(4));
    let leg_out_a = ctx.into_transfer_token_from_vault_to_recipient(true);
    assert_eq!(leg_out_a.from, key(3));
    assert_eq!(leg_out_a.to, key(9));
    assert_eq!(leg_out_a.authority, key(3));
    let leg_out_b = ctx.into_transfer_token_from_vault_to_recipient(false);
    assert_eq!(leg_out_b.from, key(4));
    assert_eq!(leg_out_b.authority, key(4));
}
