//! A custodial two-asset exchange booth.
//!
//! A booth pairs two asset vaults under one admin and one fixed rate.  The
//! admin funds and drains the vaults; any caller may swap between the two
//! assets at the fixed rate.  Each vault is controlled by a key-less signing
//! authority derived deterministically from stable identifiers, and every
//! operation either commits all of its balance changes or none of them.
//!
//! The asset ledger itself (balances, ownership, signature verification and
//! the transfer primitive) is an external collaborator: this crate validates
//! operations against the booth's records, computes the exact balance
//! transitions, and derives the vault authorities.

pub mod account;
pub mod authority;
pub mod context;
pub mod error;
pub mod helper;
pub mod laws;

use vstd::prelude::*;

use crate::account::{key_dup, key_eq, AccountModel, BoothModel, ExchangeBooth, TokenAccount};
use crate::authority::{make_seed_tag, pda_of, try_find_vault_authority, vault_a_tag, vault_b_tag};
use crate::context::{
    BoothState, BoothStateModel, Deposit, DepositModel, Exchange, ExchangeModel,
    InitializeExchange, InitializeModel, Withdraw, WithdrawModel,
};
use crate::error::ProgramErrorCode;
use crate::helper::{calc_output_amount, spec_calc_output_amount};

verus! {

/// The outcome of Initialize: with a zero rate nothing is allocated and
/// `ZeroRateConfig` comes back; otherwise both vault authorities are
/// derived, and the booth plus its two empty vaults are built — unless a
/// derivation fails or the two authorities collide, which rejects the pair
/// of assets.
pub open spec fn spec_initialize(m: InitializeModel, rate: u32) -> Result<
    BoothStateModel,
    ProgramErrorCode,
> {
    if rate == 0 {
        Err(ProgramErrorCode::ZeroRateConfig)
    } else {
        let da = pda_of(vault_a_tag(), m.exchange_booth, m.token_a, m.admin, m.program_id);
        let db = pda_of(vault_b_tag(), m.exchange_booth, m.token_b, m.admin, m.program_id);
        match (da, db) {
            (Some(a), Some(b)) => {
                if a.0 == b.0 {
                    Err(ProgramErrorCode::NotSupportedToken)
                } else {
                    Ok(
                        BoothStateModel {
                            exchange_booth: BoothModel {
                                vault_a_bump: a.1,
                                vault_b_bump: b.1,
                                token_a: m.token_a,
                                token_b: m.token_b,
                                vault_a: a.0,
                                vault_b: b.0,
                                admin: m.admin,
                                rate,
                            },
                            vault_a: AccountModel {
                                id: a.0,
                                mint: m.token_a,
                                owner: a.0,
                                amount: 0,
                            },
                            vault_b: AccountModel {
                                id: b.0,
                                mint: m.token_b,
                                owner: b.0,
                                amount: 0,
                            },
                        },
                    )
                }
            },
            _ => Err(ProgramErrorCode::NotSupportedToken),
        }
    }
}

/// Allocate a booth: derive both vault authorities, record the asset and
/// vault bindings, the admin and the rate, and create the two empty vaults.
/// All of it happens, or none: an error allocates nothing.
pub fn initialize_exchange_booth(ctx: &InitializeExchange, rate: u32) -> (r: Result<
    BoothState,
    ProgramErrorCode,
>)
    requires
        ctx.program_id@.len() == 32,
        ctx.token_a@ != ctx.token_b@,
    ensures
        spec_initialize(ctx@, rate) matches Ok(bs) ==> r matches Ok(b) && b@ == bs,
        spec_initialize(ctx@, rate) matches Err(e) ==> r matches Err(ae) && ae == e,
        rate == 0 <==> r == Err::<BoothState, ProgramErrorCode>(ProgramErrorCode::ZeroRateConfig),
        r matches Ok(b) ==> b.exchange_booth@.wf() && b.exchange_booth@.rate == rate
            && b.vault_a@.amount == 0 && b.vault_b@.amount == 0,
{
    if rate == 0 {
        return Err(ProgramErrorCode::ZeroRateConfig);
    }
    let tag_a = make_seed_tag(true);
    let tag_b = make_seed_tag(false);
    let da = try_find_vault_authority(
        &tag_a,
        &ctx.exchange_booth,
        &ctx.token_a,
        &ctx.admin,
        &ctx.program_id,
    );
    let db = try_find_vault_authority(
        &tag_b,
        &ctx.exchange_booth,
        &ctx.token_b,
        &ctx.admin,
        &ctx.program_id,
    );
    match (da, db) {
        (Some((key_a, bump_a)), Some((key_b, bump_b))) => {
            if key_eq(&key_a, &key_b) {
                return Err(ProgramErrorCode::NotSupportedToken);
            }
            let exchange_booth = ExchangeBooth {
                vault_a_bump: bump_a,
                vault_b_bump: bump_b,
                token_a: key_dup(&ctx.token_a),
                token_b: key_dup(&ctx.token_b),
                vault_a: key_dup(&key_a),
                vault_b: key_dup(&key_b),
                admin: key_dup(&ctx.admin),
                rate,
            };
            let vault_a = TokenAccount {
                id: key_dup(&key_a),
                mint: key_dup(&ctx.token_a),
                owner: key_a,
                amount: 0,
            };
            let vault_b = TokenAccount {
                id: key_dup(&key_b),
                mint: key_dup(&ctx.token_b),
                owner: key_b,
                amount: 0,
            };
            Ok(BoothState { exchange_booth, vault_a, vault_b })
        },
        _ => Err(ProgramErrorCode::NotSupportedToken),
    }
}

/// The booth's vault for `token`: the first vault exactly when `token` is
/// the first asset, else the second vault.
pub open spec fn spec_selected_vault_key(b: BoothModel, token: Seq<u8>) -> Seq<u8> {
    if token == b.token_a {
        b.vault_a
    } else {
        b.vault_b
    }
}

/// The outcome of Deposit: only the booth's admin may fund it, the vault
/// and funding account must be bound to the deposited asset, and the
/// funding account must cover the amount; then the vault gains and the
/// funding account loses exactly `amount`.
pub open spec fn spec_deposit(m: DepositModel, amount: u64) -> Result<
    DepositModel,
    ProgramErrorCode,
> {
    let b = m.exchange_booth;
    if m.admin != b.admin {
        Err(ProgramErrorCode::WrongExchangeBoothAdmin)
    } else if m.deposit_token != b.token_a && m.deposit_token != b.token_b {
        Err(ProgramErrorCode::NotSupportedToken)
    } else if m.vault.id != spec_selected_vault_key(b, m.deposit_token) {
        Err(ProgramErrorCode::WrongDepositVault)
    } else if m.vault.mint != m.deposit_token {
        Err(ProgramErrorCode::WrongDepositVault)
    } else if m.admin_token_account.owner != m.admin {
        Err(ProgramErrorCode::WrongExchangeBoothAdmin)
    } else if m.admin_token_account.mint != m.deposit_token {
        Err(ProgramErrorCode::WrongDepositVault)
    } else if m.admin_token_account.amount < amount {
        Err(ProgramErrorCode::ExceedsCurrentBalance)
    } else {
        Ok(
            DepositModel {
                vault: AccountModel { amount: (m.vault.amount + amount) as u64, ..m.vault },
                admin_token_account: AccountModel {
                    amount: (m.admin_token_account.amount - amount) as u64,
                    ..m.admin_token_account
                },
                ..m
            },
        )
    }
}

/// Fund a vault from the admin's own account.  Either every balance change
/// in `spec_deposit` commits, or an error leaves every record untouched.
pub fn deposit(ctx: &mut Deposit, amount: u64) -> (r: Result<(), ProgramErrorCode>)
    requires
        old(ctx).vault@.amount + amount <= u64::MAX,
    ensures
        spec_deposit(old(ctx)@, amount) matches Ok(m2) ==> r == Ok::<(), ProgramErrorCode>(())
            && final(ctx)@ == m2,
        spec_deposit(old(ctx)@, amount) matches Err(e) ==> r == Err::<(), ProgramErrorCode>(e)
            && final(ctx)@ == old(ctx)@,
        old(ctx).admin@ != old(ctx).exchange_booth.admin@ ==> r == Err::<
            (),
            ProgramErrorCode,
        >(ProgramErrorCode::WrongExchangeBoothAdmin) && final(ctx)@ == old(ctx)@,
        r is Ok ==> final(ctx).vault.amount == old(ctx).vault.amount + amount
            && final(ctx).admin_token_account.amount == old(ctx).admin_token_account.amount
            - amount,
{
    if !key_eq(&ctx.admin, &ctx.exchange_booth.admin) {
        return Err(ProgramErrorCode::WrongExchangeBoothAdmin);
    }
    let is_a = key_eq(&ctx.deposit_token, &ctx.exchange_booth.token_a);
    let is_b = key_eq(&ctx.deposit_token, &ctx.exchange_booth.token_b);
    if !is_a && !is_b {
        return Err(ProgramErrorCode::NotSupportedToken);
    }
    let vault_matches = if is_a {
        key_eq(&ctx.vault.id, &ctx.exchange_booth.vault_a)
    } else {
        key_eq(&ctx.vault.id, &ctx.exchange_booth.vault_b)
    };
    if !vault_matches {
        return Err(ProgramErrorCode::WrongDepositVault);
    }
    if !key_eq(&ctx.vault.mint, &ctx.deposit_token) {
        return Err(ProgramErrorCode::WrongDepositVault);
    }
    if !key_eq(&ctx.admin_token_account.owner, &ctx.admin) {
        return Err(ProgramErrorCode::WrongExchangeBoothAdmin);
    }
    if !key_eq(&ctx.admin_token_account.mint, &ctx.deposit_token) {
        return Err(ProgramErrorCode::WrongDepositVault);
    }
    if ctx.admin_token_account.amount < amount {
        return Err(ProgramErrorCode::ExceedsCurrentBalance);
    }
    ctx.vault.amount = ctx.vault.amount + amount;
    ctx.admin_token_account.amount = ctx.admin_token_account.amount - amount;
    Ok(())
}

/// The outcome of Withdraw: only the booth's admin may drain it, the vault
/// and recipient must be bound to the withdrawn asset, and the vault must
/// cover the amount; then the vault loses and the recipient gains exactly
/// `amount`.
pub open spec fn spec_withdraw(m: WithdrawModel, amount: u64) -> Result<
    WithdrawModel,
    ProgramErrorCode,
> {
    let b = m.exchange_booth;
    if m.admin != b.admin {
        Err(ProgramErrorCode::WrongExchangeBoothAdmin)
    } else if m.withdraw_token != b.token_a && m.withdraw_token != b.token_b {
        Err(ProgramErrorCode::NotSupportedToken)
    } else if m.vault.id != spec_selected_vault_key(b, m.withdraw_token) {
        Err(ProgramErrorCode::WrongDepositVault)
    } else if m.vault.mint != m.withdraw_token {
        Err(ProgramErrorCode::WrongDepositVault)
    } else if m.recipient_token_account.mint != m.withdraw_token {
        Err(ProgramErrorCode::WrongDepositVault)
    } else if m.vault.amount < amount {
        Err(ProgramErrorCode::ExceedsCurrentBalance)
    } else {
        Ok(
            WithdrawModel {
                vault: AccountModel { amount: (m.vault.amount - amount) as u64, ..m.vault },
                recipient_token_account: AccountModel {
                    amount: (m.recipient_token_account.amount + amount) as u64,
                    ..m.recipient_token_account
                },
                ..m
            },
        )
    }
}

/// Drain a vault to a recipient account.  The transfer out of the vault is
/// authorized by presenting the vault's seed tuple and persisted bump (see
/// `crate::authority::vault_signer_seeds`).  Either every balance change in
/// `spec_withdraw` commits, or an error leaves every record untouched.
pub fn withdraw(ctx: &mut Withdraw, amount: u64) -> (r: Result<(), ProgramErrorCode>)
    requires
        old(ctx).recipient_token_account@.amount + amount <= u64::MAX,
    ensures
        spec_withdraw(old(ctx)@, amount) matches Ok(m2) ==> r == Ok::<(), ProgramErrorCode>(())
            && final(ctx)@ == m2,
        spec_withdraw(old(ctx)@, amount) matches Err(e) ==> r == Err::<(), ProgramErrorCode>(e)
            && final(ctx)@ == old(ctx)@,
        old(ctx).admin@ != old(ctx).exchange_booth.admin@ ==> r == Err::<
            (),
            ProgramErrorCode,
        >(ProgramErrorCode::WrongExchangeBoothAdmin) && final(ctx)@ == old(ctx)@,
        r is Ok ==> final(ctx).vault.amount == old(ctx).vault.amount - amount
            && final(ctx).recipient_token_account.amount == old(
            ctx,
        ).recipient_token_account.amount + amount,
{
    if !key_eq(&ctx.admin, &ctx.exchange_booth.admin) {
        return Err(ProgramErrorCode::WrongExchangeBoothAdmin);
    }
    let is_a = key_eq(&ctx.withdraw_token, &ctx.exchange_booth.token_a);
    let is_b = key_eq(&ctx.withdraw_token, &ctx.exchange_booth.token_b);
    if !is_a && !is_b {
        return Err(ProgramErrorCode::NotSupportedToken);
    }
    let vault_matches = if is_a {
        key_eq(&ctx.vault.id, &ctx.exchange_booth.vault_a)
    } else {
        key_eq(&ctx.vault.id, &ctx.exchange_booth.vault_b)
    };
    if !vault_matches {
        return Err(ProgramErrorCode::WrongDepositVault);
    }
    if !key_eq(&ctx.vault.mint, &ctx.withdraw_token) {
        return Err(ProgramErrorCode::WrongDepositVault);
    }
    if !key_eq(&ctx.recipient_token_account.mint, &ctx.withdraw_token) {
        return Err(ProgramErrorCode::WrongDepositVault);
    }
    if ctx.vault.amount < amount {
        return Err(ProgramErrorCode::ExceedsCurrentBalance);
    }
    ctx.vault.amount = ctx.vault.amount - amount;
    ctx.recipient_token_account.amount = ctx.recipient_token_account.amount + amount;
    Ok(())
}

/// The outcome of Exchange: both vaults must be the booth's own, the send
/// account must cover the amount, and the send/receive assets must form one
/// of the two supported routes.  The output is always `amount * rate`,
/// whatever the direction; it is overflow-checked, and the paying vault
/// must cover it.  Then, atomically: the receiving vault gains `amount`
/// from the send account, and the paying vault loses the output to the
/// receive account.
pub open spec fn spec_exchange(m: ExchangeModel, amount: u64) -> Result<
    ExchangeModel,
    ProgramErrorCode,
> {
    let b = m.exchange_booth;
    let send = m.exchanger_send_token_account;
    let recv = m.exchanger_receive_token_account;
    if m.vault_a.id != b.vault_a || m.vault_a.mint != b.token_a {
        Err(ProgramErrorCode::WrongDepositVault)
    } else if m.vault_b.id != b.vault_b || m.vault_b.mint != b.token_b {
        Err(ProgramErrorCode::WrongDepositVault)
    } else if send.amount < amount {
        Err(ProgramErrorCode::ExceedsCurrentBalance)
    } else if send.mint == b.token_a {
        if recv.mint != b.token_b {
            Err(ProgramErrorCode::UnSupportedExchangeRoute)
        } else {
            match spec_calc_output_amount(amount, b.rate, true) {
                None => Err(ProgramErrorCode::InSufficientOutputAmount),
                Some(output) => {
                    if m.vault_b.amount < output {
                        Err(ProgramErrorCode::ExceedsCurrentFunds)
                    } else {
                        Ok(
                            ExchangeModel {
                                vault_a: AccountModel {
                                    amount: (m.vault_a.amount + amount) as u64,
                                    ..m.vault_a
                                },
                                vault_b: AccountModel {
                                    amount: (m.vault_b.amount - output) as u64,
                                    ..m.vault_b
                                },
                                exchanger_send_token_account: AccountModel {
                                    amount: (send.amount - amount) as u64,
                                    ..send
                                },
                                exchanger_receive_token_account: AccountModel {
                                    amount: (recv.amount + output) as u64,
                                    ..recv
                                },
                                ..m
                            },
                        )
                    }
                },
            }
        }
    } else if send.mint == b.token_b {
        if recv.mint != b.token_a {
            Err(ProgramErrorCode::UnSupportedExchangeRoute)
        } else {
            match spec_calc_output_amount(amount, b.rate, true) {
                None => Err(ProgramErrorCode::InSufficientOutputAmount),
                Some(output) => {
                    if m.vault_a.amount < output {
                        Err(ProgramErrorCode::ExceedsCurrentFunds)
                    } else {
                        Ok(
                            ExchangeModel {
                                vault_b: AccountModel {
                                    amount: (m.vault_b.amount + amount) as u64,
                                    ..m.vault_b
                                },
                                vault_a: AccountModel {
                                    amount: (m.vault_a.amount - output) as u64,
                                    ..m.vault_a
                                },
                                exchanger_send_token_account: AccountModel {
                                    amount: (send.amount - amount) as u64,
                                    ..send
                                },
                                exchanger_receive_token_account: AccountModel {
                                    amount: (recv.amount + output) as u64,
                                    ..recv
                                },
                                ..m
                            },
                        )
                    }
                },
            }
        }
    } else {
        Err(ProgramErrorCode::UnSupportedExchangeRoute)
    }
}

/// The machine-width bound an exchange needs: when the swap goes through,
/// the receiving vault's and the receive account's credited balances must
/// fit the amount width.
pub open spec fn spec_exchange_fits(m: ExchangeModel, amount: u64) -> bool {
    spec_exchange(m, amount) is Ok ==> {
        let output = amount * m.exchange_booth.rate;
        if m.exchanger_send_token_account.mint == m.exchange_booth.token_a {
            m.vault_a.amount + amount <= u64::MAX
                && m.exchanger_receive_token_account.amount + output <= u64::MAX
        } else {
            m.vault_b.amount + amount <= u64::MAX
                && m.exchanger_receive_token_account.amount + output <= u64::MAX
        }
    }
}

/// Swap through the booth at its fixed rate.  Both legs commit, or neither:
/// an error leaves both vaults and both exchanger accounts untouched.
pub fn exchange(ctx: &mut Exchange, amount: u64) -> (r: Result<(), ProgramErrorCode>)
    requires
        spec_exchange_fits(old(ctx)@, amount),
    ensures
        spec_exchange(old(ctx)@, amount) matches Ok(m2) ==> r == Ok::<(), ProgramErrorCode>(())
            && final(ctx)@ == m2,
        spec_exchange(old(ctx)@, amount) matches Err(e) ==> r == Err::<(), ProgramErrorCode>(e)
            && final(ctx)@ == old(ctx)@,
        r is Err ==> final(ctx)@ == old(ctx)@,
        r is Ok && old(ctx).exchanger_send_token_account.mint@ == old(
            ctx,
        ).exchange_booth.token_a@ ==> final(ctx).vault_a.amount == old(ctx).vault_a.amount + amount
            && final(ctx).vault_b.amount == old(ctx).vault_b.amount - amount * old(
            ctx,
        ).exchange_booth.rate,
        r is Ok && old(ctx).exchanger_send_token_account.mint@ != old(
            ctx,
        ).exchange_booth.token_a@ ==> final(ctx).vault_b.amount == old(ctx).vault_b.amount + amount
            && final(ctx).vault_a.amount == old(ctx).vault_a.amount - amount * old(
            ctx,
        ).exchange_booth.rate,
        r is Ok ==> final(ctx).exchanger_send_token_account.amount == old(
            ctx,
        ).exchanger_send_token_account.amount - amount
            && final(ctx).exchanger_receive_token_account.amount == old(
            ctx,
        ).exchanger_receive_token_account.amount + amount * old(ctx).exchange_booth.rate,
{
    let vault_a_bound = key_eq(&ctx.vault_a.id, &ctx.exchange_booth.vault_a) && key_eq(
        &ctx.vault_a.mint,
        &ctx.exchange_booth.token_a,
    );
    if !vault_a_bound {
        return Err(ProgramErrorCode::WrongDepositVault);
    }
    let vault_b_bound = key_eq(&ctx.vault_b.id, &ctx.exchange_booth.vault_b) && key_eq(
        &ctx.vault_b.mint,
        &ctx.exchange_booth.token_b,
    );
    if !vault_b_bound {
        return Err(ProgramErrorCode::WrongDepositVault);
    }
    if ctx.exchanger_send_token_account.amount < amount {
        return Err(ProgramErrorCode::ExceedsCurrentBalance);
    }
    if key_eq(&ctx.exchanger_send_token_account.mint, &ctx.exchange_booth.token_a) {
        if !key_eq(&ctx.exchanger_receive_token_account.mint, &ctx.exchange_booth.token_b) {
            return Err(ProgramErrorCode::UnSupportedExchangeRoute);
        }
        match calc_output_amount(amount, ctx.exchange_booth.rate, true) {
            None => Err(ProgramErrorCode::InSufficientOutputAmount),
            Some(output) => {
                if ctx.vault_b.amount < output {
                    return Err(ProgramErrorCode::ExceedsCurrentFunds);
                }
                ctx.exchanger_send_token_account.amount = ctx.exchanger_send_token_account.amount
                    - amount;
                ctx.vault_a.amount = ctx.vault_a.amount + amount;
                ctx.vault_b.amount = ctx.vault_b.amount - output;
                ctx.exchanger_receive_token_account.amount =
                    ctx.exchanger_receive_token_account.amount + output;
                Ok(())
            },
        }
    } else if key_eq(&ctx.exchanger_send_token_account.mint, &ctx.exchange_booth.token_b) {
        if !key_eq(&ctx.exchanger_receive_token_account.mint, &ctx.exchange_booth.token_a) {
            return Err(ProgramErrorCode::UnSupportedExchangeRoute);
        }
        match calc_output_amount(amount, ctx.exchange_booth.rate, true) {
            None => Err(ProgramErrorCode::InSufficientOutputAmount),
            Some(output) => {
                if ctx.vault_a.amount < output {
                    return Err(ProgramErrorCode::ExceedsCurrentFunds);
                }
                ctx.exchanger_send_token_account.amount = ctx.exchanger_send_token_account.amount
                    - amount;
                ctx.vault_b.amount = ctx.vault_b.amount + amount;
                ctx.vault_a.amount = ctx.vault_a.amount - output;
                ctx.exchanger_receive_token_account.amount =
                    ctx.exchanger_receive_token_account.amount + output;
                Ok(())
            },
        }
    } else {
        Err(ProgramErrorCode::UnSupportedExchangeRoute)
    }
}

} // verus!
