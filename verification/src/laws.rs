//! Laws of the booth: proved relations among the operation outcomes.
//!
//! Each proof function here states a property that holds of every input the
//! operations accept, over the same outcome functions that the handlers'
//! contracts are written in.

use crate::account::AccountModel;
use crate::context::{DepositModel, ExchangeModel, WithdrawModel};
use crate::error::ProgramErrorCode;
use crate::{spec_deposit, spec_exchange, spec_exchange_fits, spec_withdraw};
use vstd::prelude::*;

verus! {

/// Deposit then Withdraw of the same amount by the admin, with no
/// intervening exchange, succeeds and restores the pre-deposit vault
/// balance exactly.
pub proof fn lemma_deposit_then_withdraw_restores(
    m: DepositModel,
    recipient: AccountModel,
    amount: u64,
)
    requires
        spec_deposit(m, amount) is Ok,
        m.vault.amount + amount <= u64::MAX,
        recipient.mint == m.deposit_token,
    ensures
        ({
            let after = spec_deposit(m, amount)->Ok_0;
            let w = WithdrawModel {
                exchange_booth: after.exchange_booth,
                vault: after.vault,
                withdraw_token: after.deposit_token,
                recipient_token_account: recipient,
                admin: after.admin,
            };
            &&& spec_withdraw(w, amount) is Ok
            &&& (spec_withdraw(w, amount)->Ok_0).vault.amount == m.vault.amount
        }),
{
}

/// Exchange conserves each leg independently: the receiving vault gains
/// exactly the sent amount, taken from the send account, and the paying
/// vault loses exactly the output, credited to the receive account.
pub proof fn lemma_exchange_conserves_legs(m: ExchangeModel, amount: u64)
    requires
        spec_exchange(m, amount) is Ok,
        spec_exchange_fits(m, amount),
    ensures
        ({
            let after = spec_exchange(m, amount)->Ok_0;
            let output = amount * m.exchange_booth.rate;
            if m.exchanger_send_token_account.mint == m.exchange_booth.token_a {
                &&& after.vault_a.amount == m.vault_a.amount + amount
                &&& after.exchanger_send_token_account.amount
                    == m.exchanger_send_token_account.amount - amount
                &&& after.vault_a.amount + after.exchanger_send_token_account.amount
                    == m.vault_a.amount + m.exchanger_send_token_account.amount
                &&& after.vault_b.amount == m.vault_b.amount - output
                &&& after.exchanger_receive_token_account.amount
                    == m.exchanger_receive_token_account.amount + output
                &&& after.vault_b.amount + after.exchanger_receive_token_account.amount
                    == m.vault_b.amount + m.exchanger_receive_token_account.amount
            } else {
                &&& after.vault_b.amount == m.vault_b.amount + amount
                &&& after.exchanger_send_token_account.amount
                    == m.exchanger_send_token_account.amount - amount
                &&& after.vault_b.amount + after.exchanger_send_token_account.amount
                    == m.vault_b.amount + m.exchanger_send_token_account.amount
                &&& after.vault_a.amount == m.vault_a.amount - output
                &&& after.exchanger_receive_token_account.amount
                    == m.exchanger_receive_token_account.amount + output
                &&& after.vault_a.amount + after.exchanger_receive_token_account.amount
                    == m.vault_a.amount + m.exchanger_receive_token_account.amount
            }
        }),
{
}

/// With a rate of one an exchange moves equal quantities, so the booth's
/// combined vault holdings are conserved; no such cross-asset total is
/// preserved by the legs themselves under any other rate.
pub proof fn lemma_exchange_rate_one_preserves_vault_total(m: ExchangeModel, amount: u64)
    requires
        spec_exchange(m, amount) is Ok,
        spec_exchange_fits(m, amount),
        m.exchange_booth.rate == 1,
    ensures
        ({
            let after = spec_exchange(m, amount)->Ok_0;
            after.vault_a.amount + after.vault_b.amount == m.vault_a.amount + m.vault_b.amount
        }),
{
}

/// No operation after creation mutates the booth record — admin, asset and
/// vault bindings, bumps and rate are immutable — and no operation changes
/// any account's identity, asset binding or owner: only balances move.
pub proof fn lemma_operations_preserve_bindings(
    d: DepositModel,
    w: WithdrawModel,
    x: ExchangeModel,
    amount: u64,
)
    ensures
        spec_deposit(d, amount) matches Ok(d2) ==> d2.exchange_booth == d.exchange_booth
            && d2.vault == (AccountModel { amount: d2.vault.amount, ..d.vault })
            && d2.admin_token_account == (AccountModel {
            amount: d2.admin_token_account.amount,
            ..d.admin_token_account
        }),
        spec_withdraw(w, amount) matches Ok(w2) ==> w2.exchange_booth == w.exchange_booth
            && w2.vault == (AccountModel { amount: w2.vault.amount, ..w.vault })
            && w2.recipient_token_account == (AccountModel {
            amount: w2.recipient_token_account.amount,
            ..w.recipient_token_account
        }),
        spec_exchange(x, amount) matches Ok(x2) ==> x2.exchange_booth == x.exchange_booth
            && x2.vault_a == (AccountModel { amount: x2.vault_a.amount, ..x.vault_a })
            && x2.vault_b == (AccountModel { amount: x2.vault_b.amount, ..x.vault_b })
            && x2.exchanger_send_token_account == (AccountModel {
            amount: x2.exchanger_send_token_account.amount,
            ..x.exchanger_send_token_account
        })
            && x2.exchanger_receive_token_account == (AccountModel {
            amount: x2.exchanger_receive_token_account.amount,
            ..x.exchanger_receive_token_account
        }),
{
}

/// An exchange whose output exceeds the paying vault's balance fails with
/// the vault-side insufficiency error — and so, by the handler's contract,
/// leaves both vaults and both exchanger accounts unchanged.
pub proof fn lemma_exchange_insufficient_vault_funds(m: ExchangeModel, amount: u64)
    requires
        m.vault_a.id == m.exchange_booth.vault_a,
        m.vault_a.mint == m.exchange_booth.token_a,
        m.vault_b.id == m.exchange_booth.vault_b,
        m.vault_b.mint == m.exchange_booth.token_b,
        m.exchanger_send_token_account.amount >= amount,
        amount * m.exchange_booth.rate <= u64::MAX,
        ({
            let b = m.exchange_booth;
            let send = m.exchanger_send_token_account;
            let recv = m.exchanger_receive_token_account;
            ||| (send.mint == b.token_a && recv.mint == b.token_b && m.vault_b.amount < amount
                * b.rate)
            ||| (send.mint == b.token_b && send.mint != b.token_a && recv.mint == b.token_a
                && m.vault_a.amount < amount * b.rate)
        }),
    ensures
        spec_exchange(m, amount) == Err::<ExchangeModel, ProgramErrorCode>(
            ProgramErrorCode::ExceedsCurrentFunds,
        ),
{
}

} // verus!
