//! The account bundles that each operation works on, and the transfer
//! requests the handlers hand to the external transfer gateway.
//!
//! Each operation reads a fixed set of ledger records; a context struct
//! carries them as plain values.  The `into_*` methods compute the routing
//! of each transfer leg: which account pays, which receives, and which key
//! must authorize the move.

use crate::account::{key_dup, AccountModel, BoothModel, ExchangeBooth, TokenAccount};
use vstd::prelude::*;

verus! {

/// One request against the external transfer gateway: move units from
/// `from` to `to` under the authority of `authority`.
#[derive(Clone, Debug, PartialEq, Eq)]
pub struct Transfer {
    pub from: Vec<u8>,
    pub to: Vec<u8>,
    pub authority: Vec<u8>,
}

/// The mathematical value of a `Transfer`.
pub struct TransferModel {
    pub from: Seq<u8>,
    pub to: Seq<u8>,
    pub authority: Seq<u8>,
}

impl View for Transfer {
    type V = TransferModel;

    open spec fn view(&self) -> TransferModel {
        TransferModel { from: self.from@, to: self.to@, authority: self.authority@ }
    }
}

/// What Initialize works on: the identities the new booth is built from.
/// `exchange_booth` is the key of the booth record being allocated and
/// `program_id` the booth program's own key, under which the vault
/// authorities are derived.
#[derive(Clone, Debug, PartialEq, Eq)]
pub struct InitializeExchange {
    pub exchange_booth: Vec<u8>,
    pub admin: Vec<u8>,
    pub token_a: Vec<u8>,
    pub token_b: Vec<u8>,
    pub program_id: Vec<u8>,
}

/// The mathematical value of an `InitializeExchange`.
pub struct InitializeModel {
    pub exchange_booth: Seq<u8>,
    pub admin: Seq<u8>,
    pub token_a: Seq<u8>,
    pub token_b: Seq<u8>,
    pub program_id: Seq<u8>,
}

impl View for InitializeExchange {
    type V = InitializeModel;

    open spec fn view(&self) -> InitializeModel {
        InitializeModel {
            exchange_booth: self.exchange_booth@,
            admin: self.admin@,
            token_a: self.token_a@,
            token_b: self.token_b@,
            program_id: self.program_id@,
        }
    }
}

/// What Initialize allocates on success: the booth record and its two
/// vaults, created atomically.
#[derive(Clone, Debug, PartialEq, Eq)]
pub struct BoothState {
    pub exchange_booth: ExchangeBooth,
    pub vault_a: TokenAccount,
    pub vault_b: TokenAccount,
}

/// The mathematical value of a `BoothState`.
pub struct BoothStateModel {
    pub exchange_booth: BoothModel,
    pub vault_a: AccountModel,
    pub vault_b: AccountModel,
}

impl View for BoothState {
    type V = BoothStateModel;

    open spec fn view(&self) -> BoothStateModel {
        BoothStateModel {
            exchange_booth: self.exchange_booth@,
            vault_a: self.vault_a@,
            vault_b: self.vault_b@,
        }
    }
}

/// What Deposit works on: the booth, the vault selected for the deposited
/// asset, the asset's key, the admin's funding account and the signer's key.
#[derive(Clone, Debug, PartialEq, Eq)]
pub struct Deposit {
    pub exchange_booth: ExchangeBooth,
    pub vault: TokenAccount,
    pub deposit_token: Vec<u8>,
    pub admin_token_account: TokenAccount,
    pub admin: Vec<u8>,
}

/// The mathematical value of a `Deposit`.
pub struct DepositModel {
    pub exchange_booth: BoothModel,
    pub vault: AccountModel,
    pub deposit_token: Seq<u8>,
    pub admin_token_account: AccountModel,
    pub admin: Seq<u8>,
}

impl View for Deposit {
    type V = DepositModel;

    open spec fn view(&self) -> DepositModel {
        DepositModel {
            exchange_booth: self.exchange_booth@,
            vault: self.vault@,
            deposit_token: self.deposit_token@,
            admin_token_account: self.admin_token_account@,
            admin: self.admin@,
        }
    }
}

impl Deposit {
    /// The funding leg: the admin's account pays the vault, authorized by
    /// the admin's ordinary signature over their own account.
    pub fn into_transfer_token_to_vault(&self) -> (t: Transfer)
        ensures
            t@.from == self.admin_token_account@.id,
            t@.to == self.vault@.id,
            t@.authority == self.admin@,
    {
        Transfer {
            from: key_dup(&self.admin_token_account.id),
            to: key_dup(&self.vault.id),
            authority: key_dup(&self.admin),
        }
    }
}

/// What Withdraw works on: the booth, the vault selected for the withdrawn
/// asset, the asset's key, the recipient account and the signer's key.
#[derive(Clone, Debug, PartialEq, Eq)]
pub struct Withdraw {
    pub exchange_booth: ExchangeBooth,
    pub vault: TokenAccount,
    pub withdraw_token: Vec<u8>,
    pub recipient_token_account: TokenAccount,
    pub admin: Vec<u8>,
}

/// The mathematical value of a `Withdraw`.
pub struct WithdrawModel {
    pub exchange_booth: BoothModel,
    pub vault: AccountModel,
    pub withdraw_token: Seq<u8>,
    pub recipient_token_account: AccountModel,
    pub admin: Seq<u8>,
}

impl View for Withdraw {
    type V = WithdrawModel;

    open spec fn view(&self) -> WithdrawModel {
        WithdrawModel {
            exchange_booth: self.exchange_booth@,
            vault: self.vault@,
            withdraw_token: self.withdraw_token@,
            recipient_token_account: self.recipient_token_account@,
            admin: self.admin@,
        }
    }
}

impl Withdraw {
    /// The draining leg: the vault pays the recipient, authorized by the
    /// vault's own derived authority.
    pub fn into_withdraw_token_from_vault(&self) -> (t: Transfer)
        ensures
            t@.from == self.vault@.id,
            t@.to == self.recipient_token_account@.id,
            t@.authority == self.vault@.id,
    {
        Transfer {
            from: key_dup(&self.vault.id),
            to: key_dup(&self.recipient_token_account.id),
            authority: key_dup(&self.vault.id),
        }
    }
}

/// What Exchange works on: the booth, both vaults, the exchanger's send and
/// receive accounts and the exchanger's key.
#[derive(Clone, Debug, PartialEq, Eq)]
pub struct Exchange {
    pub exchange_booth: ExchangeBooth,
    pub vault_a: TokenAccount,
    pub vault_b: TokenAccount,
    pub exchanger_send_token_account: TokenAccount,
    pub exchanger_receive_token_account: TokenAccount,
    pub exchanger: Vec<u8>,
}

/// The mathematical value of an `Exchange`.
pub struct ExchangeModel {
    pub exchange_booth: BoothModel,
    pub vault_a: AccountModel,
    pub vault_b: AccountModel,
    pub exchanger_send_token_account: AccountModel,
    pub exchanger_receive_token_account: AccountModel,
    pub exchanger: Seq<u8>,
}

impl View for Exchange {
    type V = ExchangeModel;

    open spec fn view(&self) -> ExchangeModel {
        ExchangeModel {
            exchange_booth: self.exchange_booth@,
            vault_a: self.vault_a@,
            vault_b: self.vault_b@,
            exchanger_send_token_account: self.exchanger_send_token_account@,
            exchanger_receive_token_account: self.exchanger_receive_token_account@,
            exchanger: self.exchanger@,
        }
    }
}

impl Exchange {
    /// The first leg: the exchanger's send account pays the vault matching
    /// the sent asset, authorized by the exchanger's ordinary signature.
    pub fn into_transfer_token_to_vault(&self, from_token_a: bool) -> (t: Transfer)
        ensures
            t@.from == self.exchanger_send_token_account@.id,
            from_token_a ==> t@.to == self.vault_a@.id,
            !from_token_a ==> t@.to == self.vault_b@.id,
            t@.authority == self.exchanger@,
    {
        Transfer {
            from: key_dup(&self.exchanger_send_token_account.id),
            to: match from_token_a {
                true => key_dup(&self.vault_a.id),
                _ => key_dup(&self.vault_b.id),
            },
            authority: key_dup(&self.exchanger),
        }
    }

    /// The second leg: the opposite vault pays the exchanger's receive
    /// account, authorized by that vault's derived authority.
    pub fn into_transfer_token_from_vault_to_recipient(&self, from_token_a: bool) -> (t: Transfer)
        ensures
            from_token_a ==> t@.from == self.vault_a@.id && t@.authority == self.vault_a@.id,
            !from_token_a ==> t@.from == self.vault_b@.id && t@.authority == self.vault_b@.id,
            t@.to == self.exchanger_receive_token_account@.id,
    {
        let vault = match from_token_a {
            true => &self.vault_a,
            _ => &self.vault_b,
        };
        Transfer {
            from: key_dup(&vault.id),
            to: key_dup(&self.exchanger_receive_token_account.id),
            authority: key_dup(&vault.id),
        }
    }
}

} // verus!
