//! The escrow state machine.
//!
//! A trade passes through three states: no record, an ACTIVE record created
//! by `initialize_escrow`, and TERMINATED, reached exactly once by either
//! `cancel_escrow` (refund) or `exchange` (swap). Each operation validates
//! its preconditions against the record and the referenced accounts, stages
//! its ledger calls on a copy of the ledger, and commits the copy only when
//! every call succeeded — so an operation either applies in full or rejects
//! with one named reason and changes nothing.

use vstd::prelude::*;

use crate::authority::{derive_controller, derived_authority, escrow_seed};
use crate::errors::EscrowError;
use crate::keys::{key_eq, Key};
use crate::ledger::{
    close_result, close_state, open_result, open_state, set_authority_result, set_authority_state,
    transfer_result, transfer_state, AccountState, Ledger,
};

verus! {

/// The durable escrow record: the trade's terms, fixed at creation.
#[derive(Clone, Copy)]
pub struct EscrowAccount {
    /// The identity that created the trade and deposited asset A.
    pub initializer_key: Key,
    /// The account the deposit was drawn from, refunded on cancellation.
    pub initializer_deposit_token_account: Key,
    /// The account that must receive asset B on a successful exchange.
    pub initializer_receive_token_account: Key,
    /// How much of asset A the initializer deposited into the vault.
    pub initializer_amount: u64,
    /// How much of asset B completing the trade requires.
    pub taker_amount: u64,
}

/// The account set `initialize_escrow` takes.
#[derive(Clone, Copy)]
pub struct Initialize {
    /// The signing identity creating the trade.
    pub initializer: Key,
    /// The asset A mint the vault must hold.
    pub mint: Key,
    /// A freshly provisioned, empty vault account, still controlled by the
    /// initializer.
    pub vault_account: Key,
    /// The initializer's asset A source account.
    pub initializer_deposit_token_account: Key,
    /// The initializer's asset B destination account.
    pub initializer_receive_token_account: Key,
}

/// The account set `cancel_escrow` takes.
#[derive(Clone, Copy)]
pub struct Cancel {
    /// The signing identity; must equal the recorded initializer.
    pub initializer: Key,
    /// The vault holding the deposit.
    pub vault_account: Key,
    /// The account to refund; must equal the recorded source account.
    pub initializer_deposit_token_account: Key,
}

/// The account set `exchange` takes.
#[derive(Clone, Copy)]
pub struct Exchange {
    /// The signing counterparty; any identity may fill the trade.
    pub taker: Key,
    /// The counterparty's asset B source account.
    pub taker_deposit_token_account: Key,
    /// The counterparty's asset A destination account.
    pub taker_receive_token_account: Key,
    /// The initializer's recorded source account.
    pub initializer_deposit_token_account: Key,
    /// The initializer's recorded asset B destination account.
    pub initializer_receive_token_account: Key,
    /// The recorded initializer identity.
    pub initializer: Key,
    /// The vault holding the deposit.
    pub vault_account: Key,
}

/// An ACTIVE trade: the record plus the vault it was created with.
#[derive(Clone, Copy)]
pub struct ActiveTrade {
    pub escrow: EscrowAccount,
    pub vault_account: Key,
}

/// The mathematical state of an ACTIVE record.
#[verifier::ext_equal]
pub struct RecordState {
    pub initializer_key: Seq<u8>,
    pub initializer_deposit_token_account: Seq<u8>,
    pub initializer_receive_token_account: Seq<u8>,
    pub initializer_amount: u64,
    pub taker_amount: u64,
    pub vault_account: Seq<u8>,
}

/// The mathematical state of the whole protocol: the ledger, the record (or
/// none), and the derived controller identity.
#[verifier::ext_equal]
pub struct ProtocolState {
    pub accounts: Map<Seq<u8>, AccountState>,
    pub record: Option<RecordState>,
    pub controller: Seq<u8>,
}

/// While a record is ACTIVE, its vault exists, is controlled by the derived
/// controller and by nobody else, and holds at least the recorded deposit.
pub open spec fn state_wf(s: ProtocolState) -> bool {
    match s.record {
        Some(rec) => s.accounts.contains_key(rec.vault_account)
            && s.accounts[rec.vault_account].authority == s.controller
            && s.accounts[rec.vault_account].amount >= rec.initializer_amount,
        None => true,
    }
}

/// What `initialize_escrow` does: the resulting state and the outcome.
pub open spec fn spec_initialize(
    s: ProtocolState,
    ctx: Initialize,
    initializer_amount: u64,
    taker_amount: u64,
) -> (ProtocolState, Result<(), EscrowError>) {
    if s.record is Some {
        (s, Err(EscrowError::EscrowInUse))
    } else if !s.accounts.contains_key(ctx.vault_account@) {
        (s, Err(EscrowError::UnknownAccount))
    } else if s.accounts[ctx.vault_account@].amount != 0 {
        (s, Err(EscrowError::VaultNotFresh))
    } else if s.accounts[ctx.vault_account@].asset != ctx.mint@ {
        (s, Err(EscrowError::AssetMismatch))
    } else {
        match set_authority_result(s.accounts, ctx.vault_account@, ctx.initializer@, s.controller) {
            Err(e) => (s, Err(e)),
            Ok(_) => {
                let m1 = set_authority_state(
                    s.accounts,
                    ctx.vault_account@,
                    ctx.initializer@,
                    s.controller,
                );
                match transfer_result(
                    m1,
                    ctx.initializer_deposit_token_account@,
                    ctx.vault_account@,
                    initializer_amount,
                    ctx.initializer@,
                ) {
                    Err(e) => (s, Err(e)),
                    Ok(_) => (
                        ProtocolState {
                            accounts: transfer_state(
                                m1,
                                ctx.initializer_deposit_token_account@,
                                ctx.vault_account@,
                                initializer_amount,
                                ctx.initializer@,
                            ),
                            record: Some(
                                RecordState {
                                    initializer_key: ctx.initializer@,
                                    initializer_deposit_token_account:
                                        ctx.initializer_deposit_token_account@,
                                    initializer_receive_token_account:
                                        ctx.initializer_receive_token_account@,
                                    initializer_amount,
                                    taker_amount,
                                    vault_account: ctx.vault_account@,
                                },
                            ),
                            controller: s.controller,
                        },
                        Ok(()),
                    ),
                }
            },
        }
    }
}

/// What `cancel_escrow` does: the resulting state and the outcome.
pub open spec fn spec_cancel(s: ProtocolState, ctx: Cancel) -> (
    ProtocolState,
    Result<(), EscrowError>,
) {
    match s.record {
        None => (s, Err(EscrowError::NoActiveRecord)),
        Some(rec) => {
            if ctx.initializer@ != rec.initializer_key {
                (s, Err(EscrowError::IdentityMismatch))
            } else if ctx.initializer_deposit_token_account@
                != rec.initializer_deposit_token_account {
                (s, Err(EscrowError::AccountMismatch))
            } else if ctx.vault_account@ != rec.vault_account {
                (s, Err(EscrowError::AccountMismatch))
            } else {
                match transfer_result(
                    s.accounts,
                    rec.vault_account,
                    rec.initializer_deposit_token_account,
                    rec.initializer_amount,
                    s.controller,
                ) {
                    Err(e) => (s, Err(e)),
                    Ok(_) => (
                        ProtocolState {
                            accounts: transfer_state(
                                s.accounts,
                                rec.vault_account,
                                rec.initializer_deposit_token_account,
                                rec.initializer_amount,
                                s.controller,
                            ),
                            record: None,
                            controller: s.controller,
                        },
                        Ok(()),
                    ),
                }
            }
        },
    }
}

/// What `exchange` does: the resulting state and the outcome.
pub open spec fn spec_exchange(s: ProtocolState, ctx: Exchange) -> (
    ProtocolState,
    Result<(), EscrowError>,
) {
    match s.record {
        None => (s, Err(EscrowError::NoActiveRecord)),
        Some(rec) => {
            if ctx.initializer@ != rec.initializer_key {
                (s, Err(EscrowError::IdentityMismatch))
            } else if ctx.initializer_deposit_token_account@
                != rec.initializer_deposit_token_account {
                (s, Err(EscrowError::AccountMismatch))
            } else if ctx.initializer_receive_token_account@
                != rec.initializer_receive_token_account {
                (s, Err(EscrowError::AccountMismatch))
            } else if ctx.vault_account@ != rec.vault_account {
                (s, Err(EscrowError::AccountMismatch))
            } else {
                match transfer_result(
                    s.accounts,
                    ctx.taker_deposit_token_account@,
                    rec.initializer_receive_token_account,
                    rec.taker_amount,
                    ctx.taker@,
                ) {
                    Err(e) => (s, Err(e)),
                    Ok(_) => {
                        let m1 = transfer_state(
                            s.accounts,
                            ctx.taker_deposit_token_account@,
                            rec.initializer_receive_token_account,
                            rec.taker_amount,
                            ctx.taker@,
                        );
                        match transfer_result(
                            m1,
                            rec.vault_account,
                            ctx.taker_receive_token_account@,
                            rec.initializer_amount,
                            s.controller,
                        ) {
                            Err(e) => (s, Err(e)),
                            Ok(_) => {
                                let m2 = transfer_state(
                                    m1,
                                    rec.vault_account,
                                    ctx.taker_receive_token_account@,
                                    rec.initializer_amount,
                                    s.controller,
                                );
                                match close_result(m2, rec.vault_account, s.controller) {
                                    Err(e) => (s, Err(e)),
                                    Ok(_) => (
                                        ProtocolState {
                                            accounts: close_state(
                                                m2,
                                                rec.vault_account,
                                                s.controller,
                                            ),
                                            record: None,
                                            controller: s.controller,
                                        },
                                        Ok(()),
                                    ),
                                }
                            },
                        }
                    },
                }
            }
        },
    }
}

/// What a client-submitted transfer does. The authorizing identity is the
/// client's own signature, and no external party can sign as the derived
/// controller, so signing as the controller is refused outright.
pub open spec fn spec_client_transfer(
    s: ProtocolState,
    from: Seq<u8>,
    to: Seq<u8>,
    amount: u64,
    signer: Seq<u8>,
) -> (ProtocolState, Result<(), EscrowError>) {
    if signer == s.controller {
        (s, Err(EscrowError::ControllerImpersonation))
    } else {
        match transfer_result(s.accounts, from, to, amount, signer) {
            Err(e) => (s, Err(e)),
            Ok(_) => (
                ProtocolState {
                    accounts: transfer_state(s.accounts, from, to, amount, signer),
                    record: s.record,
                    controller: s.controller,
                },
                Ok(()),
            ),
        }
    }
}

/// What a client-submitted account closure does.
pub open spec fn spec_client_close(s: ProtocolState, account: Seq<u8>, signer: Seq<u8>) -> (
    ProtocolState,
    Result<(), EscrowError>,
) {
    if signer == s.controller {
        (s, Err(EscrowError::ControllerImpersonation))
    } else {
        match close_result(s.accounts, account, signer) {
            Err(e) => (s, Err(e)),
            Ok(_) => (
                ProtocolState {
                    accounts: close_state(s.accounts, account, signer),
                    record: s.record,
                    controller: s.controller,
                },
                Ok(()),
            ),
        }
    }
}

/// The protocol instance: the ledger it acts on, the active record if any,
/// and the derived controller identity with its bump.
pub struct EscrowApp {
    ledger: Ledger,
    active: Option<ActiveTrade>,
    program_id: Key,
    controller: Key,
    bump: u8,
}

impl View for EscrowApp {
    type V = ProtocolState;

    closed spec fn view(&self) -> ProtocolState {
        ProtocolState {
            accounts: self.ledger@,
            record: match self.active {
                Some(t) => Some(
                    RecordState {
                        initializer_key: t.escrow.initializer_key@,
                        initializer_deposit_token_account:
                            t.escrow.initializer_deposit_token_account@,
                        initializer_receive_token_account:
                            t.escrow.initializer_receive_token_account@,
                        initializer_amount: t.escrow.initializer_amount,
                        taker_amount: t.escrow.taker_amount,
                        vault_account: t.vault_account@,
                    },
                ),
                None => None,
            },
            controller: self.controller@,
        }
    }
}

impl EscrowApp {
    /// The representation is valid and the protocol invariant holds.
    pub closed spec fn wf(self) -> bool {
        self.ledger.wf() && state_wf(self.view())
    }

    /// The bump byte the controller was derived with.
    pub closed spec fn spec_bump(self) -> u8 {
        self.bump
    }

    /// The program id the controller was derived from.
    pub closed spec fn spec_program_id(self) -> Seq<u8> {
        self.program_id@
    }

    /// A protocol instance over an empty ledger, its controller derived from
    /// the given program id; nothing if the derivation finds no bump.
    pub fn new(program_id: Key) -> (r: Option<EscrowApp>)
        ensures
            match r {
                Some(app) => app.wf() && app@.accounts == Map::<Seq<u8>, AccountState>::empty()
                    && app@.record is None && app.spec_program_id() == program_id@ && (
                derived_authority(escrow_seed(), program_id@) matches Some(q) && app@.controller
                    == q.0 && app.spec_bump() == q.1),
                None => derived_authority(escrow_seed(), program_id@) is None,
            },
    {
        match derive_controller(&program_id) {
            Some((controller, bump)) => Some(
                EscrowApp { ledger: Ledger::new(), active: None, program_id, controller, bump },
            ),
            None => None,
        }
    }

    /// The derived controller identity.
    pub fn controller_key(&self) -> (r: Key)
        ensures
            r@ == self@.controller,
    {
        self.controller
    }

    /// The bump byte the controller was derived with.
    pub fn bump_seed(&self) -> (r: u8)
        ensures
            r == self.spec_bump(),
    {
        self.bump
    }

    /// The program id the controller was derived from.
    pub fn program_key(&self) -> (r: Key)
        ensures
            r@ == self.spec_program_id(),
    {
        self.program_id
    }

    /// Whether a record is ACTIVE.
    pub fn has_active_record(&self) -> (r: bool)
        ensures
            r == (self@.record is Some),
    {
        self.active.is_some()
    }

    /// The ACTIVE record, if any.
    pub fn record(&self) -> (r: Option<EscrowAccount>)
        ensures
            match r {
                Some(e) => self@.record matches Some(rec) && e.initializer_key@
                    == rec.initializer_key && e.initializer_deposit_token_account@
                    == rec.initializer_deposit_token_account
                    && e.initializer_receive_token_account@
                    == rec.initializer_receive_token_account && e.initializer_amount
                    == rec.initializer_amount && e.taker_amount == rec.taker_amount,
                None => self@.record is None,
            },
    {
        match self.active {
            Some(t) => Some(t.escrow),
            None => None,
        }
    }

    /// The vault of the ACTIVE record, if any.
    pub fn vault_key(&self) -> (r: Option<Key>)
        ensures
            match r {
                Some(k) => self@.record matches Some(rec) && k@ == rec.vault_account,
                None => self@.record is None,
            },
    {
        match self.active {
            Some(t) => Some(t.vault_account),
            None => None,
        }
    }

    /// Whether an account with this key exists on the ledger.
    pub fn has_account(&self, key: &Key) -> (r: bool)
        requires
            self.wf(),
        ensures
            r == self@.accounts.contains_key(key@),
    {
        self.ledger.has_account(key)
    }

    /// The balance under this key, if the account exists.
    pub fn balance_of(&self, key: &Key) -> (r: Option<u64>)
        requires
            self.wf(),
        ensures
            match r {
                Some(b) => self@.accounts.contains_key(key@) && b == self@.accounts[key@].amount,
                None => !self@.accounts.contains_key(key@),
            },
    {
        self.ledger.balance_of(key)
    }

    /// The authority under this key, if the account exists.
    pub fn authority_of(&self, key: &Key) -> (r: Option<Key>)
        requires
            self.wf(),
        ensures
            match r {
                Some(a) => self@.accounts.contains_key(key@) && a@
                    == self@.accounts[key@].authority,
                None => !self@.accounts.contains_key(key@),
            },
    {
        self.ledger.authority_of(key)
    }

    /// Provision a fresh ledger account.
    pub fn open_account(&mut self, key: &Key, asset: &Key, authority: &Key, amount: u64) -> (r:
        Result<(), EscrowError>)
        requires
            old(self).wf(),
        ensures
            final(self).wf(),
            r == open_result(old(self)@.accounts, key@),
            final(self)@.accounts == open_state(old(self)@.accounts, key@, asset@, authority@, amount),
            final(self)@.record == old(self)@.record,
            final(self)@.controller == old(self)@.controller,
    {
        self.ledger.open_account(key, asset, authority, amount)
    }

    /// A transfer submitted by a client, signed with its own identity.
    pub fn client_transfer(&mut self, from: &Key, to: &Key, amount: u64, signer: &Key) -> (r:
        Result<(), EscrowError>)
        requires
            old(self).wf(),
        ensures
            final(self).wf(),
            r == spec_client_transfer(old(self)@, from@, to@, amount, signer@).1,
            final(self)@ == spec_client_transfer(old(self)@, from@, to@, amount, signer@).0,
            r is Err ==> final(self)@ == old(self)@,
    {
        if key_eq(signer, &self.controller) {
            return Err(EscrowError::ControllerImpersonation);
        }
        let r = self.ledger.transfer(from, to, amount, signer);
        match r {
            Err(e) => Err(e),
            Ok(_) => Ok(()),
        }
    }

    /// An account closure submitted by a client, signed with its own
    /// identity.
    pub fn client_close(&mut self, account: &Key, signer: &Key) -> (r: Result<(), EscrowError>)
        requires
            old(self).wf(),
        ensures
            final(self).wf(),
            r == spec_client_close(old(self)@, account@, signer@).1,
            final(self)@ == spec_client_close(old(self)@, account@, signer@).0,
            r is Err ==> final(self)@ == old(self)@,
    {
        if key_eq(signer, &self.controller) {
            return Err(EscrowError::ControllerImpersonation);
        }
        let r = self.ledger.close_account(account, signer);
        match r {
            Err(e) => Err(e),
            Ok(_) => Ok(()),
        }
    }
}

/// A valid protocol instance satisfies the protocol invariant: while a
/// record is ACTIVE its vault exists, is controlled by the derived
/// controller, and holds at least the recorded deposit.
pub proof fn lemma_wf_state(app: EscrowApp)
    requires
        app.wf(),
    ensures
        state_wf(app@),
{
}

/// Create the escrow: record the trade's terms, hand the vault's transfer
/// authority to the derived controller, and move the deposit into the vault —
/// all of it, or nothing.
pub fn initialize_escrow(
    app: &mut EscrowApp,
    ctx: Initialize,
    initializer_amount: u64,
    taker_amount: u64,
) -> (r: Result<(), EscrowError>)
    requires
        old(app).wf(),
    ensures
        final(app).wf(),
        r == spec_initialize(old(app)@, ctx, initializer_amount, taker_amount).1,
        final(app)@ == spec_initialize(old(app)@, ctx, initializer_amount, taker_amount).0,
        r is Err ==> final(app)@ == old(app)@,
{
    if app.active.is_some() {
        return Err(EscrowError::EscrowInUse);
    }
    let vault = match app.ledger.get_account(&ctx.vault_account) {
        Some(a) => a,
        None => {
            return Err(EscrowError::UnknownAccount);
        },
    };
    if vault.amount != 0 {
        return Err(EscrowError::VaultNotFresh);
    }
    if !key_eq(&vault.asset, &ctx.mint) {
        return Err(EscrowError::AssetMismatch);
    }
    let mut staged = app.ledger.duplicate();
    match staged.set_authority(&ctx.vault_account, &ctx.initializer, &app.controller) {
        Err(e) => {
            return Err(e);
        },
        Ok(_) => {},
    }
    match staged.transfer(
        &ctx.initializer_deposit_token_account,
        &ctx.vault_account,
        initializer_amount,
        &ctx.initializer,
    ) {
        Err(e) => {
            return Err(e);
        },
        Ok(_) => {},
    }
    app.ledger = staged;
    app.active = Some(
        ActiveTrade {
            escrow: EscrowAccount {
                initializer_key: ctx.initializer,
                initializer_deposit_token_account: ctx.initializer_deposit_token_account,
                initializer_receive_token_account: ctx.initializer_receive_token_account,
                initializer_amount,
                taker_amount,
            },
            vault_account: ctx.vault_account,
        },
    );
    Ok(())
}

/// Cancel the trade: refund the full deposit from the vault to the recorded
/// source account, authorized by the derived controller, and destroy the
/// record — all of it, or nothing.
pub fn cancel_escrow(app: &mut EscrowApp, ctx: Cancel) -> (r: Result<(), EscrowError>)
    requires
        old(app).wf(),
    ensures
        final(app).wf(),
        r == spec_cancel(old(app)@, ctx).1,
        final(app)@ == spec_cancel(old(app)@, ctx).0,
        r is Err ==> final(app)@ == old(app)@,
{
    let trade = match app.active {
        Some(t) => t,
        None => {
            return Err(EscrowError::NoActiveRecord);
        },
    };
    if !key_eq(&ctx.initializer, &trade.escrow.initializer_key) {
        return Err(EscrowError::IdentityMismatch);
    }
    if !key_eq(
        &ctx.initializer_deposit_token_account,
        &trade.escrow.initializer_deposit_token_account,
    ) {
        return Err(EscrowError::AccountMismatch);
    }
    if !key_eq(&ctx.vault_account, &trade.vault_account) {
        return Err(EscrowError::AccountMismatch);
    }
    let mut staged = app.ledger.duplicate();
    match staged.transfer(
        &trade.vault_account,
        &trade.escrow.initializer_deposit_token_account,
        trade.escrow.initializer_amount,
        &app.controller,
    ) {
        Err(e) => {
            return Err(e);
        },
        Ok(_) => {},
    }
    app.ledger = staged;
    app.active = None;
    Ok(())
}

/// Fill the trade: move the required asset B from the counterparty to the
/// recorded destination, move the deposit from the vault to the counterparty,
/// close the vault, and destroy the record — all of it, or nothing. The
/// counterparty's side moves first, so a failed fill leaves the vault
/// untouched and the record re-fillable.
pub fn exchange(app: &mut EscrowApp, ctx: Exchange) -> (r: Result<(), EscrowError>)
    requires
        old(app).wf(),
    ensures
        final(app).wf(),
        r == spec_exchange(old(app)@, ctx).1,
        final(app)@ == spec_exchange(old(app)@, ctx).0,
        r is Err ==> final(app)@ == old(app)@,
{
    let trade = match app.active {
        Some(t) => t,
        None => {
            return Err(EscrowError::NoActiveRecord);
        },
    };
    if !key_eq(&ctx.initializer, &trade.escrow.initializer_key) {
        return Err(EscrowError::IdentityMismatch);
    }
    if !key_eq(
        &ctx.initializer_deposit_token_account,
        &trade.escrow.initializer_deposit_token_account,
    ) {
        return Err(EscrowError::AccountMismatch);
    }
    if !key_eq(
        &ctx.initializer_receive_token_account,
        &trade.escrow.initializer_receive_token_account,
    ) {
        return Err(EscrowError::AccountMismatch);
    }
    if !key_eq(&ctx.vault_account, &trade.vault_account) {
        return Err(EscrowError::AccountMismatch);
    }
    let mut staged = app.ledger.duplicate();
    match staged.transfer(
        &ctx.taker_deposit_token_account,
        &trade.escrow.initializer_receive_token_account,
        trade.escrow.taker_amount,
        &ctx.taker,
    ) {
        Err(e) => {
            return Err(e);
        },
        Ok(_) => {},
    }
    match staged.transfer(
        &trade.vault_account,
        &ctx.taker_receive_token_account,
        trade.escrow.initializer_amount,
        &app.controller,
    ) {
        Err(e) => {
            return Err(e);
        },
        Ok(_) => {},
    }
    match staged.close_account(&trade.vault_account, &app.controller) {
        Err(e) => {
            return Err(e);
        },
        Ok(_) => {},
    }
    app.ledger = staged;
    app.active = None;
    Ok(())
}

} // verus!
