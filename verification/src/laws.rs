//! The protocol's laws, stated and proved over the operations' mathematical
//! descriptions.

use vstd::prelude::*;

use crate::errors::EscrowError;
use crate::escrow::{
    spec_cancel, spec_exchange, spec_initialize, state_wf, Cancel, Exchange, Initialize,
    ProtocolState,
};
use crate::ledger::{
    amount_of, close_result, close_state, set_authority_result, set_authority_state,
    transfer_result, transfer_state,
};

verus! {

/// Atomicity: every operation either applies all of its ledger effects and
/// its record mutation, or none — a rejected operation leaves the whole
/// protocol state exactly as it was.
pub proof fn lemma_atomicity(
    s: ProtocolState,
    ctx_i: Initialize,
    initializer_amount: u64,
    taker_amount: u64,
    ctx_c: Cancel,
    ctx_e: Exchange,
)
    ensures
        spec_initialize(s, ctx_i, initializer_amount, taker_amount).1 is Err ==> spec_initialize(
            s,
            ctx_i,
            initializer_amount,
            taker_amount,
        ).0 == s,
        spec_cancel(s, ctx_c).1 is Err ==> spec_cancel(s, ctx_c).0 == s,
        spec_exchange(s, ctx_e).1 is Err ==> spec_exchange(s, ctx_e).0 == s,
{
}

/// Mutual exclusion: once either terminal transition has consumed the ACTIVE
/// record, every later `cancel_escrow` or `exchange` is rejected with "no
/// active record" and changes nothing — at most one of two competing terminal
/// transitions succeeds.
pub proof fn lemma_mutual_exclusion(
    s: ProtocolState,
    first_cancel: Cancel,
    first_exchange: Exchange,
    second_cancel: Cancel,
    second_exchange: Exchange,
)
    ensures
        spec_cancel(s, first_cancel).1 is Ok ==> {
            let s2 = spec_cancel(s, first_cancel).0;
            &&& spec_cancel(s2, second_cancel).1 == Err::<(), EscrowError>(
                EscrowError::NoActiveRecord,
            )
            &&& spec_cancel(s2, second_cancel).0 == s2
            &&& spec_exchange(s2, second_exchange).1 == Err::<(), EscrowError>(
                EscrowError::NoActiveRecord,
            )
            &&& spec_exchange(s2, second_exchange).0 == s2
        },
        spec_exchange(s, first_exchange).1 is Ok ==> {
            let s2 = spec_exchange(s, first_exchange).0;
            &&& spec_cancel(s2, second_cancel).1 == Err::<(), EscrowError>(
                EscrowError::NoActiveRecord,
            )
            &&& spec_cancel(s2, second_cancel).0 == s2
            &&& spec_exchange(s2, second_exchange).1 == Err::<(), EscrowError>(
                EscrowError::NoActiveRecord,
            )
            &&& spec_exchange(s2, second_exchange).0 == s2
        },
{
}

/// Authority confinement: while a record is ACTIVE, no transfer out of the
/// vault, no reassignment of the vault's authority, and no closure of the
/// vault can be authorized by any identity other than the derived controller
/// — every such attempt is rejected and moves nothing.
pub proof fn lemma_authority_confinement(
    s: ProtocolState,
    to: Seq<u8>,
    amount: u64,
    authority: Seq<u8>,
    new_authority: Seq<u8>,
)
    requires
        state_wf(s),
        s.record is Some,
        authority != s.controller,
    ensures
        ({
            let vault = s.record->Some_0.vault_account;
            &&& transfer_result(s.accounts, vault, to, amount, authority) is Err
            &&& transfer_state(s.accounts, vault, to, amount, authority) == s.accounts
            &&& set_authority_result(s.accounts, vault, authority, new_authority) is Err
            &&& set_authority_state(s.accounts, vault, authority, new_authority) == s.accounts
            &&& close_result(s.accounts, vault, authority) is Err
            &&& close_state(s.accounts, vault, authority) == s.accounts
        }),
{
}

/// Conservation under `initialize_escrow`: the deposit is purely relocated —
/// the total held by the source account and the vault is unchanged, and no
/// other account's balance moves.
pub proof fn lemma_conservation_initialize(
    s: ProtocolState,
    ctx: Initialize,
    initializer_amount: u64,
    taker_amount: u64,
)
    requires
        spec_initialize(s, ctx, initializer_amount, taker_amount).1 is Ok,
    ensures
        ({
            let s2 = spec_initialize(s, ctx, initializer_amount, taker_amount).0;
            &&& amount_of(s2.accounts, ctx.initializer_deposit_token_account@) + amount_of(
                s2.accounts,
                ctx.vault_account@,
            ) == amount_of(s.accounts, ctx.initializer_deposit_token_account@) + amount_of(
                s.accounts,
                ctx.vault_account@,
            )
            &&& forall|k: Seq<u8>|
                k != ctx.initializer_deposit_token_account@ && k != ctx.vault_account@
                    ==> amount_of(s2.accounts, k) == amount_of(s.accounts, k)
        }),
{
}

/// Conservation under `cancel_escrow`: the refund is purely relocated — the
/// total held by the vault and the recorded source account is unchanged, and
/// no other account's balance moves.
pub proof fn lemma_conservation_cancel(s: ProtocolState, ctx: Cancel)
    requires
        spec_cancel(s, ctx).1 is Ok,
    ensures
        ({
            let s2 = spec_cancel(s, ctx).0;
            &&& amount_of(s2.accounts, ctx.vault_account@) + amount_of(
                s2.accounts,
                ctx.initializer_deposit_token_account@,
            ) == amount_of(s.accounts, ctx.vault_account@) + amount_of(
                s.accounts,
                ctx.initializer_deposit_token_account@,
            )
            &&& forall|k: Seq<u8>|
                k != ctx.vault_account@ && k != ctx.initializer_deposit_token_account@
                    ==> amount_of(s2.accounts, k) == amount_of(s.accounts, k)
        }),
{
}

/// Conservation under a successful `exchange`: a pure swap — the total of
/// asset A held by the vault and the counterparty's destination is unchanged,
/// the total of asset B held by the counterparty's source and the
/// initializer's destination is unchanged, and no account outside those four
/// moves. Stated for pairwise distinct accounts, as a sum over a set of
/// accounts presumes.
pub proof fn lemma_conservation_exchange(s: ProtocolState, ctx: Exchange)
    requires
        spec_exchange(s, ctx).1 is Ok,
        ctx.vault_account@ != ctx.taker_receive_token_account@,
        ctx.vault_account@ != ctx.taker_deposit_token_account@,
        ctx.vault_account@ != ctx.initializer_receive_token_account@,
        ctx.taker_receive_token_account@ != ctx.taker_deposit_token_account@,
        ctx.taker_receive_token_account@ != ctx.initializer_receive_token_account@,
        ctx.taker_deposit_token_account@ != ctx.initializer_receive_token_account@,
    ensures
        ({
            let s2 = spec_exchange(s, ctx).0;
            &&& amount_of(s2.accounts, ctx.vault_account@) + amount_of(
                s2.accounts,
                ctx.taker_receive_token_account@,
            ) == amount_of(s.accounts, ctx.vault_account@) + amount_of(
                s.accounts,
                ctx.taker_receive_token_account@,
            )
            &&& amount_of(s2.accounts, ctx.taker_deposit_token_account@) + amount_of(
                s2.accounts,
                ctx.initializer_receive_token_account@,
            ) == amount_of(s.accounts, ctx.taker_deposit_token_account@) + amount_of(
                s.accounts,
                ctx.initializer_receive_token_account@,
            )
            &&& forall|k: Seq<u8>|
                k != ctx.vault_account@ && k != ctx.taker_receive_token_account@ && k
                    != ctx.taker_deposit_token_account@ && k
                    != ctx.initializer_receive_token_account@ ==> amount_of(s2.accounts, k)
                    == amount_of(s.accounts, k)
        }),
{
}

} // verus!
