//! The laws the adapter obeys, stated and proved once over the contracts of
//! the operations.

use vstd::prelude::*;
use crate::accounts::TokenAccountInfo;
use crate::addr::{spec_opt_addr_eq, system_program_id, Address};
use crate::admin::{admin_authorized, set_admin_outcome, SetAdmin};
use crate::close::{close_derived_authority, close_outcome, Close};
use crate::error::{ErrorCode, TokadaptError};
use crate::initialize::{init_outcome, reserve_bound, Initialize};
use crate::pda::{authority_seeds, authority_seeds_with_bump, pda_from_seeds, pda_with_bump};
use crate::state::State;
use crate::swap::{spec_effective_amount, swap_derived_authority, swap_outcome, Swap};

verus! {

/// The authority recorded at provisioning is stable: re-deriving from the
/// seed label, the record's address and the recorded bump always yields
/// exactly the authority the reserve was bound to.
pub proof fn lemma_provisioned_authority_stable(
    st: State,
    state_key: Seq<u8>,
    program_id: Seq<u8>,
    reserve_owner: Seq<u8>,
)
    requires
        reserve_bound(st, state_key, program_id, reserve_owner),
    ensures
        pda_with_bump(
            authority_seeds_with_bump(state_key, st.output_storage_authority_bump),
            program_id,
        ) == Some(reserve_owner),
{
}

/// A later exchange against a provisioned record re-derives exactly the
/// bound authority: derivation cannot fail, and the authority account the
/// exchange accepts is the reserve's owner.
pub proof fn lemma_swap_uses_provisioned_authority(s: Swap, reserve_owner: Seq<u8>, amount: u64)
    requires
        reserve_bound(s.state, s.state_key@, s.program_id@, reserve_owner),
    ensures
        swap_derived_authority(s) == Some(reserve_owner),
        swap_outcome(s, amount) != Err::<u64, TokadaptError>(TokadaptError::DerivationFailed),
{
}

/// A later decommission against a provisioned record re-derives exactly the
/// bound authority.
pub proof fn lemma_close_uses_provisioned_authority(c: Close, reserve_owner: Seq<u8>)
    requires
        c.state.data is Some,
        reserve_bound(c.state.data->Some_0, c.state.key@, c.program_id@, reserve_owner),
    ensures
        close_derived_authority(c) == Some(reserve_owner),
{
}

/// Provisioning is rejected in each of the three independent bad-reserve
/// cases: an owner other than the derived authority, a close authority
/// present, a delegate present. The slot is untouched either way, by the
/// contract of `Initialize::process`.
pub proof fn lemma_provisioning_rejections(s: Initialize)
    requires
        s.state.data is None,
        s.rent_exempt,
        pda_from_seeds(authority_seeds(s.state.key@), s.program_id@) is Some,
    ensures
        s.output_storage.owner@ != pda_from_seeds(
            authority_seeds(s.state.key@),
            s.program_id@,
        )->Some_0.0 ==> init_outcome(s) == Err::<(), TokadaptError>(
            TokadaptError::Program(ErrorCode::OutputStorageAuthorityDoesNotMatch),
        ),
        (s.output_storage.owner@ == pda_from_seeds(
            authority_seeds(s.state.key@),
            s.program_id@,
        )->Some_0.0 && s.output_storage.close_authority is Some) ==> init_outcome(s)
            == Err::<(), TokadaptError>(
            TokadaptError::Program(ErrorCode::OutputStorageMustNotBeCloseable),
        ),
        (s.output_storage.owner@ == pda_from_seeds(
            authority_seeds(s.state.key@),
            s.program_id@,
        )->Some_0.0 && s.output_storage.close_authority is None && s.output_storage.delegate
            is Some) ==> init_outcome(s) == Err::<(), TokadaptError>(
            TokadaptError::Program(ErrorCode::OutputStorageMustNotBeDelegated),
        ),
{
}

/// The sentinel maximum resolves to exactly the input account's balance for
/// its owner, and to exactly the remaining delegated allowance — not the
/// balance — for a delegate.
pub proof fn lemma_sentinel_resolution(s: Swap)
    requires
        s.input_mint@ == s.state.input_mint@,
        s.output_storage.key@ == s.state.output_storage@,
        swap_derived_authority(s) == Some(s.output_storage_authority@),
        s.input.mint@ == s.state.input_mint@,
    ensures
        (s.input.owner@ == s.input_authority@ && s.input.amount <= s.output_storage.amount)
            ==> swap_outcome(s, u64::MAX) == Ok::<u64, TokadaptError>(s.input.amount),
        (s.input.owner@ != s.input_authority@ && spec_opt_addr_eq(s.input.delegate, s.input_authority@)
            && s.input.delegated_amount <= s.output_storage.amount) ==> swap_outcome(s, u64::MAX)
            == Ok::<u64, TokadaptError>(s.input.delegated_amount),
{
}

/// A request above the reserve's balance is rejected outright: the
/// preflight returns insufficient funds and hands no checked amount out, so
/// nothing is burned and nothing moves.
pub proof fn lemma_no_partial_fill(s: Swap, amount: u64)
    requires
        s.input_mint@ == s.state.input_mint@,
        s.output_storage.key@ == s.state.output_storage@,
        swap_derived_authority(s) == Some(s.output_storage_authority@),
        s.input.mint@ == s.state.input_mint@,
        spec_effective_amount(s.input, s.input_authority@, amount) matches Some(a) && a
            > s.output_storage.amount,
    ensures
        swap_outcome(s, amount) == Err::<u64, TokadaptError>(TokadaptError::InsufficientFunds),
{
}

/// One exchange of amount `a` moves exactly `a` everywhere it touches: the
/// input balance and the reserve fall by `a`, the destination rises by `a`.
/// The target token's total over reserve and destination is conserved, and
/// the combined total falls by exactly the burned amount, which leaves the
/// input token's supply.
pub proof fn lemma_exchange_conservation(
    before_input: TokenAccountInfo,
    before_reserve: TokenAccountInfo,
    before_target: TokenAccountInfo,
    after_input: TokenAccountInfo,
    after_reserve: TokenAccountInfo,
    after_target: TokenAccountInfo,
    a: u64,
)
    requires
        a <= before_input.amount,
        a <= before_reserve.amount,
        before_target.amount + a <= u64::MAX,
        after_input.amount == before_input.amount - a,
        after_reserve.amount == before_reserve.amount - a,
        after_target.amount == before_target.amount + a,
    ensures
        after_reserve.amount + after_target.amount == before_reserve.amount
            + before_target.amount,
        before_input.amount - after_input.amount == a,
        after_input.amount + after_reserve.amount + after_target.amount + a == before_input.amount
            + before_reserve.amount + before_target.amount,
{
}

/// An accepted exchange is always fully fillable: the checked amount the
/// preflight hands out never exceeds the reserve's balance.
pub proof fn lemma_checked_amount_within_reserve(s: Swap, amount: u64)
    ensures
        swap_outcome(s, amount) matches Ok(a) ==> a <= s.output_storage.amount,
{
}

/// Rotation touches nothing an exchange reads: with only the admin identity
/// rewritten, every exchange resolves exactly as before.
pub proof fn lemma_rotation_does_not_affect_exchange(s: Swap, new_admin: Address, amount: u64)
    ensures
        ({
            let rotated = Swap {
                state_key: s.state_key,
                state: State {
                    admin_authority: new_admin,
                    input_mint: s.state.input_mint,
                    output_storage: s.state.output_storage,
                    output_storage_authority_bump: s.state.output_storage_authority_bump,
                },
                input: s.input,
                input_authority: s.input_authority,
                input_mint: s.input_mint,
                output_storage: s.output_storage,
                output_storage_authority: s.output_storage_authority,
                target: s.target,
                program_id: s.program_id,
            };
            swap_outcome(rotated, amount) == swap_outcome(s, amount)
        }),
{
}

/// Rotation rebinds the admin gate: with the new identity written, an
/// admin-gated operation authorizes exactly the new admin; the old one, if
/// different, is rejected.
pub proof fn lemma_rotation_rebinds_admin(st0: State, new_admin: Address, signer: Seq<u8>)
    ensures
        ({
            let st1 = State {
                admin_authority: new_admin,
                input_mint: st0.input_mint,
                output_storage: st0.output_storage,
                output_storage_authority_bump: st0.output_storage_authority_bump,
            };
            &&& admin_authorized(st1, signer) <==> signer == new_admin@
            &&& new_admin@ != st0.admin_authority@ ==> !admin_authorized(
                st1,
                st0.admin_authority@,
            )
        }),
{
}

/// A signer other than the recorded admin is rejected by rotation.
pub proof fn lemma_rotation_rejects_non_admin(s: SetAdmin, st: State)
    requires
        s.state.data == Some(st),
        s.admin_authority@ != st.admin_authority@,
    ensures
        set_admin_outcome(s) == Err::<(), TokadaptError>(TokadaptError::Unauthorized),
{
}

/// A signer other than the recorded admin is rejected by decommission.
pub proof fn lemma_close_rejects_non_admin(c: Close, st: State)
    requires
        c.state.data == Some(st),
        c.admin_authority@ != st.admin_authority@,
    ensures
        close_outcome(c) == Err::<(), TokadaptError>(TokadaptError::Unauthorized),
{
}

/// Decommission refuses a sweep destination equal to the reserve itself,
/// even when everything else about the request is in order.
pub proof fn lemma_close_rejects_self_sweep(c: Close, st: State)
    requires
        c.state.data == Some(st),
        admin_authorized(st, c.admin_authority@),
        c.output_storage.key@ == st.output_storage@,
        close_derived_authority(c) == Some(c.output_storage_authority@),
        c.rent_collector.owner@ == system_program_id(),
        c.token_target.key@ == st.output_storage@,
    ensures
        close_outcome(c) == Err::<(), TokadaptError>(
            TokadaptError::Program(ErrorCode::InvalidCloseTokenTarget),
        ),
{
}

} // verus!
