//! Provisioning: create the State Record and bind it to the reserve.

use vstd::prelude::*;
use crate::accounts::{StateSlot, TokenAccountInfo};
use crate::addr::Address;
use crate::error::{ErrorCode, TokadaptError};
use crate::pda::{
    authority_seeds, authority_seeds_with_bump, derive_reserve_authority, pda_from_seeds,
    pda_with_bump,
};
use crate::state::State;

verus! {

/// The accounts provisioning runs against: a fresh slot for the record and
/// the already-existing reserve, together with the environment's facts about
/// them.
pub struct Initialize {
    /// The freshly allocated, zero-valued slot that will hold the record.
    pub state: StateSlot,
    /// Whether the slot's deposit covers rent, as the environment reports it.
    pub rent_exempt: bool,
    /// The reserve token account, created beforehand and pre-bound to the
    /// record's future derived authority.
    pub output_storage: TokenAccountInfo,
    /// The program's own identity, fixed at startup.
    pub program_id: Address,
}

/// Everything provisioning checks before it writes anything.
pub open spec fn init_checks_ok(s: Initialize) -> bool {
    &&& s.state.data is None
    &&& s.rent_exempt
    &&& pda_from_seeds(authority_seeds(s.state.key@), s.program_id@) matches Some(p)
        && s.output_storage.owner@ == p.0
    &&& s.output_storage.close_authority is None
    &&& s.output_storage.delegate is None
}

/// The record provisioning writes on success.
pub open spec fn provisioned_state(
    s: Initialize,
    admin_authority: Address,
    input_mint: Address,
) -> State {
    State {
        admin_authority,
        input_mint,
        output_storage: s.output_storage.key,
        output_storage_authority_bump: pda_from_seeds(
            authority_seeds(s.state.key@),
            s.program_id@,
        )->Some_0.1,
    }
}

/// The exact outcome of provisioning, in the order the checks run.
pub open spec fn init_outcome(s: Initialize) -> Result<(), TokadaptError> {
    if s.state.data is Some {
        Err(TokadaptError::StateNotFresh)
    } else if !s.rent_exempt {
        Err(TokadaptError::NotRentCovered)
    } else if pda_from_seeds(authority_seeds(s.state.key@), s.program_id@) is None {
        Err(TokadaptError::DerivationFailed)
    } else if s.output_storage.owner@ != pda_from_seeds(
        authority_seeds(s.state.key@),
        s.program_id@,
    )->Some_0.0 {
        Err(TokadaptError::Program(ErrorCode::OutputStorageAuthorityDoesNotMatch))
    } else if s.output_storage.close_authority is Some {
        Err(TokadaptError::Program(ErrorCode::OutputStorageMustNotBeCloseable))
    } else if s.output_storage.delegate is Some {
        Err(TokadaptError::Program(ErrorCode::OutputStorageMustNotBeDelegated))
    } else {
        Ok(())
    }
}

/// A record binds its reserve to the derived authority: re-deriving from the
/// recorded bump yields exactly the authority the reserve is owned by.
pub open spec fn reserve_bound(st: State, state_key: Seq<u8>, program_id: Seq<u8>, reserve_owner: Seq<u8>) -> bool {
    pda_with_bump(
        authority_seeds_with_bump(state_key, st.output_storage_authority_bump),
        program_id,
    ) == Some(reserve_owner)
}

impl Initialize {
    /// Derive the reserve authority, check the reserve is exclusively and
    /// irrevocably bound to it, and write the record; on any rejection the
    /// slot is left untouched.
    pub fn process(&mut self, admin_authority: Address, input_mint: Address) -> (r: Result<
        (),
        TokadaptError,
    >)
        ensures
            r == init_outcome(*old(self)),
            r is Ok ==> (final(self).state.data matches Some(st) && state_eq_provisioned(
                st,
                *old(self),
                admin_authority,
                input_mint,
            )),
            r is Ok ==> (final(self).state.data matches Some(st) && reserve_bound(
                st,
                old(self).state.key@,
                old(self).program_id@,
                old(self).output_storage.owner@,
            )),
            r is Err ==> *final(self) == *old(self),
            final(self).state.key == old(self).state.key,
            final(self).state.lamports == old(self).state.lamports,
            final(self).output_storage == old(self).output_storage,
            final(self).program_id == old(self).program_id,
    {
        if self.state.data.is_some() {
            return Err(TokadaptError::StateNotFresh);
        }
        if !self.rent_exempt {
            return Err(TokadaptError::NotRentCovered);
        }
        let derived = derive_reserve_authority(&self.state.key, &self.program_id);
        let (authority, bump) = match derived {
            Some(p) => p,
            None => {
                return Err(TokadaptError::DerivationFailed);
            },
        };
        if !crate::addr::address_eq(&self.output_storage.owner, &authority) {
            return Err(TokadaptError::Program(ErrorCode::OutputStorageAuthorityDoesNotMatch));
        }
        if self.output_storage.close_authority.is_some() {
            return Err(TokadaptError::Program(ErrorCode::OutputStorageMustNotBeCloseable));
        }
        if self.output_storage.delegate.is_some() {
            return Err(TokadaptError::Program(ErrorCode::OutputStorageMustNotBeDelegated));
        }
        self.state.data = Some(
            State {
                admin_authority,
                input_mint,
                output_storage: self.output_storage.key,
                output_storage_authority_bump: bump,
            },
        );
        Ok(())
    }
}

/// The record a successful provisioning leaves behind, field by field.
pub open spec fn state_eq_provisioned(
    st: State,
    s: Initialize,
    admin_authority: Address,
    input_mint: Address,
) -> bool {
    &&& st.admin_authority@ == admin_authority@
    &&& st.input_mint@ == input_mint@
    &&& st.output_storage@ == s.output_storage.key@
    &&& st.output_storage_authority_bump == pda_from_seeds(
        authority_seeds(s.state.key@),
        s.program_id@,
    )->Some_0.1
}

/// Provision the adapter: the program's first entry point.
pub fn initialize(
    accounts: &mut Initialize,
    admin_authority: Address,
    input_mint: Address,
) -> (r: Result<(), TokadaptError>)
    ensures
        r == init_outcome(*old(accounts)),
        r is Ok ==> (final(accounts).state.data matches Some(st) && state_eq_provisioned(
            st,
            *old(accounts),
            admin_authority,
            input_mint,
        ) && reserve_bound(
            st,
            old(accounts).state.key@,
            old(accounts).program_id@,
            old(accounts).output_storage.owner@,
        )),
        r is Err ==> *final(accounts) == *old(accounts),
{
    accounts.process(admin_authority, input_mint)
}

} // verus!
