//! Admin rotation: change who may administer the record. No effect on funds.

use vstd::prelude::*;
use crate::accounts::StateSlot;
use crate::addr::{address_eq, Address};
use crate::error::TokadaptError;

verus! {

/// The accounts an admin rotation runs against.
pub struct SetAdmin {
    /// The slot holding the live State Record.
    pub state: StateSlot,
    /// The signer asserting to be the current admin.
    pub admin_authority: Address,
}

/// Is this signer the record's admin? Every admin-only operation tests
/// this before anything else.
pub open spec fn admin_authorized(st: crate::state::State, signer: Seq<u8>) -> bool {
    st.admin_authority@ == signer
}

/// The exact outcome of an admin rotation's access check.
pub open spec fn set_admin_outcome(s: SetAdmin) -> Result<(), TokadaptError> {
    if s.state.data is None {
        Err(TokadaptError::StateNotLive)
    } else if !admin_authorized(s.state.data->Some_0, s.admin_authority@) {
        Err(TokadaptError::Unauthorized)
    } else {
        Ok(())
    }
}

impl SetAdmin {
    /// Overwrite `admin_authority` with the new identity; every other field
    /// of the record stays as it was, and nothing moves.
    pub fn process(&mut self, new_admin_authority: Address) -> (r: Result<(), TokadaptError>)
        ensures
            r == set_admin_outcome(*old(self)),
            r is Ok ==> ({
                let st0 = old(self).state.data->Some_0;
                let st = final(self).state.data->Some_0;
                &&& final(self).state.data is Some
                &&& st.admin_authority == new_admin_authority
                &&& st.input_mint == st0.input_mint
                &&& st.output_storage == st0.output_storage
                &&& st.output_storage_authority_bump == st0.output_storage_authority_bump
            }),
            r is Err ==> *final(self) == *old(self),
            final(self).state.key == old(self).state.key,
            final(self).state.lamports == old(self).state.lamports,
            final(self).admin_authority == old(self).admin_authority,
    {
        let st = match &self.state.data {
            Some(st) => *st,
            None => {
                return Err(TokadaptError::StateNotLive);
            },
        };
        if !address_eq(&st.admin_authority, &self.admin_authority) {
            return Err(TokadaptError::Unauthorized);
        }
        self.state.data = Some(
            crate::state::State {
                admin_authority: new_admin_authority,
                input_mint: st.input_mint,
                output_storage: st.output_storage,
                output_storage_authority_bump: st.output_storage_authority_bump,
            },
        );
        Ok(())
    }
}

/// Rotate the admin identity: the program's entry point.
pub fn set_admin(accounts: &mut SetAdmin, new_admin_authority: Address) -> (r: Result<
    (),
    TokadaptError,
>)
    ensures
        r == set_admin_outcome(*old(accounts)),
        r is Ok ==> ({
            let st0 = old(accounts).state.data->Some_0;
            let st = final(accounts).state.data->Some_0;
            &&& final(accounts).state.data is Some
            &&& st.admin_authority == new_admin_authority
            &&& st.input_mint == st0.input_mint
            &&& st.output_storage == st0.output_storage
            &&& st.output_storage_authority_bump == st0.output_storage_authority_bump
        }),
        r is Err ==> *final(accounts) == *old(accounts),
{
    accounts.process(new_admin_authority)
}

} // verus!
