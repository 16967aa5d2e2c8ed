//! Decommission: sweep the reserve, close it, and reclaim the record.

use vstd::prelude::*;
use crate::accounts::{StateSlot, SystemAccountInfo, TokenAccountInfo};
use crate::addr::{address_eq, system_program_id, Address};
use crate::admin::admin_authorized;
use crate::error::{ErrorCode, TokadaptError};
use crate::pda::{authority_seeds_with_bump, pda_with_bump, reserve_authority_with_bump};

verus! {

/// The accounts a decommission runs against.
pub struct Close {
    /// The slot holding the live State Record; emptied on success.
    pub state: StateSlot,
    /// The signer asserting to be the current admin.
    pub admin_authority: Address,
    /// The reserve to drain and close.
    pub output_storage: TokenAccountInfo,
    /// Whether the reserve account has been closed: set on success, after
    /// which the account no longer exists.
    pub output_storage_closed: bool,
    /// The account supplied as the reserve's derived authority.
    pub output_storage_authority: Address,
    /// The destination for the swept reserve balance.
    pub token_target: TokenAccountInfo,
    /// The system-owned account that receives both storage deposits.
    pub rent_collector: SystemAccountInfo,
    /// The program's own identity, fixed at startup.
    pub program_id: Address,
}

/// The authority address a decommission re-derives from the record.
pub open spec fn close_derived_authority(s: Close) -> Option<Seq<u8>> {
    pda_with_bump(
        authority_seeds_with_bump(
            s.state.key@,
            s.state.data->Some_0.output_storage_authority_bump,
        ),
        s.program_id@,
    )
}

/// The exact outcome of a decommission's preflight, in the order the checks
/// run: the record and its admin, the supplied accounts against the record,
/// the derived authority, the rent collector's owner, and last the rule
/// that the sweep must not target the reserve itself.
pub open spec fn close_outcome(s: Close) -> Result<(), TokadaptError> {
    if s.state.data is None {
        Err(TokadaptError::StateNotLive)
    } else if !admin_authorized(s.state.data->Some_0, s.admin_authority@) {
        Err(TokadaptError::Unauthorized)
    } else if s.output_storage.key@ != s.state.data->Some_0.output_storage@ {
        Err(TokadaptError::AccountMismatch)
    } else if close_derived_authority(s) is None {
        Err(TokadaptError::DerivationFailed)
    } else if close_derived_authority(s)->Some_0 != s.output_storage_authority@ {
        Err(TokadaptError::AccountMismatch)
    } else if s.rent_collector.owner@ != system_program_id() {
        Err(TokadaptError::AccountMismatch)
    } else if s.token_target.key@ == s.state.data->Some_0.output_storage@ {
        Err(TokadaptError::Program(ErrorCode::InvalidCloseTokenTarget))
    } else {
        Ok(())
    }
}

impl Close {
    /// Drain the reserve to the sweep destination, close the reserve, and
    /// reclaim both storage deposits into the rent collector; the record is
    /// zeroed last, never to be treated as live again. On any rejection
    /// nothing changes.
    ///
    /// The bounds below are machine limits: the environment conserves the
    /// total of all balances, so the sums the sweep writes always fit.
    pub fn process(&mut self) -> (r: Result<(), TokadaptError>)
        requires
            !old(self).output_storage_closed,
            old(self).token_target.amount + old(self).output_storage.amount <= u64::MAX,
            old(self).rent_collector.lamports + old(self).output_storage.lamports
                + old(self).state.lamports <= u64::MAX,
        ensures
            r == close_outcome(*old(self)),
            r is Ok ==> ({
                let before = *old(self);
                let after = *final(self);
                &&& after.output_storage.amount == 0
                &&& after.token_target.amount == before.token_target.amount
                    + before.output_storage.amount
                &&& after.output_storage_closed
                &&& after.output_storage.lamports == 0
                &&& after.rent_collector.lamports == before.rent_collector.lamports
                    + before.output_storage.lamports + before.state.lamports
                &&& after.state.data is None
                &&& after.state.lamports == 0
            }),
            r is Err ==> *final(self) == *old(self),
            final(self).state.key == old(self).state.key,
            final(self).rent_collector.key == old(self).rent_collector.key,
            crate::swap::same_but_amount(old(self).token_target, final(self).token_target),
    {
        let st = match &self.state.data {
            Some(st) => *st,
            None => {
                return Err(TokadaptError::StateNotLive);
            },
        };
        if !address_eq(&st.admin_authority, &self.admin_authority) {
            return Err(TokadaptError::Unauthorized);
        }
        if !address_eq(&self.output_storage.key, &st.output_storage) {
            return Err(TokadaptError::AccountMismatch);
        }
        let derived = reserve_authority_with_bump(
            &self.state.key,
            st.output_storage_authority_bump,
            &self.program_id,
        );
        let authority = match derived {
            Some(a) => a,
            None => {
                return Err(TokadaptError::DerivationFailed);
            },
        };
        if !address_eq(&authority, &self.output_storage_authority) {
            return Err(TokadaptError::AccountMismatch);
        }
        let system_program = Address::system_program();
        if !address_eq(&self.rent_collector.owner, &system_program) {
            return Err(TokadaptError::AccountMismatch);
        }
        if address_eq(&self.token_target.key, &st.output_storage) {
            return Err(TokadaptError::Program(ErrorCode::InvalidCloseTokenTarget));
        }
        // Sweep the whole reserve balance to the destination, signed by the
        // derived authority.
        self.token_target.amount = self.token_target.amount + self.output_storage.amount;
        self.output_storage.amount = 0;
        // Close the now-empty reserve: its deposit goes to the collector.
        self.rent_collector.lamports = self.rent_collector.lamports
            + self.output_storage.lamports;
        self.output_storage.lamports = 0;
        self.output_storage_closed = true;
        // Reclaim the record's own deposit and zero it, last: the sweep
        // above still needed the record's bump to sign.
        self.rent_collector.lamports = self.rent_collector.lamports + self.state.lamports;
        self.state.lamports = 0;
        self.state.data = None;
        Ok(())
    }
}

/// Decommission the adapter: the program's teardown entry point.
pub fn close(accounts: &mut Close) -> (r: Result<(), TokadaptError>)
    requires
        !old(accounts).output_storage_closed,
        old(accounts).token_target.amount + old(accounts).output_storage.amount <= u64::MAX,
        old(accounts).rent_collector.lamports + old(accounts).output_storage.lamports
            + old(accounts).state.lamports <= u64::MAX,
    ensures
        r == close_outcome(*old(accounts)),
        r is Ok ==> ({
            let before = *old(accounts);
            let after = *final(accounts);
            &&& after.output_storage.amount == 0
            &&& after.token_target.amount == before.token_target.amount
                + before.output_storage.amount
            &&& after.output_storage_closed
            &&& after.output_storage.lamports == 0
            &&& after.rent_collector.lamports == before.rent_collector.lamports
                + before.output_storage.lamports + before.state.lamports
            &&& after.state.data is None
            &&& after.state.lamports == 0
        }),
        r is Err ==> *final(accounts) == *old(accounts),
{
    accounts.process()
}

} // verus!
