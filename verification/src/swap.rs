//! Exchange: burn the deprecated input token, release the target token.

use vstd::prelude::*;
use crate::accounts::TokenAccountInfo;
use crate::addr::{address_eq, opt_addr_is, spec_opt_addr_eq, Address};
use crate::error::{ErrorCode, TokadaptError};
use crate::pda::{authority_seeds_with_bump, pda_with_bump, reserve_authority_with_bump};
use crate::state::State;

verus! {

/// The accounts one exchange runs against, as a consistent snapshot.
pub struct Swap {
    /// The State Record's own address: a seed of the authority derivation.
    pub state_key: Address,
    /// The live State Record.
    pub state: State,
    /// The caller's account holding the input token; the burn source.
    pub input: TokenAccountInfo,
    /// The signer asserting the right to spend from `input`.
    pub input_authority: Address,
    /// The mint account supplied for the burn; must be the recorded one.
    pub input_mint: Address,
    /// The reserve holding the target token; the release source.
    pub output_storage: TokenAccountInfo,
    /// The account supplied as the reserve's derived authority.
    pub output_storage_authority: Address,
    /// The caller's chosen destination for the released token.
    pub target: TokenAccountInfo,
    /// The program's own identity, fixed at startup.
    pub program_id: Address,
}

/// The amount an exchange resolves to: the sentinel maximum means the full
/// balance for the account's owner, and the remaining allowance for a
/// delegate; `None` when the signer has no spending right at all.
///
/// The sentinel is the integer type's largest value. A literal request of
/// that size cannot collide with a real one: it could only be filled by a
/// reserve holding the whole value range, and the ledger keeps every
/// balance far below that.
pub open spec fn spec_effective_amount(
    input: TokenAccountInfo,
    signer: Seq<u8>,
    amount: u64,
) -> Option<u64> {
    if input.owner@ == signer {
        Some(
            if amount == u64::MAX {
                input.amount
            } else {
                amount
            },
        )
    } else if spec_opt_addr_eq(input.delegate, signer) {
        Some(
            if amount == u64::MAX {
                input.delegated_amount
            } else {
                amount
            },
        )
    } else {
        None
    }
}

/// The authority address an exchange re-derives from the record.
pub open spec fn swap_derived_authority(s: Swap) -> Option<Seq<u8>> {
    pda_with_bump(
        authority_seeds_with_bump(s.state_key@, s.state.output_storage_authority_bump),
        s.program_id@,
    )
}

/// The exact outcome of an exchange's preflight, in the order the checks
/// run: the supplied accounts against the record, then the derived
/// authority, then the caller's spending right, then the reserve's balance.
pub open spec fn swap_outcome(s: Swap, amount: u64) -> Result<u64, TokadaptError> {
    if s.input_mint@ != s.state.input_mint@ {
        Err(TokadaptError::AccountMismatch)
    } else if s.output_storage.key@ != s.state.output_storage@ {
        Err(TokadaptError::AccountMismatch)
    } else if swap_derived_authority(s) is None {
        Err(TokadaptError::DerivationFailed)
    } else if swap_derived_authority(s)->Some_0 != s.output_storage_authority@ {
        Err(TokadaptError::AccountMismatch)
    } else if s.input.mint@ != s.state.input_mint@ {
        Err(TokadaptError::Program(ErrorCode::InvalidInputMint))
    } else if spec_effective_amount(s.input, s.input_authority@, amount) is None {
        Err(TokadaptError::Program(ErrorCode::InvalidInputAuthority))
    } else if spec_effective_amount(s.input, s.input_authority@, amount)->Some_0
        > s.output_storage.amount {
        Err(TokadaptError::InsufficientFunds)
    } else {
        Ok(spec_effective_amount(s.input, s.input_authority@, amount)->Some_0)
    }
}

impl Swap {
    /// Preflight an exchange: check every account against the record and the
    /// derived authority, resolve the effective amount, and refuse any
    /// request the reserve cannot fill. Returns the checked amount to burn
    /// and release; reads only, so a rejection changes nothing.
    pub fn process(&self, amount: u64) -> (r: Result<u64, TokadaptError>)
        ensures
            r == swap_outcome(*self, amount),
    {
        if !address_eq(&self.input_mint, &self.state.input_mint) {
            return Err(TokadaptError::AccountMismatch);
        }
        if !address_eq(&self.output_storage.key, &self.state.output_storage) {
            return Err(TokadaptError::AccountMismatch);
        }
        let derived = reserve_authority_with_bump(
            &self.state_key,
            self.state.output_storage_authority_bump,
            &self.program_id,
        );
        let authority = match derived {
            Some(a) => a,
            None => {
                return Err(TokadaptError::DerivationFailed);
            },
        };
        if !address_eq(&authority, &self.output_storage_authority) {
            return Err(TokadaptError::AccountMismatch);
        }
        if !address_eq(&self.input.mint, &self.state.input_mint) {
            return Err(TokadaptError::Program(ErrorCode::InvalidInputMint));
        }
        let effective: u64 = if address_eq(&self.input.owner, &self.input_authority) {
            if amount == u64::MAX {
                self.input.amount
            } else {
                amount
            }
        } else {
            if !opt_addr_is(&self.input.delegate, &self.input_authority) {
                return Err(TokadaptError::Program(ErrorCode::InvalidInputAuthority));
            }
            if amount == u64::MAX {
                self.input.delegated_amount
            } else {
                amount
            }
        };
        if effective > self.output_storage.amount {
            return Err(TokadaptError::InsufficientFunds);
        }
        Ok(effective)
    }
}

/// All fields of a token account except its balance, unchanged.
pub open spec fn same_but_amount(a: TokenAccountInfo, b: TokenAccountInfo) -> bool {
    &&& b.key == a.key
    &&& b.mint == a.mint
    &&& b.owner == a.owner
    &&& b.delegate == a.delegate
    &&& b.delegated_amount == a.delegated_amount
    &&& b.close_authority == a.close_authority
    &&& b.lamports == a.lamports
}

/// The balance effect of one atomic exchange, as the ledger applies it:
/// burn `amount` from the input account, move `amount` from the reserve to
/// the destination. The three accounts are distinct snapshots; the
/// environment commits either all of it or none of it.
pub fn apply_exchange(
    input: &mut TokenAccountInfo,
    output_storage: &mut TokenAccountInfo,
    target: &mut TokenAccountInfo,
    amount: u64,
)
    requires
        old(input).key@ != old(output_storage).key@,
        old(input).key@ != old(target).key@,
        old(output_storage).key@ != old(target).key@,
        amount <= old(input).amount,
        amount <= old(output_storage).amount,
        old(target).amount + amount <= u64::MAX,
    ensures
        final(input).amount == old(input).amount - amount,
        final(output_storage).amount == old(output_storage).amount - amount,
        final(target).amount == old(target).amount + amount,
        same_but_amount(*old(input), *final(input)),
        same_but_amount(*old(output_storage), *final(output_storage)),
        same_but_amount(*old(target), *final(target)),
{
    input.amount = input.amount - amount;
    output_storage.amount = output_storage.amount - amount;
    target.amount = target.amount + amount;
}

/// Exchange the requested amount: the program's main entry point. Returns
/// the effective amount the preflight resolved and checked.
pub fn swap(accounts: &Swap, amount: u64) -> (r: Result<u64, TokadaptError>)
    ensures
        r == swap_outcome(*accounts, amount),
{
    accounts.process(amount)
}

} // verus!
