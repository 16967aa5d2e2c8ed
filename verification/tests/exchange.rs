//! Exchange: resolution, rejection, and the balance effect.

use tokadapt::accounts::TokenAccountInfo;
use tokadapt::addr::Address;
use tokadapt::error::{ErrorCode, TokadaptError};
use tokadapt::pda::derive_reserve_authority;
use tokadapt::state::State;
use tokadapt::swap::{apply_exchange, swap, Swap};

fn addr(n: u8) -> Address {
    Address::new([n; 32])
}

/// A ready-to-run exchange: input mint X (4), target token Y held by the
/// reserve (1000), caller owns 300 of X.
fn exchange_setup() -> Swap {
    let state_key = addr(1);
    let program_id = addr(2);
    let (authority, bump) = derive_reserve_authority(&state_key, &program_id).unwrap();
    let state = State {
        admin_authority: addr(3),
        input_mint: addr(4),
        output_storage: addr(20),
        output_storage_authority_bump: bump,
    };
    Swap {
        state_key,
        state,
        input: TokenAccountInfo {
            key: addr(10),
            mint: addr(4),
            owner: addr(5),
            amount: 300,
            delegate: None,
            delegated_amount: 0,
            close_authority: None,
            lamports: 2_039_280,
        },
        input_authority: addr(5),
        input_mint: addr(4),
        output_storage: TokenAccountInfo {
            key: addr(20),
            mint: addr(21),
            owner: authority,
            amount: 1000,
            delegate: None,
            delegated_amount: 0,
            close_authority: None,
            lamports: 2_039_280,
        },
        output_storage_authority: authority,
        target: TokenAccountInfo {
            key: addr(22),
            mint: addr(21),
            owner: addr(5),
            amount: 40,
            delegate: None,
            delegated_amount: 0,
            close_authority: None,
            lamports: 2_039_280,
        },
        program_id,
    }
}

#[test]
fn exchange_of_three_hundred_moves_exactly_three_hundred() {
    let s = exchange_setup();
    let r = swap(&s, 300);
    assert_eq!(r, Ok(300));
    let amount = r.unwrap();
    let mut input = s.input;
    let mut reserve = s.output_storage;
    let mut target = s.target;
    apply_exchange(&mut input, &mut reserve, &mut target, amount);
    assert_eq!(input.amount, 0);
    assert_eq!(reserve.amount, 700);
    assert_eq!(target.amount, 340);
}

#[test]
fn exchange_conserves_the_target_token() {
    let s = exchange_setup();
    let amount = swap(&s, 120).unwrap();
    let mut input = s.input;
    let mut reserve = s.output_storage;
    let mut target = s.target;
    let before_target_total = reserve.amount as u128 + target.amount as u128;
    let before_input = input.amount;
    apply_exchange(&mut input, &mut reserve, &mut target, amount);
    assert_eq!(reserve.amount as u128 + target.amount as u128, before_target_total);
    assert_eq!(before_input - input.amount, 120);
}

#[test]
fn sentinel_resolves_to_owner_balance() {
    let s = exchange_setup();
    assert_eq!(swap(&s, u64::MAX), Ok(300));
}

#[test]
fn sentinel_resolves_to_delegated_allowance() {
    let mut s = exchange_setup();
    s.input.delegate = Some(addr(6));
    s.input.delegated_amount = 120;
    s.input_authority = addr(6);
    assert_eq!(swap(&s, u64::MAX), Ok(120));
}

#[test]
fn delegate_spends_within_allowance_by_literal_amount() {
    let mut s = exchange_setup();
    s.input.delegate = Some(addr(6));
    s.input.delegated_amount = 120;
    s.input_authority = addr(6);
    assert_eq!(swap(&s, 50), Ok(50));
}

#[test]
fn stranger_is_not_an_input_authority() {
    let mut s = exchange_setup();
    s.input_authority = addr(7);
    assert_eq!(
        swap(&s, 10),
        Err(TokadaptError::Program(ErrorCode::InvalidInputAuthority))
    );
}

#[test]
fn wrong_input_mint_is_rejected() {
    let mut s = exchange_setup();
    s.input.mint = addr(8);
    assert_eq!(
        swap(&s, 10),
        Err(TokadaptError::Program(ErrorCode::InvalidInputMint))
    );
}

#[test]
fn mint_account_must_match_the_record() {
    let mut s = exchange_setup();
    s.input_mint = addr(8);
    assert_eq!(swap(&s, 10), Err(TokadaptError::AccountMismatch));
}

#[test]
fn reserve_account_must_match_the_record() {
    let mut s = exchange_setup();
    s.output_storage.key = addr(23);
    assert_eq!(swap(&s, 10), Err(TokadaptError::AccountMismatch));
}

#[test]
fn authority_account_must_match_the_derivation() {
    let mut s = exchange_setup();
    s.output_storage_authority = addr(24);
    assert_eq!(swap(&s, 10), Err(TokadaptError::AccountMismatch));
}

#[test]
fn request_above_reserve_is_rejected_whole() {
    let s = exchange_setup();
    let before = s.output_storage.amount;
    assert_eq!(swap(&s, 1001), Err(TokadaptError::InsufficientFunds));
    assert_eq!(s.output_storage.amount, before);
    assert_eq!(s.input.amount, 300);
}

#[test]
fn sentinel_above_reserve_is_rejected_whole() {
    let mut s = exchange_setup();
    s.input.amount = 5000;
    assert_eq!(swap(&s, u64::MAX), Err(TokadaptError::InsufficientFunds));
}

#[test]
fn wrong_bump_in_record_fails_the_authority_check() {
    let mut s = exchange_setup();
    s.state.output_storage_authority_bump = s.state.output_storage_authority_bump.wrapping_sub(1);
    let r = swap(&s, 10);
    assert!(
        r == Err(TokadaptError::AccountMismatch) || r == Err(TokadaptError::DerivationFailed)
    );
}
