//! The derived reserve authority: stability and agreement with the
//! environment's own derivation.

use tokadapt::addr::Address;
use tokadapt::pda::{derive_reserve_authority, reserve_authority_with_bump};

fn addr(n: u8) -> Address {
    Address::new([n; 32])
}

#[test]
fn derived_authority_rederives_from_recorded_bump() {
    let state_key = addr(7);
    let program_id = addr(9);
    let (authority, bump) = derive_reserve_authority(&state_key, &program_id).unwrap();
    let again = reserve_authority_with_bump(&state_key, bump, &program_id).unwrap();
    assert_eq!(authority.bytes, again.bytes);
}

#[test]
fn derived_authority_is_not_the_inputs() {
    let state_key = addr(7);
    let program_id = addr(9);
    let (authority, _bump) = derive_reserve_authority(&state_key, &program_id).unwrap();
    assert_ne!(authority.bytes, state_key.bytes);
    assert_ne!(authority.bytes, program_id.bytes);
}

#[test]
fn derivation_is_deterministic() {
    let state_key = addr(3);
    let program_id = addr(4);
    let (a1, b1) = derive_reserve_authority(&state_key, &program_id).unwrap();
    let (a2, b2) = derive_reserve_authority(&state_key, &program_id).unwrap();
    assert_eq!(a1.bytes, a2.bytes);
    assert_eq!(b1, b2);
}

#[test]
fn derivation_agrees_with_environment() {
    let state_key = addr(11);
    let program_id = addr(12);
    let (authority, bump) = derive_reserve_authority(&state_key, &program_id).unwrap();
    let pid = solana_pubkey::Pubkey::new_from_array(program_id.bytes);
    let (expected, expected_bump) = solana_pubkey::Pubkey::find_program_address(
        &[b"storage", &state_key.bytes],
        &pid,
    );
    assert_eq!(authority.bytes, expected.to_bytes());
    assert_eq!(bump, expected_bump);
}

#[test]
fn wrong_bump_does_not_rederive_the_authority() {
    let state_key = addr(5);
    let program_id = addr(6);
    let (authority, bump) = derive_reserve_authority(&state_key, &program_id).unwrap();
    let other = reserve_authority_with_bump(&state_key, bump.wrapping_sub(1), &program_id);
    match other {
        Some(a) => assert_ne!(a.bytes, authority.bytes),
        None => {}
    }
}
