//! Provisioning: binding the reserve to the derived authority.

use tokadapt::accounts::{StateSlot, TokenAccountInfo};
use tokadapt::addr::Address;
use tokadapt::error::{ErrorCode, TokadaptError};
use tokadapt::initialize::{initialize, Initialize};
use tokadapt::pda::derive_reserve_authority;

fn addr(n: u8) -> Address {
    Address::new([n; 32])
}

fn reserve(owner: Address) -> TokenAccountInfo {
    TokenAccountInfo {
        key: addr(20),
        mint: addr(21),
        owner,
        amount: 1000,
        delegate: None,
        delegated_amount: 0,
        close_authority: None,
        lamports: 2_039_280,
    }
}

fn fresh_init(owner: Address) -> Initialize {
    Initialize {
        state: StateSlot { key: addr(1), data: None, lamports: 1_500_000 },
        rent_exempt: true,
        output_storage: reserve(owner),
        program_id: addr(2),
    }
}

#[test]
fn provisioning_succeeds_on_a_bound_reserve() {
    let state_key = addr(1);
    let program_id = addr(2);
    let (authority, bump) = derive_reserve_authority(&state_key, &program_id).unwrap();
    let mut accs = fresh_init(authority);
    let r = initialize(&mut accs, addr(3), addr(4));
    assert!(r.is_ok());
    let st = accs.state.data.expect("record written");
    assert_eq!(st.admin_authority.bytes, addr(3).bytes);
    assert_eq!(st.input_mint.bytes, addr(4).bytes);
    assert_eq!(st.output_storage.bytes, addr(20).bytes);
    assert_eq!(st.output_storage_authority_bump, bump);
}

#[test]
fn provisioning_rejects_a_foreign_authority() {
    let mut accs = fresh_init(addr(30));
    let r = initialize(&mut accs, addr(3), addr(4));
    assert_eq!(
        r,
        Err(TokadaptError::Program(ErrorCode::OutputStorageAuthorityDoesNotMatch))
    );
    assert!(accs.state.data.is_none());
}

#[test]
fn provisioning_rejects_a_closeable_reserve() {
    let state_key = addr(1);
    let program_id = addr(2);
    let (authority, _) = derive_reserve_authority(&state_key, &program_id).unwrap();
    let mut accs = fresh_init(authority);
    accs.output_storage.close_authority = Some(addr(31));
    let r = initialize(&mut accs, addr(3), addr(4));
    assert_eq!(
        r,
        Err(TokadaptError::Program(ErrorCode::OutputStorageMustNotBeCloseable))
    );
    assert!(accs.state.data.is_none());
}

#[test]
fn provisioning_rejects_a_delegated_reserve() {
    let state_key = addr(1);
    let program_id = addr(2);
    let (authority, _) = derive_reserve_authority(&state_key, &program_id).unwrap();
    let mut accs = fresh_init(authority);
    accs.output_storage.delegate = Some(addr(32));
    accs.output_storage.delegated_amount = 5;
    let r = initialize(&mut accs, addr(3), addr(4));
    assert_eq!(
        r,
        Err(TokadaptError::Program(ErrorCode::OutputStorageMustNotBeDelegated))
    );
    assert!(accs.state.data.is_none());
}

#[test]
fn provisioning_rejects_a_used_slot() {
    let state_key = addr(1);
    let program_id = addr(2);
    let (authority, _) = derive_reserve_authority(&state_key, &program_id).unwrap();
    let mut accs = fresh_init(authority);
    let r = initialize(&mut accs, addr(3), addr(4));
    assert!(r.is_ok());
    let written = accs.state.data;
    let r2 = initialize(&mut accs, addr(5), addr(6));
    assert_eq!(r2, Err(TokadaptError::StateNotFresh));
    let st = accs.state.data.unwrap();
    let st0 = written.unwrap();
    assert_eq!(st.admin_authority.bytes, st0.admin_authority.bytes);
    assert_eq!(st.input_mint.bytes, st0.input_mint.bytes);
}

#[test]
fn provisioning_rejects_an_uncovered_slot() {
    let state_key = addr(1);
    let program_id = addr(2);
    let (authority, _) = derive_reserve_authority(&state_key, &program_id).unwrap();
    let mut accs = fresh_init(authority);
    accs.rent_exempt = false;
    let r = initialize(&mut accs, addr(3), addr(4));
    assert_eq!(r, Err(TokadaptError::NotRentCovered));
    assert!(accs.state.data.is_none());
}
