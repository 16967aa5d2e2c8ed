//! The State Record: the adapter's one piece of durable configuration.

use vstd::prelude::*;
use crate::addr::Address;

verus! {

/// The durable record of one adapter instance.
///
/// Written once by provisioning; only `admin_authority` ever changes after
/// that (by admin rotation), until decommission destroys the record.
#[derive(Clone, Copy)]
pub struct State {
    /// Identity permitted to rotate the admin or decommission.
    pub admin_authority: Address,
    /// Token type accepted for destruction. Immutable after provisioning.
    pub input_mint: Address,
    /// The reserve account holding the target token. Immutable.
    pub output_storage: Address,
    /// The bump that, with the record's address and the seed label,
    /// re-derives the reserve's controlling authority. Immutable.
    pub output_storage_authority_bump: u8,
}

} // verus!
