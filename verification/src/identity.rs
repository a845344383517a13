//! Device-identity resolution: a get-or-create protocol.
//!
//! A device's configuration owns an optional storage-assigned identifier.
//! Resolution first decides, without I/O, whether the identifier is already
//! set; only if it is not does the caller insert one metadata row and
//! record the freshly assigned identifier, after which every later
//! resolution in the process takes the no-I/O fast path.

use vstd::prelude::*;

verus! {

/// The locally held device identity: `None` until an identifier has been
/// read from or assigned by storage, thereafter stable.
#[derive(Clone, Copy, Debug, PartialEq, Eq)]
pub struct DeviceIdentity {
    pub device_id: Option<i32>,
}

/// What one resolution round asks of the caller: use the identifier as it
/// stands, or perform exactly one metadata insert and record its result.
#[derive(Clone, Copy, Debug, PartialEq, Eq)]
pub enum ResolveStep {
    /// The identifier is already set; no write is needed.
    UseExisting(i32),
    /// No identifier yet: insert one metadata row, then record the
    /// storage-assigned identifier with `record_id`.
    InsertMetadata,
}

/// The resolution decision as a mathematical function of the identity.
pub open spec fn spec_resolve_step(identity: DeviceIdentity) -> ResolveStep {
    match identity.device_id {
        Some(id) => ResolveStep::UseExisting(id),
        None => ResolveStep::InsertMetadata,
    }
}

/// One full resolution round, with `assigned` standing for the identifier
/// storage would hand back if the insert happens: the pair of the identity
/// after the round and the identifier the round returns. An already-set
/// identity passes through untouched and `assigned` is ignored.
pub open spec fn spec_resolve_round(identity: DeviceIdentity, assigned: i32) -> (
    DeviceIdentity,
    i32,
) {
    match identity.device_id {
        Some(id) => (identity, id),
        None => (DeviceIdentity { device_id: Some(assigned) }, assigned),
    }
}

/// Decide whether this identity needs a metadata insert.
pub fn resolve_step(identity: &DeviceIdentity) -> (s: ResolveStep)
    ensures
        s == spec_resolve_step(*identity),
{
    match identity.device_id {
        Some(id) => ResolveStep::UseExisting(id),
        None => ResolveStep::InsertMetadata,
    }
}

/// Record a freshly assigned identifier, so that every later resolution in
/// this process takes the fast path.
pub fn record_id(identity: &mut DeviceIdentity, new_id: i32)
    ensures
        final(identity).device_id == Some(new_id),
        spec_resolve_step(*final(identity)) == ResolveStep::UseExisting(new_id),
{
    identity.device_id = Some(new_id);
}

/// Identity resolution is idempotent: resolving an already-set identity
/// twice asks for no insert either time, leaves the identity untouched, and
/// returns the same identifier both times, whatever identifiers storage
/// would have assigned.
pub proof fn lemma_resolve_idempotent(identity: DeviceIdentity, id: i32, a1: i32, a2: i32)
    requires
        identity.device_id == Some(id),
    ensures
        spec_resolve_step(identity) == ResolveStep::UseExisting(id),
        spec_resolve_round(identity, a1) == (identity, id),
        spec_resolve_round(spec_resolve_round(identity, a1).0, a2) == (identity, id),
{
}

/// One resolution round settles the identity for good: whatever the round
/// did, a second round changes nothing and returns the same identifier.
pub proof fn lemma_resolve_stabilizes(identity: DeviceIdentity, a1: i32, a2: i32)
    ensures
        spec_resolve_round(spec_resolve_round(identity, a1).0, a2) == spec_resolve_round(
            identity,
            a1,
        ),
{
}

} // verus!
