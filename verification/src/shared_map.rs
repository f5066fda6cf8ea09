//! Declaration of the shared concurrent map type.
//!
//! The flood guard, the connection pool and the rate limiters all keep
//! their per-key state in `dashmap::DashMap`, a sharded hash map whose
//! methods take `&self` so that independent keys never contend. The
//! declaration below lets values of that type stand in signatures and
//! fields; each component states the contracts of the map operations it
//! uses over a name for that map's contents.

use vstd::prelude::*;

verus! {

/// Relies on dashmap::DashMap being a plain container: a sharded map
/// from keys to values with no other observable state.
#[verifier::external_type_specification]
#[verifier::external_body]
#[verifier::reject_recursive_types(K)]
#[verifier::reject_recursive_types(V)]
#[verifier::reject_recursive_types(S)]
pub struct ExDashMap<K, V, S>(dashmap::DashMap<K, V, S>);

} // verus!
