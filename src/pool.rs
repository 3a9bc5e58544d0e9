use vstd::prelude::*;
use crate::error::StoreError;

verus! {

/// What the connection pool is built from: where the backing store is, how
/// many connections it may hold at once, and how long an acquire may wait.
pub struct PoolSettings {
    pub connection_target: String,
    pub max_size: u32,
    pub wait_millis: u64,
}

/// Settings a pool can be built from: a target to connect to, room for at
/// least one connection, and a wait bound that is not zero.
pub open spec fn valid_settings(target: Seq<char>, max_size: u32, wait_millis: u64) -> bool {
    target.len() > 0 && max_size > 0 && wait_millis > 0
}

impl PoolSettings {
    /// Checks the settings; fails with `ConfigurationError` on a malformed one.
    pub fn new(connection_target: String, max_size: u32, wait_millis: u64) -> (r: Result<
        PoolSettings,
        StoreError,
    >)
        ensures
            r is Ok <==> valid_settings(connection_target@, max_size, wait_millis),
            r matches Ok(p) ==> p.connection_target@ == connection_target@ && p.max_size
                == max_size && p.wait_millis == wait_millis,
            r is Err ==> r == Err::<PoolSettings, StoreError>(StoreError::ConfigurationError),
    {
        if connection_target.unicode_len() == 0 || max_size == 0 || wait_millis == 0 {
            Err(StoreError::ConfigurationError)
        } else {
            Ok(PoolSettings { connection_target, max_size, wait_millis })
        }
    }
}

} // verus!
