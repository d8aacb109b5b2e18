use vstd::prelude::*;

verus! {

/// How long a token stays valid, in hours.
pub const JWT_EXPIRATION_NUM_HOURS: i64 = 24;

/// The latest second that `chrono` can represent, as a Unix timestamp.
pub const LATEST_TIMESTAMP: i64 = 8210266876799;

/// The time since the Unix epoch, as whole seconds and the nanoseconds past
/// them, from `std::time::UNIX_EPOCH.elapsed()`; `None` when the system clock
/// lies before the epoch. `Duration::subsec_nanos` is below one billion. Which
/// time it is, is not stated.
#[verifier::external_body]
fn time_since_epoch() -> (t: Option<(u64, u32)>)
    ensures
        t matches Some(t) ==> t.1 < 1_000_000_000,
{
    match std::time::UNIX_EPOCH.elapsed() {
        Ok(d) => Some((d.as_secs(), d.subsec_nanos())),
        Err(_) => None,
    }
}

/// `chrono::DateTime::from_timestamp(secs, nanos)` read back with
/// `DateTime::timestamp`: the same seconds when `chrono` can represent the
/// time, `None` when it cannot. Every second from the epoch to the latest one
/// `chrono` represents, with nanoseconds below one billion, can be.
#[verifier::external_body]
fn chrono_timestamp(secs: i64, nanos: u32) -> (t: Option<i64>)
    ensures
        t matches Some(t) ==> t == secs && secs <= LATEST_TIMESTAMP,
        0 <= secs <= LATEST_TIMESTAMP && nanos < 1_000_000_000 ==> t == Some(secs),
{
    match chrono::DateTime::from_timestamp(secs, nanos) {
        Some(d) => Some(d.timestamp()),
        None => None,
    }
}

/// The current time as a Unix timestamp, as `chrono::Utc::now().timestamp()`
/// computes it; `None` where `Utc::now` would fail: a system clock before the
/// Unix epoch or past the latest second `chrono` represents.
pub fn current_timestamp() -> (now: Option<i64>)
    ensures
        now matches Some(t) ==> 0 <= t <= LATEST_TIMESTAMP,
{
    match time_since_epoch() {
        None => None,
        Some((secs, nanos)) => {
            if secs > 0x7FFF_FFFF_FFFF_FFFFu64 {
                None
            } else {
                chrono_timestamp(secs as i64, nanos)
            }
        },
    }
}

/// What a token asserts: whose it is, which tenant they belong to (a UUID, by
/// its big-endian value), what they may do, and until when (a Unix timestamp).
pub struct Claims {
    pub username: String,
    pub tenant_id: u128,
    pub permissions: Vec<String>,
    pub exp: i64,
}

impl Claims {
    /// Claims for `username` of tenant `tenant_id` with `permissions`, issued
    /// at time `now` and expiring `JWT_EXPIRATION_NUM_HOURS` hours later.
    pub fn issued_at(username: String, tenant_id: u128, permissions: Vec<String>, now: i64) -> (c: Self)
        requires
            now + JWT_EXPIRATION_NUM_HOURS * 3600 <= i64::MAX,
        ensures
            c.username == username,
            c.tenant_id == tenant_id,
            c.permissions == permissions,
            c.exp == now + JWT_EXPIRATION_NUM_HOURS * 3600,
    {
        Self { username, tenant_id, permissions, exp: now + JWT_EXPIRATION_NUM_HOURS * 3600 }
    }

    /// Claims for `username` of tenant `tenant_id` with `permissions`,
    /// expiring `JWT_EXPIRATION_NUM_HOURS` hours from now; `None` when the
    /// current time cannot be read (see `current_timestamp`). The expiration
    /// is at least that long after the Unix epoch; the current time itself is
    /// not known here.
    pub fn new(username: String, tenant_id: u128, permissions: Vec<String>) -> (r: Option<Self>)
        ensures
            r matches Some(c) ==> {
                &&& c.username == username
                &&& c.tenant_id == tenant_id
                &&& c.permissions == permissions
                &&& JWT_EXPIRATION_NUM_HOURS * 3600 <= c.exp <= LATEST_TIMESTAMP
                    + JWT_EXPIRATION_NUM_HOURS * 3600
            },
    {
        match current_timestamp() {
            Some(now) => Some(Self::issued_at(username, tenant_id, permissions, now)),
            None => None,
        }
    }
}

} // verus!
