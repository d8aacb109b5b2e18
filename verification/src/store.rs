use vstd::prelude::*;
use crate::ids::{uuid_text, uuid_to_string, lemma_uuid_text_injective};
use deadpool_redis::redis::{FromRedisValue, ParsingError, ToRedisArgs, Value};

verus! {

/// The keys under which the service keeps its data in Redis.
pub enum RedisKey {
    FeatureStore,
}

impl RedisKey {
    /// The text of the key.
    pub open spec fn text(&self) -> Seq<char> {
        match self {
            RedisKey::FeatureStore => "feature_store"@,
        }
    }

    /// The text of the key, as `Display` writes it.
    pub fn to_string(&self) -> (s: String)
        ensures
            s@ == self.text(),
    {
        match self {
            RedisKey::FeatureStore => String::from_str("feature_store"),
        }
    }
}

/// The Redis hash that holds the flags of tenant `tenant_id`:
/// `feature_store:<tenant id as a hyphenated UUID>`.
pub open spec fn flags_key(tenant_id: u128) -> Seq<char> {
    RedisKey::FeatureStore.text() + ":"@ + uuid_text(tenant_id)
}

/// The name of the Redis hash that holds the flags of tenant `tenant_id`.
pub fn get_flags_id(tenant_id: u128) -> (id: String)
    ensures
        id@ == flags_key(tenant_id),
{
    let mut id = RedisKey::FeatureStore.to_string();
    id.append(":");
    let tenant = uuid_to_string(tenant_id);
    id.append(tenant.as_str());
    id
}

/// The address of the Redis server on `host`.
pub fn redis_url(host: &String) -> (url: String)
    ensures
        url@ == "redis://"@ + host@,
{
    let mut url = String::from_str("redis://");
    url.append(host.as_str());
    url
}


/// The bytes of a flag's value as it is stored: `1` for `true`, `0` for `false`.
pub open spec fn flag_bytes(value: bool) -> Seq<u8> {
    if value {
        seq![49u8]
    } else {
        seq![48u8]
    }
}

/// What a stored field (or its absence) reads as: a missing field reads as
/// `false`, the bytes `1` and `0` read as `true` and `false`, anything else
/// cannot be read as a flag.
pub open spec fn flag_reading(reply: Option<Seq<u8>>) -> Option<bool> {
    match reply {
        None => Some(false),
        Some(bytes) => if bytes == seq![49u8] {
            Some(true)
        } else if bytes == seq![48u8] {
            Some(false)
        } else {
            None
        },
    }
}

#[verifier::external_type_specification]
#[verifier::external_body]
pub struct ExParsingError(ParsingError);

/// `bool`'s `ToRedisArgs::to_redis_args` from the `redis` crate: one argument,
/// the bytes `1` for `true` and `0` for `false`.
#[verifier::external_body]
fn bool_redis_args(value: bool) -> (args: Vec<Vec<u8>>)
    ensures
        args@.len() == 1,
        args@[0]@ == flag_bytes(value),
{
    value.to_redis_args()
}

/// `bool`'s `FromRedisValue::from_redis_value` from the `redis` crate, on a
/// reply that is nil (`None`) or a bulk string (`Some`): nil gives `false`,
/// the bulk strings `1` and `0` give `true` and `false`, any other bulk
/// string is an error.
#[verifier::external_body]
fn bool_from_redis_reply(reply: Option<&[u8]>) -> (r: Result<bool, ParsingError>)
    ensures
        match flag_reading(reply_bytes(reply)) {
            Some(b) => r matches Ok(x) && x == b,
            None => r is Err,
        },
{
    let value = match reply {
        None => Value::Nil,
        Some(bytes) => Value::BulkString(bytes.to_vec()),
    };
    bool::from_redis_value(value)
}

/// Errors in reading the flag store.
#[derive(Debug, PartialEq, Eq, Structural)]
pub enum StoreError {
    /// A stored value is not a flag value.
    InvalidFlagValue,
}

/// The bytes under which a flag's value is stored.
pub fn flag_value_arg(value: bool) -> (bytes: Vec<u8>)
    ensures
        bytes@ == flag_bytes(value),
{
    let mut args = bool_redis_args(value);
    args.pop().unwrap()
}

/// The bytes of a field lookup's reply, if the field was there.
pub open spec fn reply_bytes(reply: Option<&[u8]>) -> Option<Seq<u8>> {
    match reply {
        None => None,
        Some(bytes) => Some(bytes@),
    }
}

/// Reads a flag's value from the reply to a field lookup.
pub fn flag_from_reply(reply: Option<&[u8]>) -> (r: Result<bool, StoreError>)
    ensures
        match flag_reading(reply_bytes(reply)) {
            Some(b) => r == Ok::<bool, StoreError>(b),
            None => r == Err::<bool, StoreError>(StoreError::InvalidFlagValue),
        },
{
    match bool_from_redis_reply(reply) {
        Ok(b) => Ok(b),
        Err(_) => Err(StoreError::InvalidFlagValue),
    }
}


/// A Redis command on the flag store.
pub enum FlagCommand {
    /// `HGET hash field`
    HGet { hash: String, field: String },
    /// `HSET hash field value`
    HSet { hash: String, field: String, value: Vec<u8> },
    /// `HDEL hash field`
    HDel { hash: String, field: String },
    /// `HGETALL hash`
    HGetAll { hash: String },
}

/// A Redis command on the flag store, over its texts and bytes.
pub enum Command {
    HGet { hash: Seq<char>, field: Seq<char> },
    HSet { hash: Seq<char>, field: Seq<char>, value: Seq<u8> },
    HDel { hash: Seq<char>, field: Seq<char> },
    HGetAll { hash: Seq<char> },
}

impl View for FlagCommand {
    type V = Command;

    open spec fn view(&self) -> Command {
        match self {
            FlagCommand::HGet { hash, field } => Command::HGet { hash: hash@, field: field@ },
            FlagCommand::HSet { hash, field, value } => Command::HSet {
                hash: hash@,
                field: field@,
                value: value@,
            },
            FlagCommand::HDel { hash, field } => Command::HDel { hash: hash@, field: field@ },
            FlagCommand::HGetAll { hash } => Command::HGetAll { hash: hash@ },
        }
    }
}

/// The command that reads flag `key` of tenant `tenant_id`.
pub open spec fn get_flag_command(key: Seq<char>, tenant_id: u128) -> Command {
    Command::HGet { hash: flags_key(tenant_id), field: key }
}

/// The command that sets flag `key` of tenant `tenant_id` to `value`.
pub open spec fn set_flag_command(key: Seq<char>, value: bool, tenant_id: u128) -> Command {
    Command::HSet { hash: flags_key(tenant_id), field: key, value: flag_bytes(value) }
}

/// The command that removes flag `key` of tenant `tenant_id`.
pub open spec fn remove_flag_command(key: Seq<char>, tenant_id: u128) -> Command {
    Command::HDel { hash: flags_key(tenant_id), field: key }
}

/// The command that lists all flags of tenant `tenant_id`.
pub open spec fn get_all_flags_command(tenant_id: u128) -> Command {
    Command::HGetAll { hash: flags_key(tenant_id) }
}

impl FlagCommand {
    /// The command that reads flag `key` of tenant `tenant_id`.
    pub fn get_flag(key: String, tenant_id: u128) -> (c: FlagCommand)
        ensures
            c@ == get_flag_command(key@, tenant_id),
    {
        FlagCommand::HGet { hash: get_flags_id(tenant_id), field: key }
    }

    /// The command that adds flag `key` of tenant `tenant_id` with `value`,
    /// or updates it to `value`.
    pub fn add_or_update_flag(key: String, value: bool, tenant_id: u128) -> (c: FlagCommand)
        ensures
            c@ == set_flag_command(key@, value, tenant_id),
    {
        FlagCommand::HSet { hash: get_flags_id(tenant_id), field: key, value: flag_value_arg(value) }
    }

    /// The command that removes flag `key` of tenant `tenant_id`.
    pub fn remove_flag(key: String, tenant_id: u128) -> (c: FlagCommand)
        ensures
            c@ == remove_flag_command(key@, tenant_id),
    {
        FlagCommand::HDel { hash: get_flags_id(tenant_id), field: key }
    }

    /// The command that lists all flags of tenant `tenant_id`.
    pub fn get_all_flags(tenant_id: u128) -> (c: FlagCommand)
        ensures
            c@ == get_all_flags_command(tenant_id),
    {
        FlagCommand::HGetAll { hash: get_flags_id(tenant_id) }
    }
}

/// The fields of hash `hash` in `store`; a hash that is not there has none.
pub open spec fn hash_fields(store: Map<Seq<char>, Map<Seq<char>, Seq<u8>>>, hash: Seq<char>) -> Map<
    Seq<char>,
    Seq<u8>,
> {
    if store.contains_key(hash) {
        store[hash]
    } else {
        Map::empty()
    }
}

/// The store after `cmd` ran on `store` (Redis hash semantics).
pub open spec fn after(store: Map<Seq<char>, Map<Seq<char>, Seq<u8>>>, cmd: Command) -> Map<
    Seq<char>,
    Map<Seq<char>, Seq<u8>>,
> {
    match cmd {
        Command::HSet { hash, field, value } => store.insert(
            hash,
            hash_fields(store, hash).insert(field, value),
        ),
        Command::HDel { hash, field } => store.insert(hash, hash_fields(store, hash).remove(field)),
        _ => store,
    }
}

/// The reply of a field lookup `cmd` on `store`: the field's bytes, or `None`
/// when the field is not there.
pub open spec fn field_reply(store: Map<Seq<char>, Map<Seq<char>, Seq<u8>>>, cmd: Command) -> Option<
    Seq<u8>,
> {
    match cmd {
        Command::HGet { hash, field } => if hash_fields(store, hash).contains_key(field) {
            Some(hash_fields(store, hash)[field])
        } else {
            None
        },
        _ => None,
    }
}

/// The reply of a listing `cmd` on `store`: the fields of the listed hash.
pub open spec fn listing_reply(store: Map<Seq<char>, Map<Seq<char>, Seq<u8>>>, cmd: Command) -> Map<
    Seq<char>,
    Seq<u8>,
> {
    match cmd {
        Command::HGetAll { hash } => hash_fields(store, hash),
        _ => Map::empty(),
    }
}

/// Distinct tenants have distinct flag hashes.
pub proof fn lemma_flags_key_injective(a: u128, b: u128)
    requires
        flags_key(a) == flags_key(b),
    ensures
        a == b,
{
    let p = RedisKey::FeatureStore.text() + ":"@;
    assert(flags_key(a) == p + uuid_text(a));
    assert(flags_key(b) == p + uuid_text(b));
    assert(uuid_text(a) =~= flags_key(a).subrange(p.len() as int, flags_key(a).len() as int));
    assert(uuid_text(b) =~= flags_key(b).subrange(p.len() as int, flags_key(b).len() as int));
    lemma_uuid_text_injective(a, b);
}

/// A flag value reads back as the value it was stored from.
pub proof fn law_flag_value_roundtrip(value: bool)
    ensures
        flag_reading(Some(flag_bytes(value))) == Some(value),
{
    assert(seq![49u8][0] != seq![48u8][0]);
}

/// Reading a flag right after it was set gives back the value that was set.
pub proof fn law_read_after_set(
    store: Map<Seq<char>, Map<Seq<char>, Seq<u8>>>,
    key: Seq<char>,
    value: bool,
    tenant_id: u128,
)
    ensures
        flag_reading(
            field_reply(
                after(store, set_flag_command(key, value, tenant_id)),
                get_flag_command(key, tenant_id),
            ),
        ) == Some(value),
{
    let s2 = after(store, set_flag_command(key, value, tenant_id));
    assert(hash_fields(s2, flags_key(tenant_id)) == hash_fields(store, flags_key(tenant_id)).insert(
        key,
        flag_bytes(value),
    ));
    assert(seq![49u8][0] != seq![48u8][0]);
}

/// Reading a flag right after it was removed gives `false`.
pub proof fn law_read_after_remove(
    store: Map<Seq<char>, Map<Seq<char>, Seq<u8>>>,
    key: Seq<char>,
    tenant_id: u128,
)
    ensures
        flag_reading(
            field_reply(
                after(store, remove_flag_command(key, tenant_id)),
                get_flag_command(key, tenant_id),
            ),
        ) == Some(false),
{
}

/// Setting or removing one flag leaves every other flag, of the same tenant or
/// of any other, as it was.
pub proof fn law_other_flags_unchanged(
    store: Map<Seq<char>, Map<Seq<char>, Seq<u8>>>,
    key: Seq<char>,
    value: bool,
    tenant_id: u128,
    other_key: Seq<char>,
    other_tenant: u128,
)
    requires
        key != other_key || tenant_id != other_tenant,
    ensures
        field_reply(
            after(store, set_flag_command(key, value, tenant_id)),
            get_flag_command(other_key, other_tenant),
        ) == field_reply(store, get_flag_command(other_key, other_tenant)),
        field_reply(
            after(store, remove_flag_command(key, tenant_id)),
            get_flag_command(other_key, other_tenant),
        ) == field_reply(store, get_flag_command(other_key, other_tenant)),
{
    if tenant_id != other_tenant {
        if flags_key(tenant_id) == flags_key(other_tenant) {
            lemma_flags_key_injective(tenant_id, other_tenant);
        }
    }
}

/// Changing the flags of one tenant leaves the listing of every other tenant
/// as it was.
pub proof fn law_tenants_isolated(
    store: Map<Seq<char>, Map<Seq<char>, Seq<u8>>>,
    key: Seq<char>,
    value: bool,
    tenant_id: u128,
    other_tenant: u128,
)
    requires
        tenant_id != other_tenant,
    ensures
        listing_reply(
            after(store, set_flag_command(key, value, tenant_id)),
            get_all_flags_command(other_tenant),
        ) == listing_reply(store, get_all_flags_command(other_tenant)),
        listing_reply(
            after(store, remove_flag_command(key, tenant_id)),
            get_all_flags_command(other_tenant),
        ) == listing_reply(store, get_all_flags_command(other_tenant)),
{
    if flags_key(tenant_id) == flags_key(other_tenant) {
        lemma_flags_key_injective(tenant_id, other_tenant);
    }
}

/// After a flag is set, the tenant's listing holds it with the value that was
/// set, and otherwise what it held before; after it is removed, the listing
/// lacks it and otherwise holds what it held before.
pub proof fn law_listing_after_change(
    store: Map<Seq<char>, Map<Seq<char>, Seq<u8>>>,
    key: Seq<char>,
    value: bool,
    tenant_id: u128,
)
    ensures
        listing_reply(
            after(store, set_flag_command(key, value, tenant_id)),
            get_all_flags_command(tenant_id),
        ) == listing_reply(store, get_all_flags_command(tenant_id)).insert(key, flag_bytes(value)),
        listing_reply(
            after(store, remove_flag_command(key, tenant_id)),
            get_all_flags_command(tenant_id),
        ) == listing_reply(store, get_all_flags_command(tenant_id)).remove(key),
{
}

} // verus!
