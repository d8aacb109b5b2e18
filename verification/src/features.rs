use vstd::prelude::*;
use crate::claims::Claims;
use crate::store::{
    FlagCommand, StoreError, flag_from_reply, flag_reading, reply_bytes, set_flag_command,
    remove_flag_command, get_flag_command, get_all_flags_command,
};

verus! {

/// A feature flag: its key and whether it is on.
pub struct FeatureFlag {
    pub key: String,
    pub value: bool,
}

impl FeatureFlag {
    /// The flag `key` with value `value`.
    pub fn new(key: String, value: bool) -> (f: Self)
        ensures
            f.key == key,
            f.value == value,
    {
        Self { key, value }
    }
}

/// A request on one flag: the store command that carries it out and the flag
/// that answers it once the command has run.
pub struct FlagRequest {
    pub command: FlagCommand,
    pub answer: FeatureFlag,
}

/// Adding a flag for the caller whose token carries `caller`: store the
/// payload's flag in the caller's tenant, answer with it.
pub fn add_flag(payload: &FeatureFlag, caller: &Claims) -> (r: FlagRequest)
    ensures
        r.command@ == set_flag_command(payload.key@, payload.value, caller.tenant_id),
        r.answer.key@ == payload.key@,
        r.answer.value == payload.value,
{
    FlagRequest {
        command: FlagCommand::add_or_update_flag(payload.key.clone(), payload.value, caller.tenant_id),
        answer: FeatureFlag::new(payload.key.clone(), payload.value),
    }
}

/// Updating the flag at path `key` for the caller whose token carries
/// `caller`: the payload's flag is what is stored (under the payload's key, in
/// the caller's tenant), and the answer pairs the path's key with the
/// payload's value.
pub fn update_flag(key: String, payload: &FeatureFlag, caller: &Claims) -> (r: FlagRequest)
    ensures
        r.command@ == set_flag_command(payload.key@, payload.value, caller.tenant_id),
        r.answer.key == key,
        r.answer.value == payload.value,
{
    FlagRequest {
        command: FlagCommand::add_or_update_flag(payload.key.clone(), payload.value, caller.tenant_id),
        answer: FeatureFlag::new(key, payload.value),
    }
}

/// Removing flag `key` for the caller whose token carries `caller`: remove it
/// from the caller's tenant's flags, answer with the flag switched off.
pub fn remove_flag(key: String, caller: &Claims) -> (r: FlagRequest)
    ensures
        r.command@ == remove_flag_command(key@, caller.tenant_id),
        r.answer.key == key,
        r.answer.value == false,
{
    let command = FlagCommand::remove_flag(key.clone(), caller.tenant_id);
    FlagRequest { command, answer: FeatureFlag::new(key, false) }
}

/// Reading flag `key` for the caller whose token carries `caller`: the
/// command that looks it up in the caller's tenant's flags.
pub fn get_flag(key: &String, caller: &Claims) -> (c: FlagCommand)
    ensures
        c@ == get_flag_command(key@, caller.tenant_id),
{
    FlagCommand::get_flag(key.clone(), caller.tenant_id)
}

/// Listing the flags of the caller whose token carries `caller`: the command
/// that reads the caller's tenant's whole flag hash.
pub fn all_flags(caller: &Claims) -> (c: FlagCommand)
    ensures
        c@ == get_all_flags_command(caller.tenant_id),
{
    FlagCommand::get_all_flags(caller.tenant_id)
}

/// The answer to reading flag `key`, from the store's reply to the lookup.
pub fn get_flag_answer(key: String, reply: Option<&[u8]>) -> (r: Result<FeatureFlag, StoreError>)
    ensures
        match flag_reading(reply_bytes(reply)) {
            Some(b) => r matches Ok(f) && f.key == key && f.value == b,
            None => r == Err::<FeatureFlag, StoreError>(StoreError::InvalidFlagValue),
        },
{
    let value = flag_from_reply(reply)?;
    Ok(FeatureFlag::new(key, value))
}

/// Every stored value of a listing reads as a flag.
pub open spec fn all_readable(pairs: Seq<(String, Vec<u8>)>) -> bool {
    forall|i: int| 0 <= i < pairs.len() ==> (#[trigger] flag_reading(Some(pairs[i].1@))) is Some
}

/// The flags of a listing reply, in the reply's order; an error when a stored
/// value does not read as a flag.
pub fn flags_from_reply(pairs: &Vec<(String, Vec<u8>)>) -> (r: Result<Vec<FeatureFlag>, StoreError>)
    ensures
        r is Ok <==> all_readable(pairs@),
        r is Err ==> r == Err::<Vec<FeatureFlag>, StoreError>(StoreError::InvalidFlagValue),
        r matches Ok(flags) ==> {
            &&& flags@.len() == pairs@.len()
            &&& forall|i: int|
                0 <= i < pairs@.len() ==> {
                    &&& (#[trigger] flags@[i]).key@ == pairs@[i].0@
                    &&& flag_reading(Some(pairs@[i].1@)) == Some(flags@[i].value)
                }
        },
{
    let mut flags: Vec<FeatureFlag> = Vec::new();
    let mut i: usize = 0;
    while i < pairs.len()
        invariant
            i <= pairs@.len(),
            flags@.len() == i,
            forall|j: int| 0 <= j < i ==> (#[trigger] flag_reading(Some(pairs@[j].1@))) is Some,
            forall|j: int|
                0 <= j < i ==> {
                    &&& (#[trigger] flags@[j]).key@ == pairs@[j].0@
                    &&& flag_reading(Some(pairs@[j].1@)) == Some(flags@[j].value)
                },
        decreases pairs@.len() - i,
    {
        let pair = &pairs[i];
        let value = match flag_from_reply(Some(pair.1.as_slice())) {
            Ok(v) => v,
            Err(e) => {
                assert(flag_reading(Some(pairs@[i as int].1@)) is None);
                return Err(e);
            },
        };
        flags.push(FeatureFlag::new(pair.0.clone(), value));
        i = i + 1;
    }
    Ok(flags)
}

} // verus!
