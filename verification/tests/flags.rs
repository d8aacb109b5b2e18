use std::collections::HashMap;
use switcharoo::claims::Claims;
use switcharoo::features::{
    add_flag, all_flags, flags_from_reply, get_flag, get_flag_answer, remove_flag, update_flag, FeatureFlag,
};
use switcharoo::store::{
    flag_from_reply, flag_value_arg, get_flags_id, redis_url, FlagCommand, RedisKey, StoreError,
};

const TENANT_A: u128 = 0x67e5504410b1426f9247bb680e5fe0c8;
const TENANT_B: u128 = 1;

fn caller(tenant: u128) -> Claims {
    Claims::issued_at("ann".to_string(), tenant, vec![], 0)
}

/// A small Redis hash store that runs the commands as Redis does.
#[derive(Default)]
struct Hashes {
    hashes: HashMap<String, HashMap<String, Vec<u8>>>,
}

enum Reply {
    Field(Option<Vec<u8>>),
    All(Vec<(String, Vec<u8>)>),
    Done,
}

impl Hashes {
    fn run(&mut self, cmd: &FlagCommand) -> Reply {
        match cmd {
            FlagCommand::HGet { hash, field } => {
                Reply::Field(self.hashes.get(hash).and_then(|h| h.get(field)).cloned())
            }
            FlagCommand::HSet { hash, field, value } => {
                self.hashes.entry(hash.clone()).or_default().insert(field.clone(), value.clone());
                Reply::Done
            }
            FlagCommand::HDel { hash, field } => {
                if let Some(h) = self.hashes.get_mut(hash) {
                    h.remove(field);
                }
                Reply::Done
            }
            FlagCommand::HGetAll { hash } => {
                let mut all: Vec<(String, Vec<u8>)> = self
                    .hashes
                    .get(hash)
                    .map(|h| h.iter().map(|(k, v)| (k.clone(), v.clone())).collect())
                    .unwrap_or_default();
                all.sort();
                Reply::All(all)
            }
        }
    }

    fn read(&mut self, key: &str, tenant: u128) -> Result<bool, StoreError> {
        match self.run(&FlagCommand::get_flag(key.to_string(), tenant)) {
            Reply::Field(v) => flag_from_reply(v.as_deref()),
            _ => unreachable!(),
        }
    }
}

#[test]
fn redis_key_text() {
    assert_eq!(RedisKey::FeatureStore.to_string(), "feature_store");
}

#[test]
fn flags_id_is_key_and_hyphenated_tenant() {
    assert_eq!(get_flags_id(TENANT_A), "feature_store:67e55044-10b1-426f-9247-bb680e5fe0c8");
    assert_eq!(get_flags_id(TENANT_B), "feature_store:00000000-0000-0000-0000-000000000001");
    assert_eq!(get_flags_id(u128::MAX), "feature_store:ffffffff-ffff-ffff-ffff-ffffffffffff");
}

#[test]
fn redis_url_prefixes_scheme() {
    assert_eq!(redis_url(&"localhost:6379".to_string()), "redis://localhost:6379");
    assert_eq!(redis_url(&String::new()), "redis://");
}

#[test]
fn flag_values_are_stored_as_one_and_zero() {
    assert_eq!(flag_value_arg(true), b"1".to_vec());
    assert_eq!(flag_value_arg(false), b"0".to_vec());
}

#[test]
fn flag_replies_read_as_redis_reads_bool() {
    assert_eq!(flag_from_reply(None), Ok(false));
    assert_eq!(flag_from_reply(Some(b"1")), Ok(true));
    assert_eq!(flag_from_reply(Some(b"0")), Ok(false));
    assert_eq!(flag_from_reply(Some(b"true")), Err(StoreError::InvalidFlagValue));
    assert_eq!(flag_from_reply(Some(b"")), Err(StoreError::InvalidFlagValue));
}

#[test]
fn commands_target_the_tenant_hash() {
    match FlagCommand::get_flag("beta".to_string(), TENANT_A) {
        FlagCommand::HGet { hash, field } => {
            assert_eq!(hash, get_flags_id(TENANT_A));
            assert_eq!(field, "beta");
        }
        _ => panic!("expected HGET"),
    }
    match FlagCommand::add_or_update_flag("beta".to_string(), true, TENANT_A) {
        FlagCommand::HSet { hash, field, value } => {
            assert_eq!(hash, get_flags_id(TENANT_A));
            assert_eq!(field, "beta");
            assert_eq!(value, b"1".to_vec());
        }
        _ => panic!("expected HSET"),
    }
    match FlagCommand::remove_flag("beta".to_string(), TENANT_B) {
        FlagCommand::HDel { hash, field } => {
            assert_eq!(hash, get_flags_id(TENANT_B));
            assert_eq!(field, "beta");
        }
        _ => panic!("expected HDEL"),
    }
    match FlagCommand::get_all_flags(TENANT_B) {
        FlagCommand::HGetAll { hash } => assert_eq!(hash, get_flags_id(TENANT_B)),
        _ => panic!("expected HGETALL"),
    }
}

#[test]
fn read_after_set_gives_value_back() {
    let mut store = Hashes::default();
    store.run(&FlagCommand::add_or_update_flag("beta".to_string(), true, TENANT_A));
    assert_eq!(store.read("beta", TENANT_A), Ok(true));
    store.run(&FlagCommand::add_or_update_flag("beta".to_string(), false, TENANT_A));
    assert_eq!(store.read("beta", TENANT_A), Ok(false));
}

#[test]
fn read_after_remove_gives_false() {
    let mut store = Hashes::default();
    store.run(&FlagCommand::add_or_update_flag("beta".to_string(), true, TENANT_A));
    store.run(&FlagCommand::remove_flag("beta".to_string(), TENANT_A));
    assert_eq!(store.read("beta", TENANT_A), Ok(false));
    assert_eq!(store.read("never-set", TENANT_A), Ok(false));
}

#[test]
fn tenants_do_not_see_each_other() {
    let mut store = Hashes::default();
    store.run(&FlagCommand::add_or_update_flag("beta".to_string(), true, TENANT_A));
    store.run(&FlagCommand::add_or_update_flag("other".to_string(), true, TENANT_A));
    assert_eq!(store.read("beta", TENANT_B), Ok(false));
    match store.run(&FlagCommand::get_all_flags(TENANT_B)) {
        Reply::All(all) => assert!(all.is_empty()),
        _ => unreachable!(),
    }
    store.run(&FlagCommand::remove_flag("beta".to_string(), TENANT_B));
    assert_eq!(store.read("beta", TENANT_A), Ok(true));
}

#[test]
fn listing_after_change() {
    let mut store = Hashes::default();
    store.run(&FlagCommand::add_or_update_flag("a".to_string(), true, TENANT_A));
    store.run(&FlagCommand::add_or_update_flag("b".to_string(), false, TENANT_A));
    let all = match store.run(&FlagCommand::get_all_flags(TENANT_A)) {
        Reply::All(all) => all,
        _ => unreachable!(),
    };
    let flags = flags_from_reply(&all).unwrap();
    assert_eq!(flags.len(), 2);
    assert_eq!((flags[0].key.as_str(), flags[0].value), ("a", true));
    assert_eq!((flags[1].key.as_str(), flags[1].value), ("b", false));
    store.run(&FlagCommand::remove_flag("a".to_string(), TENANT_A));
    let all = match store.run(&FlagCommand::get_all_flags(TENANT_A)) {
        Reply::All(all) => all,
        _ => unreachable!(),
    };
    let flags = flags_from_reply(&all).unwrap();
    assert_eq!(flags.len(), 1);
    assert_eq!((flags[0].key.as_str(), flags[0].value), ("b", false));
}

#[test]
fn listing_with_unreadable_value_fails() {
    let pairs = vec![("a".to_string(), b"1".to_vec()), ("b".to_string(), b"maybe".to_vec())];
    assert!(matches!(flags_from_reply(&pairs), Err(StoreError::InvalidFlagValue)));
    assert!(flags_from_reply(&Vec::new()).unwrap().is_empty());
}

#[test]
fn feature_flag_new_keeps_fields() {
    let f = FeatureFlag::new("beta".to_string(), true);
    assert_eq!(f.key, "beta");
    assert!(f.value);
}

#[test]
fn add_flag_stores_and_answers_payload() {
    let payload = FeatureFlag::new("beta".to_string(), true);
    let r = add_flag(&payload, &caller(TENANT_A));
    assert_eq!((r.answer.key.as_str(), r.answer.value), ("beta", true));
    match r.command {
        FlagCommand::HSet { hash, field, value } => {
            assert_eq!(hash, get_flags_id(TENANT_A));
            assert_eq!(field, "beta");
            assert_eq!(value, b"1".to_vec());
        }
        _ => panic!("expected HSET"),
    }
}

#[test]
fn update_flag_stores_payload_key_and_answers_path_key() {
    let payload = FeatureFlag::new("stored".to_string(), false);
    let r = update_flag("path".to_string(), &payload, &caller(TENANT_A));
    assert_eq!((r.answer.key.as_str(), r.answer.value), ("path", false));
    match r.command {
        FlagCommand::HSet { field, value, .. } => {
            assert_eq!(field, "stored");
            assert_eq!(value, b"0".to_vec());
        }
        _ => panic!("expected HSET"),
    }
}

#[test]
fn remove_flag_answers_switched_off() {
    let r = remove_flag("beta".to_string(), &caller(TENANT_B));
    assert_eq!((r.answer.key.as_str(), r.answer.value), ("beta", false));
    assert!(matches!(r.command, FlagCommand::HDel { .. }));
}

#[test]
fn get_flag_answer_from_reply() {
    let f = get_flag_answer("beta".to_string(), Some(b"1")).unwrap();
    assert_eq!((f.key.as_str(), f.value), ("beta", true));
    let f = get_flag_answer("beta".to_string(), None).unwrap();
    assert_eq!((f.key.as_str(), f.value), ("beta", false));
    assert!(matches!(get_flag_answer("beta".to_string(), Some(b"2")), Err(StoreError::InvalidFlagValue)));
}

#[test]
fn flag_requests_use_the_callers_tenant() {
    match get_flag(&"beta".to_string(), &caller(TENANT_B)) {
        FlagCommand::HGet { hash, field } => {
            assert_eq!(hash, get_flags_id(TENANT_B));
            assert_eq!(field, "beta");
        }
        _ => panic!("expected HGET"),
    }
    match all_flags(&caller(TENANT_A)) {
        FlagCommand::HGetAll { hash } => assert_eq!(hash, get_flags_id(TENANT_A)),
        _ => panic!("expected HGETALL"),
    }
    let r = remove_flag("beta".to_string(), &caller(TENANT_A));
    match r.command {
        FlagCommand::HDel { hash, .. } => assert_eq!(hash, get_flags_id(TENANT_A)),
        _ => panic!("expected HDEL"),
    }
}

#[test]
fn callers_of_different_tenants_do_not_share_flags() {
    let mut store = Hashes::default();
    let payload = FeatureFlag::new("beta".to_string(), true);
    store.run(&add_flag(&payload, &caller(TENANT_A)).command);
    match store.run(&get_flag(&"beta".to_string(), &caller(TENANT_B))) {
        Reply::Field(v) => assert_eq!(flag_from_reply(v.as_deref()), Ok(false)),
        _ => unreachable!(),
    }
    match store.run(&get_flag(&"beta".to_string(), &caller(TENANT_A))) {
        Reply::Field(v) => assert_eq!(flag_from_reply(v.as_deref()), Ok(true)),
        _ => unreachable!(),
    }
}
