use vstd::prelude::*;
use vstd::utf8::encode_utf8;
use crate::ids::{hex_digits, new_v4_id};
use crate::random::{random_bytes, RandomSourceFailure};

verus! {

/// The credentials that come with a request to create or sign in a user.
pub struct UserRequest {
    pub email: String,
    pub password: String,
}

/// A user of the service: its id (a UUID, by its big-endian value), its email,
/// the encoded hash of its password, and the tenant it belongs to (a UUID, by
/// its big-endian value).
pub struct User {
    pub id: u128,
    pub email: String,
    pub password: String,
    pub tenant_id: u128,
}

/// A permission that users can be given.
pub struct Permission {
    pub id: i32,
    pub name: String,
}

/// A request to create a permission.
pub struct PermissionRequest {
    pub name: String,
}

/// Errors in hashing or checking a password.
#[derive(Debug, PartialEq, Eq, Structural)]
pub enum PasswordError {
    /// Argon2 refused the password, the salt, the settings or the encoded hash.
    Argon2,
    /// The operating system's random source failed, so no salt or id could
    /// be drawn; the source's evidence of the failure comes with it.
    NoRandomness(RandomSourceFailure),
}

/// The Argon2 settings that differ from `argon2::Config::default()`.
pub struct HashSettings {
    pub lanes: u32,
    pub hash_length: u32,
}

/// Number of lanes the service hashes passwords with.
pub const PASSWORD_LANES: u32 = 4;

/// Length in bytes of the password hashes the service makes.
pub const PASSWORD_HASH_LENGTH: u32 = 32;

/// Length in bytes of the random salt of a password hash.
pub const SALT_LENGTH: usize = 32;

/// Whether `argon2::hash_encoded` with the default memory cost (4096 KiB) and
/// time cost (3) accepts a password and a salt of these lengths with these
/// lanes and hash length.
pub open spec fn argon2_accepts(password_len: nat, salt_len: nat, lanes: u32, hash_length: u32) -> bool {
    &&& 1 <= lanes
    &&& 8 * lanes <= 4096
    &&& password_len <= 0xFFFF_FFFF
    &&& 8 <= salt_len <= 0xFFFF_FFFF
    &&& 4 <= hash_length
}

/// The raw hash (of `hash_length` bytes) that Argon2 computes of `password`
/// with `salt` and `lanes` lanes, and otherwise
/// `argon2::Config::default()`.
pub uninterp spec fn argon2_hash(
    password: Seq<u8>,
    salt: Seq<u8>,
    lanes: u32,
    hash_length: u32,
) -> Seq<u8>;

/// The digits of the standard Base64 alphabet, indexed by their value.
pub open spec fn base64_digits() -> Seq<char> {
    "ABCDEFGHIJKLMNOPQRSTUVWXYZabcdefghijklmnopqrstuvwxyz0123456789+/"@
}

/// `bytes` in standard Base64 without padding: each group of three bytes
/// gives four digits, a last group of one or two bytes gives two or three.
pub open spec fn base64_no_pad(bytes: Seq<u8>) -> Seq<char>
    decreases bytes.len(),
{
    let d = base64_digits();
    if bytes.len() == 0 {
        seq![]
    } else if bytes.len() == 1 {
        seq![d[(bytes[0] / 4) as int], d[((bytes[0] % 4) * 16) as int]]
    } else if bytes.len() == 2 {
        seq![d[(bytes[0] / 4) as int], d[((bytes[0] % 4) * 16 + bytes[1] / 16) as int], d[((bytes[1] % 16) * 4) as int]]
    } else {
        seq![
            d[(bytes[0] / 4) as int],
            d[((bytes[0] % 4) * 16 + bytes[1] / 16) as int],
            d[((bytes[1] % 16) * 4 + bytes[2] / 64) as int],
            d[(bytes[2] % 64) as int],
        ] + base64_no_pad(bytes.skip(3))
    }
}

/// `n` in decimal digits, without leading zeros.
pub open spec fn decimal(n: nat) -> Seq<char>
    decreases n,
{
    if n < 10 {
        seq![hex_digits()[n as int]]
    } else {
        decimal(n / 10).push(hex_digits()[(n % 10) as int])
    }
}

/// The encoded (PHC) form that `argon2::hash_encoded` writes of a hash made
/// with `Config::default()` but for the lanes: the variant (`argon2i`), the
/// version (19), the memory cost (4096), the time cost (3), the lanes, and
/// the salt and the raw hash in Base64 without padding.
pub open spec fn argon2_encoded_text(lanes: u32, salt: Seq<u8>, hash: Seq<u8>) -> Seq<char> {
    "$argon2i$v=19$m=4096,t=3,p="@ + decimal(lanes as nat) + "$"@ + base64_no_pad(salt) + "$"@
        + base64_no_pad(hash)
}

/// The encoded hash that `argon2::hash_encoded` makes of `password` with
/// `salt` and `lanes` lanes, with a hash of `hash_length`
/// bytes, and otherwise the default configuration.
pub open spec fn argon2_encoded_hash(
    password: Seq<u8>,
    salt: Seq<u8>,
    lanes: u32,
    hash_length: u32,
) -> Seq<char> {
    argon2_encoded_text(lanes, salt, argon2_hash(password, salt, lanes, hash_length))
}

/// What `argon2::verify_encoded` answers for `encoded` and `password`:
/// `None` for an error.
pub uninterp spec fn argon2_verification(encoded: Seq<char>, password: Seq<u8>) -> Option<bool>;

/// `password` checks out against the encoded hash `encoded`.
pub open spec fn password_matches(encoded: Seq<char>, password: Seq<char>) -> bool {
    argon2_verification(encoded, encode_utf8(password)) == Some(true)
}

/// `encoded` is a hash of `password` as the service makes them: the PHC
/// string of an Argon2i hash of the password's UTF-8 bytes with 4 lanes, a
/// salt of `SALT_LENGTH` bytes and a raw hash of `PASSWORD_HASH_LENGTH`
/// bytes (`$argon2i$v=19$m=4096,t=3,p=4$<salt>$<hash>`).
pub open spec fn service_hash_of(encoded: Seq<char>, password: Seq<char>) -> bool {
    exists|salt: Seq<u8>|
        {
            &&& salt.len() == SALT_LENGTH
            &&& encoded == #[trigger] argon2_encoded_hash(
                encode_utf8(password),
                salt,
                PASSWORD_LANES,
                PASSWORD_HASH_LENGTH,
            )
            &&& argon2_hash(encode_utf8(password), salt, PASSWORD_LANES, PASSWORD_HASH_LENGTH).len()
                == PASSWORD_HASH_LENGTH
        }
}

/// What hashing `password` with a fresh salt may fail with: a password longer
/// than Argon2 takes (2^32 - 1 bytes) always fails, and Argon2 refuses no
/// other, so a password that fits fails only with `NoRandomness`, which
/// carries the random source's own evidence that a draw failed (only a failed
/// draw makes a `RandomSourceFailure`).
pub open spec fn hashing_fails_only_as_allowed<T>(r: Result<T, PasswordError>, password: Seq<char>) -> bool {
    &&& encode_utf8(password).len() > 0xFFFF_FFFF ==> r is Err
    &&& encode_utf8(password).len() <= 0xFFFF_FFFF ==> (r is Ok || r matches Err(
        PasswordError::NoRandomness(_),
    ))
    &&& r matches Err(PasswordError::Argon2) ==> encode_utf8(password).len() > 0xFFFF_FFFF
}

/// The service's Argon2 settings with a salt of `SALT_LENGTH` bytes accept
/// exactly the passwords of at most 2^32 - 1 bytes.
pub proof fn law_service_settings_accept_every_fitting_password(password_len: nat)
    ensures
        argon2_accepts(password_len, SALT_LENGTH as nat, PASSWORD_LANES, PASSWORD_HASH_LENGTH)
            <==> password_len <= 0xFFFF_FFFF,
{
}

#[verifier::external_type_specification]
#[verifier::external_body]
pub struct ExArgon2Error(argon2::Error);

/// `argon2::hash_encoded` with the default configuration but for the given
/// lanes and hash length (the crate is built without its thread pool, so the
/// lanes are filled one after the other and no thread is spawned). It fails
/// exactly where its `Context::new` refuses the lengths and settings
/// (`argon2_accepts`), and otherwise returns the encoded hash: the settings,
/// the salt and the raw hash (which is named, not stated, and has
/// `hash_length` bytes) in the layout `encoding::encode_string` writes. The
/// encoded hash records the settings and the salt, and `argon2::verify_encoded`
/// hashes the password again with them (and with the empty secret and
/// associated data used here), so the password verifies against it.
#[verifier::external_body]
fn argon2_hash_encoded(password: &[u8], salt: &[u8], settings: &HashSettings) -> (r: Result<String, argon2::Error>)
    ensures
        r is Ok <==> argon2_accepts(password@.len(), salt@.len(), settings.lanes, settings.hash_length),
        r matches Ok(encoded) ==> encoded@ == argon2_encoded_hash(
            password@,
            salt@,
            settings.lanes,
            settings.hash_length,
        ),
        r matches Ok(encoded) ==> argon2_hash(
            password@,
            salt@,
            settings.lanes,
            settings.hash_length,
        ).len() == settings.hash_length,
        r matches Ok(encoded) ==> argon2_verification(encoded@, password@) == Some(true),
{
    let mut config = argon2::Config::default();
    config.lanes = settings.lanes;
    config.hash_length = settings.hash_length;
    argon2::hash_encoded(password, salt, &config)
}

/// `argon2::verify_encoded`: its answer (`None` for an error) is named. Built
/// without the crate's thread pool, it hashes the lanes one after the other.
#[verifier::external_body]
fn argon2_verify_encoded(encoded: &str, password: &[u8]) -> (r: Result<bool, argon2::Error>)
    ensures
        match argon2_verification(encoded@, password@) {
            Some(b) => r matches Ok(x) && x == b,
            None => r is Err,
        },
{
    argon2::verify_encoded(encoded, password)
}

/// The settings the service hashes passwords with.
pub fn password_hash_settings() -> (s: HashSettings)
    ensures
        s.lanes == PASSWORD_LANES,
        s.hash_length == PASSWORD_HASH_LENGTH,
{
    HashSettings { lanes: PASSWORD_LANES, hash_length: PASSWORD_HASH_LENGTH }
}

impl User {
    /// The user that `user` asks for, with id `id`, in tenant `tenant_id`, as
    /// it was sent (the password not yet hashed).
    pub fn from_request(user: UserRequest, id: u128, tenant_id: u128) -> (u: User)
        ensures
            u.id == id,
            u.email == user.email,
            u.password == user.password,
            u.tenant_id == tenant_id,
    {
        User { id, email: user.email, password: user.password, tenant_id }
    }

    /// Hashes `password` with `salt` and the service's settings.
    pub fn hash_password_with_salt(password: &String, salt: &Vec<u8>) -> (r: Result<String, PasswordError>)
        ensures
            r is Ok <==> argon2_accepts(
                encode_utf8(password@).len(),
                salt@.len(),
                PASSWORD_LANES,
                PASSWORD_HASH_LENGTH,
            ),
            r is Err ==> r == Err::<String, PasswordError>(PasswordError::Argon2),
            r matches Ok(h) ==> h@ == argon2_encoded_hash(
                encode_utf8(password@),
                salt@,
                PASSWORD_LANES,
                PASSWORD_HASH_LENGTH,
            ),
            r matches Ok(h) ==> argon2_hash(
                encode_utf8(password@),
                salt@,
                PASSWORD_LANES,
                PASSWORD_HASH_LENGTH,
            ).len() == PASSWORD_HASH_LENGTH,
            r matches Ok(h) ==> password_matches(h@, password@),
    {
        let settings = password_hash_settings();
        match argon2_hash_encoded(password.as_str().as_bytes(), salt.as_slice(), &settings) {
            Ok(h) => Ok(h),
            Err(_) => Err(PasswordError::Argon2),
        }
    }

    /// Hashes `password` with a fresh random salt and the service's settings.
    /// It fails on a password longer than Argon2 takes (2^32 - 1 bytes), and
    /// when the random source fails.
    pub fn hash_password(password: &String) -> (r: Result<String, PasswordError>)
        ensures
            hashing_fails_only_as_allowed(r, password@),
            r matches Ok(h) ==> service_hash_of(h@, password@),
            r matches Ok(h) ==> password_matches(h@, password@),
    {
        let salt = match random_bytes(SALT_LENGTH) {
            Ok(salt) => salt,
            Err(failure) => return Err(PasswordError::NoRandomness(failure)),
        };
        let r = Self::hash_password_with_salt(password, &salt);
        proof {
            if let Ok(h) = &r {
                assert(h@ == argon2_encoded_hash(
                    encode_utf8(password@),
                    salt@,
                    PASSWORD_LANES,
                        PASSWORD_HASH_LENGTH,
                ));
            }
        }
        r
    }

    /// Checks `password` against this user's encoded password hash. A
    /// password whose hash this is verifies.
    pub fn verify_password(&self, password: &String) -> (r: Result<bool, PasswordError>)
        ensures
            match argon2_verification(self.password@, encode_utf8(password@)) {
                Some(b) => r == Ok::<bool, PasswordError>(b),
                None => r == Err::<bool, PasswordError>(PasswordError::Argon2),
            },
            password_matches(self.password@, password@) ==> r == Ok::<bool, PasswordError>(true),
    {
        match argon2_verify_encoded(self.password.as_str(), password.as_str().as_bytes()) {
            Ok(b) => Ok(b),
            Err(_) => Err(PasswordError::Argon2),
        }
    }
}

impl User {
    /// The record to store for a new user that `user` asks for in tenant
    /// `tenant_id`: a fresh random (version 4) id, the email, the hash of the
    /// password with a fresh random salt, and the tenant.
    pub fn create_record(user: UserRequest, tenant_id: u128) -> (r: Result<User, PasswordError>)
        ensures
            hashing_fails_only_as_allowed(r, user.password@),
            r matches Ok(u) ==> {
                &&& u.id & 0xF000_C000_0000_0000_0000u128 == 0x4000_8000_0000_0000_0000u128
                &&& u.tenant_id == tenant_id
                &&& u.email == user.email
                &&& service_hash_of(u.password@, user.password@)
                &&& password_matches(u.password@, user.password@)
            },
    {
        let id = match new_v4_id() {
            Ok(id) => id,
            Err(failure) => return Err(PasswordError::NoRandomness(failure)),
        };
        let user = User::from_request(user, id, tenant_id);
        let hash = Self::hash_password(&user.password)?;
        Ok(User { id: user.id, email: user.email, password: hash, tenant_id: user.tenant_id })
    }

    /// The email and password hash to store when user `user` is updated; the
    /// password is hashed with a fresh random salt.
    pub fn update_record(user: UserRequest) -> (r: Result<UserRequest, PasswordError>)
        ensures
            hashing_fails_only_as_allowed(r, user.password@),
            r matches Ok(u) ==> {
                &&& u.email == user.email
                &&& service_hash_of(u.password@, user.password@)
                &&& password_matches(u.password@, user.password@)
            },
    {
        let hash = Self::hash_password(&user.password)?;
        Ok(UserRequest { email: user.email, password: hash })
    }

    /// Signs in the stored user `db_user` with the credentials `user`: the
    /// password is checked against the stored hash, and the user is signed in
    /// unless the check itself fails. The outcome of the check is not looked
    /// at, so a password that does not match still signs in.
    pub fn sign_in(db_user: User, user: &UserRequest) -> (r: Result<User, PasswordError>)
        ensures
            match argon2_verification(db_user.password@, encode_utf8(user.password@)) {
                Some(_) => r == Ok::<User, PasswordError>(db_user),
                None => r == Err::<User, PasswordError>(PasswordError::Argon2),
            },
    {
        db_user.verify_password(&user.password)?;
        Ok(db_user)
    }

    /// Whether the credentials `user` belong to a user, given `found`, the
    /// stored user with the credentials' email if there is one: no such user
    /// gives `None`; otherwise the user signs in as `sign_in` says.
    pub fn existing(found: Option<User>, user: &UserRequest) -> (r: Result<Option<User>, PasswordError>)
        ensures
            match found {
                None => r == Ok::<Option<User>, PasswordError>(None),
                Some(db_user) => match argon2_verification(db_user.password@, encode_utf8(user.password@)) {
                    Some(_) => r == Ok::<Option<User>, PasswordError>(Some(db_user)),
                    None => r == Err::<Option<User>, PasswordError>(PasswordError::Argon2),
                },
            },
    {
        match found {
            None => Ok(None),
            Some(db_user) => {
                let signed_in = Self::sign_in(db_user, user)?;
                Ok(Some(signed_in))
            },
        }
    }
}

} // verus!
