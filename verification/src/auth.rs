use vstd::prelude::*;
use crate::claims::{Claims, JWT_EXPIRATION_NUM_HOURS, LATEST_TIMESTAMP};
use crate::ids::{uuid_text, uuid_to_string};
use crate::users::{
    Permission, PasswordError, User, UserRequest, hashing_fails_only_as_allowed, password_matches,
    service_hash_of,
};

verus! {

/// The expiry granted to a token asked for by signing in.
pub const JWT_DEFAULT_EXPIRATION: i64 = JWT_EXPIRATION_NUM_HOURS;

/// The tenant that a user who registers on their own is placed in; users
/// created by a signed-in user join that user's tenant instead.
pub const DEFAULT_TENANT_ID: u128 = 1;

/// A request for an access token: the credentials and the wanted expiry.
pub struct AccessTokenRequest {
    pub user: UserRequest,
    pub expiry: i64,
}

/// The answer to a granted access token request.
pub struct AccessTokenResponse {
    pub token: String,
    pub permissions: Vec<String>,
    pub expiry: i64,
}

/// The access token request that signing in with `user` makes.
pub fn login_request(user: UserRequest) -> (r: AccessTokenRequest)
    ensures
        r.user == user,
        r.expiry == JWT_DEFAULT_EXPIRATION,
{
    AccessTokenRequest { user, expiry: JWT_DEFAULT_EXPIRATION }
}

/// The names of `permissions`, in order.
pub fn permission_names(permissions: &Vec<Permission>) -> (names: Vec<String>)
    ensures
        names@.len() == permissions@.len(),
        forall|i: int| 0 <= i < permissions@.len() ==> #[trigger] names@[i] == permissions@[i].name,
{
    let mut names: Vec<String> = Vec::new();
    let mut i: usize = 0;
    while i < permissions.len()
        invariant
            i <= permissions@.len(),
            names@.len() == i,
            forall|j: int| 0 <= j < i ==> #[trigger] names@[j] == permissions@[j].name,
        decreases permissions@.len() - i,
    {
        names.push(permissions[i].name.clone());
        i = i + 1;
    }
    names
}

/// The claims of the token granted for `request` to the signed-in user `user`
/// with the permissions `permissions`: the request's email, the user's tenant
/// and those permission names, expiring `JWT_EXPIRATION_NUM_HOURS` hours from
/// now; `None` when the current time cannot be read.
pub fn token_claims(request: &AccessTokenRequest, user: &User, permissions: &Vec<Permission>) -> (r: Option<Claims>)
    ensures
        r matches Some(c) ==> {
            &&& c.username == request.user.email
            &&& c.tenant_id == user.tenant_id
            &&& c.permissions@.len() == permissions@.len()
            &&& forall|i: int| 0 <= i < permissions@.len() ==> #[trigger] c.permissions@[i] == permissions@[i].name
            &&& JWT_EXPIRATION_NUM_HOURS * 3600 <= c.exp <= LATEST_TIMESTAMP + JWT_EXPIRATION_NUM_HOURS * 3600
        },
{
    Claims::new(request.user.email.clone(), user.tenant_id, permission_names(permissions))
}

/// The answer to `request` once its token `token` has been made for a user
/// with the permissions `permissions`: the token, the permission names and
/// the requested expiry.
pub fn token_response(request: &AccessTokenRequest, token: String, permissions: &Vec<Permission>) -> (r:
    AccessTokenResponse)
    ensures
        r.token == token,
        r.permissions@.len() == permissions@.len(),
        forall|i: int| 0 <= i < permissions@.len() ==> #[trigger] r.permissions@[i] == permissions@[i].name,
        r.expiry == request.expiry,
{
    AccessTokenResponse { token, permissions: permission_names(permissions), expiry: request.expiry }
}

/// The record of a user that the signed-in caller whose token carries
/// `caller` adds: the new user joins the caller's tenant.
pub fn user_added_by(caller: &Claims, user: UserRequest) -> (r: Result<User, PasswordError>)
    ensures
        hashing_fails_only_as_allowed(r, user.password@),
        r matches Ok(u) ==> {
            &&& u.tenant_id == caller.tenant_id
            &&& u.id & 0xF000_C000_0000_0000_0000u128 == 0x4000_8000_0000_0000_0000u128
            &&& u.email == user.email
            &&& service_hash_of(u.password@, user.password@)
            &&& password_matches(u.password@, user.password@)
        },
{
    User::create_record(user, caller.tenant_id)
}

/// The record of a user who registers on their own: they join the default
/// tenant.
pub fn registered_user(user: UserRequest) -> (r: Result<User, PasswordError>)
    ensures
        hashing_fails_only_as_allowed(r, user.password@),
        r matches Ok(u) ==> {
            &&& u.tenant_id == DEFAULT_TENANT_ID
            &&& u.id & 0xF000_C000_0000_0000_0000u128 == 0x4000_8000_0000_0000_0000u128
            &&& u.email == user.email
            &&& service_hash_of(u.password@, user.password@)
            &&& password_matches(u.password@, user.password@)
        },
{
    User::create_record(user, DEFAULT_TENANT_ID)
}

/// The text that answers a request to sign out: it names the signed-in user,
/// or says that no one was signed in.
pub open spec fn logout_text(user_id: Option<u128>) -> Seq<char> {
    match user_id {
        Some(id) => "Logged out: "@ + uuid_text(id),
        None => "Could not log out anonymous user."@,
    }
}

/// The answer to a request to sign out, given the id of the signed-in user.
pub fn logout_message(user_id: Option<u128>) -> (m: String)
    ensures
        m@ == logout_text(user_id),
{
    match user_id {
        Some(id) => {
            let mut m = String::from_str("Logged out: ");
            let text = uuid_to_string(id);
            m.append(text.as_str());
            m
        },
        None => String::from_str("Could not log out anonymous user."),
    }
}

} // verus!
