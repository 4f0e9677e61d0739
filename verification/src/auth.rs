//! Identity-provider records and the decisions made on them: primary
//! email resolution, membership checks, and OAuth token selection.

use vstd::prelude::*;

use crate::identity::{opt_string_dup, User};
use vstd::string::StringExecFns;

verus! {

/// Errors from the identity provider's API.
#[derive(Debug)]
pub enum ClerkServiceError {
    /// The requested resource does not exist; carries its name.
    NotFound(String),
    /// The provider answered something unexpected; carries a description.
    InvalidResponse(String),
    /// No OAuth access token is available; carries the provider name.
    OAuthTokenUnavailable(String),
    /// The HTTP call itself failed; carries its message.
    Http(String),
}

/// Errors from identity synchronization.
#[derive(Debug)]
pub enum IdentityError {
    Clerk(ClerkServiceError),
    Database(String),
}

/// A user record from the identity provider.
pub struct ClerkUser {
    pub id: String,
    pub email: String,
    pub first_name: Option<String>,
    pub last_name: Option<String>,
    pub username: Option<String>,
}

impl ClerkUser {
    /// Field-for-field copy.
    pub fn dup(&self) -> (r: Self)
        ensures
            r == *self,
    {
        ClerkUser {
            id: self.id.clone(),
            email: self.email.clone(),
            first_name: opt_string_dup(&self.first_name),
            last_name: opt_string_dup(&self.last_name),
            username: opt_string_dup(&self.username),
        }
    }
}

/// One organization a user belongs to.
pub struct ClerkOrganizationMembership {
    pub id: String,
    pub slug: Option<String>,
}

/// One email address record of a user.
pub struct UserEmailAddress {
    pub id: String,
    pub email_address: String,
}

/// The user fields the provider returns.
pub struct UserResponse {
    pub id: String,
    pub first_name: Option<String>,
    pub last_name: Option<String>,
    pub username: Option<String>,
    pub primary_email_address_id: Option<String>,
    pub email_addresses: Vec<UserEmailAddress>,
}

/// Address `i` exists and has the requested id.
pub open spec fn address_at(addresses: Seq<UserEmailAddress>, i: int, id: Seq<char>) -> bool {
    0 <= i < addresses.len() && addresses[i].id@ == id
}

/// Some address has the requested id.
pub open spec fn has_address(addresses: Seq<UserEmailAddress>, id: Seq<char>) -> bool {
    exists|i: int| address_at(addresses, i, id)
}

/// The index of the first address with the requested id; the list's
/// length when there is none.
pub open spec fn first_address_index(addresses: Seq<UserEmailAddress>, id: Seq<char>, from: int)
    -> int
    decreases addresses.len() - from,
{
    if from < 0 || from >= addresses.len() {
        addresses.len() as int
    } else if addresses[from].id@ == id {
        from
    } else {
        first_address_index(addresses, id, from + 1)
    }
}

/// The email a user record resolves to: the primary address when its id
/// is listed, the first address otherwise, none when there are no
/// addresses.
pub open spec fn resolved_email(
    primary_id: Option<String>,
    addresses: Seq<UserEmailAddress>,
) -> Option<String> {
    match primary_id {
        Some(p) => if has_address(addresses, p@) {
            Some(addresses[first_address_index(addresses, p@, 0)].email_address)
        } else if addresses.len() > 0 {
            Some(addresses[0].email_address)
        } else {
            None
        },
        None => if addresses.len() > 0 {
            Some(addresses[0].email_address)
        } else {
            None
        },
    }
}

/// Picks a user's primary email: the address matching the primary id
/// when present, else the first listed address.
pub fn resolve_primary_email(
    primary_id: &Option<String>,
    addresses: &Vec<UserEmailAddress>,
) -> (r: Option<String>)
    ensures
        r == resolved_email(*primary_id, addresses@),
{
    if let Some(p) = primary_id {
        let n = addresses.len();
        let mut k: usize = 0;
        while k < n
            invariant
                *primary_id matches Some(q) && q == *p,
                n == addresses@.len(),
                0 <= k <= n,
                forall|i: int| 0 <= i < k ==> !address_at(addresses@, i, p@),
                first_address_index(addresses@, p@, 0) == first_address_index(
                    addresses@,
                    p@,
                    k as int,
                ),
            decreases n - k,
        {
            if addresses[k].id == *p {
                proof {
                    assert(address_at(addresses@, k as int, p@));
                    assert(first_address_index(addresses@, p@, k as int) == k as int);
                }
                return Some(addresses[k].email_address.clone());
            }
            k += 1;
        }
        proof {
            assert(!has_address(addresses@, p@));
        }
    }
    if addresses.len() > 0 {
        Some(addresses[0].email_address.clone())
    } else {
        None
    }
}

impl ClerkUser {
    /// Builds a provider user from the raw response; a record without a
    /// resolvable email address is refused.
    pub fn from_response(value: UserResponse) -> (r: Result<ClerkUser, ClerkServiceError>)
        ensures
            r is Ok <==> resolved_email(value.primary_email_address_id, value.email_addresses@)
                is Some,
            r matches Ok(u) ==> {
                &&& u.id == value.id
                &&& Some(u.email) == resolved_email(
                    value.primary_email_address_id,
                    value.email_addresses@,
                )
                &&& u.first_name == value.first_name
                &&& u.last_name == value.last_name
                &&& u.username == value.username
            },
            r matches Err(e) ==> e is InvalidResponse,
    {
        let email = match resolve_primary_email(
            &value.primary_email_address_id,
            &value.email_addresses,
        ) {
            Some(email) => email,
            None => {
                return Err(
                    ClerkServiceError::InvalidResponse(
                        String::from_str("user ").concat(value.id.as_str()).concat(
                            " missing primary email address",
                        ),
                    ),
                );
            },
        };
        Ok(
            ClerkUser {
                id: value.id,
                email,
                first_name: value.first_name,
                last_name: value.last_name,
                username: value.username,
            },
        )
    }
}

/// Some membership names the organization.
pub open spec fn is_member_of(
    memberships: Seq<ClerkOrganizationMembership>,
    organization_id: Seq<char>,
) -> bool {
    exists|i: int|
        0 <= i < memberships.len() && (#[trigger] memberships[i]).id@ == organization_id
}

/// Whether any of the memberships names the organization.
pub fn check_membership(
    memberships: &Vec<ClerkOrganizationMembership>,
    organization_id: &String,
) -> (r: bool)
    ensures
        r == is_member_of(memberships@, organization_id@),
{
    let n = memberships.len();
    let mut k: usize = 0;
    while k < n
        invariant
            n == memberships@.len(),
            0 <= k <= n,
            forall|i: int| 0 <= i < k ==> (#[trigger] memberships@[i]).id@ != organization_id@,
        decreases n - k,
    {
        if memberships[k].id == *organization_id {
            return true;
        }
        k += 1;
    }
    false
}

/// Accepts a membership listing only when it is strictly under the page
/// limit, so a truncated page is never mistaken for the whole set.
pub fn memberships_within_limit(
    memberships: Vec<ClerkOrganizationMembership>,
    user_id: &String,
    limit: usize,
) -> (r: Result<Vec<ClerkOrganizationMembership>, ClerkServiceError>)
    ensures
        r is Ok <==> memberships@.len() < limit,
        r matches Ok(ms) ==> ms == memberships,
        r matches Err(e) ==> e is InvalidResponse,
{
    if memberships.len() >= limit {
        Err(
            ClerkServiceError::InvalidResponse(
                String::from_str("user ").concat(user_id.as_str()).concat(
                    " has more memberships than the page limit",
                ),
            ),
        )
    } else {
        Ok(memberships)
    }
}

/// An OAuth access token from the identity provider.
pub struct OAuthAccessToken {
    pub token: String,
    pub expires_at: Option<i64>,
    pub scopes: Option<Vec<String>>,
}

/// The ordering key of a token: its expiry, unset meaning 0.
pub open spec fn token_key(t: OAuthAccessToken) -> i64 {
    match t.expires_at {
        Some(e) => e,
        None => 0,
    }
}

/// Picks the token with the latest expiry (the last one on ties, as a
/// maximum over the listing order); with no tokens at all the provider
/// has none for this user.
pub fn select_latest_token(mut tokens: Vec<OAuthAccessToken>, provider: &String) -> (r: Result<
    OAuthAccessToken,
    ClerkServiceError,
>)
    ensures
        r is Ok <==> tokens@.len() > 0,
        r matches Ok(t) ==> exists|i: int|
            {
                &&& 0 <= i < tokens@.len()
                &&& t == tokens@[i]
                &&& forall|j: int|
                    0 <= j < tokens@.len() ==> token_key(#[trigger] tokens@[j]) <= token_key(
                        tokens@[i],
                    )
                &&& forall|j: int|
                    i < j < tokens@.len() ==> token_key(#[trigger] tokens@[j]) < token_key(
                        tokens@[i],
                    )
            },
        r matches Err(e) ==> {
            &&& e matches ClerkServiceError::OAuthTokenUnavailable(p)
            &&& p@ == provider@
        },
{
    let n = tokens.len();
    if n == 0 {
        return Err(ClerkServiceError::OAuthTokenUnavailable(provider.clone()));
    }
    let mut best: usize = 0;
    let mut k: usize = 1;
    while k < n
        invariant
            n == tokens@.len(),
            0 <= best < k <= n,
            forall|j: int|
                0 <= j < k ==> token_key(#[trigger] tokens@[j]) <= token_key(
                    tokens@[best as int],
                ),
            forall|j: int|
                best < j < k ==> token_key(#[trigger] tokens@[j]) < token_key(
                    tokens@[best as int],
                ),
        decreases n - k,
    {
        let key_k = match tokens[k].expires_at {
            Some(e) => e,
            None => 0,
        };
        let key_best = match tokens[best].expires_at {
            Some(e) => e,
            None => 0,
        };
        if key_k >= key_best {
            best = k;
        }
        k += 1;
    }
    let t = tokens.swap_remove(best);
    Ok(t)
}

/// The identity the server reports for a bearer token.
pub struct IdentityResponse {
    pub user_id: String,
    pub username: Option<String>,
    pub email: String,
}

/// Builds the identity endpoint's response from the user row.
pub fn identity_response(user: &User) -> (r: IdentityResponse)
    ensures
        r.user_id == user.id,
        r.username == user.username,
        r.email == user.email,
{
    IdentityResponse {
        user_id: user.id.clone(),
        username: opt_string_dup(&user.username),
        email: user.email.clone(),
    }
}

/// The GitHub token endpoint's response body.
pub struct GitHubTokenResponse {
    pub access_token: String,
    pub expires_at: Option<i64>,
    pub scopes: Vec<String>,
}

/// Builds the GitHub token endpoint's response from the selected OAuth
/// token; missing scopes become an empty list.
pub fn github_token_response(token: OAuthAccessToken) -> (r: GitHubTokenResponse)
    ensures
        r.access_token == token.token,
        r.expires_at == token.expires_at,
        match token.scopes {
            Some(s) => r.scopes == s,
            None => r.scopes@.len() == 0,
        },
{
    GitHubTokenResponse {
        access_token: token.token,
        expires_at: token.expires_at,
        scopes: match token.scopes {
            Some(s) => s,
            None => Vec::new(),
        },
    }
}

/// The configured identity fields after a login: the provider's values
/// win; the flag says whether anything changed and needs saving.
pub fn update_github_identity(
    username: Option<String>,
    primary_email: Option<String>,
    identity: &IdentityResponse,
) -> (r: (Option<String>, Option<String>, bool))
    ensures
        r.0 == identity.username,
        r.1 == Some(identity.email),
        r.2 == !(crate::identity::opt_string_view_eq(username, identity.username)
            && crate::identity::opt_string_view_eq(primary_email, Some(identity.email))),
{
    let username_same = crate::identity::opt_string_eq(&username, &identity.username);
    let email_same = match &primary_email {
        Some(e) => *e == identity.email,
        None => false,
    };
    let updated = !(username_same && email_same);
    (opt_string_dup(&identity.username), Some(identity.email.clone()), updated)
}

} // verus!
