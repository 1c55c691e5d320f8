use vstd::prelude::*;
use crate::credential::CredentialError;
use crate::geo::{country_code, country_of, opt_view};
use crate::mask::{mask_of, mask_string};
use crate::password::{password_matches, verify_password};
use crate::state::AccountState;
use crate::util::{is_token, random_token};

verus! {

/// The outcome of reading one row from the store: the row, no such row, or a
/// storage failure.
#[derive(Debug)]
pub enum Lookup<T> {
    Found(T),
    Missing,
    Failed,
}

/// Why a login or verify attempt is refused.
#[derive(Clone, Copy, Debug, PartialEq, Eq, Structural)]
pub enum AuthError {
    /// Wrong password, unknown account, undecodable credential or closed account.
    InvalidCredential,
    /// The session token is unknown, or its account may not sign in.
    BadToken,
    /// The session token was issued to another device.
    DeviceMismatch,
    /// The store could not be read.
    StorageUnavailable,
}

/// Response code of a successful request.
pub const RESPONSE_SUCCESS: i16 = 0;
/// Response code of a system failure.
pub const RESPONSE_FAILURE: i16 = -1;
/// Response code of a refused login or verification.
pub const RESPONSE_LOGIN_FAILED: i16 = -101;

impl AuthError {
    pub open spec fn spec_retcode(self) -> i16 {
        match self {
            AuthError::StorageUnavailable => RESPONSE_FAILURE,
            _ => RESPONSE_LOGIN_FAILED,
        }
    }

    /// The response code under which this refusal is reported.
    pub fn retcode(&self) -> (r: i16)
        ensures
            r == self.spec_retcode(),
    {
        match self {
            AuthError::StorageUnavailable => RESPONSE_FAILURE,
            _ => RESPONSE_LOGIN_FAILED,
        }
    }

    pub open spec fn spec_message(self) -> Seq<char> {
        match self {
            AuthError::InvalidCredential => "Incorrect username or password."@,
            AuthError::BadToken => "Game account cache information error."@,
            AuthError::DeviceMismatch => "For your security, please login again."@,
            AuthError::StorageUnavailable => "System error; please try again later."@,
        }
    }

    /// The message shown to the client for this refusal.
    pub fn message(&self) -> (r: &'static str)
        ensures
            r@ == self.spec_message(),
    {
        match self {
            AuthError::InvalidCredential => "Incorrect username or password.",
            AuthError::BadToken => "Game account cache information error.",
            AuthError::DeviceMismatch => "For your security, please login again.",
            AuthError::StorageUnavailable => "System error; please try again later.",
        }
    }
}

impl AuthError {
    /// A password that cannot be decoded or decrypted is refused like a wrong
    /// one, so the response does not tell the two apart.
    pub fn from_credential(e: &CredentialError) -> (r: AuthError)
        ensures
            r == AuthError::InvalidCredential,
    {
        AuthError::InvalidCredential
    }
}

/// An account as the store holds it.
#[derive(Clone, Debug)]
pub struct AccountRecord {
    pub uid: i32,
    pub name: Option<String>,
    pub email: Option<String>,
    pub mobile: Option<String>,
    /// The bcrypt hash of the password; accounts linked elsewhere may have none.
    pub password: Option<String>,
    pub state: AccountState,
}

/// The text of an optional field, empty when absent.
pub open spec fn opt_text(s: Option<String>) -> Seq<char> {
    match s {
        Some(t) => t@,
        None => Seq::empty(),
    }
}

/// Whether a device must pass a grant step, given the lookup of its own row
/// and of any device row of the account. A failed read requires the grant.
pub open spec fn spec_needs_grant(device_row: Lookup<()>, history: Lookup<()>) -> bool {
    match device_row {
        Lookup::Found(_) => false,
        Lookup::Failed => true,
        Lookup::Missing => match history {
            Lookup::Missing => false,
            _ => true,
        },
    }
}

/// Decides whether the device needs a grant: a known device is trusted, the
/// first device of an account is trusted, any other device is not.
pub fn needs_grant(device_row: &Lookup<()>, history: &Lookup<()>) -> (r: bool)
    ensures
        r == spec_needs_grant(*device_row, *history),
{
    match device_row {
        Lookup::Found(_) => false,
        Lookup::Failed => true,
        Lookup::Missing => match history {
            Lookup::Missing => false,
            _ => true,
        },
    }
}

/// The decision on a login attempt, once the password has been decoded and the
/// account looked up by name or email.
pub open spec fn login_outcome(account: Lookup<AccountRecord>, plain_text: Seq<char>) -> Result<
    AccountState,
    AuthError,
> {
    match account {
        Lookup::Failed => Err(AuthError::StorageUnavailable),
        Lookup::Missing => Err(AuthError::InvalidCredential),
        Lookup::Found(a) => if !a.state.spec_may_login() {
            Err(AuthError::InvalidCredential)
        } else if a.password is Some && !password_matches(plain_text, a.password->Some_0@) {
            Err(AuthError::InvalidCredential)
        } else {
            Ok(a.state)
        },
    }
}

/// Authenticates a login: the account must exist, be open, and match the
/// password if it has one.
pub fn authorize_login(account: &Lookup<AccountRecord>, plain_text: &str) -> (r: Result<
    AccountState,
    AuthError,
>)
    ensures
        r == login_outcome(*account, plain_text@),
{
    match account {
        Lookup::Failed => Err(AuthError::StorageUnavailable),
        Lookup::Missing => Err(AuthError::InvalidCredential),
        Lookup::Found(a) => {
            if !a.state.may_login() {
                return Err(AuthError::InvalidCredential);
            }
            match &a.password {
                Some(hashed) => {
                    if !verify_password(plain_text, hashed) {
                        return Err(AuthError::InvalidCredential);
                    }
                },
                None => {},
            }
            Ok(a.state)
        },
    }
}

/// The decision on a verify attempt, given the device that the presented token
/// was issued to and the account it belongs to.
pub open spec fn verify_outcome(
    token_device: Lookup<String>,
    account: Lookup<AccountRecord>,
    device: Seq<char>,
) -> Result<AccountState, AuthError> {
    match token_device {
        Lookup::Failed => Err(AuthError::StorageUnavailable),
        Lookup::Missing => Err(AuthError::BadToken),
        Lookup::Found(issued_to) => match account {
            Lookup::Found(a) => if !a.state.spec_may_login() {
                Err(AuthError::BadToken)
            } else if issued_to@ != device {
                Err(AuthError::DeviceMismatch)
            } else {
                Ok(a.state)
            },
            _ => Err(AuthError::StorageUnavailable),
        },
    }
}

/// Validates a session token presented from a device.
pub fn authorize_verify(
    token_device: &Lookup<String>,
    account: &Lookup<AccountRecord>,
    device: &String,
) -> (r: Result<AccountState, AuthError>)
    ensures
        r == verify_outcome(*token_device, *account, device@),
{
    match token_device {
        Lookup::Failed => Err(AuthError::StorageUnavailable),
        Lookup::Missing => Err(AuthError::BadToken),
        Lookup::Found(issued_to) => match account {
            Lookup::Found(a) => {
                if !a.state.may_login() {
                    Err(AuthError::BadToken)
                } else if !issued_to.eq(device) {
                    Err(AuthError::DeviceMismatch)
                } else {
                    Ok(a.state)
                }
            },
            _ => Err(AuthError::StorageUnavailable),
        },
    }
}

/// What a successful login or verification does to the store, and the
/// session it hands out.
#[derive(Debug)]
pub struct SessionPlan {
    /// A fresh reactivation ticket to store for the account, if it is pending deletion.
    pub reactivate_ticket: Option<String>,
    /// A fresh grant ticket to store for the account, if the device is not trusted.
    pub grant_ticket: Option<String>,
    /// The time to record as the device's last sighting, if the device is trusted.
    pub device_seen_at: Option<u32>,
    /// The session token of the device.
    pub token: String,
    /// Whether the token was minted now and must be stored.
    pub token_is_new: bool,
}

/// The token found for a device, if the lookup found one.
pub open spec fn found_token(existing: Lookup<String>) -> Option<Seq<char>> {
    match existing {
        Lookup::Found(t) => Some(t@),
        _ => None,
    }
}

/// What a session plan owes to the state of the account and the store reads.
pub open spec fn plan_fits(
    plan: SessionPlan,
    state: AccountState,
    device_row: Lookup<()>,
    history: Lookup<()>,
    existing: Option<Seq<char>>,
) -> bool {
    &&& (plan.reactivate_ticket is Some) == (state == AccountState::PendingDelete)
    &&& plan.reactivate_ticket is Some ==> is_token(plan.reactivate_ticket->Some_0@)
    &&& (plan.grant_ticket is Some) == spec_needs_grant(device_row, history)
    &&& plan.grant_ticket is Some ==> is_token(plan.grant_ticket->Some_0@)
    &&& (plan.device_seen_at is Some) == !spec_needs_grant(device_row, history)
    &&& match existing {
        Some(t) => plan.token@ == t && !plan.token_is_new,
        None => plan.token_is_new && is_token(plan.token@),
    }
}

/// Plans the session of an authenticated account on a device: a reactivation
/// ticket for an account pending deletion, a grant ticket for an untrusted
/// device (else a refreshed device row), and the device's existing token or a
/// new one. A trusted device is recorded as seen at `now`.
pub fn plan_session(
    state: AccountState,
    device_row: &Lookup<()>,
    history: &Lookup<()>,
    existing_token: Lookup<String>,
    now: u32,
) -> (r: SessionPlan)
    ensures
        plan_fits(r, state, *device_row, *history, found_token(existing_token)),
        r.device_seen_at is Some ==> r.device_seen_at == Some(now),
{
    let reactivate_ticket = match state {
        AccountState::PendingDelete => Some(random_token()),
        _ => None,
    };
    let (grant_ticket, device_seen_at) = if needs_grant(device_row, history) {
        (Some(random_token()), None)
    } else {
        (None, Some(now))
    };
    let (token, token_is_new) = match existing_token {
        Lookup::Found(t) => (t, false),
        _ => (random_token(), true),
    };
    SessionPlan { reactivate_ticket, grant_ticket, device_seen_at, token, token_is_new }
}

/// The masked account snapshot handed to the client.
#[derive(Debug)]
pub struct AccountData {
    pub uid: i32,
    pub name: String,
    pub email: String,
    pub mobile: String,
    pub is_email_verify: bool,
    pub realname: String,
    pub identity_card: String,
    pub token: String,
    pub country: String,
    pub device_grant_ticket: Option<String>,
    pub reactivate_ticket: Option<String>,
}

/// The payload of a successful login or verification.
#[derive(Debug)]
pub struct LoginResult {
    pub account: AccountData,
    pub realperson_required: bool,
    pub device_grant_required: bool,
    pub safe_mobile_required: bool,
    pub reactivate_required: bool,
    pub realname_operation: String,
}

/// The identity-check state reported with every session.
pub open spec fn realname_none() -> Seq<char> {
    seq!['N', 'o', 'n', 'e']
}

/// What the payload owes to the account, the session plan and the country lookup.
pub open spec fn result_fits(
    r: LoginResult,
    account: AccountRecord,
    plan: SessionPlan,
    country: Option<Seq<char>>,
) -> bool {
    &&& r.account.uid == account.uid
    &&& r.account.name@ == mask_of(opt_text(account.name))
    &&& r.account.email@ == mask_of(opt_text(account.email))
    &&& r.account.mobile@ == mask_of(opt_text(account.mobile))
    &&& !r.account.is_email_verify
    &&& r.account.realname@ == Seq::<char>::empty()
    &&& r.account.identity_card@ == Seq::<char>::empty()
    &&& r.account.token@ == plan.token@
    &&& r.account.country@ == country_of(country)
    &&& opt_view(r.account.device_grant_ticket) == opt_view(plan.grant_ticket)
    &&& opt_view(r.account.reactivate_ticket) == opt_view(plan.reactivate_ticket)
    &&& !r.realperson_required
    &&& r.device_grant_required == plan.grant_ticket is Some
    &&& !r.safe_mobile_required
    &&& r.reactivate_required == plan.reactivate_ticket is Some
    &&& r.realname_operation@ == realname_none()
}

/// Masks an optional field, reading an absent one as empty.
fn mask_field(field: &Option<String>) -> (r: String)
    ensures
        r@ == mask_of(opt_text(*field)),
{
    match field {
        Some(s) => mask_string(s.as_str()),
        None => {
            proof {
                reveal_strlit("");
            }
            mask_string("")
        },
    }
}

/// Assembles the payload of a session: the masked account, the token, the
/// country (`ZZ` when the lookup found none) and the tickets with their flags.
pub fn login_result(account: &AccountRecord, plan: SessionPlan, country: Option<String>) -> (r:
    LoginResult)
    ensures
        result_fits(r, *account, plan, opt_view(country)),
{
    let device_grant_required = plan.grant_ticket.is_some();
    let reactivate_required = plan.reactivate_ticket.is_some();
    proof {
        reveal_strlit("None");
    }
    let realname_operation = String::from_str("None");
    assert(realname_operation@ =~= realname_none());
    let data = AccountData {
        uid: account.uid,
        name: mask_field(&account.name),
        email: mask_field(&account.email),
        mobile: mask_field(&account.mobile),
        is_email_verify: false,
        realname: String::new(),
        identity_card: String::new(),
        token: plan.token,
        country: country_code(country),
        device_grant_ticket: plan.grant_ticket,
        reactivate_ticket: plan.reactivate_ticket,
    };
    LoginResult {
        account: data,
        realperson_required: false,
        device_grant_required,
        safe_mobile_required: false,
        reactivate_required,
        realname_operation,
    }
}

} // verus!
