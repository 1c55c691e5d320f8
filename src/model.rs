use vstd::prelude::*;
use crate::password::password_matches;
use crate::session::{
    login_outcome, plan_fits, result_fits, spec_needs_grant, verify_outcome, AccountRecord,
    AuthError, LoginResult, Lookup, SessionPlan,
};
use crate::state::AccountState;

verus! {

/// The store's device rows, as `(uid, device)` pairs.
pub type DeviceRows = Set<(i32, Seq<char>)>;

/// The store's login tokens, keyed by `(uid, device)`.
pub type TokenRows = Map<(i32, Seq<char>), Seq<char>>;

/// Reading the row of one device of an account.
pub open spec fn device_lookup(devices: DeviceRows, uid: i32, device: Seq<char>) -> Lookup<()> {
    if devices.contains((uid, device)) {
        Lookup::Found(())
    } else {
        Lookup::Missing
    }
}

/// Reading whether an account has any device row at all.
pub open spec fn history_lookup(devices: DeviceRows, uid: i32) -> Lookup<()> {
    if exists|d: Seq<char>| devices.contains((uid, d)) {
        Lookup::Found(())
    } else {
        Lookup::Missing
    }
}

/// Reading the login token of one device of an account.
pub open spec fn token_lookup(tokens: TokenRows, uid: i32, device: Seq<char>) -> Option<Seq<char>> {
    if tokens.contains_key((uid, device)) {
        Some(tokens[(uid, device)])
    } else {
        None
    }
}

/// The device rows once a session plan has been written.
pub open spec fn devices_after(
    devices: DeviceRows,
    uid: i32,
    device: Seq<char>,
    plan: SessionPlan,
) -> DeviceRows {
    if plan.device_seen_at is Some {
        devices.insert((uid, device))
    } else {
        devices
    }
}

/// The login tokens once a session plan has been written.
pub open spec fn tokens_after(
    tokens: TokenRows,
    uid: i32,
    device: Seq<char>,
    plan: SessionPlan,
) -> TokenRows {
    if plan.token_is_new {
        tokens.insert((uid, device), plan.token@)
    } else {
        tokens
    }
}

/// The first device of an account is trusted without a grant, and its row is
/// then recorded.
pub proof fn lemma_first_device_trusted(
    devices: DeviceRows,
    uid: i32,
    device: Seq<char>,
    state: AccountState,
    existing: Option<Seq<char>>,
    plan: SessionPlan,
)
    requires
        forall|d: Seq<char>| !devices.contains((uid, d)),
        plan_fits(plan, state, device_lookup(devices, uid, device), history_lookup(devices, uid), existing),
    ensures
        plan.grant_ticket is None,
        devices_after(devices, uid, device, plan).contains((uid, device)),
{
}

/// A device not seen before, on an account that already has a device, needs a
/// grant and is not recorded.
pub proof fn lemma_new_device_needs_grant(
    devices: DeviceRows,
    uid: i32,
    known: Seq<char>,
    device: Seq<char>,
    state: AccountState,
    existing: Option<Seq<char>>,
    plan: SessionPlan,
)
    requires
        devices.contains((uid, known)),
        !devices.contains((uid, device)),
        plan_fits(plan, state, device_lookup(devices, uid, device), history_lookup(devices, uid), existing),
    ensures
        plan.grant_ticket is Some,
        !devices_after(devices, uid, device, plan).contains((uid, device)),
{
}

/// A device already recorded for the account needs no grant.
pub proof fn lemma_known_device_trusted(
    devices: DeviceRows,
    uid: i32,
    device: Seq<char>,
    state: AccountState,
    existing: Option<Seq<char>>,
    plan: SessionPlan,
)
    requires
        devices.contains((uid, device)),
        plan_fits(plan, state, device_lookup(devices, uid, device), history_lookup(devices, uid), existing),
    ensures
        plan.grant_ticket is None,
{
}

/// Logins in sequence on an account with no device yet: the first device is
/// trusted, a second, different device then needs a grant, and the first device
/// logging in again needs none.
pub proof fn lemma_device_trust_sequence(
    devices: DeviceRows,
    uid: i32,
    first: Seq<char>,
    second: Seq<char>,
    state: AccountState,
    existing: Option<Seq<char>>,
    plan1: SessionPlan,
    plan2: SessionPlan,
    plan3: SessionPlan,
)
    requires
        forall|d: Seq<char>| !devices.contains((uid, d)),
        first != second,
        plan_fits(plan1, state, device_lookup(devices, uid, first), history_lookup(devices, uid), existing),
        plan_fits(
            plan2,
            state,
            device_lookup(devices_after(devices, uid, first, plan1), uid, second),
            history_lookup(devices_after(devices, uid, first, plan1), uid),
            existing,
        ),
        plan_fits(
            plan3,
            state,
            device_lookup(
                devices_after(devices_after(devices, uid, first, plan1), uid, second, plan2),
                uid,
                first,
            ),
            history_lookup(
                devices_after(devices_after(devices, uid, first, plan1), uid, second, plan2),
                uid,
            ),
            existing,
        ),
    ensures
        plan1.grant_ticket is None,
        plan2.grant_ticket is Some,
        plan3.grant_ticket is None,
{
    lemma_first_device_trusted(devices, uid, first, state, existing, plan1);
    let after1 = devices_after(devices, uid, first, plan1);
    lemma_new_device_needs_grant(after1, uid, first, second, state, existing, plan2);
    let after2 = devices_after(after1, uid, second, plan2);
    lemma_known_device_trusted(after2, uid, first, state, existing, plan3);
}

/// Two logins in a row for the same account and device hand out the same token.
pub proof fn lemma_token_reused(
    tokens: TokenRows,
    uid: i32,
    device: Seq<char>,
    state1: AccountState,
    device_row1: Lookup<()>,
    history1: Lookup<()>,
    plan1: SessionPlan,
    state2: AccountState,
    device_row2: Lookup<()>,
    history2: Lookup<()>,
    plan2: SessionPlan,
)
    requires
        plan_fits(plan1, state1, device_row1, history1, token_lookup(tokens, uid, device)),
        plan_fits(
            plan2,
            state2,
            device_row2,
            history2,
            token_lookup(tokens_after(tokens, uid, device, plan1), uid, device),
        ),
    ensures
        plan2.token@ == plan1.token@,
        !plan2.token_is_new,
{
}

/// Deleted accounts and accounts under legal hold are refused as invalid
/// credentials, whatever the password.
pub proof fn lemma_closed_account_rejected(account: AccountRecord, plain_text: Seq<char>)
    requires
        account.state == AccountState::Deleted || account.state == AccountState::LegalHold,
    ensures
        login_outcome(Lookup::Found(account), plain_text) == Err::<AccountState, AuthError>(
            AuthError::InvalidCredential,
        ),
{
}

/// An account pending deletion signs in with the right password, and its
/// payload always carries a reactivation ticket and the flag that asks for it.
pub proof fn lemma_pending_delete_reactivates(
    account: AccountRecord,
    plain_text: Seq<char>,
    device_row: Lookup<()>,
    history: Lookup<()>,
    existing: Option<Seq<char>>,
    plan: SessionPlan,
    country: Option<Seq<char>>,
    r: LoginResult,
)
    requires
        account.state == AccountState::PendingDelete,
        account.password is None || password_matches(plain_text, account.password->Some_0@),
        plan_fits(plan, account.state, device_row, history, existing),
        result_fits(r, account, plan, country),
    ensures
        login_outcome(Lookup::Found(account), plain_text) == Ok::<AccountState, AuthError>(
            AccountState::PendingDelete,
        ),
        r.reactivate_required,
        r.account.reactivate_ticket is Some,
        r.account.reactivate_ticket->Some_0@.len() > 0,
{
}

/// A token presented from a device other than the one it was issued to never
/// opens a session, and is refused as a device mismatch when the account is open.
pub proof fn lemma_device_mismatch_rejected(
    issued_to: String,
    account: AccountRecord,
    device: Seq<char>,
)
    requires
        issued_to@ != device,
    ensures
        verify_outcome(Lookup::Found(issued_to), Lookup::Found(account), device) is Err,
        account.state.spec_may_login() ==> verify_outcome(
            Lookup::Found(issued_to),
            Lookup::Found(account),
            device,
        ) == Err::<AccountState, AuthError>(AuthError::DeviceMismatch),
{
}

} // verus!
