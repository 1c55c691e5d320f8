use std::collections::{HashMap, HashSet};

use sdk_server::{
    authorize_login, authorize_verify, login_result, needs_grant, plan_session, AccountRecord,
    AccountState, AuthError, CredentialError, LoginResult, Lookup, RESPONSE_FAILURE, RESPONSE_LOGIN_FAILED,
};

#[derive(Default)]
struct Store {
    devices: HashSet<(i32, String)>,
    tokens: HashMap<(i32, String), String>,
    grants: HashMap<i32, String>,
    reactivations: HashMap<i32, String>,
}

impl Store {
    fn login(&mut self, account: &AccountRecord, device: &str, country: Option<&str>) -> LoginResult {
        let device_row = if self.devices.contains(&(account.uid, device.to_string())) {
            Lookup::Found(())
        } else {
            Lookup::Missing
        };
        let history = if self.devices.iter().any(|(uid, _)| *uid == account.uid) {
            Lookup::Found(())
        } else {
            Lookup::Missing
        };
        let existing = match self.tokens.get(&(account.uid, device.to_string())) {
            Some(t) => Lookup::Found(t.clone()),
            None => Lookup::Missing,
        };
        let plan = plan_session(account.state, &device_row, &history, existing, 1_700_000_000);
        if let Some(t) = &plan.reactivate_ticket {
            self.reactivations.insert(account.uid, t.clone());
        }
        if let Some(t) = &plan.grant_ticket {
            self.grants.insert(account.uid, t.clone());
        }
        if plan.device_seen_at.is_some() {
            self.devices.insert((account.uid, device.to_string()));
        }
        if plan.token_is_new {
            self.tokens.insert((account.uid, device.to_string()), plan.token.clone());
        }
        login_result(account, plan, country.map(|c| c.to_string()))
    }
}

fn account(state: AccountState) -> AccountRecord {
    AccountRecord {
        uid: 7,
        name: Some("playerone".to_string()),
        email: Some("player@example.com".to_string()),
        mobile: None,
        password: None,
        state,
    }
}

#[test]
fn device_trust_first_then_new_then_known() {
    let mut store = Store::default();
    let acc = account(AccountState::Active);
    let first = store.login(&acc, "dev-a", None);
    assert!(!first.device_grant_required);
    assert!(first.account.device_grant_ticket.is_none());
    assert!(store.devices.contains(&(7, "dev-a".to_string())));

    let second = store.login(&acc, "dev-b", None);
    assert!(second.device_grant_required);
    let ticket = second.account.device_grant_ticket.clone().unwrap();
    assert_eq!(ticket.len(), 32);
    assert_eq!(store.grants.get(&7), Some(&ticket));
    assert!(!store.devices.contains(&(7, "dev-b".to_string())));

    let third = store.login(&acc, "dev-a", None);
    assert!(!third.device_grant_required);
}

#[test]
fn token_reused_for_same_device() {
    let mut store = Store::default();
    let acc = account(AccountState::Active);
    let a = store.login(&acc, "dev-a", None);
    let b = store.login(&acc, "dev-a", None);
    assert_eq!(a.account.token, b.account.token);
    assert_eq!(a.account.token.len(), 32);
    let c = store.login(&acc, "dev-b", None);
    assert_ne!(a.account.token, c.account.token);
}

#[test]
fn pending_delete_gets_reactivation_ticket() {
    let mut store = Store::default();
    let acc = account(AccountState::PendingDelete);
    assert_eq!(authorize_login(&Lookup::Found(acc.clone()), "anything"), Ok(AccountState::PendingDelete));
    let r = store.login(&acc, "dev-a", None);
    assert!(r.reactivate_required);
    let ticket = r.account.reactivate_ticket.clone().unwrap();
    assert_eq!(ticket.len(), 32);
    assert_eq!(store.reactivations.get(&7), Some(&ticket));
}

#[test]
fn active_account_gets_no_reactivation_ticket() {
    let mut store = Store::default();
    let r = store.login(&account(AccountState::Active), "dev-a", None);
    assert!(!r.reactivate_required);
    assert!(r.account.reactivate_ticket.is_none());
}

#[test]
fn closed_accounts_rejected() {
    for state in [AccountState::Deleted, AccountState::LegalHold] {
        let acc = account(state);
        assert_eq!(authorize_login(&Lookup::Found(acc), "x"), Err(AuthError::InvalidCredential));
    }
}

#[test]
fn login_lookup_outcomes() {
    assert_eq!(authorize_login(&Lookup::Missing, "x"), Err(AuthError::InvalidCredential));
    assert_eq!(authorize_login(&Lookup::Failed, "x"), Err(AuthError::StorageUnavailable));
    assert_eq!(authorize_login(&Lookup::Found(account(AccountState::Active)), "x"), Ok(AccountState::Active));
}

#[test]
fn login_checks_password_when_set() {
    let mut acc = account(AccountState::Active);
    acc.password = Some(sdk_server::hash_password("rightpw").unwrap());
    assert_eq!(authorize_login(&Lookup::Found(acc.clone()), "wrongpw"), Err(AuthError::InvalidCredential));
}

#[test]
fn verify_device_mismatch() {
    let acc = account(AccountState::Active);
    let r = authorize_verify(&Lookup::Found("dev-a".to_string()), &Lookup::Found(acc), &"dev-b".to_string());
    assert_eq!(r, Err(AuthError::DeviceMismatch));
}

#[test]
fn verify_outcomes() {
    let dev = "dev-a".to_string();
    let found = Lookup::Found(dev.clone());
    assert_eq!(authorize_verify(&Lookup::Missing, &Lookup::Found(account(AccountState::Active)), &dev), Err(AuthError::BadToken));
    assert_eq!(authorize_verify(&Lookup::Failed, &Lookup::Missing, &dev), Err(AuthError::StorageUnavailable));
    assert_eq!(authorize_verify(&found, &Lookup::Failed, &dev), Err(AuthError::StorageUnavailable));
    assert_eq!(authorize_verify(&found, &Lookup::Found(account(AccountState::Deleted)), &dev), Err(AuthError::BadToken));
    assert_eq!(authorize_verify(&found, &Lookup::Found(account(AccountState::Active)), &dev), Ok(AccountState::Active));
}

#[test]
fn grant_decision_table() {
    assert!(!needs_grant(&Lookup::Found(()), &Lookup::Found(())));
    assert!(!needs_grant(&Lookup::Missing, &Lookup::Missing));
    assert!(needs_grant(&Lookup::Missing, &Lookup::Found(())));
    assert!(needs_grant(&Lookup::Failed, &Lookup::Missing));
    assert!(needs_grant(&Lookup::Missing, &Lookup::Failed));
}

#[test]
fn result_is_masked_with_country() {
    let mut store = Store::default();
    let r = store.login(&account(AccountState::Active), "dev-a", Some("DE"));
    assert_eq!(r.account.uid, 7);
    assert_eq!(r.account.name, "p****ne");
    assert_eq!(r.account.email, "pl****om");
    assert_eq!(r.account.mobile, "");
    assert_eq!(r.account.country, "DE");
    assert_eq!(r.realname_operation, "None");
    assert!(!r.realperson_required && !r.safe_mobile_required && !r.account.is_email_verify);
    let z = store.login(&account(AccountState::Active), "dev-a", None);
    assert_eq!(z.account.country, "ZZ");
}

#[test]
fn trusted_device_seen_now() {
    let plan = plan_session(AccountState::Active, &Lookup::Found(()), &Lookup::Found(()), Lookup::Missing, 1234);
    assert_eq!(plan.device_seen_at, Some(1234));
    assert!(plan.grant_ticket.is_none());
    let untrusted = plan_session(AccountState::Active, &Lookup::Missing, &Lookup::Found(()), Lookup::Missing, 1234);
    assert_eq!(untrusted.device_seen_at, None);
}

#[test]
fn error_messages() {
    assert_eq!(AuthError::InvalidCredential.message(), "Incorrect username or password.");
    assert_eq!(AuthError::BadToken.message(), "Game account cache information error.");
    assert_eq!(AuthError::DeviceMismatch.message(), "For your security, please login again.");
    assert_eq!(AuthError::StorageUnavailable.message(), "System error; please try again later.");
}

#[test]
fn credential_errors_read_as_invalid_credential() {
    assert_eq!(AuthError::from_credential(&CredentialError::Malformed), AuthError::InvalidCredential);
    assert_eq!(AuthError::from_credential(&CredentialError::DecryptionFailed), AuthError::InvalidCredential);
}

#[test]
fn error_codes() {
    assert_eq!(AuthError::StorageUnavailable.retcode(), RESPONSE_FAILURE);
    assert_eq!(AuthError::InvalidCredential.retcode(), RESPONSE_LOGIN_FAILED);
    assert_eq!(AuthError::DeviceMismatch.retcode(), -101);
    assert_eq!(AuthError::InvalidCredential.message(), "Incorrect username or password.");
}
