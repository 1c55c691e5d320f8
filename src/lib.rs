//! Authentication and session-issuance core of a game-client account gateway:
//! credential decoding, password checks, account-state gating, device trust,
//! token issuance and the masked session payload.

mod credential;
mod geo;
mod mask;
mod model;
mod password;
mod request;
mod session;
mod state;
mod util;

pub use credential::{
    base64_decoded, decode_password, finish_decryption, text_from_bytes, text_of, CredentialError,
};
pub use geo::{country_code, country_of, opt_view, unknown_country};
pub use mask::{mask_of, mask_string};
pub use model::{
    device_lookup, devices_after, history_lookup, lemma_closed_account_rejected,
    lemma_device_mismatch_rejected, lemma_device_trust_sequence, lemma_first_device_trusted,
    lemma_known_device_trusted, lemma_new_device_needs_grant, lemma_pending_delete_reactivates,
    lemma_token_reused, token_lookup, tokens_after, DeviceRows, TokenRows,
};
pub use password::{bcrypt_verdict, hash_password, password_matches, verify_password};
pub use request::{DeviceId, IpAddress};
pub use session::{
    authorize_login, authorize_verify, found_token, login_outcome, login_result, needs_grant,
    opt_text, plan_fits, plan_session, realname_none, result_fits, spec_needs_grant,
    verify_outcome, AccountData, AccountRecord, AuthError, LoginResult, Lookup, SessionPlan,
    RESPONSE_FAILURE, RESPONSE_LOGIN_FAILED, RESPONSE_SUCCESS,
};
pub use state::AccountState;
pub use util::{current_time, is_alphanumeric, is_token, random_token, timestamp_from, TOKEN_LEN};
