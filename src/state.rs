use vstd::prelude::*;

verus! {

/// Lifecycle state of an account, persisted as a small integer code.
#[derive(Clone, Copy, Debug, PartialEq, Eq, Structural)]
pub enum AccountState {
    Deleted,
    Active,
    PendingDelete,
    LegalHold,
}

impl AccountState {
    /// The integer code under which the state is persisted.
    pub open spec fn spec_code(self) -> i32 {
        match self {
            AccountState::Deleted => 0,
            AccountState::Active => 1,
            AccountState::PendingDelete => 2,
            AccountState::LegalHold => 3,
        }
    }

    /// Only active accounts and accounts pending deletion may complete a login.
    pub open spec fn spec_may_login(self) -> bool {
        self == AccountState::Active || self == AccountState::PendingDelete
    }

    /// Reads a persisted state code; unknown codes are refused.
    pub fn try_from(value: i32) -> (r: Result<AccountState, ()>)
        ensures
            match r {
                Ok(s) => s.spec_code() == value,
                Err(_) => !(0 <= value <= 3),
            },
    {
        match value {
            0 => Ok(AccountState::Deleted),
            1 => Ok(AccountState::Active),
            2 => Ok(AccountState::PendingDelete),
            3 => Ok(AccountState::LegalHold),
            _ => Err(()),
        }
    }

    /// The persisted integer code of this state.
    pub fn code(&self) -> (r: i32)
        ensures
            r == self.spec_code(),
    {
        match self {
            AccountState::Deleted => 0,
            AccountState::Active => 1,
            AccountState::PendingDelete => 2,
            AccountState::LegalHold => 3,
        }
    }

    /// Whether this state lets the account complete a login.
    pub fn may_login(&self) -> (r: bool)
        ensures
            r == self.spec_may_login(),
    {
        match self {
            AccountState::Active | AccountState::PendingDelete => true,
            _ => false,
        }
    }
}

} // verus!
