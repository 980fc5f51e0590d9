use crate::account::Account;
use vstd::prelude::*;

verus! {

/// The store's reply to a request for the secret of one account.
pub enum Lookup {
    Found(String),
    NoEntry,
    Failed(String),
}

/// The store's reply to a request to delete the secret of one account.
pub enum Removal {
    Removed,
    NoEntry,
    Failed(String),
}

/// The tokens that a read found: `None` where the account holds no secret.
pub struct AuthTokensPayload {
    pub access_token: Option<String>,
    pub refresh_token: Option<String>,
}

/// A request to store `value` as the secret of `account`.
pub struct TokenWrite {
    pub account: Account,
    pub value: String,
}

/// What an operation asks for after a reply: one more store call, or nothing
/// more, with the operation's result.
pub enum Progress<C, T> {
    Call(C),
    Finished(Result<T, String>),
}

/// Which reply an operation waits for: the one on the access-token account,
/// the one on the refresh-token account, or none, being finished.
#[derive(Clone, Copy, Debug, PartialEq, Eq, Structural)]
pub enum Stage {
    Access,
    Refresh,
    Finished,
}

/// A lookup as a token: an absent entry is no error, but a token that is not there.
pub open spec fn lookup_result(reply: Lookup) -> Result<Option<String>, String> {
    match reply {
        Lookup::Found(value) => Ok(Some(value)),
        Lookup::NoEntry => Ok(None),
        Lookup::Failed(message) => Err(message),
    }
}

/// A deletion as a result: deleting an absent entry succeeds.
pub open spec fn removal_result(reply: Removal) -> Result<(), String> {
    match reply {
        Removal::Removed => Ok(()),
        Removal::NoEntry => Ok(()),
        Removal::Failed(message) => Err(message),
    }
}

pub fn token_from_lookup(reply: Lookup) -> (r: Result<Option<String>, String>)
    ensures
        r == lookup_result(reply),
{
    match reply {
        Lookup::Found(value) => Ok(Some(value)),
        Lookup::NoEntry => Ok(None),
        Lookup::Failed(message) => Err(message),
    }
}

pub fn cleared_from_removal(reply: Removal) -> (r: Result<(), String>)
    ensures
        r == removal_result(reply),
{
    match reply {
        Removal::Removed | Removal::NoEntry => Ok(()),
        Removal::Failed(message) => Err(message),
    }
}

/// Saving both tokens: the access token is written first, then the refresh
/// token; the first failure ends the operation, and nothing is undone.
pub struct SaveAuthTokens {
    pub access_token: String,
    pub refresh_token: String,
    pub stage: Stage,
}

impl SaveAuthTokens {
    /// The state and the request after `reply` to the pending write.
    pub open spec fn next(self, reply: Result<(), String>) -> (SaveAuthTokens, Progress<TokenWrite, ()>) {
        match reply {
            Err(message) => (
                SaveAuthTokens { stage: Stage::Finished, ..self },
                Progress::Finished(Err(message)),
            ),
            Ok(()) => if self.stage == Stage::Access {
                (
                    SaveAuthTokens { stage: Stage::Refresh, ..self },
                    Progress::Call(TokenWrite { account: Account::Refresh, value: self.refresh_token }),
                )
            } else {
                (SaveAuthTokens { stage: Stage::Finished, ..self }, Progress::Finished(Ok(())))
            },
        }
    }

    /// Begins a save: the first request writes the access token.
    pub fn start(access_token: String, refresh_token: String) -> (r: (SaveAuthTokens, TokenWrite))
        ensures
            r.0 == (SaveAuthTokens { access_token, refresh_token, stage: Stage::Access }),
            r.1 == (TokenWrite { account: Account::Access, value: access_token }),
    {
        let first = TokenWrite { account: Account::Access, value: access_token.clone() };
        (SaveAuthTokens { access_token, refresh_token, stage: Stage::Access }, first)
    }

    /// Takes the store's reply to the pending write.
    pub fn resume(&mut self, reply: Result<(), String>) -> (p: Progress<TokenWrite, ()>)
        requires
            old(self).stage != Stage::Finished,
        ensures
            (*final(self), p) == old(self).next(reply),
    {
        match reply {
            Err(message) => {
                self.stage = Stage::Finished;
                Progress::Finished(Err(message))
            },
            Ok(()) => {
                if self.stage == Stage::Access {
                    self.stage = Stage::Refresh;
                    Progress::Call(TokenWrite { account: Account::Refresh, value: self.refresh_token.clone() })
                } else {
                    self.stage = Stage::Finished;
                    Progress::Finished(Ok(()))
                }
            },
        }
    }
}

/// Reading both tokens: the access-token account first, then the
/// refresh-token account; a failure other than absence ends the operation.
pub struct ReadAuthTokens {
    pub access_token: Option<String>,
    pub stage: Stage,
}

impl ReadAuthTokens {
    /// The state and the request after `reply` to the pending lookup.
    pub open spec fn next(self, reply: Lookup) -> (ReadAuthTokens, Progress<Account, AuthTokensPayload>) {
        match lookup_result(reply) {
            Err(message) => (
                ReadAuthTokens { stage: Stage::Finished, ..self },
                Progress::Finished(Err(message)),
            ),
            Ok(token) => if self.stage == Stage::Access {
                (
                    ReadAuthTokens { access_token: token, stage: Stage::Refresh },
                    Progress::Call(Account::Refresh),
                )
            } else {
                (
                    ReadAuthTokens { access_token: None, stage: Stage::Finished },
                    Progress::Finished(
                        Ok(AuthTokensPayload { access_token: self.access_token, refresh_token: token }),
                    ),
                )
            },
        }
    }

    /// Begins a read: the first request looks up the access token.
    pub fn start() -> (r: (ReadAuthTokens, Account))
        ensures
            r.0 == (ReadAuthTokens { access_token: None, stage: Stage::Access }),
            r.1 == Account::Access,
    {
        (ReadAuthTokens { access_token: None, stage: Stage::Access }, Account::Access)
    }

    /// Takes the store's reply to the pending lookup.
    pub fn resume(&mut self, reply: Lookup) -> (p: Progress<Account, AuthTokensPayload>)
        requires
            old(self).stage != Stage::Finished,
        ensures
            (*final(self), p) == old(self).next(reply),
    {
        match token_from_lookup(reply) {
            Err(message) => {
                self.stage = Stage::Finished;
                Progress::Finished(Err(message))
            },
            Ok(token) => {
                if self.stage == Stage::Access {
                    self.access_token = token;
                    self.stage = Stage::Refresh;
                    Progress::Call(Account::Refresh)
                } else {
                    let access_token = self.access_token.take();
                    self.stage = Stage::Finished;
                    Progress::Finished(Ok(AuthTokensPayload { access_token, refresh_token: token }))
                }
            },
        }
    }
}

/// Clearing both tokens: the access-token entry is deleted first, then the
/// refresh-token entry; a failure other than absence ends the operation.
pub struct ClearAuthTokens {
    pub stage: Stage,
}

impl ClearAuthTokens {
    /// The state and the request after `reply` to the pending deletion.
    pub open spec fn next(self, reply: Removal) -> (ClearAuthTokens, Progress<Account, ()>) {
        match removal_result(reply) {
            Err(message) => (ClearAuthTokens { stage: Stage::Finished }, Progress::Finished(Err(message))),
            Ok(()) => if self.stage == Stage::Access {
                (ClearAuthTokens { stage: Stage::Refresh }, Progress::Call(Account::Refresh))
            } else {
                (ClearAuthTokens { stage: Stage::Finished }, Progress::Finished(Ok(())))
            },
        }
    }

    /// Begins a clear: the first request deletes the access token.
    pub fn start() -> (r: (ClearAuthTokens, Account))
        ensures
            r.0 == (ClearAuthTokens { stage: Stage::Access }),
            r.1 == Account::Access,
    {
        (ClearAuthTokens { stage: Stage::Access }, Account::Access)
    }

    /// Takes the store's reply to the pending deletion.
    pub fn resume(&mut self, reply: Removal) -> (p: Progress<Account, ()>)
        requires
            old(self).stage != Stage::Finished,
        ensures
            (*final(self), p) == old(self).next(reply),
    {
        match cleared_from_removal(reply) {
            Err(message) => {
                self.stage = Stage::Finished;
                Progress::Finished(Err(message))
            },
            Ok(()) => {
                if self.stage == Stage::Access {
                    self.stage = Stage::Refresh;
                    Progress::Call(Account::Refresh)
                } else {
                    self.stage = Stage::Finished;
                    Progress::Finished(Ok(()))
                }
            },
        }
    }
}

} // verus!
