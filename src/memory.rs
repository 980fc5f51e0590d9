use crate::account::Account;
use crate::bridge::{
    AuthTokensPayload, ClearAuthTokens, Lookup, Progress, ReadAuthTokens, Removal, SaveAuthTokens,
    TokenWrite,
    Stage,
};
use vstd::prelude::*;

verus! {

/// The three calls that a credential store answers.
#[derive(Clone, Copy, Debug, PartialEq, Eq, Structural)]
pub enum StoreCall {
    Read,
    Write,
    Delete,
}

/// A failure that a store reports, with `message`, whenever it is asked for
/// `call` on `account`.
pub struct Fault {
    pub call: StoreCall,
    pub account: Account,
    pub message: String,
}

/// A credential store held in memory, with one entry for each account, that
/// can be made to fail on one call.
pub struct MemoryStore {
    pub access_token: Option<String>,
    pub refresh_token: Option<String>,
    pub fault: Option<Fault>,
}

/// What a credential store holds, and the failure it reports, if any.
pub struct StoreModel {
    pub access: Option<Seq<char>>,
    pub refresh: Option<Seq<char>>,
    pub fault: Option<(StoreCall, Account, Seq<char>)>,
}

pub open spec fn token_view(token: Option<String>) -> Option<Seq<char>> {
    match token {
        Some(value) => Some(value@),
        None => None,
    }
}

pub open spec fn unit_view(r: Result<(), String>) -> Result<(), Seq<char>> {
    match r {
        Ok(()) => Ok(()),
        Err(message) => Err(message@),
    }
}

pub open spec fn lookup_view(r: Lookup) -> Result<Option<Seq<char>>, Seq<char>> {
    match r {
        Lookup::Found(value) => Ok(Some(value@)),
        Lookup::NoEntry => Ok(None),
        Lookup::Failed(message) => Err(message@),
    }
}

pub open spec fn payload_view(r: Result<AuthTokensPayload, String>) -> Result<
    (Option<Seq<char>>, Option<Seq<char>>),
    Seq<char>,
> {
    match r {
        Ok(payload) => Ok((token_view(payload.access_token), token_view(payload.refresh_token))),
        Err(message) => Err(message@),
    }
}

impl View for MemoryStore {
    type V = StoreModel;

    open spec fn view(&self) -> StoreModel {
        StoreModel {
            access: token_view(self.access_token),
            refresh: token_view(self.refresh_token),
            fault: match self.fault {
                Some(f) => Some((f.call, f.account, f.message@)),
                None => None,
            },
        }
    }
}

impl StoreModel {
    /// The secret kept for `account`.
    pub open spec fn entry(self, account: Account) -> Option<Seq<char>> {
        match account {
            Account::Access => self.access,
            Account::Refresh => self.refresh,
        }
    }

    pub open spec fn with_entry(self, account: Account, value: Option<Seq<char>>) -> StoreModel {
        match account {
            Account::Access => StoreModel { access: value, ..self },
            Account::Refresh => StoreModel { refresh: value, ..self },
        }
    }

    /// The message of the failure reported for `call` on `account`, if one is.
    pub open spec fn failure(self, call: StoreCall, account: Account) -> Option<Seq<char>> {
        match self.fault {
            Some((c, a, message)) => if c == call && a == account {
                Some(message)
            } else {
                None
            },
            None => None,
        }
    }

    /// Reports no failure.
    pub open spec fn is_reliable(self) -> bool {
        self.fault is None
    }

    /// Holds no secret and reports no failure.
    pub open spec fn is_empty(self) -> bool {
        self.access is None && self.refresh is None && self.fault is None
    }

    /// The token of `account`, `None` where it has no entry, or the failure.
    pub open spec fn read_entry(self, account: Account) -> Result<Option<Seq<char>>, Seq<char>> {
        match self.failure(StoreCall::Read, account) {
            Some(message) => Err(message),
            None => Ok(self.entry(account)),
        }
    }

    /// Stores `value` for `account`, unless that call fails.
    pub open spec fn write_entry(self, account: Account, value: Seq<char>) -> (StoreModel, Result<(), Seq<char>>) {
        match self.failure(StoreCall::Write, account) {
            Some(message) => (self, Err(message)),
            None => (self.with_entry(account, Some(value)), Ok(())),
        }
    }

    /// Removes the entry of `account`, unless that call fails; an absent
    /// entry is no failure.
    pub open spec fn delete_entry(self, account: Account) -> (StoreModel, Result<(), Seq<char>>) {
        match self.failure(StoreCall::Delete, account) {
            Some(message) => (self, Err(message)),
            None => (self.with_entry(account, None), Ok(())),
        }
    }

    /// Saving both tokens: the access token, then, if that succeeded, the
    /// refresh token.
    pub open spec fn save(self, access: Seq<char>, refresh: Seq<char>) -> (StoreModel, Result<(), Seq<char>>) {
        let (first, r) = self.write_entry(Account::Access, access);
        match r {
            Err(message) => (first, Err(message)),
            Ok(()) => first.write_entry(Account::Refresh, refresh),
        }
    }

    /// Reading both tokens, the access token first.
    pub open spec fn read(self) -> Result<(Option<Seq<char>>, Option<Seq<char>>), Seq<char>> {
        match self.read_entry(Account::Access) {
            Err(message) => Err(message),
            Ok(access) => match self.read_entry(Account::Refresh) {
                Err(message) => Err(message),
                Ok(refresh) => Ok((access, refresh)),
            },
        }
    }

    /// Clearing both tokens: the access token, then, if that succeeded, the
    /// refresh token.
    pub open spec fn clear(self) -> (StoreModel, Result<(), Seq<char>>) {
        let (first, r) = self.delete_entry(Account::Access);
        match r {
            Err(message) => (first, Err(message)),
            Ok(()) => first.delete_entry(Account::Refresh),
        }
    }
}

impl MemoryStore {
    /// A store that holds nothing and never fails.
    pub fn new() -> (r: MemoryStore)
        ensures
            r@.is_empty(),
    {
        MemoryStore { access_token: None, refresh_token: None, fault: None }
    }

    /// A store that holds nothing and fails, with `message`, on each `call`
    /// for `account`.
    pub fn failing(call: StoreCall, account: Account, message: String) -> (r: MemoryStore)
        ensures
            r@ == (StoreModel { access: None, refresh: None, fault: Some((call, account, message@)) }),
    {
        MemoryStore { access_token: None, refresh_token: None, fault: Some(Fault { call, account, message }) }
    }

    fn failure(&self, call: StoreCall, account: Account) -> (r: Option<String>)
        ensures
            token_view(r) == self@.failure(call, account),
    {
        match &self.fault {
            Some(f) => if f.call == call && f.account == account {
                Some(f.message.clone())
            } else {
                None
            },
            None => None,
        }
    }
}

/// Asks `store` for the secret of `account`.
pub fn read_token(store: &MemoryStore, account: Account) -> (r: Lookup)
    ensures
        lookup_view(r) == store@.read_entry(account),
{
    match store.failure(StoreCall::Read, account) {
        Some(message) => Lookup::Failed(message),
        None => {
            let entry = match account {
                Account::Access => &store.access_token,
                Account::Refresh => &store.refresh_token,
            };
            match entry {
                Some(value) => Lookup::Found(value.clone()),
                None => Lookup::NoEntry,
            }
        },
    }
}

/// Stores `value` in `store` as the secret of `account`.
pub fn write_token(store: &mut MemoryStore, account: Account, value: &str) -> (r: Result<(), String>)
    ensures
        (final(store)@, unit_view(r)) == old(store)@.write_entry(account, value@),
{
    match store.failure(StoreCall::Write, account) {
        Some(message) => Err(message),
        None => {
            let value = value.to_string();
            match account {
                Account::Access => store.access_token = Some(value),
                Account::Refresh => store.refresh_token = Some(value),
            }
            Ok(())
        },
    }
}

/// Asks `store` to delete the secret of `account`.
pub fn clear_token(store: &mut MemoryStore, account: Account) -> (r: Removal)
    ensures
        old(store)@.failure(StoreCall::Delete, account) matches Some(message) ==> r matches Removal::Failed(m)
            && m@ == message && final(store)@ == old(store)@,
        old(store)@.failure(StoreCall::Delete, account) is None ==> {
            &&& final(store)@ == old(store)@.with_entry(account, None)
            &&& old(store)@.entry(account) is None ==> r is NoEntry
            &&& old(store)@.entry(account) is Some ==> r is Removed
        },
{
    match store.failure(StoreCall::Delete, account) {
        Some(message) => Removal::Failed(message),
        None => {
            let entry = match account {
                Account::Access => store.access_token.take(),
                Account::Refresh => store.refresh_token.take(),
            };
            match entry {
                Some(_) => Removal::Removed,
                None => Removal::NoEntry,
            }
        },
    }
}

/// The number of replies that an operation at `stage` still waits for.
pub open spec fn replies_left(stage: Stage) -> nat {
    match stage {
        Stage::Access => 2,
        Stage::Refresh => 1,
        Stage::Finished => 0,
    }
}

/// Saves both tokens in `store`, the access token first.
pub fn save_auth_tokens(store: &mut MemoryStore, access_token: String, refresh_token: String) -> (r:
    Result<(), String>)
    ensures
        (final(store)@, unit_view(r)) == old(store)@.save(access_token@, refresh_token@),
{
    let (mut op, first) = SaveAuthTokens::start(access_token, refresh_token);
    let mut reply = write_token(store, first.account, first.value.as_str());
    loop
        invariant
            op.access_token == access_token,
            op.refresh_token == refresh_token,
            op.stage != Stage::Finished,
            op.stage == Stage::Access ==> (store@, unit_view(reply)) == old(store)@.write_entry(
                Account::Access,
                access_token@,
            ),
            op.stage == Stage::Refresh ==> old(store)@.write_entry(Account::Access, access_token@).1 is Ok
                && (store@, unit_view(reply)) == old(store)@.save(access_token@, refresh_token@),
        decreases replies_left(op.stage),
    {
        match op.resume(reply) {
            Progress::Call(TokenWrite { account, value }) => {
                reply = write_token(store, account, value.as_str());
            },
            Progress::Finished(r) => {
                return r;
            },
        }
    }
}

/// Reads both tokens from `store`, the access token first.
pub fn read_auth_tokens(store: &MemoryStore) -> (r: Result<AuthTokensPayload, String>)
    ensures
        payload_view(r) == store@.read(),
{
    let (mut op, first) = ReadAuthTokens::start();
    let mut reply = read_token(store, first);
    loop
        invariant
            op.stage != Stage::Finished,
            op.stage == Stage::Access ==> lookup_view(reply) == store@.read_entry(Account::Access),
            op.stage == Stage::Refresh ==> store@.read_entry(Account::Access) == Ok::<
                Option<Seq<char>>,
                Seq<char>,
            >(token_view(op.access_token)) && lookup_view(reply) == store@.read_entry(
                Account::Refresh,
            ),
        decreases replies_left(op.stage),
    {
        match op.resume(reply) {
            Progress::Call(account) => {
                reply = read_token(store, account);
            },
            Progress::Finished(r) => {
                return r;
            },
        }
    }
}

/// Deletes both tokens from `store`, the access token first.
pub fn clear_auth_tokens(store: &mut MemoryStore) -> (r: Result<(), String>)
    ensures
        (final(store)@, unit_view(r)) == old(store)@.clear(),
{
    let (mut op, first) = ClearAuthTokens::start();
    let mut reply = clear_token(store, first);
    loop
        invariant
            op.stage != Stage::Finished,
            op.stage == Stage::Access ==> (store@, unit_view(
                crate::bridge::removal_result(reply),
            )) == old(store)@.delete_entry(Account::Access),
            op.stage == Stage::Refresh ==> old(store)@.delete_entry(Account::Access).1 is Ok && (
            store@,
            unit_view(crate::bridge::removal_result(reply)),
            ) == old(store)@.clear(),
        decreases replies_left(op.stage),
    {
        match op.resume(reply) {
            Progress::Call(account) => {
                reply = clear_token(store, account);
            },
            Progress::Finished(r) => {
                return r;
            },
        }
    }
}

} // verus!
