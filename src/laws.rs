//! What holds of the three operations run in sequence on one store.
//!
//! `memory::save_auth_tokens`, `memory::read_auth_tokens` and
//! `memory::clear_auth_tokens` are each proved to act on a store as
//! `StoreModel::save`, `StoreModel::read` and `StoreModel::clear` say; the
//! lemmas below are stated over those.
use crate::account::Account;
use crate::memory::{StoreCall, StoreModel};
use vstd::prelude::*;

verus! {

/// After saving two tokens in a store that does not fail, reading gives
/// them back.
pub proof fn lemma_save_then_read(store: StoreModel, access: Seq<char>, refresh: Seq<char>)
    requires
        store.is_reliable(),
    ensures
        store.save(access, refresh).1 == Ok::<(), Seq<char>>(()),
        store.save(access, refresh).0.read() == Ok::<_, Seq<char>>((Some(access), Some(refresh))),
{
}

/// Clearing an empty store succeeds and leaves it empty.
pub proof fn lemma_clear_empty(store: StoreModel)
    requires
        store.is_empty(),
    ensures
        store.clear() == (store, Ok::<(), Seq<char>>(())),
{
}

/// Reading an empty store finds neither token, and that is no failure.
pub proof fn lemma_read_empty(store: StoreModel)
    requires
        store.is_empty(),
    ensures
        store.read() == Ok::<_, Seq<char>>((None::<Seq<char>>, None::<Seq<char>>)),
{
}

/// Saving, then clearing, a store that does not fail leaves nothing to read.
pub proof fn lemma_save_clear_read(store: StoreModel, access: Seq<char>, refresh: Seq<char>)
    requires
        store.is_reliable(),
    ensures
        store.save(access, refresh).0.clear().1 == Ok::<(), Seq<char>>(()),
        store.save(access, refresh).0.clear().0.read() == Ok::<_, Seq<char>>(
            (None::<Seq<char>>, None::<Seq<char>>),
        ),
{
}

/// Where writing the refresh token fails, a save reports that failure, and
/// the access token written before it stays in the store.
pub proof fn lemma_save_partial_failure(
    store: StoreModel,
    access: Seq<char>,
    refresh: Seq<char>,
    message: Seq<char>,
)
    requires
        store.fault == Some((StoreCall::Write, Account::Refresh, message)),
    ensures
        store.save(access, refresh).1 == Err::<(), Seq<char>>(message),
        store.save(access, refresh).0.read_entry(Account::Access) == Ok::<_, Seq<char>>(
            Some(access),
        ),
{
}

/// A second save replaces the tokens of the first.
pub proof fn lemma_save_overwrites(
    store: StoreModel,
    first_access: Seq<char>,
    first_refresh: Seq<char>,
    access: Seq<char>,
    refresh: Seq<char>,
)
    requires
        store.is_reliable(),
    ensures
        store.save(first_access, first_refresh).0.save(access, refresh).1 == Ok::<(), Seq<char>>(()),
        store.save(first_access, first_refresh).0.save(access, refresh).0.read() == Ok::<
            _,
            Seq<char>,
        >((Some(access), Some(refresh))),
{
}

} // verus!
