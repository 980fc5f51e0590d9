use token_bridge::account::{Account, TOKEN_SERVICE};
use token_bridge::bridge::{
    cleared_from_removal, token_from_lookup, ClearAuthTokens, Lookup, Progress, ReadAuthTokens,
    Removal, SaveAuthTokens, Stage,
};
use token_bridge::memory::{
    clear_auth_tokens, clear_token, read_auth_tokens, read_token, save_auth_tokens, write_token,
    MemoryStore, StoreCall,
};

fn found(lookup: Lookup) -> Option<String> {
    match lookup {
        Lookup::Found(value) => Some(value),
        _ => None,
    }
}

#[test]
fn account_names_are_fixed() {
    assert_eq!(Account::Access.name(), "access-token");
    assert_eq!(Account::Refresh.name(), "refresh-token");
    assert_eq!(TOKEN_SERVICE, "com.bedou.secretdashboard.auth");
}

#[test]
fn save_then_read_returns_both_tokens() {
    let mut store = MemoryStore::new();
    assert_eq!(save_auth_tokens(&mut store, "acc-1".to_string(), "ref-1".to_string()), Ok(()));
    let payload = read_auth_tokens(&store).unwrap();
    assert_eq!(payload.access_token, Some("acc-1".to_string()));
    assert_eq!(payload.refresh_token, Some("ref-1".to_string()));
}

#[test]
fn save_then_read_keeps_empty_tokens() {
    let mut store = MemoryStore::new();
    assert_eq!(save_auth_tokens(&mut store, String::new(), String::new()), Ok(()));
    let payload = read_auth_tokens(&store).unwrap();
    assert_eq!(payload.access_token, Some(String::new()));
    assert_eq!(payload.refresh_token, Some(String::new()));
}

#[test]
fn clear_on_empty_store_succeeds() {
    let mut store = MemoryStore::new();
    assert_eq!(clear_auth_tokens(&mut store), Ok(()));
    assert_eq!(clear_auth_tokens(&mut store), Ok(()));
    assert!(store.access_token.is_none());
    assert!(store.refresh_token.is_none());
}

#[test]
fn read_on_empty_store_finds_nothing() {
    let store = MemoryStore::new();
    let payload = read_auth_tokens(&store).unwrap();
    assert_eq!(payload.access_token, None);
    assert_eq!(payload.refresh_token, None);
}

#[test]
fn save_clear_read_finds_nothing() {
    let mut store = MemoryStore::new();
    assert_eq!(save_auth_tokens(&mut store, "a".to_string(), "b".to_string()), Ok(()));
    assert_eq!(clear_auth_tokens(&mut store), Ok(()));
    let payload = read_auth_tokens(&store).unwrap();
    assert_eq!(payload.access_token, None);
    assert_eq!(payload.refresh_token, None);
}

#[test]
fn failed_refresh_write_keeps_access_token() {
    let mut store = MemoryStore::failing(StoreCall::Write, Account::Refresh, "denied".to_string());
    assert_eq!(
        save_auth_tokens(&mut store, "a".to_string(), "b".to_string()),
        Err("denied".to_string())
    );
    assert_eq!(found(read_token(&store, Account::Access)), Some("a".to_string()));
    assert!(matches!(read_token(&store, Account::Refresh), Lookup::NoEntry));
}

#[test]
fn failed_access_write_skips_refresh_write() {
    let mut store = MemoryStore::failing(StoreCall::Write, Account::Access, "locked".to_string());
    assert_eq!(
        save_auth_tokens(&mut store, "a".to_string(), "b".to_string()),
        Err("locked".to_string())
    );
    assert!(store.access_token.is_none());
    assert!(store.refresh_token.is_none());
}

#[test]
fn second_save_overwrites_first() {
    let mut store = MemoryStore::new();
    assert_eq!(save_auth_tokens(&mut store, "a".to_string(), "b".to_string()), Ok(()));
    assert_eq!(save_auth_tokens(&mut store, "c".to_string(), "d".to_string()), Ok(()));
    let payload = read_auth_tokens(&store).unwrap();
    assert_eq!(payload.access_token, Some("c".to_string()));
    assert_eq!(payload.refresh_token, Some("d".to_string()));
}

#[test]
fn read_failure_on_access_account_is_reported() {
    let mut store = MemoryStore::failing(StoreCall::Read, Account::Access, "no access".to_string());
    assert_eq!(write_token(&mut store, Account::Refresh, "r"), Ok(()));
    let result = read_auth_tokens(&store);
    assert_eq!(result.err(), Some("no access".to_string()));
}

#[test]
fn read_failure_on_refresh_account_is_reported() {
    let mut store = MemoryStore::failing(StoreCall::Read, Account::Refresh, "broken".to_string());
    assert_eq!(write_token(&mut store, Account::Access, "a"), Ok(()));
    let result = read_auth_tokens(&store);
    assert_eq!(result.err(), Some("broken".to_string()));
}

#[test]
fn read_of_one_token_only() {
    let mut store = MemoryStore::new();
    assert_eq!(write_token(&mut store, Account::Refresh, "only"), Ok(()));
    let payload = read_auth_tokens(&store).unwrap();
    assert_eq!(payload.access_token, None);
    assert_eq!(payload.refresh_token, Some("only".to_string()));
}

#[test]
fn delete_failure_on_access_account_stops_clear() {
    let mut store = MemoryStore::failing(StoreCall::Delete, Account::Access, "busy".to_string());
    assert_eq!(save_auth_tokens(&mut store, "a".to_string(), "b".to_string()), Ok(()));
    assert_eq!(clear_auth_tokens(&mut store), Err("busy".to_string()));
    assert_eq!(store.access_token, Some("a".to_string()));
    assert_eq!(store.refresh_token, Some("b".to_string()));
}

#[test]
fn delete_failure_on_refresh_account_after_access_deleted() {
    let mut store = MemoryStore::failing(StoreCall::Delete, Account::Refresh, "busy".to_string());
    assert_eq!(save_auth_tokens(&mut store, "a".to_string(), "b".to_string()), Ok(()));
    assert_eq!(clear_auth_tokens(&mut store), Err("busy".to_string()));
    assert_eq!(store.access_token, None);
    assert_eq!(store.refresh_token, Some("b".to_string()));
}

#[test]
fn clear_token_tells_removed_from_absent() {
    let mut store = MemoryStore::new();
    assert_eq!(write_token(&mut store, Account::Access, "a"), Ok(()));
    assert!(matches!(clear_token(&mut store, Account::Access), Removal::Removed));
    assert!(matches!(clear_token(&mut store, Account::Access), Removal::NoEntry));
}

#[test]
fn lookup_normalization() {
    assert_eq!(token_from_lookup(Lookup::Found("t".to_string())), Ok(Some("t".to_string())));
    assert_eq!(token_from_lookup(Lookup::NoEntry), Ok(None));
    assert_eq!(token_from_lookup(Lookup::Failed("e".to_string())), Err("e".to_string()));
}

#[test]
fn removal_normalization() {
    assert_eq!(cleared_from_removal(Removal::Removed), Ok(()));
    assert_eq!(cleared_from_removal(Removal::NoEntry), Ok(()));
    assert_eq!(cleared_from_removal(Removal::Failed("e".to_string())), Err("e".to_string()));
}

#[test]
fn save_machine_writes_access_then_refresh() {
    let (mut op, first) = SaveAuthTokens::start("a".to_string(), "b".to_string());
    assert_eq!(first.account, Account::Access);
    assert_eq!(first.value, "a");
    match op.resume(Ok(())) {
        Progress::Call(write) => {
            assert_eq!(write.account, Account::Refresh);
            assert_eq!(write.value, "b");
        }
        Progress::Finished(_) => panic!("a second write was expected"),
    }
    assert_eq!(op.stage, Stage::Refresh);
    assert!(matches!(op.resume(Ok(())), Progress::Finished(Ok(()))));
    assert_eq!(op.stage, Stage::Finished);
}

#[test]
fn save_machine_stops_on_first_failure() {
    let (mut op, _) = SaveAuthTokens::start("a".to_string(), "b".to_string());
    match op.resume(Err("nope".to_string())) {
        Progress::Finished(result) => assert_eq!(result, Err("nope".to_string())),
        Progress::Call(_) => panic!("no second write was expected"),
    }
    assert_eq!(op.stage, Stage::Finished);
}

#[test]
fn read_machine_collects_both_tokens() {
    let (mut op, first) = ReadAuthTokens::start();
    assert_eq!(first, Account::Access);
    assert!(matches!(op.resume(Lookup::NoEntry), Progress::Call(Account::Refresh)));
    match op.resume(Lookup::Found("r".to_string())) {
        Progress::Finished(Ok(payload)) => {
            assert_eq!(payload.access_token, None);
            assert_eq!(payload.refresh_token, Some("r".to_string()));
        }
        _ => panic!("a payload was expected"),
    }
}

#[test]
fn clear_machine_treats_absence_as_success() {
    let (mut op, first) = ClearAuthTokens::start();
    assert_eq!(first, Account::Access);
    assert!(matches!(op.resume(Removal::NoEntry), Progress::Call(Account::Refresh)));
    assert!(matches!(op.resume(Removal::Removed), Progress::Finished(Ok(()))));
}

#[test]
fn clear_machine_stops_on_failure() {
    let (mut op, _) = ClearAuthTokens::start();
    match op.resume(Removal::Failed("gone wrong".to_string())) {
        Progress::Finished(result) => assert_eq!(result, Err("gone wrong".to_string())),
        Progress::Call(_) => panic!("no second deletion was expected"),
    }
}
