use propolis::datas::apikey::{api_key_partial_hash, ApiKey, KeyError, KeyLookup, TransientApiKey};
use propolis::datas::statement::{FlagCategoryContainer, StatementFlag, StatementFlagState};
use propolis::db::InMemoryStore;
use propolis::structs::{Error, Vote};

fn store_key(db: &mut InMemoryStore<String, ApiKey>, tkey: &TransientApiKey, note: Option<String>) -> ApiKey {
    let hash = match tkey.hash() {
        Ok(h) => h,
        Err(KeyError::Hashing) => panic!("hashing failed"),
    };
    let key = ApiKey::new_record(hash, note);
    db.values.insert(key.hash.clone(), key.clone());
    db.values.get(&key.hash).unwrap().clone()
}

fn lookup_key(db: &InMemoryStore<String, ApiKey>, tkey: &TransientApiKey) -> Option<ApiKey> {
    let hash = tkey.hash().ok().unwrap();
    db.values.get(&hash).cloned()
}

#[test]
fn test_api_key_from_unhashed() {
    let mut db = InMemoryStore::new();
    let unhashed: String = "abcdefgabcdefgabcdefg".into();
    let tkey = TransientApiKey::Raw(unhashed.to_owned());
    let note = Some("".to_string());
    let key = store_key(&mut db, &tkey, note.to_owned());
    assert_ne!(key.hash, unhashed);
    assert_eq!(key.note, note);
    assert_eq!(key, lookup_key(&db, &tkey).unwrap());
}

#[test]
fn test_api_key_from_hashed() {
    let mut db = InMemoryStore::new();
    let hashed: String = "abcdefgabcdefgabcdefg".into();
    let tkey = TransientApiKey::Hashed(hashed.to_owned());
    let note = Some("".to_string());
    let key = match lookup_key(&db, &tkey) {
        Some(k) => k,
        None => store_key(&mut db, &tkey, note.to_owned()),
    };
    assert_eq!(key.hash, hashed);
    assert_eq!(key.note, note);
    assert_eq!(key, lookup_key(&db, &tkey).unwrap());
}

#[test]
fn partial_hash_is_argon2_with_static_salt() {
    let h = match api_key_partial_hash("abcdefgabcdefgabcdefg") {
        Ok(h) => h,
        Err(_) => panic!("hashing failed"),
    };
    assert!(h.starts_with("$argon2id$v=19$"));
    assert!(h.contains("$c3RhdGljc2FsdA$"));
}

#[test]
fn partial_hash_only_reads_the_first_twelve_bytes() {
    let a = api_key_partial_hash("abcdefgabcdefgabcdefg").ok().unwrap();
    let b = api_key_partial_hash("abcdefgabcdeXYZ").ok().unwrap();
    let c = api_key_partial_hash("abcdefgabcdfXYZ").ok().unwrap();
    assert_eq!(a, b);
    assert_ne!(a, c);
}

#[test]
fn partial_hash_is_deterministic() {
    let a = api_key_partial_hash("sk-0123456789abcdef").ok().unwrap();
    let b = api_key_partial_hash("sk-0123456789abcdef").ok().unwrap();
    assert_eq!(a, b);
}

#[test]
fn new_record_has_no_id_yet() {
    let k = ApiKey::new_record("h".to_string(), None);
    assert_eq!(k, ApiKey { id: 0, hash: "h".to_string(), note: None });
}

#[test]
fn vote_values() {
    assert_eq!(Vote::No.value(), -1);
    assert_eq!(Vote::Skip.value(), 0);
    assert_eq!(Vote::Yes.value(), 1);
    assert_eq!(Vote::ItDepends.value(), 2);
    for v in [Vote::No, Vote::Skip, Vote::Yes, Vote::ItDepends] {
        assert_eq!(Vote::from(v.value()).ok().unwrap(), v);
    }
}

#[test]
fn unknown_vote_value_is_an_error() {
    match Vote::from(3) {
        Err(Error::CustomError(msg)) => assert_eq!(msg, "Unknown vote value"),
        Ok(_) => panic!("3 is no vote"),
    }
    assert!(Vote::from(-2).is_err());
}

#[test]
fn flag_state_round_trip() {
    for s in [StatementFlagState::Clear, StatementFlagState::MaybeFlagged, StatementFlagState::Flagged] {
        assert_eq!(StatementFlagState::from(s.value()), s);
    }
    assert_eq!(StatementFlagState::Flagged.value(), 2);
    assert_eq!(StatementFlagState::from(7), StatementFlagState::Clear);
    assert_eq!(StatementFlagState::from(-1), StatementFlagState::Clear);
}

#[test]
fn new_flag_record() {
    let f = StatementFlag::new_record(4, StatementFlagState::Flagged, FlagCategoryContainer::Empty);
    assert_eq!(f.statement_id, 4);
    assert_eq!(f.state, StatementFlagState::Flagged);
    assert_eq!(f.categories, FlagCategoryContainer::Empty);
    assert_eq!(f.created, 0);
}

#[test]
fn lookup_uses_found_key_or_creates_record() {
    let stored = ApiKey { id: 7, hash: "h".to_string(), note: None };
    match ApiKey::after_lookup(Some(stored.clone()), "h".to_string(), Some("n".to_string())) {
        KeyLookup::Found(k) => assert_eq!(k, stored),
        KeyLookup::Create(_) => panic!("expected the stored key"),
    }
    match ApiKey::after_lookup(None, "h2".to_string(), Some("n".to_string())) {
        KeyLookup::Create(k) => assert_eq!(k, ApiKey { id: 0, hash: "h2".to_string(), note: Some("n".to_string()) }),
        KeyLookup::Found(_) => panic!("expected a new record"),
    }
}
