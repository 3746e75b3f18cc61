use eve_memory::{
    create_dummy_resource, create_entity, create_knowledge, create_relation, create_resource,
    update_entity, Identity, MemoryStore, ReducerContext, StoreError, Timestamp,
};

fn ctx_at(micros: u64) -> ReducerContext {
    ReducerContext {
        sender: Identity { bytes: [7u8; 32] },
        timestamp: Timestamp::from_micros_since_epoch(micros),
    }
}

fn s(x: &str) -> String {
    x.to_string()
}

fn store_with_alice_and_bob() -> MemoryStore {
    let mut db = MemoryStore::new();
    assert_eq!(create_entity(&mut db, &ctx_at(10), s("e1"), s("Alice"), None, None, None), Ok(()));
    assert_eq!(create_entity(&mut db, &ctx_at(20), s("e2"), s("Bob"), None, None, None), Ok(()));
    db
}

#[test]
fn create_then_get_returns_given_fields() {
    let mut db = MemoryStore::new();
    let r = create_entity(
        &mut db,
        &ctx_at(1_000),
        s("e1"),
        s("Alice"),
        Some(s("person")),
        Some(s("{\"age\":3}")),
        Some(s("[0.5,1.5]")),
    );
    assert_eq!(r, Ok(()));
    let e = db.entity(&s("e1")).expect("entity stored");
    assert_eq!(e.entity_id, "e1");
    assert_eq!(e.name, "Alice");
    assert_eq!(e.entity_type, Some(s("person")));
    assert_eq!(e.data_json, Some(s("{\"age\":3}")));
    assert_eq!(e.embedding_json, Some(s("[0.5,1.5]")));
    assert_eq!(e.created_at, e.updated_at);
    assert_eq!(e.created_at.into_micros_since_epoch(), 1_000);
}

#[test]
fn lookup_by_name_finds_the_entity() {
    let db = store_with_alice_and_bob();
    let e = db.entity_by_name(&s("Bob")).expect("indexed by name");
    assert_eq!(e.entity_id, "e2");
    assert!(db.entity_by_name(&s("Carol")).is_none());
    assert!(db.entity(&s("e3")).is_none());
}

#[test]
fn duplicate_name_is_refused() {
    let mut db = MemoryStore::new();
    assert_eq!(create_entity(&mut db, &ctx_at(1), s("e1"), s("Alice"), None, None, None), Ok(()));
    let r = create_entity(&mut db, &ctx_at(2), s("e2"), s("Alice"), None, None, None);
    assert_eq!(r, Err(StoreError::DuplicateKey(s("Alice"))));
    assert!(db.entity(&s("e2")).is_none());
}

#[test]
fn duplicate_entity_id_is_refused() {
    let mut db = MemoryStore::new();
    assert_eq!(create_entity(&mut db, &ctx_at(1), s("e1"), s("Alice"), None, None, None), Ok(()));
    let r = create_entity(&mut db, &ctx_at(2), s("e1"), s("Carol"), None, None, None);
    assert_eq!(r, Err(StoreError::DuplicateKey(s("e1"))));
    assert_eq!(db.entity(&s("e1")).unwrap().name, "Alice");
    assert!(db.entity_by_name(&s("Carol")).is_none());
}

#[test]
fn update_with_only_data_keeps_other_fields() {
    let mut db = MemoryStore::new();
    let r = create_entity(
        &mut db,
        &ctx_at(100),
        s("e1"),
        s("Alice"),
        Some(s("person")),
        Some(s("{}")),
        Some(s("[1]")),
    );
    assert_eq!(r, Ok(()));
    let r = update_entity(&mut db, &ctx_at(200), s("e1"), None, Some(s("{\"k\":1}")), None);
    assert_eq!(r, Ok(()));
    let e = db.entity(&s("e1")).unwrap();
    assert_eq!(e.entity_type, Some(s("person")));
    assert_eq!(e.embedding_json, Some(s("[1]")));
    assert_eq!(e.data_json, Some(s("{\"k\":1}")));
    assert_eq!(e.created_at.into_micros_since_epoch(), 100);
    assert_eq!(e.updated_at.into_micros_since_epoch(), 200);
    assert!(e.updated_at.into_micros_since_epoch() > e.created_at.into_micros_since_epoch());
}

#[test]
fn update_overwrites_every_supplied_field() {
    let mut db = MemoryStore::new();
    assert_eq!(create_entity(&mut db, &ctx_at(5), s("e1"), s("Alice"), None, None, None), Ok(()));
    let r = update_entity(&mut db, &ctx_at(6), s("e1"), Some(s("t")), Some(s("d")), Some(s("v")));
    assert_eq!(r, Ok(()));
    let e = db.entity(&s("e1")).unwrap();
    assert_eq!(e.entity_type, Some(s("t")));
    assert_eq!(e.data_json, Some(s("d")));
    assert_eq!(e.embedding_json, Some(s("v")));
    assert_eq!(e.name, "Alice");
}

#[test]
fn update_of_missing_entity_is_not_found() {
    let mut db = store_with_alice_and_bob();
    let r = update_entity(&mut db, &ctx_at(30), s("e9"), Some(s("t")), None, None);
    assert_eq!(r, Err(StoreError::NotFound(s("e9"))));
    assert!(db.entity(&s("e9")).is_none());
    assert_eq!(db.entity(&s("e1")).unwrap().updated_at.into_micros_since_epoch(), 10);
}

#[test]
fn rows_carry_the_host_time_as_given() {
    let mut db = MemoryStore::new();
    assert_eq!(create_entity(&mut db, &ctx_at(500), s("e1"), s("Alice"), None, None, None), Ok(()));
    assert_eq!(create_entity(&mut db, &ctx_at(300), s("e2"), s("Bob"), None, None, None), Ok(()));
    let e = db.entity(&s("e2")).unwrap();
    assert_eq!(e.created_at.into_micros_since_epoch(), 300);
    assert_eq!(e.updated_at.into_micros_since_epoch(), 300);
    assert_eq!(create_relation(&mut db, &ctx_at(200), s("r1"), s("e1"), s("e2"), s("knows")), Ok(()));
    assert_eq!(db.relation(&s("r1")).unwrap().created_at.into_micros_since_epoch(), 200);
}

#[test]
fn update_never_stamps_before_creation() {
    let mut db = MemoryStore::new();
    assert_eq!(create_entity(&mut db, &ctx_at(500), s("e1"), s("Alice"), None, None, None), Ok(()));
    assert_eq!(update_entity(&mut db, &ctx_at(400), s("e1"), None, None, None), Ok(()));
    let e = db.entity(&s("e1")).unwrap();
    assert_eq!(e.updated_at.into_micros_since_epoch(), 500);
    assert!(e.updated_at.into_micros_since_epoch() >= e.created_at.into_micros_since_epoch());
}

#[test]
fn relation_scenario_alice_knows_bob() {
    let mut db = MemoryStore::new();
    assert_eq!(create_entity(&mut db, &ctx_at(1), s("e1"), s("Alice"), None, None, None), Ok(()));
    assert_eq!(create_entity(&mut db, &ctx_at(2), s("e2"), s("Bob"), None, None, None), Ok(()));
    let r = create_relation(&mut db, &ctx_at(3), s("r1"), s("e1"), s("e2"), s("knows"));
    assert_eq!(r, Ok(()));
    let rel = db.relation(&s("r1")).expect("relation stored");
    assert_eq!(rel.source_entity_id, "e1");
    assert_eq!(rel.target_entity_id, "e2");
    assert_eq!(rel.relation_type, "knows");
    let r = create_relation(&mut db, &ctx_at(4), s("r2"), s("e1"), s("e99"), s("knows"));
    assert_eq!(r, Err(StoreError::DanglingReference(s("e99"))));
    assert!(db.relation(&s("r2")).is_none());
}

#[test]
fn relation_with_missing_source_names_the_source() {
    let mut db = store_with_alice_and_bob();
    let r = create_relation(&mut db, &ctx_at(30), s("r1"), s("x"), s("y"), s("knows"));
    assert_eq!(r, Err(StoreError::DanglingReference(s("x"))));
    assert!(db.relation(&s("r1")).is_none());
}

#[test]
fn relation_id_is_used_once() {
    let mut db = store_with_alice_and_bob();
    assert_eq!(create_relation(&mut db, &ctx_at(30), s("r1"), s("e1"), s("e2"), s("knows")), Ok(()));
    let r = create_relation(&mut db, &ctx_at(40), s("r1"), s("e2"), s("e1"), s("likes"));
    assert_eq!(r, Err(StoreError::DuplicateKey(s("r1"))));
    let rel = db.relation(&s("r1")).unwrap();
    assert_eq!(rel.source_entity_id, "e1");
    assert_eq!(rel.relation_type, "knows");
    assert_eq!(rel.created_at.into_micros_since_epoch(), 30);
}

#[test]
fn self_relation_is_allowed() {
    let mut db = store_with_alice_and_bob();
    assert_eq!(create_relation(&mut db, &ctx_at(30), s("r1"), s("e1"), s("e1"), s("is")), Ok(()));
    assert_eq!(db.relation(&s("r1")).unwrap().target_entity_id, "e1");
}

#[test]
fn knowledge_is_created_once() {
    let mut db = MemoryStore::new();
    let r = create_knowledge(
        &mut db,
        &ctx_at(9),
        s("k1"),
        s("water boils at 100C"),
        None,
        Some(s("[\"physics\"]")),
        Some(s("textbook")),
    );
    assert_eq!(r, Ok(()));
    let k = db.knowledge_item(&s("k1")).unwrap();
    assert_eq!(k.text_content, "water boils at 100C");
    assert_eq!(k.tags_json, Some(s("[\"physics\"]")));
    assert_eq!(k.source_identifier, Some(s("textbook")));
    assert_eq!(k.embedding_json, None);
    assert_eq!(k.created_at.into_micros_since_epoch(), 9);
    let r = create_knowledge(&mut db, &ctx_at(10), s("k1"), s("other"), None, None, None);
    assert_eq!(r, Err(StoreError::DuplicateKey(s("k1"))));
    assert_eq!(db.knowledge_item(&s("k1")).unwrap().text_content, "water boils at 100C");
}

#[test]
fn resources_get_sequential_ids() {
    let mut db = MemoryStore::new();
    let ctx = ctx_at(50);
    let t = Timestamp::from_micros_since_epoch(42);
    assert_eq!(create_resource(&mut db, &ctx, t, s("tracker"), s("Jira")), Ok(1));
    assert_eq!(create_dummy_resource(&mut db, &ctx, t, s("repo"), s("GitHub")), Ok(2));
    let r = db.resource(2).unwrap();
    assert_eq!(r.id, 2);
    assert_eq!(r.name, "repo");
    assert_eq!(r.resource_type, "GitHub");
    assert_eq!(r.ingested_at.into_micros_since_epoch(), 42);
    assert_eq!(r.owner_id, Identity { bytes: [7u8; 32] });
    assert!(db.resource(0).is_none());
    assert!(db.resource(3).is_none());
}

#[test]
fn empty_store_has_nothing() {
    let db = MemoryStore::new();
    assert!(db.entity(&s("")).is_none());
    assert!(db.entity_by_name(&s("")).is_none());
    assert!(db.relation(&s("")).is_none());
    assert!(db.knowledge_item(&s("")).is_none());
    assert!(db.resource(1).is_none());
}
