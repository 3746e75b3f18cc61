use vstd::prelude::*;
use crate::table::{Keyed, Table};
use crate::types::{
    EveGlobalEntity, EveGlobalKnowledgeBase, EveGlobalRelation, ReducerContext, Resource,
    StoreError, Timestamp,
};

verus! {

/// The entity, relation, knowledge and resource tables, committed together.
#[derive(Clone)]
pub struct MemoryStore {
    entities: Table<EveGlobalEntity>,
    relations: Table<EveGlobalRelation>,
    knowledge: Table<EveGlobalKnowledgeBase>,
    resources: Vec<Resource>,
    next_resource_id: u64,
}

/// Some entity in `entities` has this name.
pub open spec fn name_taken(entities: Map<Seq<char>, EveGlobalEntity>, name: Seq<char>) -> bool {
    exists|k: Seq<char>| #[trigger] entities.contains_key(k) && entities[k].name@ == name
}

/// The `updated_at` that an update of `e` at the host's time `ts` stamps:
/// `ts`, unless that lies before the entity was created.
pub open spec fn update_stamp(e: EveGlobalEntity, ts: Timestamp) -> Timestamp {
    if ts.micros_since_epoch >= e.created_at.micros_since_epoch {
        ts
    } else {
        e.created_at
    }
}

/// The row that a successful `create_entity` stores.
pub open spec fn new_entity(
    entity_id: String,
    name: String,
    entity_type: Option<String>,
    data_json: Option<String>,
    embedding_json: Option<String>,
    at: Timestamp,
) -> EveGlobalEntity {
    EveGlobalEntity {
        entity_id,
        name,
        entity_type,
        data_json,
        embedding_json,
        created_at: at,
        updated_at: at,
    }
}

/// A present argument overwrites the field, an absent one leaves it.
pub open spec fn patch(field: Option<String>, arg: Option<String>) -> Option<String> {
    match arg {
        Some(v) => Some(v),
        None => field,
    }
}

/// The row that a successful `update_entity` makes of `e`.
pub open spec fn patched_entity(
    e: EveGlobalEntity,
    entity_type: Option<String>,
    data_json: Option<String>,
    embedding_json: Option<String>,
    at: Timestamp,
) -> EveGlobalEntity {
    EveGlobalEntity {
        entity_id: e.entity_id,
        name: e.name,
        entity_type: patch(e.entity_type, entity_type),
        data_json: patch(e.data_json, data_json),
        embedding_json: patch(e.embedding_json, embedding_json),
        created_at: e.created_at,
        updated_at: at,
    }
}

impl MemoryStore {
    pub closed spec fn entities(&self) -> Map<Seq<char>, EveGlobalEntity> {
        self.entities@
    }

    pub closed spec fn relations(&self) -> Map<Seq<char>, EveGlobalRelation> {
        self.relations@
    }

    pub closed spec fn knowledge(&self) -> Map<Seq<char>, EveGlobalKnowledgeBase> {
        self.knowledge@
    }

    /// The resources in order of creation; the one at position `i` has id `i + 1`.
    pub closed spec fn resources(&self) -> Seq<Resource> {
        self.resources@
    }

    pub closed spec fn wf(&self) -> bool {
        &&& self.entities.wf()
        &&& self.relations.wf()
        &&& self.knowledge.wf()
        &&& forall|k1: Seq<char>, k2: Seq<char>|
            #[trigger] self.entities@.contains_key(k1) && #[trigger] self.entities@.contains_key(k2)
                && k1 != k2 ==> self.entities@[k1].name@ != self.entities@[k2].name@
        &&& forall|k: Seq<char>|
            #[trigger] self.entities@.contains_key(k) ==> self.entities@[k].created_at.micros_since_epoch
                <= self.entities@[k].updated_at.micros_since_epoch
        &&& self.next_resource_id == self.resources@.len() + 1
        &&& forall|i: int| 0 <= i < self.resources@.len() ==> #[trigger] self.resources@[i].id == i + 1
    }

    /// No entity shares its name with another, and no entity was updated
    /// before it was created.
    pub proof fn lemma_entity_invariants(&self)
        requires
            self.wf(),
        ensures
            forall|k1: Seq<char>, k2: Seq<char>|
                #[trigger] self.entities().contains_key(k1) && #[trigger] self.entities().contains_key(k2)
                    && k1 != k2 ==> self.entities()[k1].name@ != self.entities()[k2].name@,
            forall|k: Seq<char>|
                #[trigger] self.entities().contains_key(k) ==> self.entities()[k].entity_id@ == k
                    && self.entities()[k].created_at.micros_since_epoch
                    <= self.entities()[k].updated_at.micros_since_epoch,
    {
        self.entities.lemma_rows_match_view();
    }

    /// Every relation and every knowledge item is stored under its own id.
    pub proof fn lemma_row_keys(&self)
        requires
            self.wf(),
        ensures
            forall|k: Seq<char>|
                #[trigger] self.relations().contains_key(k) ==> self.relations()[k].relation_id@ == k,
            forall|k: Seq<char>|
                #[trigger] self.knowledge().contains_key(k) ==> self.knowledge()[k].knowledge_id@ == k,
    {
        self.relations.lemma_rows_match_view();
        self.knowledge.lemma_rows_match_view();
    }

    /// The resource at position `i` has id `i + 1`: ids are unique and grow
    /// with the order of creation.
    pub proof fn lemma_resource_ids(&self)
        requires
            self.wf(),
        ensures
            forall|i: int| 0 <= i < self.resources().len() ==> #[trigger] self.resources()[i].id == i + 1,
    {
    }

    /// An empty store.
    pub fn new() -> (r: Self)
        ensures
            r.wf(),
            r.entities() == Map::<Seq<char>, EveGlobalEntity>::empty(),
            r.relations() == Map::<Seq<char>, EveGlobalRelation>::empty(),
            r.knowledge() == Map::<Seq<char>, EveGlobalKnowledgeBase>::empty(),
            r.resources() == Seq::<Resource>::empty(),
    {
        MemoryStore {
            entities: Table::new(),
            relations: Table::new(),
            knowledge: Table::new(),
            resources: Vec::new(),
            next_resource_id: 1,
        }
    }

    /// The entity with this id.
    pub fn entity(&self, entity_id: &String) -> (r: Option<&EveGlobalEntity>)
        requires
            self.wf(),
        ensures
            match r {
                Some(e) => self.entities().contains_key(entity_id@) && *e == self.entities()[entity_id@],
                None => !self.entities().contains_key(entity_id@),
            },
    {
        self.entities.get_by_primary_key(entity_id)
    }

    /// The entity with this name: the unique secondary index of the entity table.
    pub fn entity_by_name(&self, name: &String) -> (r: Option<&EveGlobalEntity>)
        requires
            self.wf(),
        ensures
            match r {
                Some(e) => self.entities().contains_key(e.entity_id@)
                    && *e == self.entities()[e.entity_id@] && e.name@ == name@,
                None => !name_taken(self.entities(), name@),
            },
    {
        proof {
            self.entities.lemma_rows_match_view();
        }
        let n = self.entities.len();
        let mut i: usize = 0;
        while i < n
            invariant
                self.wf(),
                n == self.entities.rows().len(),
                i <= n,
                forall|j: int| 0 <= j < i ==> (#[trigger] self.entities.rows()[j]).name@ != name@,
            decreases n - i,
        {
            let e = self.entities.row_at(i);
            if e.name == *name {
                proof {
                    self.entities.lemma_rows_match_view();
                    assert(self.entities@.contains_key(self.entities.rows()[i as int].key()));
                }
                return Some(e);
            }
            i += 1;
        }
        proof {
            if name_taken(self.entities(), name@) {
                let k = choose|k: Seq<char>| #[trigger] self.entities@.contains_key(k) && self.entities@[k].name@ == name@;
                let j = choose|j: int| 0 <= j < self.entities.rows().len() && #[trigger] self.entities.rows()[j].key() == k;
                assert(self.entities.rows()[j].name@ == name@);
            }
        }
        None
    }

    /// The relation with this id.
    pub fn relation(&self, relation_id: &String) -> (r: Option<&EveGlobalRelation>)
        requires
            self.wf(),
        ensures
            match r {
                Some(x) => self.relations().contains_key(relation_id@) && *x == self.relations()[relation_id@],
                None => !self.relations().contains_key(relation_id@),
            },
    {
        self.relations.get_by_primary_key(relation_id)
    }

    /// The knowledge item with this id.
    pub fn knowledge_item(&self, knowledge_id: &String) -> (r: Option<&EveGlobalKnowledgeBase>)
        requires
            self.wf(),
        ensures
            match r {
                Some(x) => self.knowledge().contains_key(knowledge_id@) && *x == self.knowledge()[knowledge_id@],
                None => !self.knowledge().contains_key(knowledge_id@),
            },
    {
        self.knowledge.get_by_primary_key(knowledge_id)
    }

    /// The resource with this id.
    pub fn resource(&self, id: u64) -> (r: Option<&Resource>)
        requires
            self.wf(),
        ensures
            match r {
                Some(x) => 1 <= id <= self.resources().len() && *x == self.resources()[id - 1]
                    && x.id == id,
                None => !(1 <= id <= self.resources().len()),
            },
    {
        let n = self.resources.len();
        if id >= 1 && id < self.next_resource_id {
            assert(id - 1 < n);
            Some(&self.resources[(id - 1) as usize])
        } else {
            None
        }
    }
}

/// What `create_entity` does, from the store `pre` to the store `post`.
pub open spec fn create_entity_outcome(
    pre: MemoryStore,
    post: MemoryStore,
    ctx: ReducerContext,
    entity_id: String,
    name: String,
    entity_type: Option<String>,
    data_json: Option<String>,
    embedding_json: Option<String>,
    r: Result<(), StoreError>,
) -> bool {
    let at = ctx.timestamp;
    &&& r.is_ok() == (!pre.entities().contains_key(entity_id@) && !name_taken(pre.entities(), name@))
    &&& match r {
        Ok(()) => {
            &&& post.entities() == pre.entities().insert(
                entity_id@,
                new_entity(entity_id, name, entity_type, data_json, embedding_json, at),
            )
            &&& post.relations() == pre.relations()
            &&& post.knowledge() == pre.knowledge()
            &&& post.resources() == pre.resources()
        },
        Err(e) => {
            &&& post == pre
            &&& if pre.entities().contains_key(entity_id@) {
                e.is_duplicate_of(entity_id@)
            } else {
                e.is_duplicate_of(name@)
            }
        },
    }
}

/// Creates an entity stamped with the call's time, or refuses with
/// `DuplicateKey` when its id or its name is taken.
pub fn create_entity(
    db: &mut MemoryStore,
    ctx: &ReducerContext,
    entity_id: String,
    name: String,
    entity_type: Option<String>,
    data_json: Option<String>,
    embedding_json: Option<String>,
) -> (r: Result<(), StoreError>)
    requires
        old(db).wf(),
    ensures
        final(db).wf(),
        create_entity_outcome(
            *old(db),
            *final(db),
            *ctx,
            entity_id,
            name,
            entity_type,
            data_json,
            embedding_json,
            r,
        ),
{
    if db.entities.contains(&entity_id) {
        return Err(StoreError::DuplicateKey(entity_id));
    }
    if db.entity_by_name(&name).is_some() {
        return Err(StoreError::DuplicateKey(name));
    }
    let ghost pre = *db;
    let at = ctx.timestamp;
    let row = EveGlobalEntity {
        entity_id,
        name,
        entity_type,
        data_json,
        embedding_json,
        created_at: at,
        updated_at: at,
    };
    let ghost new_row = row;
    let r = db.entities.insert(row);
    proof {
        assert(r.is_ok());
        assert forall|k1: Seq<char>, k2: Seq<char>|
            #[trigger] db.entities@.contains_key(k1) && #[trigger] db.entities@.contains_key(k2)
                && k1 != k2 implies db.entities@[k1].name@ != db.entities@[k2].name@ by {
            if k1 != new_row.entity_id@ && k2 != new_row.entity_id@ {
                assert(pre.entities@.contains_key(k1) && pre.entities@.contains_key(k2));
            } else if k1 == new_row.entity_id@ {
                assert(pre.entities@.contains_key(k2));
            } else {
                assert(pre.entities@.contains_key(k1));
            }
        }
        assert forall|k: Seq<char>| #[trigger] db.entities@.contains_key(k) implies
            db.entities@[k].created_at.micros_since_epoch <= db.entities@[k].updated_at.micros_since_epoch by {
            if k != new_row.entity_id@ {
                assert(pre.entities@.contains_key(k));
            }
        }
    }
    Ok(())
}

/// What `update_entity` does, from the store `pre` to the store `post`.
pub open spec fn update_entity_outcome(
    pre: MemoryStore,
    post: MemoryStore,
    ctx: ReducerContext,
    entity_id: String,
    entity_type: Option<String>,
    data_json: Option<String>,
    embedding_json: Option<String>,
    r: Result<(), StoreError>,
) -> bool {
    let at = update_stamp(pre.entities()[entity_id@], ctx.timestamp);
    &&& r.is_ok() == pre.entities().contains_key(entity_id@)
    &&& match r {
        Ok(()) => {
            &&& post.entities() == pre.entities().insert(
                entity_id@,
                patched_entity(pre.entities()[entity_id@], entity_type, data_json, embedding_json, at),
            )
            &&& post.relations() == pre.relations()
            &&& post.knowledge() == pre.knowledge()
            &&& post.resources() == pre.resources()
        },
        Err(e) => post == pre && e.is_not_found_of(entity_id@),
    }
}

/// Overwrites each field of the entity for which an argument is present,
/// leaves the others, and stamps `updated_at` with the call's time; refuses
/// with `NotFound` when no entity has this id.
pub fn update_entity(
    db: &mut MemoryStore,
    ctx: &ReducerContext,
    entity_id: String,
    entity_type: Option<String>,
    data_json: Option<String>,
    embedding_json: Option<String>,
) -> (r: Result<(), StoreError>)
    requires
        old(db).wf(),
    ensures
        final(db).wf(),
        update_entity_outcome(
            *old(db),
            *final(db),
            *ctx,
            entity_id,
            entity_type,
            data_json,
            embedding_json,
            r,
        ),
{
    let ghost pre = *db;
    let mut row = match db.entities.get_by_primary_key(&entity_id) {
        Some(e) => e.copy(),
        None => {
            return Err(StoreError::NotFound(entity_id));
        },
    };
    proof {
        db.entities.lemma_rows_match_view();
    }
    if let Some(v) = entity_type {
        row.entity_type = Some(v);
    }
    if let Some(v) = data_json {
        row.data_json = Some(v);
    }
    if let Some(v) = embedding_json {
        row.embedding_json = Some(v);
    }
    let at = if ctx.timestamp.micros_since_epoch >= row.created_at.micros_since_epoch {
        ctx.timestamp
    } else {
        row.created_at
    };
    row.updated_at = at;
    let ghost new_row = row;
    assert(new_row == patched_entity(pre.entities@[entity_id@], entity_type, data_json, embedding_json, at));
    let r = db.entities.update_by_primary_key(row);
    proof {
        assert(r.is_ok());
        assert forall|k1: Seq<char>, k2: Seq<char>|
            #[trigger] db.entities@.contains_key(k1) && #[trigger] db.entities@.contains_key(k2)
                && k1 != k2 implies db.entities@[k1].name@ != db.entities@[k2].name@ by {
            assert(pre.entities@.contains_key(k1) && pre.entities@.contains_key(k2));
        }
        assert forall|k: Seq<char>| #[trigger] db.entities@.contains_key(k) implies
            db.entities@[k].created_at.micros_since_epoch <= db.entities@[k].updated_at.micros_since_epoch by {
            assert(pre.entities@.contains_key(k));
        }
    }
    Ok(())
}

/// What `create_relation` does, from the store `pre` to the store `post`.
pub open spec fn create_relation_outcome(
    pre: MemoryStore,
    post: MemoryStore,
    ctx: ReducerContext,
    relation_id: String,
    source_entity_id: String,
    target_entity_id: String,
    relation_type: String,
    r: Result<(), StoreError>,
) -> bool {
    let at = ctx.timestamp;
    &&& r.is_ok() == (pre.entities().contains_key(source_entity_id@)
        && pre.entities().contains_key(target_entity_id@)
        && !pre.relations().contains_key(relation_id@))
    &&& match r {
        Ok(()) => {
            &&& post.relations() == pre.relations().insert(
                relation_id@,
                EveGlobalRelation {
                    relation_id,
                    source_entity_id,
                    target_entity_id,
                    relation_type,
                    created_at: at,
                },
            )
            &&& post.entities() == pre.entities()
            &&& post.knowledge() == pre.knowledge()
            &&& post.resources() == pre.resources()
        },
        Err(e) => {
            &&& post == pre
            &&& if !pre.entities().contains_key(source_entity_id@) {
                e.is_dangling_of(source_entity_id@)
            } else if !pre.entities().contains_key(target_entity_id@) {
                e.is_dangling_of(target_entity_id@)
            } else {
                e.is_duplicate_of(relation_id@)
            }
        },
    }
}

/// Creates a relation between two existing entities, stamped with the call's
/// time. Refuses with `DanglingReference` naming the first missing endpoint
/// (source before target), else with `DuplicateKey` when the id is taken.
pub fn create_relation(
    db: &mut MemoryStore,
    ctx: &ReducerContext,
    relation_id: String,
    source_entity_id: String,
    target_entity_id: String,
    relation_type: String,
) -> (r: Result<(), StoreError>)
    requires
        old(db).wf(),
    ensures
        final(db).wf(),
        create_relation_outcome(
            *old(db),
            *final(db),
            *ctx,
            relation_id,
            source_entity_id,
            target_entity_id,
            relation_type,
            r,
        ),
{
    if !db.entities.contains(&source_entity_id) {
        return Err(StoreError::DanglingReference(source_entity_id));
    }
    if !db.entities.contains(&target_entity_id) {
        return Err(StoreError::DanglingReference(target_entity_id));
    }
    if db.relations.contains(&relation_id) {
        return Err(StoreError::DuplicateKey(relation_id));
    }
    let ghost pre = *db;
    let at = ctx.timestamp;
    let row = EveGlobalRelation {
        relation_id,
        source_entity_id,
        target_entity_id,
        relation_type,
        created_at: at,
    };
    let r = db.relations.insert(row);
    proof {
        assert(r.is_ok());
        assert forall|k: Seq<char>| #[trigger] db.entities@.contains_key(k) implies
            db.entities@[k].created_at.micros_since_epoch <= db.entities@[k].updated_at.micros_since_epoch by {
            assert(pre.entities@.contains_key(k));
        }
    }
    Ok(())
}

/// What `create_knowledge` does, from the store `pre` to the store `post`.
pub open spec fn create_knowledge_outcome(
    pre: MemoryStore,
    post: MemoryStore,
    ctx: ReducerContext,
    knowledge_id: String,
    text_content: String,
    embedding_json: Option<String>,
    tags_json: Option<String>,
    source_identifier: Option<String>,
    r: Result<(), StoreError>,
) -> bool {
    let at = ctx.timestamp;
    &&& r.is_ok() == !pre.knowledge().contains_key(knowledge_id@)
    &&& match r {
        Ok(()) => {
            &&& post.knowledge() == pre.knowledge().insert(
                knowledge_id@,
                EveGlobalKnowledgeBase {
                    knowledge_id,
                    text_content,
                    embedding_json,
                    tags_json,
                    source_identifier,
                    created_at: at,
                },
            )
            &&& post.entities() == pre.entities()
            &&& post.relations() == pre.relations()
            &&& post.resources() == pre.resources()
        },
        Err(e) => post == pre && e.is_duplicate_of(knowledge_id@),
    }
}

/// Creates a knowledge item stamped with the call's time, or refuses with
/// `DuplicateKey` when its id is taken.
pub fn create_knowledge(
    db: &mut MemoryStore,
    ctx: &ReducerContext,
    knowledge_id: String,
    text_content: String,
    embedding_json: Option<String>,
    tags_json: Option<String>,
    source_identifier: Option<String>,
) -> (r: Result<(), StoreError>)
    requires
        old(db).wf(),
    ensures
        final(db).wf(),
        create_knowledge_outcome(
            *old(db),
            *final(db),
            *ctx,
            knowledge_id,
            text_content,
            embedding_json,
            tags_json,
            source_identifier,
            r,
        ),
{
    if db.knowledge.contains(&knowledge_id) {
        return Err(StoreError::DuplicateKey(knowledge_id));
    }
    let ghost pre = *db;
    let at = ctx.timestamp;
    let row = EveGlobalKnowledgeBase {
        knowledge_id,
        text_content,
        embedding_json,
        tags_json,
        source_identifier,
        created_at: at,
    };
    let r = db.knowledge.insert(row);
    proof {
        assert(r.is_ok());
        assert forall|k: Seq<char>| #[trigger] db.entities@.contains_key(k) implies
            db.entities@[k].created_at.micros_since_epoch <= db.entities@[k].updated_at.micros_since_epoch by {
            assert(pre.entities@.contains_key(k));
        }
    }
    Ok(())
}

/// What `create_resource` does, from the store `pre` to the store `post`.
pub open spec fn create_resource_outcome(
    pre: MemoryStore,
    post: MemoryStore,
    ctx: ReducerContext,
    timestamp: Timestamp,
    name: String,
    resource_type: String,
    r: Result<u64, StoreError>,
) -> bool {
    let id = pre.resources().len() + 1;
    &&& r.is_ok() == (id < u64::MAX)
    &&& match r {
        Ok(n) => {
            &&& n == id
            &&& post.resources() == pre.resources().push(
                Resource { id: n, name, resource_type, ingested_at: timestamp, owner_id: ctx.sender },
            )
            &&& post.entities() == pre.entities()
            &&& post.relations() == pre.relations()
            &&& post.knowledge() == pre.knowledge()
            &&& forall|i: int| 0 <= i < pre.resources().len() ==> (#[trigger] pre.resources()[i]).id < n
        },
        Err(e) => post == pre && e == StoreError::SequenceExhausted,
    }
}

/// Creates a resource owned by the caller, under the next id of the resource
/// sequence (1, 2, ...), and returns that id. Refuses with `SequenceExhausted`
/// when the sequence has reached `u64::MAX`.
pub fn create_resource(
    db: &mut MemoryStore,
    ctx: &ReducerContext,
    timestamp: Timestamp,
    name: String,
    resource_type: String,
) -> (r: Result<u64, StoreError>)
    requires
        old(db).wf(),
    ensures
        final(db).wf(),
        create_resource_outcome(*old(db), *final(db), *ctx, timestamp, name, resource_type, r),
{
    if db.next_resource_id == u64::MAX {
        return Err(StoreError::SequenceExhausted);
    }
    let id = db.next_resource_id;
    db.resources.push(
        Resource { id, name, resource_type, ingested_at: timestamp, owner_id: ctx.sender },
    );
    db.next_resource_id = id + 1;
    Ok(id)
}

/// The same as `create_resource`.
pub fn create_dummy_resource(
    db: &mut MemoryStore,
    ctx: &ReducerContext,
    timestamp: Timestamp,
    name: String,
    resource_type: String,
) -> (r: Result<u64, StoreError>)
    requires
        old(db).wf(),
    ensures
        final(db).wf(),
        create_resource_outcome(*old(db), *final(db), *ctx, timestamp, name, resource_type, r),
{
    create_resource(db, ctx, timestamp, name, resource_type)
}

} // verus!
