use vstd::prelude::*;
use crate::store::{
    create_entity_outcome, create_relation_outcome, name_taken, update_entity_outcome, MemoryStore,
};
use crate::types::{EveGlobalRelation, ReducerContext, StoreError};

verus! {

/// Creating an entity with an unused id and an unused name succeeds, and a
/// lookup by that id then finds a row that holds exactly the given fields,
/// with `created_at == updated_at ==` the host's time of the call.
pub proof fn lemma_create_then_get(
    pre: MemoryStore,
    post: MemoryStore,
    ctx: ReducerContext,
    entity_id: String,
    name: String,
    entity_type: Option<String>,
    data_json: Option<String>,
    embedding_json: Option<String>,
    r: Result<(), StoreError>,
)
    requires
        pre.wf(),
        !pre.entities().contains_key(entity_id@),
        !name_taken(pre.entities(), name@),
        create_entity_outcome(pre, post, ctx, entity_id, name, entity_type, data_json, embedding_json, r),
    ensures
        r.is_ok(),
        post.entities().contains_key(entity_id@),
        post.entities()[entity_id@].entity_id == entity_id,
        post.entities()[entity_id@].name == name,
        post.entities()[entity_id@].entity_type == entity_type,
        post.entities()[entity_id@].data_json == data_json,
        post.entities()[entity_id@].embedding_json == embedding_json,
        post.entities()[entity_id@].created_at == post.entities()[entity_id@].updated_at,
        post.entities()[entity_id@].created_at == ctx.timestamp,
{
}

/// After one entity has been created, a second one with the same name and a
/// different id is refused with `DuplicateKey`, and the store stays as it was.
pub proof fn lemma_duplicate_name_refused(
    s0: MemoryStore,
    s1: MemoryStore,
    s2: MemoryStore,
    ctx1: ReducerContext,
    ctx2: ReducerContext,
    id1: String,
    id2: String,
    name1: String,
    name2: String,
    entity_type1: Option<String>,
    data_json1: Option<String>,
    embedding_json1: Option<String>,
    entity_type2: Option<String>,
    data_json2: Option<String>,
    embedding_json2: Option<String>,
    r1: Result<(), StoreError>,
    r2: Result<(), StoreError>,
)
    requires
        s0.wf(),
        name1@ == name2@,
        id1@ != id2@,
        create_entity_outcome(s0, s1, ctx1, id1, name1, entity_type1, data_json1, embedding_json1, r1),
        r1.is_ok(),
        create_entity_outcome(s1, s2, ctx2, id2, name2, entity_type2, data_json2, embedding_json2, r2),
    ensures
        r2 matches Err(e) && (e.is_duplicate_of(name2@) || e.is_duplicate_of(id2@)),
        s2 == s1,
{
    assert(s1.entities().contains_key(id1@));
    assert(s1.entities()[id1@].name@ == name2@);
    assert(name_taken(s1.entities(), name2@));
}

/// An update that supplies only `data_json` replaces that field, leaves
/// `entity_type` and `embedding_json` as they were, and, when the call's time
/// lies after the row's last update, sets `updated_at` to that time, which
/// is strictly later than before.
pub proof fn lemma_update_data_only(
    pre: MemoryStore,
    post: MemoryStore,
    ctx: ReducerContext,
    entity_id: String,
    data_json: String,
    r: Result<(), StoreError>,
)
    requires
        pre.wf(),
        pre.entities().contains_key(entity_id@),
        ctx.timestamp.micros_since_epoch > pre.entities()[entity_id@].updated_at.micros_since_epoch,
        update_entity_outcome(pre, post, ctx, entity_id, None, Some(data_json), None, r),
    ensures
        r.is_ok(),
        post.entities().contains_key(entity_id@),
        post.entities()[entity_id@].entity_type == pre.entities()[entity_id@].entity_type,
        post.entities()[entity_id@].embedding_json == pre.entities()[entity_id@].embedding_json,
        post.entities()[entity_id@].data_json == Some(data_json),
        post.entities()[entity_id@].updated_at == ctx.timestamp,
        post.entities()[entity_id@].updated_at.micros_since_epoch
            > pre.entities()[entity_id@].updated_at.micros_since_epoch,
{
    pre.lemma_entity_invariants();
    assert(pre.entities().contains_key(entity_id@));
}

/// A relation with a missing endpoint is refused with `DanglingReference`
/// naming a missing endpoint, and no row of any table is written.
pub proof fn lemma_dangling_relation_refused(
    pre: MemoryStore,
    post: MemoryStore,
    ctx: ReducerContext,
    relation_id: String,
    source_entity_id: String,
    target_entity_id: String,
    relation_type: String,
    r: Result<(), StoreError>,
)
    requires
        pre.wf(),
        !pre.entities().contains_key(source_entity_id@) || !pre.entities().contains_key(
            target_entity_id@,
        ),
        create_relation_outcome(
            pre,
            post,
            ctx,
            relation_id,
            source_entity_id,
            target_entity_id,
            relation_type,
            r,
        ),
    ensures
        r matches Err(e) && ((!pre.entities().contains_key(source_entity_id@) && e.is_dangling_of(
            source_entity_id@,
        )) || (!pre.entities().contains_key(target_entity_id@) && e.is_dangling_of(
            target_entity_id@,
        ))),
        post == pre,
        !pre.relations().contains_key(relation_id@) ==> !post.relations().contains_key(relation_id@),
{
}

/// Between existing entities, a relation with an unused id is created once,
/// holding the given endpoints and type and stamped with the host's time; a
/// second call with the same id, between any existing entities, is refused
/// with `DuplicateKey` and changes nothing.
pub proof fn lemma_relation_created_once(
    s0: MemoryStore,
    s1: MemoryStore,
    s2: MemoryStore,
    ctx1: ReducerContext,
    ctx2: ReducerContext,
    relation_id1: String,
    relation_id2: String,
    source1: String,
    target1: String,
    source2: String,
    target2: String,
    relation_type1: String,
    relation_type2: String,
    r1: Result<(), StoreError>,
    r2: Result<(), StoreError>,
)
    requires
        s0.wf(),
        relation_id1@ == relation_id2@,
        s0.entities().contains_key(source1@),
        s0.entities().contains_key(target1@),
        !s0.relations().contains_key(relation_id1@),
        s0.entities().contains_key(source2@),
        s0.entities().contains_key(target2@),
        create_relation_outcome(s0, s1, ctx1, relation_id1, source1, target1, relation_type1, r1),
        create_relation_outcome(s1, s2, ctx2, relation_id2, source2, target2, relation_type2, r2),
    ensures
        r1.is_ok(),
        s1.relations() == s0.relations().insert(
            relation_id1@,
            EveGlobalRelation {
                relation_id: relation_id1,
                source_entity_id: source1,
                target_entity_id: target1,
                relation_type: relation_type1,
                created_at: ctx1.timestamp,
            },
        ),
        r2 matches Err(e) && e.is_duplicate_of(relation_id2@),
        s2 == s1,
{
}

} // verus!
