use vstd::prelude::*;
use crate::table::Keyed;

verus! {

/// A point in time, as microseconds since the UNIX epoch.
#[derive(Clone, Copy, Debug, PartialEq, Eq, Structural)]
pub struct Timestamp {
    pub micros_since_epoch: u64,
}

impl Timestamp {
    pub fn from_micros_since_epoch(micros_since_epoch: u64) -> (r: Timestamp)
        ensures
            r.micros_since_epoch == micros_since_epoch,
    {
        Timestamp { micros_since_epoch }
    }

    pub fn into_micros_since_epoch(self) -> (r: u64)
        ensures
            r == self.micros_since_epoch,
    {
        self.micros_since_epoch
    }
}

/// The identity of a calling principal: 32 opaque bytes.
#[derive(Clone, Copy, Debug, PartialEq, Eq)]
pub struct Identity {
    pub bytes: [u8; 32],
}

/// What the host supplies with every call: who calls, and when.
#[derive(Clone, Copy, Debug)]
pub struct ReducerContext {
    pub sender: Identity,
    pub timestamp: Timestamp,
}

/// Why an operation was refused. Each carries the offending key.
#[derive(Clone, Debug, PartialEq, Eq)]
pub enum StoreError {
    /// A row with this primary key, or an entity with this name, exists already.
    DuplicateKey(String),
    /// No row has this primary key.
    NotFound(String),
    /// A relation names this entity id, and no such entity exists.
    DanglingReference(String),
    /// The automatic id sequence of a table has no value left.
    SequenceExhausted,
}

impl StoreError {
    pub open spec fn is_duplicate_of(&self, key: Seq<char>) -> bool {
        match self {
            StoreError::DuplicateKey(k) => k@ == key,
            _ => false,
        }
    }

    pub open spec fn is_not_found_of(&self, key: Seq<char>) -> bool {
        match self {
            StoreError::NotFound(k) => k@ == key,
            _ => false,
        }
    }

    pub open spec fn is_dangling_of(&self, key: Seq<char>) -> bool {
        match self {
            StoreError::DanglingReference(k) => k@ == key,
            _ => false,
        }
    }
}

/// A node of the graph: a named thing with an optional type, payload and embedding.
#[derive(Clone, Debug)]
pub struct EveGlobalEntity {
    pub entity_id: String,
    pub name: String,
    pub entity_type: Option<String>,
    pub data_json: Option<String>,
    pub embedding_json: Option<String>,
    pub created_at: Timestamp,
    pub updated_at: Timestamp,
}

/// A directed, typed edge between two entities.
#[derive(Clone, Debug)]
pub struct EveGlobalRelation {
    pub relation_id: String,
    pub source_entity_id: String,
    pub target_entity_id: String,
    pub relation_type: String,
    pub created_at: Timestamp,
}

/// A free-text knowledge item with optional embedding, tags and provenance.
#[derive(Clone, Debug)]
pub struct EveGlobalKnowledgeBase {
    pub knowledge_id: String,
    pub text_content: String,
    pub embedding_json: Option<String>,
    pub tags_json: Option<String>,
    pub source_identifier: Option<String>,
    pub created_at: Timestamp,
}

/// An ingested outside resource, owned by the principal that created it.
#[derive(Clone, Debug)]
pub struct Resource {
    pub id: u64,
    pub name: String,
    pub resource_type: String,
    pub ingested_at: Timestamp,
    pub owner_id: Identity,
}

/// A card of content, owned by the principal that created it.
#[derive(Clone, Debug)]
pub struct Card {
    pub id: u64,
    pub title: String,
    pub content: String,
    pub created_at: Timestamp,
    pub owner_id: Identity,
}

/// A rendered output, optionally linked back to the card it came from.
#[derive(Clone, Debug)]
pub struct Output {
    pub id: u64,
    pub name: String,
    pub format: String,
    pub created_at: Timestamp,
    pub source_card_id: Option<u64>,
    pub owner_id: Identity,
}

/// A copy of an optional string, equal to it.
pub fn copy_opt(o: &Option<String>) -> (r: Option<String>)
    ensures
        r == *o,
{
    match o {
        Some(s) => Some(s.clone()),
        None => None,
    }
}

impl EveGlobalEntity {
    /// A field-by-field copy, equal to `self`.
    pub fn copy(&self) -> (r: Self)
        ensures
            r == *self,
    {
        EveGlobalEntity {
            entity_id: self.entity_id.clone(),
            name: self.name.clone(),
            entity_type: copy_opt(&self.entity_type),
            data_json: copy_opt(&self.data_json),
            embedding_json: copy_opt(&self.embedding_json),
            created_at: self.created_at,
            updated_at: self.updated_at,
        }
    }
}

impl Keyed for EveGlobalEntity {
    open spec fn key(&self) -> Seq<char> {
        self.entity_id@
    }

    fn key_ref(&self) -> (r: &String) {
        &self.entity_id
    }
}

impl Keyed for EveGlobalRelation {
    open spec fn key(&self) -> Seq<char> {
        self.relation_id@
    }

    fn key_ref(&self) -> (r: &String) {
        &self.relation_id
    }
}

impl Keyed for EveGlobalKnowledgeBase {
    open spec fn key(&self) -> Seq<char> {
        self.knowledge_id@
    }

    fn key_ref(&self) -> (r: &String) {
        &self.knowledge_id
    }
}

} // verus!
