//! A transactional entity / relation / knowledge store.
//!
//! Rows live in keyed tables (`table`), the row types and the context that the
//! host hands to every operation are in `types`, the operations themselves are
//! in `store`, and the laws that relate them are in `laws`.

pub mod table;
pub mod types;
pub mod store;
pub mod laws;

pub use store::{
    create_dummy_resource, create_entity, create_knowledge, create_relation, create_resource,
    update_entity, MemoryStore,
};
pub use table::{Keyed, Table};
pub use types::{
    Card, EveGlobalEntity, EveGlobalKnowledgeBase, EveGlobalRelation, Identity, Output,
    ReducerContext, Resource, StoreError, Timestamp,
};
