//! Collections as the server describes them, and the handles that a session
//! hands out for them.

use crate::json::{clone_object, JsonObject};
use crate::target::{share_target, ApiTarget, ApiTargetView};
use std::sync::Arc;
use vstd::prelude::*;

verus! {

/// A collection as a response of the server describes it. It says nothing of
/// how to reach the server: a record becomes a handle when a session attaches
/// its target to it.
#[derive(Debug)]
pub struct CollectionRecord {
    pub id: String,
    pub name: String,
    pub metadata: Option<JsonObject>,
    pub configuration: Option<JsonObject>,
}

/// What a [`CollectionRecord`] is in contracts.
pub struct RecordView {
    pub id: Seq<char>,
    pub name: Seq<char>,
    pub metadata: Option<JsonObject>,
    pub configuration: Option<JsonObject>,
}

impl View for CollectionRecord {
    type V = RecordView;

    open spec fn view(&self) -> RecordView {
        RecordView {
            id: self.id@,
            name: self.name@,
            metadata: self.metadata,
            configuration: self.configuration,
        }
    }
}

/// A handle for a collection that the server knows: what the server said of
/// it, and the target of the session that resolved it. A handle is a value:
/// two handles with the same view stand for the same collection.
#[derive(Debug)]
pub struct ChromaCollection {
    api: Arc<ApiTarget>,
    id: String,
    name: String,
    metadata: Option<JsonObject>,
    configuration: Option<JsonObject>,
}

/// What a [`ChromaCollection`] is in contracts.
pub struct CollectionView {
    pub api: ApiTargetView,
    pub id: Seq<char>,
    pub name: Seq<char>,
    pub metadata: Option<JsonObject>,
    pub configuration: Option<JsonObject>,
}

/// The handle that a record gives once the target `api` is attached to it.
pub open spec fn attached(record: RecordView, api: ApiTargetView) -> CollectionView {
    CollectionView {
        api,
        id: record.id,
        name: record.name,
        metadata: record.metadata,
        configuration: record.configuration,
    }
}

impl View for ChromaCollection {
    type V = CollectionView;

    closed spec fn view(&self) -> CollectionView {
        CollectionView {
            api: self.api@,
            id: self.id@,
            name: self.name@,
            metadata: self.metadata,
            configuration: self.configuration,
        }
    }
}

/// A copy of an optional JSON object.
fn clone_optional_object(object: &Option<JsonObject>) -> (copy: Option<JsonObject>)
    ensures
        copy == *object,
{
    match object {
        Some(o) => Some(clone_object(o)),
        None => None,
    }
}

impl ChromaCollection {
    /// Makes a handle of a record: the record's data, reached through `api`.
    pub fn attach(record: CollectionRecord, api: &Arc<ApiTarget>) -> (handle: Self)
        ensures
            handle@ == attached(record@, api@),
    {
        ChromaCollection {
            api: share_target(api),
            id: record.id,
            name: record.name,
            metadata: record.metadata,
            configuration: record.configuration,
        }
    }

    /// The collection's name.
    pub fn name(&self) -> (name: &str)
        ensures
            name@ == self@.name,
    {
        self.name.as_str()
    }

    /// The collection's identifier.
    pub fn id(&self) -> (id: &str)
        ensures
            id@ == self@.id,
    {
        self.id.as_str()
    }

    /// The collection's metadata, if it has any.
    pub fn metadata(&self) -> (metadata: Option<&JsonObject>)
        ensures
            match metadata {
                Some(m) => self@.metadata == Some(*m),
                None => self@.metadata is None,
            },
    {
        self.metadata.as_ref()
    }

    /// The collection's index configuration, if the server sent one.
    pub fn configuration(&self) -> (configuration: Option<&JsonObject>)
        ensures
            match configuration {
                Some(c) => self@.configuration == Some(*c),
                None => self@.configuration is None,
            },
    {
        self.configuration.as_ref()
    }

    /// The target through which the collection is reached.
    pub fn api(&self) -> (api: &Arc<ApiTarget>)
        ensures
            api@ == self@.api,
    {
        &self.api
    }
}

impl Clone for ChromaCollection {
    fn clone(&self) -> (copy: Self)
        ensures
            copy@ == self@,
    {
        ChromaCollection {
            api: share_target(&self.api),
            id: self.id.clone(),
            name: self.name.clone(),
            metadata: clone_optional_object(&self.metadata),
            configuration: clone_optional_object(&self.configuration),
        }
    }
}

} // verus!
