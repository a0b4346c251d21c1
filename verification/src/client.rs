//! The session: which request an operation needs, and what a response does to
//! the cache.

use crate::cache::{with_first, CollectionCache};
use crate::collection::{attached, ChromaCollection, CollectionRecord, CollectionView, RecordView};
use crate::error::ChromaError;
use crate::json::{empty_object, object_keys, JsonObject};
use crate::options::{resolve_endpoint, resolved_endpoint, text_of, ChromaClientOptions};
use crate::request::{
    collection_path, path_of_collection, ApiRequest, BodyView, CreateCollectionBody, RequestView,
    COLLECTIONS_PATH, HEARTBEAT_PATH, VERSION_PATH,
};
use crate::target::{ApiTarget, ApiTargetView};
use std::sync::Arc;
use vstd::prelude::*;

verus! {

/// A session with one server, in one tenant and database.
///
/// The session owns a cache of the collections that it has created or
/// resolved through [`ChromaClient::create_collection`]. The cache exists to
/// spare repeated creations a round trip; reads
/// ([`ChromaClient::get_collection`], [`ChromaClient::list_collections`])
/// never look at it, and [`ChromaClient::delete_collection`] leaves it as it
/// is, so a name that was deleted on the server is still answered from the
/// cache by a later get-or-create of this session.
///
/// Its target never changes, and every handle in the cache shares it.
///
/// Methods that change the cache take `&mut self`. A program that shares a
/// session between tasks guards it with a lock and holds the lock for the one
/// call only, never while a request is in flight.
pub struct ChromaClient {
    api: Arc<ApiTarget>,
    collection_cache: CollectionCache,
}

/// What a [`ChromaClient`] is in contracts: its target, and the handles that
/// it has cached, by name.
pub struct ClientView {
    pub api: ApiTargetView,
    pub cache: Map<Seq<char>, CollectionView>,
}

impl ClientView {
    /// Every cached handle is reached through the session's own target.
    pub open spec fn consistent(self) -> bool {
        forall|name: Seq<char>|
            self.cache.contains_key(name) ==> (#[trigger] self.cache[name]).api == self.api
    }

    /// Whether a creation of `name` is answered without asking the server:
    /// the caller accepts an existing collection, and the session has
    /// resolved the name before.
    pub open spec fn answers_from_cache(self, name: Seq<char>, get_or_create: bool) -> bool {
        get_or_create && self.cache.contains_key(name)
    }

    /// The session after the server has answered a creation of `name` with
    /// `record`: the record's handle is cached, unless the name has an entry
    /// already.
    pub open spec fn created(self, name: Seq<char>, record: RecordView) -> ClientView {
        ClientView {
            api: self.api,
            cache: with_first(self.cache, name, attached(record, self.api)),
        }
    }
}

impl View for ChromaClient {
    type V = ClientView;

    closed spec fn view(&self) -> ClientView {
        ClientView { api: self.api@, cache: self.collection_cache@ }
    }
}

/// What has to happen next for a creation.
#[derive(Debug)]
pub enum CreateStep {
    /// Nothing: the session had resolved the name, and this is its handle.
    Cached(ChromaCollection),
    /// This request has to be sent; its response goes to
    /// [`ChromaClient::collection_created`].
    Request(ApiRequest),
    /// Nothing can be sent: the index configuration has no wire form.
    Rejected(ChromaError),
}

/// The envelope in which the server sends its clock.
#[derive(Debug)]
pub struct HeartbeatResponse {
    /// Nanoseconds since the epoch.
    pub heartbeat: u64,
}

/// The request that creates the collection `name`.
pub open spec fn create_request(
    name: Seq<char>,
    metadata: Option<JsonObject>,
    get_or_create: bool,
    configuration: JsonObject,
) -> RequestView {
    RequestView::PostDatabase {
        path: COLLECTIONS_PATH@,
        body: BodyView { name, metadata, get_or_create, configuration },
    }
}

/// The index configuration that a request carries; only a request with a
/// body has one.
pub open spec fn sent_configuration(request: RequestView) -> JsonObject
    recommends
        request is PostDatabase,
{
    request->body.configuration
}

/// Whether `step` is what a creation of `name` has to do next in `session`:
/// the cached handle where the session answers from its cache; else the
/// error of a configuration that has no wire form; else the request, with
/// the configuration that was given, or with an object without keys where
/// none was.
pub open spec fn decides_creation(
    session: ClientView,
    name: Seq<char>,
    metadata: Option<JsonObject>,
    configuration: Option<Result<JsonObject, ChromaError>>,
    get_or_create: bool,
    step: CreateStep,
) -> bool {
    if session.answers_from_cache(name, get_or_create) {
        step matches CreateStep::Cached(handle) && handle@ == session.cache[name]
    } else {
        match configuration {
            Some(Err(error)) => step == CreateStep::Rejected(error),
            Some(Ok(encoded)) => step matches CreateStep::Request(request) && request@
                == create_request(name, metadata, get_or_create, encoded),
            None => step matches CreateStep::Request(request) && request@ == create_request(
                name,
                metadata,
                get_or_create,
                sent_configuration(request@),
            ) && object_keys(sent_configuration(request@)) == Set::<Seq<char>>::empty(),
        }
    }
}

impl ChromaClient {
    #[verifier::type_invariant]
    spec fn cache_shares_target(self) -> bool {
        self@.consistent()
    }

    /// Opens a session. `chroma_host` and `chroma_url` are the values of the
    /// two environment variables that may name the server, `None` where one
    /// is not set. This never fails.
    pub fn new(
        options: ChromaClientOptions,
        chroma_host: Option<String>,
        chroma_url: Option<String>,
    ) -> (result: Result<ChromaClient, ChromaError>)
        ensures
            result matches Ok(client) && client@.cache == Map::<Seq<char>, CollectionView>::empty()
                && client@.api == (ApiTargetView {
                endpoint: resolved_endpoint(
                    options@.url,
                    text_of(chroma_host),
                    text_of(chroma_url),
                ),
                auth: options@.auth,
                tenant: options@.tenant,
                database: options@.database,
                connections: options@.connections,
            }),
    {
        let ChromaClientOptions { url, auth, tenant, database, connections } = options;
        let endpoint = resolve_endpoint(url, chroma_host, chroma_url);
        Ok(
            ChromaClient {
                api: Arc::new(ApiTarget { endpoint, auth, tenant, database, connections }),
                collection_cache: CollectionCache::new(),
            },
        )
    }

    /// The session's target.
    pub fn api(&self) -> (api: &Arc<ApiTarget>)
        ensures
            api@ == self@.api,
    {
        &self.api
    }

    /// A copy of the handle that the session has cached for `name`.
    pub fn cached(&self, name: &str) -> (found: Option<ChromaCollection>)
        ensures
            match found {
                Some(handle) => self@.cache.contains_key(name@) && handle@ == self@.cache[name@]
                    && handle@.api == self@.api,
                None => !self@.cache.contains_key(name@),
            },
    {
        proof {
            use_type_invariant(self);
        }
        self.collection_cache.lookup(name)
    }

    /// Decides how to create the collection `name`.
    ///
    /// `configuration` is the wire form of the caller's index configuration,
    /// or the error that encoding it gave, where the caller has one. With
    /// `get_or_create`, a name that the session has resolved before is
    /// answered from the cache, whatever the other arguments hold: the
    /// session trusts that the collection is still there. In every other case the server is asked, with a body of the
    /// name, the metadata, `get_or_create` and the configuration (an empty
    /// object where the caller gave none), unless the configuration has no
    /// wire form: then its error is returned and nothing is sent.
    pub fn create_collection(
        &self,
        name: &str,
        metadata: Option<JsonObject>,
        configuration: Option<Result<JsonObject, ChromaError>>,
        get_or_create: bool,
    ) -> (step: CreateStep)
        ensures
            decides_creation(self@, name@, metadata, configuration, get_or_create, step),
            step matches CreateStep::Cached(handle) ==> handle@.api == self@.api,
    {
        if get_or_create {
            if let Some(collection) = self.cached(name) {
                return CreateStep::Cached(collection);
            }
        }
        let config = match configuration {
            Some(Ok(encoded)) => encoded,
            Some(Err(error)) => {
                return CreateStep::Rejected(error);
            },
            None => empty_object(),
        };
        CreateStep::Request(
            ApiRequest::PostDatabase {
                path: COLLECTIONS_PATH.to_owned(),
                body: CreateCollectionBody {
                    name: name.to_owned(),
                    metadata,
                    get_or_create,
                    configuration: config,
                },
            },
        )
    }

    /// Decides how to get or create the collection `name`:
    /// [`ChromaClient::create_collection`] with `get_or_create`.
    pub fn get_or_create_collection(
        &self,
        name: &str,
        metadata: Option<JsonObject>,
        configuration: Option<Result<JsonObject, ChromaError>>,
    ) -> (step: CreateStep)
        ensures
            decides_creation(self@, name@, metadata, configuration, true, step),
            step matches CreateStep::Cached(handle) ==> handle@.api == self@.api,
    {
        self.create_collection(name, metadata, configuration, true)
    }

    /// Takes the server's answer to the request of a
    /// [`CreateStep::Request`] for `name`.
    ///
    /// A record becomes a handle with the session's target, and the handle is
    /// cached under `name` unless the name has an entry by now: of two
    /// creations that both missed the cache, the one whose answer is taken
    /// first stays cached. The caller gets the handle of its own answer
    /// either way. A failure is passed on as it is and leaves the cache
    /// alone.
    pub fn collection_created(
        &mut self,
        name: &str,
        outcome: Result<CollectionRecord, ChromaError>,
    ) -> (result: Result<ChromaCollection, ChromaError>)
        ensures
            final(self)@.api == old(self)@.api,
            match outcome {
                Ok(record) => result matches Ok(handle) && handle@ == attached(
                    record@,
                    old(self)@.api,
                ) && final(self)@ == old(self)@.created(name@, record@),
                Err(error) => result == Err::<ChromaCollection, ChromaError>(error) && final(self)@
                    == old(self)@,
            },
    {
        proof {
            use_type_invariant(&*self);
        }
        match outcome {
            Ok(record) => {
                let collection = ChromaCollection::attach(record, &self.api);
                // The cache leaves the session while it changes, so that the
                // session never holds a cache which is half-way there.
                let mut cache = CollectionCache::new();
                std::mem::swap(&mut self.collection_cache, &mut cache);
                cache.insert_if_absent(name, collection.clone());
                self.collection_cache = cache;
                Ok(collection)
            },
            Err(error) => Err(error),
        }
    }

    /// The request that lists the collections of the session's database. The
    /// cache plays no part: the server is asked every time.
    pub fn list_collections(&self) -> (request: ApiRequest)
        ensures
            request@ == (RequestView::GetDatabase { path: COLLECTIONS_PATH@ }),
    {
        ApiRequest::GetDatabase { path: COLLECTIONS_PATH.to_owned() }
    }

    /// Takes the server's answer to [`ChromaClient::list_collections`]: the
    /// records become handles with the session's target, in the order in
    /// which they came. Nothing is cached.
    pub fn collections_listed(&self, outcome: Result<Vec<CollectionRecord>, ChromaError>) -> (result:
        Result<Vec<ChromaCollection>, ChromaError>)
        ensures
            match outcome {
                Ok(records) => result matches Ok(handles) && handles.len() == records.len()
                    && forall|i: int|
                    0 <= i < records.len() ==> (#[trigger] handles[i])@ == attached(
                        records[i]@,
                        self@.api,
                    ),
                Err(error) => result == Err::<Vec<ChromaCollection>, ChromaError>(error),
            },
    {
        match outcome {
            Ok(records) => {
                let ghost listed = records@;
                let mut handles: Vec<ChromaCollection> = Vec::new();
                for record in iter: records
                    invariant
                        iter.seq() == listed,
                        handles.len() == iter.index(),
                        forall|i: int|
                            0 <= i < handles.len() ==> (#[trigger] handles[i])@ == attached(
                                listed[i]@,
                                self@.api,
                            ),
                {
                    handles.push(ChromaCollection::attach(record, &self.api));
                }
                Ok(handles)
            },
            Err(error) => Err(error),
        }
    }

    /// The request that reads the collection `name` from the server. The
    /// cache plays no part.
    pub fn get_collection(&self, name: &str) -> (request: ApiRequest)
        ensures
            request@ == (RequestView::GetDatabase { path: collection_path(name@) }),
    {
        ApiRequest::GetDatabase { path: path_of_collection(name) }
    }

    /// Takes the server's answer to [`ChromaClient::get_collection`]: the
    /// record becomes a handle with the session's target. Nothing is cached.
    pub fn collection_fetched(&self, outcome: Result<CollectionRecord, ChromaError>) -> (result:
        Result<ChromaCollection, ChromaError>)
        ensures
            match outcome {
                Ok(record) => result matches Ok(handle) && handle@ == attached(record@, self@.api),
                Err(error) => result == Err::<ChromaCollection, ChromaError>(error),
            },
    {
        match outcome {
            Ok(record) => Ok(ChromaCollection::attach(record, &self.api)),
            Err(error) => Err(error),
        }
    }

    /// The request that deletes the collection `name` on the server. The
    /// cache keeps the entry that it may hold for the name.
    pub fn delete_collection(&self, name: &str) -> (request: ApiRequest)
        ensures
            request@ == (RequestView::DeleteDatabase { path: collection_path(name@) }),
    {
        ApiRequest::DeleteDatabase { path: path_of_collection(name) }
    }

    /// The request that asks the server for its version. The answer is a
    /// JSON string.
    pub fn version(&self) -> (request: ApiRequest)
        ensures
            request@ == (RequestView::Get { path: VERSION_PATH@ }),
    {
        ApiRequest::Get { path: VERSION_PATH.to_owned() }
    }

    /// The request that asks the server for its clock.
    pub fn heartbeat(&self) -> (request: ApiRequest)
        ensures
            request@ == (RequestView::Get { path: HEARTBEAT_PATH@ }),
    {
        ApiRequest::Get { path: HEARTBEAT_PATH.to_owned() }
    }

    /// Takes the server's answer to [`ChromaClient::heartbeat`]: the
    /// nanoseconds that the envelope holds.
    pub fn heartbeat_received(&self, outcome: Result<HeartbeatResponse, ChromaError>) -> (result:
        Result<u64, ChromaError>)
        ensures
            match outcome {
                Ok(envelope) => result == Ok::<u64, ChromaError>(envelope.heartbeat),
                Err(error) => result == Err::<u64, ChromaError>(error),
            },
    {
        match outcome {
            Ok(envelope) => Ok(envelope.heartbeat),
            Err(error) => Err(error),
        }
    }
}

} // verus!
