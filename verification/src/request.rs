//! The requests that a session asks its transport to send.

use crate::json::JsonObject;
use vstd::prelude::*;
use vstd::string::StringExecFns;

verus! {

/// The path under which the collections of a database are created and listed.
pub const COLLECTIONS_PATH: &'static str = "/collections";

/// The path that answers with the server's version.
pub const VERSION_PATH: &'static str = "/version";

/// The path that answers with the server's clock.
pub const HEARTBEAT_PATH: &'static str = "/heartbeat";

/// The body of a request that creates a collection.
#[derive(Debug)]
pub struct CreateCollectionBody {
    pub name: String,
    pub metadata: Option<JsonObject>,
    pub get_or_create: bool,
    pub configuration: JsonObject,
}

/// What a [`CreateCollectionBody`] is in contracts.
pub struct BodyView {
    pub name: Seq<char>,
    pub metadata: Option<JsonObject>,
    pub get_or_create: bool,
    pub configuration: JsonObject,
}

impl View for CreateCollectionBody {
    type V = BodyView;

    open spec fn view(&self) -> BodyView {
        BodyView {
            name: self.name@,
            metadata: self.metadata,
            get_or_create: self.get_or_create,
            configuration: self.configuration,
        }
    }
}

/// A request for the transport. The `Database` variants are scoped: the
/// transport puts the session's tenant and database in front of the path.
#[derive(Debug)]
pub enum ApiRequest {
    /// `GET` of a path of the server itself.
    Get { path: String },
    /// `GET` of a path inside the session's database.
    GetDatabase { path: String },
    /// `POST` of a body to a path inside the session's database.
    PostDatabase { path: String, body: CreateCollectionBody },
    /// `DELETE` of a path inside the session's database.
    DeleteDatabase { path: String },
}

/// What an [`ApiRequest`] is in contracts.
pub enum RequestView {
    Get { path: Seq<char> },
    GetDatabase { path: Seq<char> },
    PostDatabase { path: Seq<char>, body: BodyView },
    DeleteDatabase { path: Seq<char> },
}

impl View for ApiRequest {
    type V = RequestView;

    open spec fn view(&self) -> RequestView {
        match *self {
            ApiRequest::Get { path } => RequestView::Get { path: path@ },
            ApiRequest::GetDatabase { path } => RequestView::GetDatabase { path: path@ },
            ApiRequest::PostDatabase { path, body } => RequestView::PostDatabase {
                path: path@,
                body: body@,
            },
            ApiRequest::DeleteDatabase { path } => RequestView::DeleteDatabase { path: path@ },
        }
    }
}

/// The path of the collection `name`: [`COLLECTIONS_PATH`], a slash, and the
/// name as it is.
pub open spec fn collection_path(name: Seq<char>) -> Seq<char> {
    COLLECTIONS_PATH@ + "/"@ + name
}

/// Builds the path of the collection `name`.
pub fn path_of_collection(name: &str) -> (path: String)
    ensures
        path@ == collection_path(name@),
{
    let mut path = COLLECTIONS_PATH.to_owned();
    path.append("/");
    path.append(name);
    path
}

} // verus!
