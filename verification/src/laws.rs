//! What holds of a session whatever it has been through.

use crate::client::ClientView;
use crate::collection::{attached, RecordView};
use crate::options::{resolved_endpoint, DEFAULT_ENDPOINT};
use vstd::prelude::*;

verus! {

/// The session after the server's answers to several creations of `name`
/// have been taken, one after the other, in the order of `records`.
pub open spec fn created_all(
    session: ClientView,
    name: Seq<char>,
    records: Seq<RecordView>,
) -> ClientView
    decreases records.len(),
{
    if records.len() == 0 {
        session
    } else {
        created_all(session.created(name, records[0]), name, records.drop_first())
    }
}

/// The server's address is the one that the caller named, whatever the
/// environment holds; without one, the first variable decides, whatever the
/// second holds; without either, the second; and with nothing at all, the
/// default.
pub proof fn lemma_endpoint_priority(
    url: Option<Seq<char>>,
    chroma_host: Option<Seq<char>>,
    chroma_url: Option<Seq<char>>,
)
    ensures
        url matches Some(named) ==> resolved_endpoint(url, chroma_host, chroma_url) == named,
        chroma_host matches Some(first) ==> resolved_endpoint(None, chroma_host, chroma_url)
            == first,
        chroma_url matches Some(second) ==> resolved_endpoint(None, None, chroma_url) == second,
        resolved_endpoint(None, None, None) == DEFAULT_ENDPOINT@,
{
}

/// A creation that does not accept an existing collection is never answered
/// from the cache, not even right after the session has created the same
/// name: the server is asked, and it is the server that reports the conflict.
pub proof fn lemma_plain_creation_asks_server(
    session: ClientView,
    name: Seq<char>,
    record: RecordView,
)
    ensures
        !session.answers_from_cache(name, false),
        !session.created(name, record).answers_from_cache(name, false),
{
}

/// Once the server's answer to a creation of `name` has been taken, a
/// get-or-create of that name is answered from the cache, and the handle that
/// it gets has the name and the identifier of the handle that the first
/// caller got, unless the session had resolved the name before: then both
/// are the handle that was cached all along.
pub proof fn lemma_second_get_or_create_is_cached(
    session: ClientView,
    name: Seq<char>,
    record: RecordView,
)
    ensures
        session.created(name, record).answers_from_cache(name, true),
        !session.cache.contains_key(name) ==> {
            let first = attached(record, session.api);
            let second = session.created(name, record).cache[name];
            second == first && second.name == record.name && second.id == record.id
        },
        session.cache.contains_key(name) ==> session.created(name, record) == session,
{
}

/// Taking an answer changes neither the session's target nor what is cached
/// under other names, and a session whose cached handles all share its
/// target stays one.
pub proof fn lemma_creation_keeps_session(session: ClientView, name: Seq<char>, record: RecordView)
    ensures
        session.created(name, record).api == session.api,
        session.consistent() ==> session.created(name, record).consistent(),
        forall|other: Seq<char>|
            other != name ==> (session.created(name, record).cache.contains_key(other)
                <==> session.cache.contains_key(other)) && session.created(
                name,
                record,
            ).cache[other] == session.cache[other],
{
}

/// When several creations of one name have all missed the cache and the
/// server has answered each of them, the cache holds one entry for the name
/// however many answers are taken: the entry that was there before, or else
/// the handle of the answer that was taken first. Other names are untouched.
/// Where the server gave every answer the same identifier, every caller's
/// handle has the identifier of the cached one.
pub proof fn lemma_racing_creations_keep_first(
    session: ClientView,
    name: Seq<char>,
    records: Seq<RecordView>,
)
    ensures
        created_all(session, name, records).api == session.api,
        session.consistent() ==> created_all(session, name, records).consistent(),
        session.cache.contains_key(name) || records.len() == 0 ==> created_all(
            session,
            name,
            records,
        ) == session,
        !session.cache.contains_key(name) && records.len() > 0 ==> created_all(
            session,
            name,
            records,
        ).cache == session.cache.insert(name, attached(records[0], session.api)),
        !session.cache.contains_key(name) && records.len() > 0 && (forall|i: int|
            0 <= i < records.len() ==> (#[trigger] records[i]).id == records[0].id) ==> forall|
            i: int,
        |
            0 <= i < records.len() ==> attached(#[trigger] records[i], session.api).id
                == created_all(session, name, records).cache[name].id,
    decreases records.len(),
{
    if records.len() > 0 {
        let next = session.created(name, records[0]);
        lemma_racing_creations_keep_first(next, name, records.drop_first());
        if session.cache.contains_key(name) {
            assert(next == session);
        } else {
            assert(next.cache.contains_key(name));
            assert(created_all(session, name, records) == next);
        }
    }
}

} // verus!
