//! The completion endpoint: the auth gate first, then the responder.

use vstd::prelude::*;
use crate::auth::{
    authorized, authorize_at, bearer_text, signing_secret, signing_secret_text, token_claims, Claims,
};
use crate::clock::unix_seconds;
use crate::completion::{canned_words, canned_words_spec, completion_of, json_at, json_handler};
use crate::error::{spec_status_code, ServiceError};
use crate::ident::is_completion_id;
use crate::model::{ChatCompletion, ChatRequest};
use crate::stream::{texts, StreamState};

verus! {

/// What the responder answers with.
#[derive(Clone, Debug, PartialEq, Eq)]
pub enum Reply {
    /// The whole message in one JSON object.
    Completion(ChatCompletion),
    /// A stream of events: the words to send and the state to start from.
    Stream { words: Vec<String>, state: StreamState },
}

/// An answer, and the claims of the caller it goes to.
#[derive(Clone, Debug, PartialEq, Eq)]
pub struct Served {
    pub claims: Claims,
    pub reply: Reply,
}

/// A request is streamed only where it asks for it.
pub open spec fn wants_stream(stream: Option<bool>) -> bool {
    stream == Some(true)
}

/// Whether `reply` answers a request for `model` with the given streaming flag.
pub open spec fn reply_fits(reply: Reply, model: Seq<char>, stream: Option<bool>) -> bool {
    match reply {
        Reply::Completion(c) => {
            &&& !wants_stream(stream)
            &&& is_completion_id(c@.id)
            &&& c@ == completion_of(c@.id, c@.created, model)
        },
        Reply::Stream { words, state } => {
            &&& wants_stream(stream)
            &&& texts(words@) == canned_words_spec()
            &&& state == (StreamState::Emitting { remaining: words@.len() as usize })
            &&& state.wf(words@.len())
        },
    }
}

/// The completion responder: a stream where the request asks for one, the
/// message in one piece otherwise. A stream always starts; the message can
/// fail on the clock.
pub fn respond(model: String, stream: Option<bool>) -> (r: Result<Reply, ServiceError>)
    ensures
        match r {
            Ok(reply) => reply_fits(reply, model@, stream),
            Err(e) => e == ServiceError::Internal && !wants_stream(stream),
        },
{
    let streamed = match stream {
        Some(flag) => flag,
        None => false,
    };
    if streamed {
        let words = canned_words();
        let state = StreamState::start(words.len());
        Ok(Reply::Stream { words, state })
    } else {
        match json_handler(model) {
            Ok(c) => Ok(Reply::Completion(c)),
            Err(_) => Err(ServiceError::Internal),
        }
    }
}

/// The completion responder at the moment `now`: a stream where the request
/// asks for one, the message in one piece otherwise, created at `now`.
pub fn respond_at(model: String, stream: Option<bool>, now: u64) -> (reply: Reply)
    ensures
        reply_fits(reply, model@, stream),
        reply matches Reply::Completion(c) ==> c.created == now,
{
    let streamed = match stream {
        Some(flag) => flag,
        None => false,
    };
    if streamed {
        let words = canned_words();
        let state = StreamState::start(words.len());
        Reply::Stream { words, state }
    } else {
        Reply::Completion(json_at(model, now))
    }
}

/// Whether `r` is what the completion endpoint owes a request at the moment
/// `now`. A request that the auth gate rejects gets the rejection, whose
/// status is 401. Every other request is answered: with the claims of its
/// token, and as its model and its streaming flag ask.
pub open spec fn is_answer_at(
    r: Result<Served, ServiceError>,
    bearer: Option<Seq<char>>,
    model: Seq<char>,
    stream: Option<bool>,
    now: u64,
) -> bool {
    match authorized(bearer, signing_secret_text(), now) {
        Ok(claims) => {
            &&& r matches Ok(served)
            &&& served.claims@ == claims
            &&& reply_fits(served.reply, model, stream)
            &&& served.reply matches Reply::Completion(c) ==> c.created == now
        },
        Err(e) => r == Err::<Served, ServiceError>(e) && spec_status_code(e) == 401,
    }
}

/// The completion endpoint at the moment `now`.
pub fn chat_completions_at(bearer: Option<&str>, request: &ChatRequest, now: u64) -> (r: Result<
    Served,
    ServiceError,
>)
    ensures
        is_answer_at(r, bearer_text(bearer), request.model@, request.stream, now),
{
    match authorize_at(bearer, signing_secret(), now) {
        Err(e) => Err(e),
        Ok(claims) => {
            let reply = respond_at(request.model.clone(), request.stream, now);
            Ok(Served { claims, reply })
        },
    }
}

/// The completion endpoint. Without a bearer token the request is rejected
/// before the clock is looked at; with one, the clock is read once, and the
/// request gets what it is owed at that moment. The only other failure is a
/// clock that cannot be read.
pub fn chat_completions_handler(bearer: Option<&str>, request: &ChatRequest) -> (r: Result<
    Served,
    ServiceError,
>)
    ensures
        bearer is None ==> r == Err::<Served, ServiceError>(ServiceError::AuthRejected),
        bearer is None ==> (r matches Err(e) && spec_status_code(e) == 401),
        match r {
            Ok(served) => {
                &&& bearer matches Some(token)
                &&& token_claims(token@, signing_secret_text()) == Some(served.claims@)
                &&& reply_fits(served.reply, request.model@, request.stream)
            },
            Err(e) => e == ServiceError::AuthRejected || e == ServiceError::Internal,
        },
        r != Err::<Served, ServiceError>(ServiceError::Internal) ==> exists|now: u64| #[trigger]
            is_answer_at(r, bearer_text(bearer), request.model@, request.stream, now),
{
    match bearer {
        None => {
            let r = Err(ServiceError::AuthRejected);
            assert(is_answer_at(r, bearer_text(bearer), request.model@, request.stream, 0));
            r
        },
        Some(_) => {
            match unix_seconds() {
                Err(_) => Err(ServiceError::Internal),
                Ok(now) => chat_completions_at(bearer, request, now),
            }
        },
    }
}

} // verus!
