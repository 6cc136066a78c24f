//! The two answers of the completion responder: a message in one piece, or
//! the events of a stream. Both are canned.

use vstd::prelude::*;
use vstd::string::*;
use crate::clock::unix_seconds;
use crate::error::ServiceError;
use crate::ident::{fresh_completion_id, is_completion_id};
use crate::model::{ChatCompletion, ChatCompletionView, ChatMessage, ChatMessageView, Choice, ChoiceView};
use crate::stream::{
    concat, contents, event_views, is_stop_chunk, is_stream, is_word_chunk, lemma_stream_order,
    sse_events, texts, StreamEvent, StreamEventView,
};

verus! {

/// The message of every completion sent in one piece.
pub open spec fn canned_message() -> Seq<char> {
    "Hello from your local mock server! This is a non-streaming response."@
}

/// The sentence of every streamed completion.
pub open spec fn canned_sentence() -> Seq<char> {
    "Hello from your local Rust mock server! This is a streaming response."@
}

/// The words of the streamed sentence. Each carries the space that follows it.
pub open spec fn canned_words_spec() -> Seq<Seq<char>> {
    seq![
        "Hello "@,
        "from "@,
        "your "@,
        "local "@,
        "Rust "@,
        "mock "@,
        "server! "@,
        "This "@,
        "is "@,
        "a "@,
        "streaming "@,
        "response."@,
    ]
}

/// The words of the streamed sentence, in order.
pub fn canned_words() -> (w: Vec<String>)
    ensures
        texts(w@) == canned_words_spec(),
{
    let w = vec![
        String::from_str("Hello "),
        String::from_str("from "),
        String::from_str("your "),
        String::from_str("local "),
        String::from_str("Rust "),
        String::from_str("mock "),
        String::from_str("server! "),
        String::from_str("This "),
        String::from_str("is "),
        String::from_str("a "),
        String::from_str("streaming "),
        String::from_str("response."),
    ];
    assert(texts(w@) =~= canned_words_spec());
    w
}

proof fn lemma_concat_push(words: Seq<Seq<char>>, word: Seq<char>)
    ensures
        concat(words.push(word)) == concat(words) + word,
{
    assert(words.push(word).drop_last() =~= words);
}

/// The canned words, joined as they stand, are the canned sentence.
pub proof fn lemma_canned_sentence()
    ensures
        concat(canned_words_spec()) == canned_sentence(),
{
    reveal_strlit("Hello ");
    reveal_strlit("from ");
    reveal_strlit("your ");
    reveal_strlit("local ");
    reveal_strlit("Rust ");
    reveal_strlit("mock ");
    reveal_strlit("server! ");
    reveal_strlit("This ");
    reveal_strlit("is ");
    reveal_strlit("a ");
    reveal_strlit("streaming ");
    reveal_strlit("response.");
    reveal_strlit("Hello from your local Rust mock server! This is a streaming response.");
    let p0 = Seq::<Seq<char>>::empty();
    let p1 = p0.push("Hello "@);
    let p2 = p1.push("from "@);
    let p3 = p2.push("your "@);
    let p4 = p3.push("local "@);
    let p5 = p4.push("Rust "@);
    let p6 = p5.push("mock "@);
    let p7 = p6.push("server! "@);
    let p8 = p7.push("This "@);
    let p9 = p8.push("is "@);
    let p10 = p9.push("a "@);
    let p11 = p10.push("streaming "@);
    let p12 = p11.push("response."@);
    lemma_concat_push(p0, "Hello "@);
    lemma_concat_push(p1, "from "@);
    lemma_concat_push(p2, "your "@);
    lemma_concat_push(p3, "local "@);
    lemma_concat_push(p4, "Rust "@);
    lemma_concat_push(p5, "mock "@);
    lemma_concat_push(p6, "server! "@);
    lemma_concat_push(p7, "This "@);
    lemma_concat_push(p8, "is "@);
    lemma_concat_push(p9, "a "@);
    lemma_concat_push(p10, "streaming "@);
    lemma_concat_push(p11, "response."@);
    assert(p12 =~= canned_words_spec());
    assert(concat(p12) =~= canned_sentence());
}

/// The completion sent in one piece: one alternative, the canned message
/// from the assistant, finished by "stop".
pub open spec fn completion_of(id: Seq<char>, created: u64, model: Seq<char>) -> ChatCompletionView {
    ChatCompletionView {
        id,
        object: "chat.completion"@,
        created,
        model,
        choices: seq![
            ChoiceView {
                index: 0,
                message: ChatMessageView { role: "assistant"@, content: canned_message() },
                finish_reason: "stop"@,
            },
        ],
    }
}

/// The canned message is not empty.
pub proof fn lemma_canned_message_len()
    ensures
        canned_message().len() == 68,
{
    reveal_strlit("Hello from your local mock server! This is a non-streaming response.");
}

impl ChatCompletion {
    /// The canned completion under the given identifier, time and model.
    pub fn canned(id: String, created: u64, model: String) -> (c: ChatCompletion)
        ensures
            c@ == completion_of(id@, created, model@),
    {
        let choice = Choice {
            index: 0,
            message: ChatMessage {
                role: String::from_str("assistant"),
                content: String::from_str(
                    "Hello from your local mock server! This is a non-streaming response.",
                ),
            },
            finish_reason: String::from_str("stop"),
        };
        let c = ChatCompletion {
            id,
            object: String::from_str("chat.completion"),
            created,
            model,
            choices: vec![choice],
        };
        assert(c@.choices =~= completion_of(id@, created, model@).choices);
        c
    }
}

/// Answers in one piece at the moment `now`: the canned completion for
/// `model`, with a fresh identifier.
pub fn json_at(model: String, now: u64) -> (c: ChatCompletion)
    ensures
        is_completion_id(c@.id),
        c@ == completion_of(c@.id, now, model@),
{
    let id = fresh_completion_id();
    ChatCompletion::canned(id, now, model)
}

/// Answers in one piece: the canned completion for `model`, with a fresh
/// identifier and the current time. Only the clock can make it fail.
pub fn json_handler(model: String) -> (r: Result<ChatCompletion, ServiceError>)
    ensures
        match r {
            Ok(c) => {
                &&& is_completion_id(c@.id)
                &&& c@ == completion_of(c@.id, c@.created, model@)
                &&& c@.choices.len() == 1
                &&& c@.choices[0].finish_reason == "stop"@
                &&& c@.choices[0].message.content == canned_message()
                &&& c@.choices[0].message.content.len() > 0
            },
            Err(e) => e == ServiceError::Internal,
        },
{
    match unix_seconds() {
        Ok(created) => {
            proof {
                lemma_canned_message_len();
            }
            Ok(json_at(model, created))
        },
        Err(_) => Err(ServiceError::Internal),
    }
}

/// Answers as a stream: every event of the canned sentence for `model`, in
/// the order in which they are sent. Only the clock can make it fail.
pub fn sse_handler(model: String) -> (r: Result<Vec<StreamEvent>, ServiceError>)
    ensures
        match r {
            Ok(evs) => is_stream(event_views(evs@), canned_words_spec(), model@),
            Err(e) => e == ServiceError::Internal,
        },
{
    let words = canned_words();
    sse_events(&words, model.as_str())
}


/// A completion sent in one piece has exactly one alternative, finished by
/// "stop", and its message is not empty.
pub proof fn lemma_completion_shape(id: Seq<char>, created: u64, model: Seq<char>)
    ensures
        completion_of(id, created, model).choices.len() == 1,
        completion_of(id, created, model).choices[0].finish_reason == "stop"@,
        completion_of(id, created, model).choices[0].message.content.len() > 0,
        completion_of(id, created, model).model == model,
{
    lemma_canned_message_len();
}

/// Every complete stream of the canned words has fourteen events: twelve
/// chunks whose contents, read together, are the canned sentence with its
/// spaces, then the closing chunk, then the terminator.
pub proof fn lemma_canned_stream(evs: Seq<StreamEventView>, model: Seq<char>)
    requires
        is_stream(evs, canned_words_spec(), model),
    ensures
        evs.len() == 14,
        forall|k: int| 0 <= k < 12 ==> is_word_chunk(#[trigger] evs[k], canned_words_spec()[k]),
        is_stop_chunk(evs[12]),
        evs[13] == StreamEventView::Terminator,
        contents(evs, 12) == canned_sentence(),
{
    lemma_stream_order(evs, canned_words_spec(), model);
    lemma_canned_sentence();
}


} // verus!
