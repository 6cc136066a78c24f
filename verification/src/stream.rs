//! The streamed completion: a linear state machine that hands out one event
//! at a time, first the words, then a closing chunk, then the terminator.

use vstd::prelude::*;
use vstd::string::*;
use crate::clock::unix_seconds;
use crate::error::ServiceError;
use crate::ident::{fresh_completion_id, is_completion_id};
use crate::model::{
    ChatCompletionChunk, ChatCompletionChunkView, ChunkChoice, ChunkChoiceView, Delta, DeltaView,
};

verus! {

/// The pause that goes with every word, in milliseconds.
pub const WORD_PAUSE_MS: u64 = 50;

/// Where a stream stands.
#[derive(Clone, Copy, Debug, PartialEq, Eq, Structural)]
pub enum StreamState {
    /// `remaining` words are still to be sent.
    Emitting { remaining: usize },
    /// The closing chunk has been sent; the terminator is next.
    Finishing,
    /// Everything has been sent.
    Done,
}

/// One event of a stream.
#[derive(Clone, Debug, PartialEq, Eq)]
pub enum StreamEvent {
    /// A chunk, sent as JSON.
    Chunk(ChatCompletionChunk),
    /// The literal `[DONE]` that ends every stream.
    Terminator,
}

pub ghost enum StreamEventView {
    Chunk(ChatCompletionChunkView),
    Terminator,
}

impl View for StreamEvent {
    type V = StreamEventView;

    open spec fn view(&self) -> StreamEventView {
        match self {
            StreamEvent::Chunk(c) => StreamEventView::Chunk(c@),
            StreamEvent::Terminator => StreamEventView::Terminator,
        }
    }
}

/// One move of the machine: the state it reaches, the event to send, if any,
/// and how long to wait before sending it.
#[derive(Clone, Debug, PartialEq, Eq)]
pub struct Transition {
    pub next: StreamState,
    pub event: Option<StreamEvent>,
    pub pause_ms: u64,
}

/// The texts of a list of words.
pub open spec fn texts(words: Seq<String>) -> Seq<Seq<char>> {
    Seq::new(words.len(), |i: int| words[i]@)
}

/// The chunk that carries one word: the word is its whole delta, and nothing
/// is finished yet.
pub open spec fn word_chunk(
    id: Seq<char>,
    created: u64,
    model: Seq<char>,
    word: Seq<char>,
) -> ChatCompletionChunkView {
    ChatCompletionChunkView {
        id,
        object: "chat.completion.chunk"@,
        created,
        model,
        choices: seq![
            ChunkChoiceView {
                index: 0,
                delta: DeltaView { role: None, content: Some(word) },
                finish_reason: None,
            },
        ],
    }
}

/// The chunk that closes the message: an empty delta and the reason "stop".
pub open spec fn stop_chunk(id: Seq<char>, created: u64, model: Seq<char>) -> ChatCompletionChunkView {
    ChatCompletionChunkView {
        id,
        object: "chat.completion.chunk"@,
        created,
        model,
        choices: seq![
            ChunkChoiceView {
                index: 0,
                delta: DeltaView { role: None, content: None },
                finish_reason: Some("stop"@),
            },
        ],
    }
}

impl StreamState {
    /// A state is valid for a list of `n` words when no more than `n` remain.
    pub open spec fn wf(self, n: nat) -> bool {
        match self {
            StreamState::Emitting { remaining } => remaining <= n,
            _ => true,
        }
    }

    /// The number of moves left until `Done`.
    pub open spec fn rank(self) -> nat {
        match self {
            StreamState::Emitting { remaining } => (remaining + 2) as nat,
            StreamState::Finishing => 1,
            StreamState::Done => 0,
        }
    }

    /// The state before the first word of `n`.
    pub fn start(n: usize) -> (s: StreamState)
        ensures
            s == (StreamState::Emitting { remaining: n }),
            s.wf(n as nat),
    {
        StreamState::Emitting { remaining: n }
    }
}

/// The state that follows `s`.
pub open spec fn next_state(s: StreamState) -> StreamState {
    match s {
        StreamState::Emitting { remaining } => if remaining > 0 {
            StreamState::Emitting { remaining: (remaining - 1) as usize }
        } else {
            StreamState::Finishing
        },
        StreamState::Finishing => StreamState::Done,
        StreamState::Done => StreamState::Done,
    }
}

/// The event sent on leaving `s`, for a chunk with the given identifier and time.
pub open spec fn emitted(
    s: StreamState,
    words: Seq<Seq<char>>,
    model: Seq<char>,
    id: Seq<char>,
    created: u64,
) -> Option<StreamEventView>
    recommends
        s.wf(words.len()),
{
    match s {
        StreamState::Emitting { remaining } => if remaining > 0 {
            Some(
                StreamEventView::Chunk(
                    word_chunk(id, created, model, words[words.len() - remaining]),
                ),
            )
        } else {
            Some(StreamEventView::Chunk(stop_chunk(id, created, model)))
        },
        StreamState::Finishing => Some(StreamEventView::Terminator),
        StreamState::Done => None,
    }
}

/// The pause before the event sent on leaving `s`: words are paced, the rest is not.
pub open spec fn pause_of(s: StreamState) -> u64 {
    match s {
        StreamState::Emitting { remaining } => if remaining > 0 {
            WORD_PAUSE_MS
        } else {
            0
        },
        _ => 0,
    }
}

/// The view of an optional event.
pub open spec fn opt_event(e: Option<StreamEvent>) -> Option<StreamEventView> {
    match e {
        Some(ev) => Some(ev@),
        None => None,
    }
}

impl ChatCompletionChunk {
    /// The chunk that carries `word`.
    pub fn word(id: String, created: u64, model: &str, word: &str) -> (c: ChatCompletionChunk)
        ensures
            c@ == word_chunk(id@, created, model@, word@),
    {
        let choice = ChunkChoice {
            index: 0,
            delta: Delta { role: None, content: Some(String::from_str(word)) },
            finish_reason: None,
        };
        let c = ChatCompletionChunk {
            id,
            object: String::from_str("chat.completion.chunk"),
            created,
            model: String::from_str(model),
            choices: vec![choice],
        };
        assert(c@.choices =~= word_chunk(id@, created, model@, word@).choices);
        c
    }

    /// The chunk that closes the message.
    pub fn stop(id: String, created: u64, model: &str) -> (c: ChatCompletionChunk)
        ensures
            c@ == stop_chunk(id@, created, model@),
    {
        let choice = ChunkChoice {
            index: 0,
            delta: Delta { role: None, content: None },
            finish_reason: Some(String::from_str("stop")),
        };
        let c = ChatCompletionChunk {
            id,
            object: String::from_str("chat.completion.chunk"),
            created,
            model: String::from_str(model),
            choices: vec![choice],
        };
        assert(c@.choices =~= stop_chunk(id@, created, model@).choices);
        c
    }
}

/// One move of the machine. A chunk that it sends carries `id` and `created`.
pub fn advance(
    state: StreamState,
    words: &Vec<String>,
    model: &str,
    id: String,
    created: u64,
) -> (t: Transition)
    requires
        state.wf(words@.len()),
    ensures
        t.next == next_state(state),
        t.next.wf(words@.len()),
        t.next.rank() == if state == StreamState::Done {
            0
        } else {
            state.rank() - 1
        },
        opt_event(t.event) == emitted(state, texts(words@), model@, id@, created),
        t.pause_ms == pause_of(state),
{
    match state {
        StreamState::Emitting { remaining } => {
            if remaining > 0 {
                let at = words.len() - remaining;
                let chunk = ChatCompletionChunk::word(id, created, model, words[at].as_str());
                Transition {
                    next: StreamState::Emitting { remaining: remaining - 1 },
                    event: Some(StreamEvent::Chunk(chunk)),
                    pause_ms: WORD_PAUSE_MS,
                }
            } else {
                let chunk = ChatCompletionChunk::stop(id, created, model);
                Transition {
                    next: StreamState::Finishing,
                    event: Some(StreamEvent::Chunk(chunk)),
                    pause_ms: 0,
                }
            }
        },
        StreamState::Finishing => Transition {
            next: StreamState::Done,
            event: Some(StreamEvent::Terminator),
            pause_ms: 0,
        },
        StreamState::Done => Transition { next: StreamState::Done, event: None, pause_ms: 0 },
    }
}

/// Whether `ev` is what the machine sends on leaving `state`: the event that
/// `emitted` gives, and, where it is a chunk, one with a well-formed identifier.
pub open spec fn is_step_event(
    ev: Option<StreamEventView>,
    state: StreamState,
    words: Seq<Seq<char>>,
    model: Seq<char>,
) -> bool {
    match ev {
        Some(StreamEventView::Chunk(c)) => {
            &&& is_completion_id(c.id)
            &&& ev == emitted(state, words, model, c.id, c.created)
        },
        _ => ev == emitted(state, words, model, Seq::<char>::empty(), 0),
    }
}

/// One move of the machine, with a fresh identifier and the current time in
/// the chunk it sends. Only the clock can make it fail, and only while chunks
/// are being sent.
pub fn sse_step(state: StreamState, words: &Vec<String>, model: &str) -> (r: Result<
    Transition,
    ServiceError,
>)
    requires
        state.wf(words@.len()),
    ensures
        match r {
            Ok(t) => {
                &&& t.next == next_state(state)
                &&& t.next.wf(words@.len())
                &&& t.pause_ms == pause_of(state)
                &&& is_step_event(opt_event(t.event), state, texts(words@), model@)
            },
            Err(e) => e == ServiceError::Internal && state is Emitting,
        },
{
    match state {
        StreamState::Emitting { .. } => {
            match unix_seconds() {
                Ok(created) => {
                    let id = fresh_completion_id();
                    Ok(advance(state, words, model, id, created))
                },
                Err(_) => Err(ServiceError::Internal),
            }
        },
        _ => Ok(advance(state, words, model, String::new(), 0)),
    }
}

/// The state in which the machine stands after `k` moves on `n` words.
pub open spec fn state_after(k: nat, n: nat) -> StreamState {
    if k <= n {
        StreamState::Emitting { remaining: (n - k) as usize }
    } else if k == n + 1 {
        StreamState::Finishing
    } else {
        StreamState::Done
    }
}

/// The views of a list of events.
pub open spec fn event_views(evs: Seq<StreamEvent>) -> Seq<StreamEventView> {
    Seq::new(evs.len(), |i: int| evs[i]@)
}

/// A complete stream for `words`: one chunk per word, in order, then the
/// closing chunk, then the terminator, and nothing else.
pub open spec fn is_stream(evs: Seq<StreamEventView>, words: Seq<Seq<char>>, model: Seq<char>) -> bool {
    &&& words.len() <= usize::MAX
    &&& evs.len() == words.len() + 2
    &&& forall|k: int|
        0 <= k < evs.len() ==> is_step_event(
            Some(#[trigger] evs[k]),
            state_after(k as nat, words.len()),
            words,
            model,
        )
}

/// Runs the machine from its start to `Done` and collects what it sends.
pub fn sse_events(words: &Vec<String>, model: &str) -> (r: Result<Vec<StreamEvent>, ServiceError>)
    ensures
        match r {
            Ok(evs) => is_stream(event_views(evs@), texts(words@), model@),
            Err(e) => e == ServiceError::Internal,
        },
{
    let n = words.len();
    let mut state = StreamState::start(n);
    let mut evs: Vec<StreamEvent> = Vec::new();
    loop
        invariant
            n == words@.len(),
            state.wf(n as nat),
            evs@.len() <= n + 2,
            state == state_after(evs@.len(), n as nat),
            forall|k: int|
                0 <= k < evs@.len() ==> is_step_event(
                    Some(#[trigger] evs@[k]@),
                    state_after(k as nat, n as nat),
                    texts(words@),
                    model@,
                ),
        ensures
            evs@.len() == n + 2,
        decreases n + 2 - evs@.len(),
    {
        if let StreamState::Done = state {
            break ;
        }
        let ghost before = evs@;
        match sse_step(state, words, model) {
            Ok(t) => {
                match t.event {
                    Some(ev) => {
                        evs.push(ev);
                    },
                    None => {},
                }
                state = t.next;
                assert(forall|k: int| 0 <= k < before.len() ==> evs@[k] == before[k]);
            },
            Err(_) => {
                return Err(ServiceError::Internal);
            },
        }
    }
    proof {
        let views = event_views(evs@);
        assert forall|k: int| 0 <= k < views.len() implies is_step_event(
            Some(#[trigger] views[k]),
            state_after(k as nat, texts(words@).len()),
            texts(words@),
            model@,
        ) by {
            assert(views[k] == evs@[k]@);
        }
    }
    Ok(evs)
}

/// The words of a sentence, joined as they stand.
pub open spec fn concat(words: Seq<Seq<char>>) -> Seq<char>
    decreases words.len(),
{
    if words.len() == 0 {
        Seq::<char>::empty()
    } else {
        concat(words.drop_last()) + words.last()
    }
}

/// The text that an event adds to the message: the content of its delta.
pub open spec fn content_of(ev: StreamEventView) -> Seq<char> {
    match ev {
        StreamEventView::Chunk(c) => if c.choices.len() > 0 {
            match c.choices[0].delta.content {
                Some(text) => text,
                None => Seq::<char>::empty(),
            }
        } else {
            Seq::<char>::empty()
        },
        StreamEventView::Terminator => Seq::<char>::empty(),
    }
}

/// The text that the first `n` events add up to.
pub open spec fn contents(evs: Seq<StreamEventView>, n: nat) -> Seq<char>
    recommends
        n <= evs.len(),
    decreases n,
{
    if n == 0 {
        Seq::<char>::empty()
    } else {
        contents(evs, (n - 1) as nat) + content_of(evs[n - 1])
    }
}

/// Whether `ev` is a closing chunk: one alternative, an empty delta, the reason "stop".
pub open spec fn is_stop_chunk(ev: StreamEventView) -> bool {
    match ev {
        StreamEventView::Chunk(c) => {
            &&& c.choices.len() == 1
            &&& c.choices[0].delta == (DeltaView { role: None, content: None })
            &&& c.choices[0].finish_reason == Some("stop"@)
        },
        StreamEventView::Terminator => false,
    }
}

/// Whether `ev` is a chunk that carries `word` and finishes nothing.
pub open spec fn is_word_chunk(ev: StreamEventView, word: Seq<char>) -> bool {
    match ev {
        StreamEventView::Chunk(c) => {
            &&& c.choices.len() == 1
            &&& c.choices[0].delta == (DeltaView { role: None, content: Some(word) })
            &&& c.choices[0].finish_reason is None
        },
        StreamEventView::Terminator => false,
    }
}

proof fn lemma_contents_prefix(
    evs: Seq<StreamEventView>,
    words: Seq<Seq<char>>,
    model: Seq<char>,
    k: nat,
)
    requires
        is_stream(evs, words, model),
        k <= words.len(),
    ensures
        contents(evs, k) == concat(words.take(k as int)),
    decreases k,
{
    if k == 0 {
        assert(words.take(0) =~= Seq::<Seq<char>>::empty());
    } else {
        lemma_contents_prefix(evs, words, model, (k - 1) as nat);
        let ev = evs[k - 1];
        assert(is_step_event(Some(ev), state_after((k - 1) as nat, words.len()), words, model));
        assert(content_of(ev) == words[k - 1]);
        assert(words.take(k as int).drop_last() =~= words.take(k - 1));
        assert(words.take(k as int).last() == words[k - 1]);
    }
}

/// Every complete stream ends with a closing chunk and then the terminator;
/// each event before them carries exactly one word, in the order of the
/// words, so their contents read together are the sentence as it was given.
pub proof fn lemma_stream_order(evs: Seq<StreamEventView>, words: Seq<Seq<char>>, model: Seq<char>)
    requires
        is_stream(evs, words, model),
    ensures
        evs.len() == words.len() + 2,
        forall|k: int| 0 <= k < words.len() ==> is_word_chunk(#[trigger] evs[k], words[k]),
        is_stop_chunk(evs[evs.len() - 2]),
        evs[evs.len() - 1] == StreamEventView::Terminator,
        contents(evs, words.len()) == concat(words),
{
    let n = words.len();
    assert(is_step_event(Some(evs[n as int]), state_after(n, n), words, model));
    assert(is_step_event(Some(evs[(n + 1) as int]), state_after(n + 1, n), words, model));
    assert forall|k: int| 0 <= k < n implies is_word_chunk(#[trigger] evs[k], words[k]) by {
        assert(is_step_event(Some(evs[k]), state_after(k as nat, n), words, model));
    }
    lemma_contents_prefix(evs, words, model, n);
    assert(words.take(n as int) =~= words);
}


} // verus!
