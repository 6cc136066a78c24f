use mock_llm_server::completion::{canned_words, json_handler, sse_handler};
use mock_llm_server::model::ChatCompletionChunk;
use mock_llm_server::sse::frame;
use mock_llm_server::stream::{
    advance, sse_events, sse_step, StreamEvent, StreamState, Transition, WORD_PAUSE_MS,
};

fn words_of(list: &[&str]) -> Vec<String> {
    list.iter().map(|w| w.to_string()).collect()
}

fn chunk_of(ev: &StreamEvent) -> &ChatCompletionChunk {
    match ev {
        StreamEvent::Chunk(c) => c,
        StreamEvent::Terminator => panic!("a chunk was expected"),
    }
}

#[test]
fn canned_words_are_the_sentence() {
    let words = canned_words();
    assert_eq!(words.len(), 12);
    assert_eq!(words[0], "Hello ");
    assert_eq!(words[11], "response.");
    assert_eq!(
        words.concat(),
        "Hello from your local Rust mock server! This is a streaming response."
    );
}

#[test]
fn start_state_has_all_words_left() {
    assert_eq!(StreamState::start(12), StreamState::Emitting { remaining: 12 });
    assert_eq!(StreamState::start(0), StreamState::Emitting { remaining: 0 });
}

#[test]
fn advance_sends_the_next_word_and_paces_it() {
    let words = words_of(&["a ", "b ", "c"]);
    let t = advance(StreamState::Emitting { remaining: 3 }, &words, "m", "id0".to_string(), 7);
    assert_eq!(
        t,
        Transition {
            next: StreamState::Emitting { remaining: 2 },
            event: Some(StreamEvent::Chunk(ChatCompletionChunk::word("id0".to_string(), 7, "m", "a "))),
            pause_ms: 50,
        }
    );
    let t = advance(StreamState::Emitting { remaining: 1 }, &words, "m", "id2".to_string(), 8);
    assert_eq!(t.next, StreamState::Emitting { remaining: 0 });
    assert_eq!(chunk_of(t.event.as_ref().unwrap()).choices[0].delta.content.as_deref(), Some("c"));
    assert_eq!(t.pause_ms, WORD_PAUSE_MS);
}

#[test]
fn advance_closes_when_no_word_is_left() {
    let words = words_of(&["a ", "b"]);
    let t = advance(StreamState::Emitting { remaining: 0 }, &words, "m", "id".to_string(), 9);
    assert_eq!(t.next, StreamState::Finishing);
    assert_eq!(t.pause_ms, 0);
    let chunk = chunk_of(t.event.as_ref().unwrap());
    assert_eq!(*chunk, ChatCompletionChunk::stop("id".to_string(), 9, "m"));
    assert_eq!(chunk.choices.len(), 1);
    assert_eq!(chunk.choices[0].delta.role, None);
    assert_eq!(chunk.choices[0].delta.content, None);
    assert_eq!(chunk.choices[0].finish_reason.as_deref(), Some("stop"));
}

#[test]
fn advance_ends_with_the_terminator_and_stays_done() {
    let words = words_of(&["a"]);
    let t = advance(StreamState::Finishing, &words, "m", String::new(), 0);
    assert_eq!(
        t,
        Transition { next: StreamState::Done, event: Some(StreamEvent::Terminator), pause_ms: 0 }
    );
    let t = advance(StreamState::Done, &words, "m", String::new(), 0);
    assert_eq!(t, Transition { next: StreamState::Done, event: None, pause_ms: 0 });
}

#[test]
fn word_chunk_fields() {
    let c = ChatCompletionChunk::word("cmpl-x".to_string(), 11, "mock-1", "Hello ");
    assert_eq!(c.id, "cmpl-x");
    assert_eq!(c.object, "chat.completion.chunk");
    assert_eq!(c.created, 11);
    assert_eq!(c.model, "mock-1");
    assert_eq!(c.choices.len(), 1);
    assert_eq!(c.choices[0].index, 0);
    assert_eq!(c.choices[0].delta.role, None);
    assert_eq!(c.choices[0].delta.content.as_deref(), Some("Hello "));
    assert_eq!(c.choices[0].finish_reason, None);
}

#[test]
fn step_uses_a_fresh_id_and_the_clock() {
    let words = words_of(&["a ", "b"]);
    let t = sse_step(StreamState::Emitting { remaining: 2 }, &words, "m").unwrap();
    assert_eq!(t.next, StreamState::Emitting { remaining: 1 });
    assert_eq!(t.pause_ms, 50);
    let chunk = chunk_of(t.event.as_ref().unwrap());
    assert!(chunk.id.starts_with("cmpl-"));
    assert_eq!(chunk.id.len(), 41);
    assert!(chunk.created > 1600000000);
    assert_eq!(chunk.model, "m");
    assert_eq!(chunk.choices[0].delta.content.as_deref(), Some("a "));
    let t = sse_step(StreamState::Finishing, &words, "m").unwrap();
    assert_eq!(t.next, StreamState::Done);
    assert_eq!(t.event, Some(StreamEvent::Terminator));
    let t = sse_step(StreamState::Done, &words, "m").unwrap();
    assert_eq!(t.event, None);
}

#[test]
fn machine_runs_in_a_straight_line() {
    let words = words_of(&["x ", "y ", "z"]);
    let mut state = StreamState::start(words.len());
    let mut seen = Vec::new();
    let mut moves = 0;
    while state != StreamState::Done {
        let t = sse_step(state, &words, "m").unwrap();
        seen.push((state, t.pause_ms));
        state = t.next;
        moves += 1;
        assert!(moves <= 5);
    }
    assert_eq!(
        seen,
        vec![
            (StreamState::Emitting { remaining: 3 }, 50),
            (StreamState::Emitting { remaining: 2 }, 50),
            (StreamState::Emitting { remaining: 1 }, 50),
            (StreamState::Emitting { remaining: 0 }, 0),
            (StreamState::Finishing, 0),
        ]
    );
}

#[test]
fn events_of_a_short_sentence() {
    let words = words_of(&["one ", "two"]);
    let evs = sse_events(&words, "mock-1").unwrap();
    assert_eq!(evs.len(), 4);
    assert_eq!(chunk_of(&evs[0]).choices[0].delta.content.as_deref(), Some("one "));
    assert_eq!(chunk_of(&evs[0]).choices[0].finish_reason, None);
    assert_eq!(chunk_of(&evs[1]).choices[0].delta.content.as_deref(), Some("two"));
    assert_eq!(chunk_of(&evs[2]).choices[0].delta.content, None);
    assert_eq!(chunk_of(&evs[2]).choices[0].finish_reason.as_deref(), Some("stop"));
    assert_eq!(evs[3], StreamEvent::Terminator);
    for ev in &evs[..3] {
        assert_eq!(chunk_of(ev).model, "mock-1");
        assert_eq!(chunk_of(ev).object, "chat.completion.chunk");
    }
}

#[test]
fn events_of_no_words() {
    let evs = sse_events(&Vec::new(), "m").unwrap();
    assert_eq!(evs.len(), 2);
    assert_eq!(chunk_of(&evs[0]).choices[0].finish_reason.as_deref(), Some("stop"));
    assert_eq!(evs[1], StreamEvent::Terminator);
}

#[test]
fn stream_reads_as_the_canned_sentence() {
    let evs = sse_handler("mock-1".to_string()).unwrap();
    assert_eq!(evs.len(), 14);
    let mut text = String::new();
    for ev in &evs[..12] {
        let choice = &chunk_of(ev).choices[0];
        assert_eq!(choice.finish_reason, None);
        assert_eq!(choice.delta.role, None);
        text.push_str(choice.delta.content.as_deref().unwrap());
    }
    assert_eq!(text, "Hello from your local Rust mock server! This is a streaming response.");
    let stop = &chunk_of(&evs[12]).choices[0];
    assert_eq!(stop.delta.role, None);
    assert_eq!(stop.delta.content, None);
    assert_eq!(stop.finish_reason.as_deref(), Some("stop"));
    assert_eq!(evs[13], StreamEvent::Terminator);
}

#[test]
fn stream_on_the_wire() {
    let evs = sse_handler("mock-1".to_string()).unwrap();
    let mut body = String::new();
    for ev in &evs {
        body.push_str(&frame(&ev.data()).unwrap());
    }
    assert!(body.ends_with("\"delta\":{},\"finish_reason\":\"stop\"}]}\n\ndata: [DONE]\n\n"));
    let frames: Vec<&str> = body.split("\n\n").collect();
    assert_eq!(frames.len(), 15);
    assert_eq!(frames[14], "");
    let mut text = String::new();
    for f in &frames[..12] {
        let json: serde_json::Value = serde_json::from_str(f.strip_prefix("data: ").unwrap()).unwrap();
        assert_eq!(json["object"].as_str(), Some("chat.completion.chunk"));
        assert_eq!(json["model"].as_str(), Some("mock-1"));
        assert!(json["choices"][0]["finish_reason"].is_null());
        assert!(json["choices"][0]["delta"].get("role").is_none());
        text.push_str(json["choices"][0]["delta"]["content"].as_str().unwrap());
    }
    assert_eq!(text, "Hello from your local Rust mock server! This is a streaming response.");
    let stop: serde_json::Value =
        serde_json::from_str(frames[12].strip_prefix("data: ").unwrap()).unwrap();
    assert_eq!(stop["choices"][0]["finish_reason"].as_str(), Some("stop"));
    assert_eq!(stop["choices"][0]["delta"].as_object().map(|d| d.len()), Some(0));
    assert_eq!(frames[13], "data: [DONE]");
}

#[test]
fn stream_is_the_same_every_time() {
    let contents = |evs: &Vec<StreamEvent>| -> Vec<Option<String>> {
        evs.iter()
            .map(|ev| match ev {
                StreamEvent::Chunk(c) => c.choices[0].delta.content.clone(),
                StreamEvent::Terminator => None,
            })
            .collect()
    };
    let a = sse_handler("m".to_string()).unwrap();
    let b = sse_handler("m".to_string()).unwrap();
    assert_eq!(contents(&a), contents(&b));
}

#[test]
fn completion_in_one_piece() {
    let c = json_handler("mock-1".to_string()).unwrap();
    assert!(c.id.starts_with("cmpl-"));
    assert_eq!(c.id.len(), 41);
    assert_eq!(c.object, "chat.completion");
    assert!(c.created > 1600000000);
    assert_eq!(c.model, "mock-1");
    assert_eq!(c.choices.len(), 1);
    assert_eq!(c.choices[0].index, 0);
    assert_eq!(c.choices[0].message.role, "assistant");
    assert_eq!(
        c.choices[0].message.content,
        "Hello from your local mock server! This is a non-streaming response."
    );
    assert_eq!(c.choices[0].finish_reason, "stop");
}
