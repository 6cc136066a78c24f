use mock_llm_server::auth::{generate_token_handler, issue_token, signing_secret};
use mock_llm_server::clock::unix_seconds;
use mock_llm_server::completion::canned_words;
use mock_llm_server::error::ServiceError;
use mock_llm_server::completion::json_at;
use mock_llm_server::handlers::{
    chat_completions_at, chat_completions_handler, respond, respond_at, Reply,
};
use mock_llm_server::json::token_body;
use mock_llm_server::model::{ChatRequest, Message};
use mock_llm_server::stream::StreamState;

fn request(model: &str, stream: Option<bool>) -> ChatRequest {
    ChatRequest {
        messages: vec![Message { role: "user".to_string(), content: "hi".to_string() }],
        model: model.to_string(),
        stream,
        max_tokens: None,
    }
}

#[test]
fn no_authorization_header_gives_401() {
    for stream in [None, Some(false), Some(true)] {
        let r = chat_completions_handler(None, &request("mock-1", stream));
        assert_eq!(r, Err(ServiceError::AuthRejected));
        assert_eq!(r.unwrap_err().status_code(), 401);
    }
}

#[test]
fn wrong_secret_or_expired_gives_401() {
    let now = unix_seconds().unwrap();
    let foreign = issue_token("not the service's secret", "u1", "acme", now).unwrap();
    let expired = issue_token(signing_secret(), "u1", "acme", now - 7200).unwrap();
    for token in [foreign, expired] {
        for stream in [None, Some(false), Some(true)] {
            let r = chat_completions_handler(Some(&token), &request("mock-1", stream));
            assert_eq!(r, Err(ServiceError::AuthRejected));
        }
    }
}

#[test]
fn token_then_completion() {
    let token = generate_token_handler("alice", "acme").unwrap();
    let body: serde_json::Value = serde_json::from_str(&token_body(&token)).unwrap();
    assert_eq!(body.as_object().map(|o| o.len()), Some(1));
    assert_eq!(body["token"].as_str(), Some(token.as_str()));

    let served = chat_completions_handler(Some(&token), &request("mock-1", Some(false))).unwrap();
    assert_eq!(served.claims.sub, "alice");
    assert_eq!(served.claims.company, "acme");
    let completion = match served.reply {
        Reply::Completion(c) => c,
        Reply::Stream { .. } => panic!("one piece was asked for"),
    };
    assert_eq!(completion.model, "mock-1");
    assert_eq!(
        completion.choices[0].message.content,
        "Hello from your local mock server! This is a non-streaming response."
    );
    assert_eq!(completion.choices[0].finish_reason, "stop");
    let json: serde_json::Value = serde_json::from_str(&completion.to_json()).unwrap();
    assert_eq!(
        json["choices"][0]["message"]["content"].as_str(),
        Some("Hello from your local mock server! This is a non-streaming response.")
    );
    assert_eq!(json["choices"][0]["finish_reason"].as_str(), Some("stop"));
}

#[test]
fn absent_stream_flag_means_one_piece() {
    let token = generate_token_handler("u1", "acme").unwrap();
    let served = chat_completions_handler(Some(&token), &request("m", None)).unwrap();
    assert!(matches!(served.reply, Reply::Completion(_)));
}

#[test]
fn stream_flag_starts_a_stream() {
    let token = generate_token_handler("u1", "acme").unwrap();
    let served = chat_completions_handler(Some(&token), &request("m", Some(true))).unwrap();
    assert_eq!(served.claims.sub, "u1");
    assert_eq!(
        served.reply,
        Reply::Stream { words: canned_words(), state: StreamState::Emitting { remaining: 12 } }
    );
}

#[test]
fn respond_follows_the_flag() {
    assert!(matches!(respond("m".to_string(), None), Ok(Reply::Completion(_))));
    assert!(matches!(respond("m".to_string(), Some(false)), Ok(Reply::Completion(_))));
    assert!(matches!(respond("m".to_string(), Some(true)), Ok(Reply::Stream { .. })));
    match respond("echoed".to_string(), Some(false)) {
        Ok(Reply::Completion(c)) => assert_eq!(c.model, "echoed"),
        _ => panic!("one piece was asked for"),
    }
}

#[test]
fn endpoint_at_a_moment_rejects_without_a_token() {
    for stream in [None, Some(false), Some(true)] {
        for now in [0u64, 1700000000, u64::MAX] {
            let r = chat_completions_at(None, &request("mock-1", stream), now);
            assert_eq!(r, Err(ServiceError::AuthRejected));
            assert_eq!(r.unwrap_err().status_code(), 401);
        }
    }
}

#[test]
fn endpoint_at_a_moment_rejects_expired_and_foreign_tokens() {
    let token = issue_token(signing_secret(), "u1", "acme", 1000).unwrap();
    let foreign = issue_token("not the service's secret", "u1", "acme", 1000).unwrap();
    for stream in [None, Some(false), Some(true)] {
        let req = request("mock-1", stream);
        assert_eq!(chat_completions_at(Some(&token), &req, 4601), Err(ServiceError::AuthRejected));
        assert_eq!(chat_completions_at(Some(&token), &req, u64::MAX), Err(ServiceError::AuthRejected));
        assert_eq!(chat_completions_at(Some(&foreign), &req, 1000), Err(ServiceError::AuthRejected));
        assert_eq!(chat_completions_at(Some("a.b.c"), &req, 1000), Err(ServiceError::AuthRejected));
    }
}

#[test]
fn endpoint_at_a_moment_answers_within_the_hour() {
    let token = issue_token(signing_secret(), "u1", "acme", 1000).unwrap();
    for now in [0u64, 1000, 2000, 4599, 4600] {
        let served = chat_completions_at(Some(&token), &request("mock-1", None), now).unwrap();
        assert_eq!(served.claims.sub, "u1");
        assert_eq!(served.claims.company, "acme");
        assert_eq!(served.claims.exp, 4600);
        match served.reply {
            Reply::Completion(c) => {
                assert_eq!(c.created, now);
                assert_eq!(c.model, "mock-1");
                assert_eq!(c.choices[0].finish_reason, "stop");
            }
            Reply::Stream { .. } => panic!("one piece was asked for"),
        }
        let served = chat_completions_at(Some(&token), &request("m", Some(true)), now).unwrap();
        assert_eq!(
            served.reply,
            Reply::Stream { words: canned_words(), state: StreamState::Emitting { remaining: 12 } }
        );
    }
}

#[test]
fn respond_at_follows_the_flag_and_the_moment() {
    match respond_at("echoed".to_string(), Some(false), 77) {
        Reply::Completion(c) => {
            assert_eq!(c.model, "echoed");
            assert_eq!(c.created, 77);
            assert!(c.id.starts_with("cmpl-"));
        }
        Reply::Stream { .. } => panic!("one piece was asked for"),
    }
    assert!(matches!(respond_at("m".to_string(), None, 0), Reply::Completion(_)));
    assert_eq!(
        respond_at("m".to_string(), Some(true), 0),
        Reply::Stream { words: canned_words(), state: StreamState::Emitting { remaining: 12 } }
    );
}

#[test]
fn one_piece_at_a_moment() {
    let c = json_at("mock-1".to_string(), 42);
    assert_eq!(c.created, 42);
    assert_eq!(c.model, "mock-1");
    assert_eq!(c.object, "chat.completion");
    assert_eq!(c.id.len(), 41);
    assert_eq!(c.choices.len(), 1);
    assert_eq!(
        c.choices[0].message.content,
        "Hello from your local mock server! This is a non-streaming response."
    );
}
