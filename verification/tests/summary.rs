use nemollm::error::ClientError;
use nemollm::summary::{
    summarize, summary_body, summary_request, unframe, Choice, Delta, ResponseData,
    SummaryStream, NOT_TEXT, SUMMARY_URL,
};
use nemollm::transport::Method;

fn choice(content: &str, finish: Option<&str>) -> Choice {
    Choice {
        index: 0,
        delta: Delta { role: "assistant".to_string(), content: content.to_string() },
        finish_reason: finish.map(|s| s.to_string()),
    }
}

fn event(choices: Vec<Choice>) -> Option<ResponseData> {
    Some(ResponseData { id: "evt".to_string(), choices })
}

#[test]
fn unframe_strips_the_data_marker() {
    assert_eq!(unframe(b"data:{\"id\":1}".to_vec()), Ok("{\"id\":1}".to_string()));
    assert_eq!(unframe(b"data: {\"id\":1}".to_vec()), Ok(" {\"id\":1}".to_string()));
    assert_eq!(unframe(b"{\"id\":1}".to_vec()), Ok("{\"id\":1}".to_string()));
}

#[test]
fn unframe_strips_every_leading_marker_and_no_other() {
    assert_eq!(unframe(b"data:data:data:x".to_vec()), Ok("x".to_string()));
    assert_eq!(unframe(b"data:x data:y".to_vec()), Ok("x data:y".to_string()));
    assert_eq!(unframe(b"data".to_vec()), Ok("data".to_string()));
    assert_eq!(unframe(b"Data:x".to_vec()), Ok("Data:x".to_string()));
    assert_eq!(unframe(b"data:".to_vec()), Ok("".to_string()));
    assert_eq!(unframe(Vec::new()), Ok("".to_string()));
}

#[test]
fn unframe_keeps_text_beyond_ascii() {
    assert_eq!(unframe("data:héllo ✓".as_bytes().to_vec()), Ok("héllo ✓".to_string()));
}

#[test]
fn unframe_refuses_bytes_that_are_not_text() {
    let not_text = ClientError::Transport { detail: NOT_TEXT.to_string() };
    assert_eq!(unframe(vec![0xff, 0xfe]), Err(not_text.clone()));
    assert_eq!(unframe(vec![b'd', b'a', 0xc3]), Err(not_text));
}

#[test]
fn fragments_are_joined_in_arrival_order() {
    let events = vec![
        event(vec![choice("The ", None)]),
        event(vec![choice("quick ", None), choice("brown ", None)]),
        event(vec![choice("fox", None)]),
    ];
    assert_eq!(summarize(&events), "The quick brown fox");
}

#[test]
fn summary_stops_after_the_finishing_event() {
    let events = vec![
        event(vec![choice("a", None)]),
        None,
        event(vec![choice("b", Some("stop")), choice("c", None)]),
        event(vec![choice("never", None)]),
    ];
    assert_eq!(summarize(&events), "abc");
}

#[test]
fn chunks_that_are_no_event_are_skipped() {
    let events = vec![None, event(vec![choice("x", None)]), None, None, event(vec![choice("y", None)])];
    assert_eq!(summarize(&events), "xy");
    assert_eq!(summarize(&vec![None, None]), "");
    assert_eq!(summarize(&vec![]), "");
}

#[test]
fn stream_absorbs_until_finished() {
    let mut s = SummaryStream::new();
    assert!(!s.is_finished());
    s.absorb(&ResponseData { id: "1".to_string(), choices: vec![choice("one", None)] });
    assert!(!s.is_finished());
    s.absorb(&ResponseData { id: "2".to_string(), choices: vec![] });
    assert!(!s.is_finished());
    s.absorb(&ResponseData { id: "3".to_string(), choices: vec![choice(" two", Some("length"))] });
    assert!(s.is_finished());
    s.absorb(&ResponseData { id: "4".to_string(), choices: vec![choice(" three", None)] });
    assert!(s.is_finished());
    assert_eq!(s.into_text(), "one two");
}

#[test]
fn summary_body_is_one_user_message_streamed() {
    let body = summary_body("Summarise this.".to_string());
    assert_eq!(body.messages.len(), 1);
    assert_eq!(body.messages[0].content, "Summarise this.");
    assert_eq!(body.messages[0].role, "user");
    assert_eq!(f64::from_bits(body.temperature.to_bits()), 0.2);
    assert_eq!(f64::from_bits(body.top_p.to_bits()), 0.7);
    assert_eq!(body.max_tokens, 1024);
    assert_eq!(body.seed, 42);
    assert!(body.stream);
}

#[test]
fn summary_request_asks_for_an_event_stream() {
    let r = summary_request("tok").unwrap();
    assert_eq!(r.method, Method::Post);
    assert_eq!(r.url, SUMMARY_URL);
    let pairs: Vec<(&str, &str)> =
        r.headers.iter().map(|h| (h.name.as_str(), h.value.as_str())).collect();
    assert_eq!(
        pairs,
        vec![
            ("Authorization", "Bearer tok"),
            ("Accept", "text/event-stream"),
            ("Content-Type", "application/json"),
        ]
    );
    assert!(summary_request("bad\ntoken").is_err());
}
