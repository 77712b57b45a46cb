use nettools::headers::{collect_headers, header_value, RawHeader};
use nettools::radio::{
    after_get, after_head, check_stream_url, get_stream_proxy_url, head_probe_info, start_takes,
    ProbeFailure, ProbeReply, RadioError, RadioStreamInfo, RadioStreamState, StartAction,
    StartEvent, StartStage, StreamStart,
};
use nettools::request::{
    filter_headers, http_result, method_of_upper, parse_method, plan_request, Method,
    RequestError,
};

fn s(x: &str) -> String {
    x.to_string()
}

fn raw(name: &str, value: Option<&str>) -> RawHeader {
    (s(name), value.map(s))
}

fn info(url: &str, name: &str) -> RadioStreamInfo {
    RadioStreamInfo {
        title: None,
        name: Some(s(name)),
        description: None,
        genre: None,
        bitrate: None,
        sample_rate: None,
        content_type: s("audio/mpeg"),
        url: s(url),
    }
}

#[test]
fn methods_in_any_case_are_accepted() {
    let cases = [
        ("GET", Method::Get),
        ("post", Method::Post),
        ("Put", Method::Put),
        ("delete", Method::Delete),
        ("pAtCh", Method::Patch),
        ("head", Method::Head),
    ];
    for (name, verb) in cases {
        assert_eq!(parse_method(name), Ok(verb));
        let plan = plan_request(s("https://example.com/"), name, None, None).unwrap();
        assert_eq!(plan.method, verb);
        assert_eq!(plan.url, "https://example.com/");
    }
}

#[test]
fn other_methods_are_rejected() {
    for name in ["OPTIONS", "TRACE", "", "GETX", " get"] {
        assert_eq!(
            plan_request(s("https://example.com/"), name, None, None).err(),
            Some(RequestError::UnsupportedMethod(s(name)))
        );
    }
}

#[test]
fn blank_header_entries_are_skipped() {
    let extra = vec![(s(""), s("x")), (s("A"), s("")), (s("B"), s("v"))];
    let plan = plan_request(s("https://example.com/"), "GET", None, Some(extra)).unwrap();
    assert_eq!(plan.headers, vec![(s("B"), s("v"))]);
}

#[test]
fn whitespace_only_header_entries_are_skipped() {
    let extra = vec![(s("  "), s("x")), (s("C"), s(" \t")), (s("D"), s(" w "))];
    assert_eq!(filter_headers(&extra), vec![(s("D"), s(" w "))]);
}

#[test]
fn user_agent_override_only_when_not_blank() {
    let p = plan_request(s("http://h/"), "GET", Some(s("  ")), None).unwrap();
    assert_eq!(p.user_agent, None);
    let p = plan_request(s("http://h/"), "GET", Some(s("probe/1.0")), None).unwrap();
    assert_eq!(p.user_agent, Some(s("probe/1.0")));
    assert!(p.headers.is_empty());
}

#[test]
fn response_headers_last_value_wins_and_non_text_dropped() {
    let hs = vec![
        raw("x-a", Some("1")),
        raw("x-b", None),
        raw("x-a", Some("2")),
        raw("x-c", Some("3")),
    ];
    let r = http_result(200, &hs, Ok(s("body"))).unwrap();
    assert_eq!(r.status, 200);
    assert_eq!(r.body, "body");
    assert_eq!(r.headers, vec![(s("x-a"), s("2")), (s("x-c"), s("3"))]);
    assert_eq!(collect_headers(&vec![raw("k", None)]), vec![]);
}

#[test]
fn unreadable_body_is_an_error() {
    assert_eq!(
        http_result(200, &vec![], Err(s("bad utf-8"))).err(),
        Some(RequestError::BodyDecodeError(s("bad utf-8")))
    );
}

#[test]
fn header_lookup_takes_first_of_a_name() {
    let hs = vec![raw("a", None), raw("b", Some("1")), raw("b", Some("2"))];
    assert_eq!(header_value(&hs, "b"), Some(s("1")));
    assert_eq!(header_value(&hs, "a"), None);
    assert_eq!(header_value(&hs, "c"), None);
}

#[test]
fn head_probe_reads_vendor_headers() {
    let hs = vec![
        raw("content-type", Some("audio/ogg")),
        raw("icy-br", Some("128")),
        raw("icy-name", Some("Jazz FM")),
        raw("icy-genre", Some("jazz")),
        raw("icy-description", Some("smooth")),
    ];
    let url = s("http://radio.example/stream");
    let i = head_probe_info(&url, &hs);
    assert_eq!(i.content_type, "audio/ogg");
    assert_eq!(i.bitrate, Some(s("128 kbps")));
    assert_eq!(i.name, Some(s("Jazz FM")));
    assert_eq!(i.genre, Some(s("jazz")));
    assert_eq!(i.description, Some(s("smooth")));
    assert_eq!(i.title, None);
    assert_eq!(i.sample_rate, None);
    assert_eq!(i.url, url);
}

#[test]
fn head_probe_without_headers_uses_defaults() {
    let url = s("http://radio.example/stream");
    let reply = ProbeReply { status: 200, headers: vec![] };
    let i = after_head(&url, Ok(reply)).unwrap().unwrap();
    assert_eq!(i.content_type, "audio/mpeg");
    assert_eq!(i.name, None);
    assert_eq!(i.bitrate, None);
}

#[test]
fn head_probe_failing_status_is_final() {
    let url = s("http://radio.example/stream");
    let reply = ProbeReply { status: 404, headers: vec![raw("icy-name", Some("X"))] };
    assert_eq!(
        after_head(&url, Ok(reply)),
        Err(RadioError::StreamUnreachable(ProbeFailure::Status(404)))
    );
}

#[test]
fn header_names_match_without_ascii_case() {
    let hs = vec![raw("Content-Type", Some("audio/ogg")), raw("ICY-NAME", Some("Loud"))];
    assert_eq!(header_value(&hs, "content-type"), Some(s("audio/ogg")));
    let i = head_probe_info(&s("http://r/"), &hs);
    assert_eq!(i.content_type, "audio/ogg");
    assert_eq!(i.name, Some(s("Loud")));
    let merged = collect_headers(&vec![raw("X-Id", Some("1")), raw("x-id", Some("2"))]);
    assert_eq!(merged, vec![(s("x-id"), s("2"))]);
}

#[test]
fn upper_case_names_give_verbs() {
    assert_eq!(method_of_upper("GET"), Some(Method::Get));
    assert_eq!(method_of_upper("HEAD"), Some(Method::Head));
    assert_eq!(method_of_upper("get"), None);
    assert_eq!(method_of_upper("OPTIONS"), None);
}

#[test]
fn unicode_whitespace_counts_as_blank() {
    let extra = vec![(s("\u{3000}\u{a0}"), s("x")), (s("E"), s("\u{2003}")), (s("F"), s("\u{200b}"))];
    assert_eq!(filter_headers(&extra), vec![(s("F"), s("\u{200b}"))]);
}

fn drive(st: &mut RadioStreamState, url: &str, head: Result<ProbeReply, String>, full: Option<Result<ProbeReply, String>>) -> Vec<StartAction> {
    let (mut run, mut a): (StreamStart, StartAction) = st.start(s(url));
    let mut actions = vec![a.clone()];
    let mut head = Some(head);
    let mut full = full;
    loop {
        let ev = match a {
            StartAction::NotifyStoppedAndWait => StartEvent::GraceElapsed,
            StartAction::SendHead => StartEvent::HeadReply(head.take().unwrap()),
            StartAction::SendFull => StartEvent::FullReply(full.take().unwrap()),
            _ => return actions,
        };
        assert!(start_takes(run.stage, &ev));
        a = st.advance(&mut run, ev);
        actions.push(a.clone());
    }
}

#[test]
fn machine_restart_sequence() {
    let mut st = RadioStreamState::new();
    let ok = ProbeReply { status: 200, headers: vec![raw("icy-name", Some("A"))] };
    let first = drive(&mut st, "http://a/", Ok(ok), None);
    assert_eq!(first[0], StartAction::SendHead);
    let reply = ProbeReply { status: 200, headers: vec![raw("icy-name", Some("B"))] };
    let acts = drive(&mut st, "http://b/", Ok(reply), None);
    assert_eq!(acts.len(), 3);
    assert_eq!(acts[0], StartAction::NotifyStoppedAndWait);
    assert_eq!(acts[1], StartAction::SendHead);
    match &acts[2] {
        StartAction::Started(i) => {
            assert_eq!(i.url, "http://b/");
            assert_eq!(i.name, Some(s("B")));
            assert_eq!(st.status(), Some(i.clone()));
        }
        other => panic!("unexpected {:?}", other),
    }
    assert_eq!(st.current_url, Some(s("http://b/")));
}

#[test]
fn machine_fallback_scenario() {
    let mut st = RadioStreamState::new();
    let full = ProbeReply { status: 200, headers: vec![raw("content-type", Some("audio/aac"))] };
    let acts = drive(&mut st, "http://radio.example/live", Err(s("reset")), Some(Ok(full)));
    assert_eq!(acts[0], StartAction::SendHead);
    assert_eq!(acts[1], StartAction::SendFull);
    match &acts[2] {
        StartAction::Started(i) => {
            assert_eq!(i.content_type, "audio/aac");
            assert_eq!(i.name, Some(s("Live Stream")));
            assert_eq!(i.bitrate, None);
            assert_eq!(i.genre, None);
            assert_eq!(i.description, None);
        }
        other => panic!("unexpected {:?}", other),
    }
    assert!(st.is_streaming);
}

#[test]
fn machine_total_failure_stays_idle() {
    let mut st = RadioStreamState::new();
    let acts = drive(&mut st, "http://radio.example/live", Err(s("a")), Some(Err(s("b"))));
    assert_eq!(
        acts.last().unwrap(),
        &StartAction::Failed(RadioError::StreamUnreachable(ProbeFailure::Transport(s("b"))))
    );
    assert_eq!(st.status(), None);
    assert!(!st.is_streaming);
}

#[test]
fn machine_head_error_status_has_no_fallback() {
    let mut st = RadioStreamState::new();
    let acts = drive(&mut st, "http://radio.example/live", Ok(ProbeReply { status: 500, headers: vec![] }), None);
    assert_eq!(acts, vec![
        StartAction::SendHead,
        StartAction::Failed(RadioError::StreamUnreachable(ProbeFailure::Status(500))),
    ]);
    assert_eq!(st.status(), None);
}

#[test]
fn machine_invalid_url_fails_without_probe() {
    let mut st = RadioStreamState::new();
    let (run, a) = st.start(s("not a url"));
    assert_eq!(run.stage, StartStage::Finished);
    assert!(matches!(a, StartAction::Failed(RadioError::InvalidUrl(_))));
    assert!(!start_takes(run.stage, &StartEvent::GraceElapsed));
}

#[test]
fn probe_falls_back_to_full_request() {
    let url = s("http://radio.example/live");
    let mut st = RadioStreamState::new();
    assert!(!st.stop());
    assert_eq!(after_head(&url, Err(s("connection reset"))), Ok(None));
    let reply = ProbeReply { status: 200, headers: vec![raw("content-type", Some("audio/aac"))] };
    let i = after_get(&url, Ok(reply)).unwrap();
    assert_eq!(i.content_type, "audio/aac");
    assert_eq!(i.name, Some(s("Live Stream")));
    assert_eq!(i.title, None);
    assert_eq!(i.description, None);
    assert_eq!(i.genre, None);
    assert_eq!(i.bitrate, None);
    assert_eq!(i.sample_rate, None);
    let sent = st.commit(url.clone(), i.clone());
    assert_eq!(sent, i);
    assert_eq!(st.status(), Some(i));
}

#[test]
fn probe_total_failure_leaves_session_idle() {
    let url = s("http://radio.example/live");
    let mut st = RadioStreamState::new();
    st.stop();
    assert_eq!(after_head(&url, Err(s("refused"))), Ok(None));
    assert_eq!(
        after_get(&url, Err(s("refused again"))),
        Err(RadioError::StreamUnreachable(ProbeFailure::Transport(s("refused again"))))
    );
    assert_eq!(st.status(), None);
    assert!(!st.is_streaming);
}

#[test]
fn failing_status_on_full_request_is_unreachable() {
    let url = s("http://radio.example/live");
    let reply = ProbeReply { status: 503, headers: vec![] };
    assert_eq!(
        after_get(&url, Ok(reply)),
        Err(RadioError::StreamUnreachable(ProbeFailure::Status(503)))
    );
}

#[test]
fn stop_on_idle_is_silent() {
    let mut st = RadioStreamState::new();
    assert!(!st.stop());
    assert_eq!(st.status(), None);
}

#[test]
fn status_lifecycle() {
    let mut st = RadioStreamState::new();
    assert_eq!(st.status(), None);
    let i = info("http://a/", "A");
    st.commit(s("http://a/"), i.clone());
    assert_eq!(st.status(), Some(i));
    assert!(st.stop());
    assert_eq!(st.status(), None);
}

#[test]
fn restart_emits_one_stop_then_second_start() {
    let mut st = RadioStreamState::new();
    st.commit(s("http://a/"), info("http://a/", "A"));
    let mut notices: Vec<String> = vec![];
    if st.stop() {
        notices.push(s("stopped"));
    }
    let url = s("http://b/");
    let reply = ProbeReply { status: 200, headers: vec![raw("icy-name", Some("B"))] };
    let i = after_head(&url, Ok(reply)).unwrap().unwrap();
    let sent = st.commit(url.clone(), i);
    notices.push(format!("started {}", sent.url));
    assert_eq!(notices, vec![s("stopped"), s("started http://b/")]);
    assert_eq!(st.status().unwrap().name, Some(s("B")));
    assert_eq!(st.current_url, Some(url));
}

#[test]
fn playback_url_is_checked_and_unchanged() {
    assert!(matches!(get_stream_proxy_url(s("not a url")), Err(RadioError::InvalidUrl(_))));
    assert_eq!(get_stream_proxy_url(s("https://x/y")), Ok(s("https://x/y")));
    assert!(check_stream_url("http://radio.example:8000/live").is_ok());
    assert!(matches!(check_stream_url("/relative/path"), Err(RadioError::InvalidUrl(_))));
}
