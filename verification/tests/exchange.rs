use google_apis::client::{Error, Method, Notice, Retry};
use google_apis::exchange::{
    is_success, locate, notice_of, start, url_of, Action, Content, Event, Exchange, Header,
    HeaderName, Phase, Success,
};
use google_apis::web::{fits, URL_LIMIT};
use google_apis::params::Params;
use google_apis::request::Route;
use google_apis::scopes::ScopeSet;
use std::time::Duration;

fn header(name: HeaderName, value: &str) -> Header {
    Header { name, value: value.to_string() }
}

fn open_get(decode: bool) -> Exchange {
    Exchange::open(
        Method::Get,
        decode,
        Ok("https://host/v1/jobs?alt=json".to_string()),
        "agent/1",
        ScopeSet::new(),
        "https://scope/default",
        None,
    )
    .unwrap()
}

fn open_post(body: &[u8]) -> Exchange {
    Exchange::open(
        Method::Post,
        true,
        Ok("https://host/v1/jobs?alt=json".to_string()),
        "agent/1",
        ScopeSet::new().insert("https://scope/mine"),
        "https://scope/default",
        Some(body.to_vec()),
    )
    .unwrap()
}

#[test]
fn open_takes_the_default_scope_only_where_none_was_given() {
    let x = open_get(true);
    assert_eq!(x.scopes().names(), &vec!["https://scope/default".to_string()]);
    let y = open_post(b"{}");
    assert_eq!(y.scopes().names(), &vec!["https://scope/mine".to_string()]);
}

#[test]
fn open_holds_the_request() {
    let x = open_get(false);
    assert_eq!(x.phase(), Phase::Ready);
    assert!(!x.decode());
    assert_eq!(x.request().method, Method::Get);
    assert_eq!(x.request().url, "https://host/v1/jobs?alt=json");
    assert_eq!(x.request().user_agent, "agent/1");
    assert_eq!(x.request().content, None);
    let y = open_post(b"{\"name\":\"n\"}");
    assert_eq!(
        y.request().content,
        Some(Content { media_type: "application/json".to_string(), bytes: b"{\"name\":\"n\"}".to_vec() })
    );
}

#[test]
fn open_hands_on_the_error_of_a_missing_url() {
    let r = Exchange::open(Method::Get, true, Err(Error::InvalidUrl), "a", ScopeSet::new(), "s", None);
    assert_eq!(r.err(), Some(Error::InvalidUrl));
    let r = Exchange::open(Method::Get, true, Err(Error::UrlTooLong), "a", ScopeSet::new(), "s", None);
    assert_eq!(r.err(), Some(Error::UrlTooLong));
}

#[test]
fn a_text_that_did_not_parse_is_an_invalid_url() {
    let parsed = url::Url::parse("v1/jobs").map(|u| u.into_string());
    assert!(parsed.is_err());
    assert_eq!(url_of(parsed), Err(Error::InvalidUrl));
    let parsed = url::Url::parse("https://host/v1/jobs").map(|u| u.into_string());
    assert_eq!(url_of(parsed), Ok("https://host/v1/jobs".to_string()));
}

#[test]
fn locate_makes_one_url_of_address_and_query() {
    let query = vec![("a".to_string(), "1 2".to_string()), ("b".to_string(), "ü".to_string())];
    assert_eq!(locate("https://host/p", &query), Ok("https://host/p?a=1+2&b=%C3%BC".to_string()));
    assert_eq!(locate("host/p", &query), Err(Error::InvalidUrl));
    assert_eq!(locate("", &Vec::new()), Err(Error::InvalidUrl));
}

#[test]
fn the_limit_counts_the_bytes_of_address_names_values_and_separators() {
    assert_eq!(URL_LIMIT, 1_048_576);
    let pair = |n: usize, v: usize| ("n".repeat(n), "v".repeat(v));
    assert!(fits("", &Vec::new()));
    assert!(fits(&"a".repeat(URL_LIMIT), &Vec::new()));
    assert!(!fits(&"a".repeat(URL_LIMIT + 1), &Vec::new()));
    // an address of ten bytes, and two parameters of 3 + 4 + 2 bytes each
    assert!(fits(&"a".repeat(URL_LIMIT - 18), &vec![pair(3, 4), pair(4, 3)]));
    assert!(!fits(&"a".repeat(URL_LIMIT - 17), &vec![pair(3, 4), pair(4, 3)]));
    assert!(fits("", &vec![pair(URL_LIMIT - 2, 0)]));
    assert!(!fits("", &vec![pair(0, URL_LIMIT - 1)]));
    assert!(!fits("", &vec![pair(1, 1), pair(URL_LIMIT, URL_LIMIT)]));
    // bytes count, not characters: `é` has two
    assert!(fits(&"é".repeat(URL_LIMIT / 2), &Vec::new()));
    assert!(!fits(&("é".repeat(URL_LIMIT / 2) + "a"), &Vec::new()));
}

#[test]
fn locate_refuses_what_is_too_long() {
    let long = "https://host/".to_string() + &"a".repeat(URL_LIMIT);
    assert_eq!(locate(&long, &Vec::new()), Err(Error::UrlTooLong));
    let query = vec![("q".to_string(), "v".repeat(URL_LIMIT))];
    assert_eq!(locate("https://host/", &query), Err(Error::UrlTooLong));
    // too long comes before not absolute
    assert_eq!(locate(&"a".repeat(URL_LIMIT + 1), &Vec::new()), Err(Error::UrlTooLong));
}

#[test]
fn locate_makes_the_longest_url_that_fits() {
    let address = "https://host/".to_string() + &"a".repeat(URL_LIMIT - 13 - 9);
    let query = vec![("alt".to_string(), "json".to_string())];
    let url = locate(&address, &query).unwrap();
    assert_eq!(url.len(), URL_LIMIT - 9 + "?alt=json".len());
    assert!(url.ends_with("aaa?alt=json"));
}

#[test]
fn a_call_that_succeeds_at_once() {
    let mut x = open_get(true);
    assert_eq!(x.step(Event::Begin), Some(Action::FetchToken));
    assert_eq!(x.phase(), Phase::NeedToken);
    assert_eq!(
        x.step(Event::TokenGranted("tok".to_string())),
        Some(Action::Send(vec![
            header(HeaderName::UserAgent, "agent/1"),
            header(HeaderName::Authorization, "Bearer tok"),
        ]))
    );
    assert_eq!(x.phase(), Phase::Sending);
    assert_eq!(x.step(Event::Responded(200)), Some(Action::DecodeBody));
    assert_eq!(x.phase(), Phase::Decoding);
    assert_eq!(x.outcome(), None);
    assert_eq!(x.step(Event::BodyDecoded(true)), Some(Action::Finish(Ok(Success::Decoded))));
    assert_eq!(x.phase(), Phase::Done);
    assert_eq!(x.outcome(), Some(Ok(Success::Decoded)));
}

#[test]
fn a_request_with_a_body_says_what_it_is_and_how_long() {
    let mut x = open_post(b"{\"id\":\"0123456789\"}");
    x.step(Event::Begin);
    assert_eq!(
        x.step(Event::TokenGranted("t".to_string())),
        Some(Action::Send(vec![
            header(HeaderName::UserAgent, "agent/1"),
            header(HeaderName::Authorization, "Bearer t"),
            header(HeaderName::ContentType, "application/json"),
            header(HeaderName::ContentLength, "19"),
        ]))
    );
}

#[test]
fn the_delegate_is_asked_where_the_authenticator_has_no_token() {
    let mut x = open_get(true);
    x.step(Event::Begin);
    assert_eq!(x.step(Event::TokenDenied), Some(Action::AskDelegateForToken));
    assert_eq!(x.phase(), Phase::NeedFallbackToken);
    assert_eq!(
        x.step(Event::TokenGranted("fallback".to_string())),
        Some(Action::Send(vec![
            header(HeaderName::UserAgent, "agent/1"),
            header(HeaderName::Authorization, "Bearer fallback"),
        ]))
    );
}

#[test]
fn no_token_from_either_ends_the_call() {
    let mut x = open_get(true);
    x.step(Event::Begin);
    x.step(Event::TokenDenied);
    assert_eq!(x.step(Event::TokenDenied), Some(Action::Finish(Err(Error::MissingToken))));
    assert_eq!(x.phase(), Phase::Done);
    assert_eq!(x.outcome(), Some(Err(Error::MissingToken)));
}

#[test]
fn a_failed_connection_is_tried_again_after_a_pause_if_the_delegate_says_so() {
    let mut x = open_get(true);
    x.step(Event::Begin);
    x.step(Event::TokenGranted("t".to_string()));
    assert_eq!(x.step(Event::ConnectionFailed), Some(Action::AskAfterConnectionFailure));
    assert_eq!(x.phase(), Phase::ConnectionFailed);
    let pause = Duration::from_millis(250);
    assert_eq!(x.step(Event::Verdict(Retry::After(pause))), Some(Action::Rest(pause)));
    assert_eq!(x.phase(), Phase::Resting);
    assert_eq!(x.step(Event::Rested), Some(Action::FetchToken));
    assert_eq!(x.phase(), Phase::NeedToken);
}

#[test]
fn a_failed_connection_ends_the_call_if_the_delegate_gives_up() {
    let mut x = open_get(true);
    x.step(Event::Begin);
    x.step(Event::TokenGranted("t".to_string()));
    x.step(Event::ConnectionFailed);
    assert_eq!(x.step(Event::Verdict(Retry::Abort)), Some(Action::Finish(Err(Error::HttpError))));
    assert_eq!(x.phase(), Phase::Done);
}

#[test]
fn a_refusal_is_tried_again_or_classified() {
    let mut x = open_get(true);
    x.step(Event::Begin);
    x.step(Event::TokenGranted("t".to_string()));
    assert_eq!(x.step(Event::Responded(503)), Some(Action::AskAfterRefusal));
    assert_eq!(x.phase(), Phase::Refused);
    let pause = Duration::from_secs(1);
    assert_eq!(x.step(Event::Verdict(Retry::After(pause))), Some(Action::Rest(pause)));
    x.step(Event::Rested);
    x.step(Event::TokenGranted("t2".to_string()));
    assert_eq!(x.step(Event::Responded(404)), Some(Action::AskAfterRefusal));
    assert_eq!(x.step(Event::Verdict(Retry::Abort)), Some(Action::DecodeErrorBody));
    assert_eq!(x.phase(), Phase::Classifying);
    assert_eq!(x.step(Event::ErrorBodyDecoded(true)), Some(Action::Finish(Err(Error::BadRequest))));
    assert_eq!(x.phase(), Phase::Done);
}

#[test]
fn a_refusal_without_a_report_of_the_server_is_a_failure() {
    let mut x = open_get(true);
    x.step(Event::Begin);
    x.step(Event::TokenGranted("t".to_string()));
    x.step(Event::Responded(500));
    x.step(Event::Verdict(Retry::Abort));
    assert_eq!(x.step(Event::ErrorBodyDecoded(false)), Some(Action::Finish(Err(Error::Failure))));
}

#[test]
fn a_body_that_does_not_decode_is_an_error() {
    let mut x = open_get(true);
    x.step(Event::Begin);
    x.step(Event::TokenGranted("t".to_string()));
    x.step(Event::Responded(204));
    assert_eq!(
        x.step(Event::BodyDecoded(false)),
        Some(Action::Finish(Err(Error::JsonDecodeError)))
    );
    assert_eq!(x.phase(), Phase::Done);
}

#[test]
fn a_call_that_asked_for_another_format_is_not_decoded() {
    let mut x = open_get(false);
    x.step(Event::Begin);
    x.step(Event::TokenGranted("t".to_string()));
    assert_eq!(x.step(Event::Responded(200)), Some(Action::Finish(Ok(Success::Undecoded))));
    assert_eq!(x.phase(), Phase::Done);
}

#[test]
fn an_event_out_of_turn_changes_nothing() {
    let mut x = open_get(true);
    assert_eq!(x.step(Event::Rested), None);
    assert_eq!(x.step(Event::TokenDenied), None);
    assert_eq!(x.phase(), Phase::Ready);
    x.step(Event::Begin);
    assert_eq!(x.step(Event::Begin), None);
    assert_eq!(x.step(Event::Responded(200)), None);
    assert_eq!(x.step(Event::Verdict(Retry::Abort)), None);
    assert_eq!(x.phase(), Phase::NeedToken);
    x.step(Event::TokenGranted("t".to_string()));
    assert_eq!(x.step(Event::TokenGranted("t".to_string())), None);
    assert_eq!(x.step(Event::BodyDecoded(true)), None);
    assert_eq!(x.step(Event::ErrorBodyDecoded(true)), None);
    assert_eq!(x.phase(), Phase::Sending);
}

#[test]
fn nothing_follows_the_end() {
    let mut x = open_get(false);
    x.step(Event::Begin);
    x.step(Event::TokenGranted("t".to_string()));
    x.step(Event::Responded(200));
    for event in [
        Event::Begin,
        Event::TokenGranted("t".to_string()),
        Event::TokenDenied,
        Event::ConnectionFailed,
        Event::Responded(200),
        Event::Verdict(Retry::Abort),
        Event::Rested,
        Event::ErrorBodyDecoded(true),
        Event::BodyDecoded(true),
    ] {
        assert_eq!(x.step(event), None);
        assert_eq!(x.phase(), Phase::Done);
        assert_eq!(x.outcome(), Some(Ok(Success::Undecoded)));
    }
}

#[test]
fn success_is_a_status_from_200_to_299() {
    assert!(!is_success(0));
    assert!(!is_success(99));
    assert!(!is_success(100));
    assert!(!is_success(199));
    assert!(is_success(200));
    assert!(is_success(204));
    assert!(is_success(299));
    assert!(!is_success(300));
    assert!(!is_success(404));
    assert!(!is_success(999));
    assert!(!is_success(1000));
    assert!(!is_success(u16::MAX));
}

#[test]
fn the_notice_of_each_outcome() {
    assert_eq!(notice_of(&Ok(Success::Decoded)), Notice::Finished(true));
    assert_eq!(notice_of(&Ok(Success::Undecoded)), Notice::Finished(true));
    assert_eq!(notice_of(&Err(Error::FieldClash("alt"))), Notice::Finished(false));
    assert_eq!(notice_of(&Err(Error::MissingToken)), Notice::Finished(false));
    assert_eq!(notice_of(&Err(Error::HttpError)), Notice::Finished(false));
    assert_eq!(notice_of(&Err(Error::BadRequest)), Notice::Finished(false));
    assert_eq!(notice_of(&Err(Error::Failure)), Notice::Finished(false));
    assert_eq!(notice_of(&Err(Error::JsonDecodeError)), Notice::DecodeFailed);
    assert_eq!(notice_of(&Err(Error::InvalidUrl)), Notice::Silent);
    assert_eq!(notice_of(&Err(Error::UrlTooLong)), Notice::Silent);
    assert_eq!(Error::Failure.notice(), Notice::Finished(false));
}

#[test]
fn start_makes_the_url_of_address_and_query() {
    let route = Route {
        id: "youtubereporting.jobs.get",
        method: Method::Get,
        path: "v1/jobs/{jobId}",
        reserved: vec!["alt", "jobId", "onBehalfOfContentOwner"],
        markers: vec![("{jobId}", "jobId")],
        dropped: vec!["jobId"],
        serves_media: false,
    };
    let named = vec![("jobId".to_string(), "j 1".to_string())];
    let extra = Params::new().insert("fields", "id,name").insert("quotaUser", "a b&c");
    let x = start(&route, "https://host/", "agent", named, &extra, ScopeSet::new(), "s", None).unwrap();
    assert_eq!(
        x.request().url,
        "https://host/v1/jobs/j%201?fields=id%2Cname&quotaUser=a+b%26c&alt=json"
    );
    assert_eq!(x.request().method, Method::Get);
}

#[test]
fn start_fails_where_the_base_url_is_not_absolute() {
    let route = Route {
        id: "youtubereporting.jobs.list",
        method: Method::Get,
        path: "v1/jobs",
        reserved: vec!["alt"],
        markers: vec![],
        dropped: vec![],
        serves_media: false,
    };
    let r = start(&route, "", "agent", vec![], &Params::new(), ScopeSet::new(), "s", None);
    assert_eq!(r.err(), Some(Error::InvalidUrl));
    let r = start(&route, "host/", "agent", vec![], &Params::new(), ScopeSet::new(), "s", None);
    assert_eq!(r.err(), Some(Error::InvalidUrl));
}

#[test]
fn a_call_sends_one_request_more_than_the_delegate_asked_for() {
    let mut x = open_get(true);
    let pause = Duration::from_millis(1);
    let events = vec![
        Event::Begin,
        Event::TokenGranted("a".to_string()),
        Event::ConnectionFailed,
        Event::Verdict(Retry::After(pause)),
        Event::Rested,
        Event::TokenDenied,
        Event::TokenGranted("b".to_string()),
        Event::Responded(503),
        Event::Verdict(Retry::After(pause)),
        Event::Rested,
        Event::TokenGranted("c".to_string()),
        Event::Responded(200),
        Event::BodyDecoded(true),
    ];
    let mut sent = Vec::new();
    for event in events {
        match x.step(event) {
            Some(Action::Send(headers)) => sent.push(headers[1].value.clone()),
            Some(_) => {}
            None => panic!("every event answers the action before it"),
        }
    }
    assert_eq!(sent, vec!["Bearer a".to_string(), "Bearer b".to_string(), "Bearer c".to_string()]);
    assert_eq!(x.outcome(), Some(Ok(Success::Decoded)));
}

#[test]
fn start_refuses_what_is_too_long() {
    let route = Route {
        id: "youtubereporting.jobs.get",
        method: Method::Get,
        path: "v1/jobs/{jobId}",
        reserved: vec!["alt", "jobId"],
        markers: vec![("{jobId}", "jobId")],
        dropped: vec!["jobId"],
        serves_media: false,
    };
    let named = vec![("jobId".to_string(), "j".repeat(URL_LIMIT))];
    let r = start(&route, "https://host/", "agent", named, &Params::new(), ScopeSet::new(), "s", None);
    assert_eq!(r.err(), Some(Error::UrlTooLong));
    // the clash is found first
    let named = vec![("jobId".to_string(), "j".repeat(URL_LIMIT))];
    let extra = Params::new().insert("alt", "x");
    let r = start(&route, "https://host/", "agent", named, &extra, ScopeSet::new(), "s", None);
    assert_eq!(r.err(), Some(Error::FieldClash("alt")));
}

#[test]
fn the_scopes_of_an_exchange_ascend() {
    let x = Exchange::open(
        Method::Get,
        true,
        Ok("https://host/".to_string()),
        "a",
        ScopeSet::new().insert("b").insert("a"),
        "s",
        None,
    )
    .unwrap();
    assert_eq!(x.scopes().names(), &vec!["a".to_string(), "b".to_string()]);
}
