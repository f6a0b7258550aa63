use channel_videos::failure::ApiFailure;
use channel_videos::records::ResolverPage;
use channel_videos::resolve::{decide_resolution, resolve_channel};
use channel_videos::session::{Action, Session};

fn page_body(start: usize, count: usize, next: Option<&str>) -> String {
    let mut items = Vec::new();
    for i in start..start + count {
        items.push(format!(
            r#"{{"id":{{"videoId":"v{i}"}},"snippet":{{"title":"t{i}","description":"d{i}","publishedAt":"p{i}"}}}}"#
        ));
    }
    let items = items.join(",");
    match next {
        Some(t) => format!(r#"{{"items":[{items}],"nextPageToken":"{t}"}}"#),
        None => format!(r#"{{"items":[{items}]}}"#),
    }
}

#[test]
fn resolves_channel_identifier() {
    let body = r#"{"kind":"youtube#channelListResponse","items":[{"id":"UCabc123"}]}"#;
    let r = resolve_channel(200, body);
    assert_eq!(r.unwrap(), "UCabc123");
}

#[test]
fn zero_channels_is_not_a_silent_success() {
    let r = resolve_channel(200, r#"{"items":[]}"#);
    assert!(matches!(r, Err(ApiFailure::ChannelNotFound)));

    let r = resolve_channel(200, r#"{"kind":"nothing here"}"#);
    assert!(matches!(r, Err(ApiFailure::ChannelNotFound)));

    let r = resolve_channel(200, r#"{"items":[{"kind":"no id member"}]}"#);
    assert!(matches!(r, Err(ApiFailure::ChannelNotFound)));
}

#[test]
fn non_success_status_is_a_transport_failure() {
    let r = resolve_channel(404, r#"{"items":[{"id":"UCabc123"}]}"#);
    assert!(matches!(r, Err(ApiFailure::Transport { status: 404 })));
}

#[test]
fn error_member_is_an_api_failure_with_its_text() {
    let r = resolve_channel(200, r#"{"error":{"code":403,"message":"quota"}}"#);
    match r {
        Err(ApiFailure::Api { message }) => {
            assert_eq!(message, r#"{"code":403,"message":"quota"}"#);
        }
        other => panic!("expected an API failure, got {other:?}"),
    }
}

#[test]
fn undecodable_body_is_a_shape_failure() {
    let r = resolve_channel(200, "this is not json");
    assert!(matches!(r, Err(ApiFailure::Shape)));
}

#[test]
fn decision_alone_reports_channel_not_found() {
    let page = ResolverPage { error_message: None, first_channel_id: None };
    let r = decide_resolution(200, Some(page));
    assert!(matches!(r, Err(ApiFailure::ChannelNotFound)));
}

#[test]
fn failed_lookup_aborts_before_any_page_request() {
    let mut s = Session::new("@somebody".to_string());
    match s.next_action() {
        Action::LookupChannel { handle } => assert_eq!(handle, "@somebody"),
        other => panic!("expected the lookup first, got {other:?}"),
    }
    s.feed_lookup(503, r#"{"items":[{"id":"UCabc123"}]}"#);
    match s.next_action() {
        Action::Abort { failure } => {
            assert!(matches!(failure, ApiFailure::Transport { status: 503 }));
        }
        other => panic!("expected the run to abort, got {other:?}"),
    }
    assert!(s.videos.is_empty());
}

#[test]
fn lookup_without_channel_aborts() {
    let mut s = Session::new("ghost".to_string());
    s.feed_lookup(200, r#"{"items":[]}"#);
    match s.next_action() {
        Action::Abort { failure } => assert!(matches!(failure, ApiFailure::ChannelNotFound)),
        other => panic!("expected the run to abort, got {other:?}"),
    }
}

#[test]
fn three_pages_collect_all_videos_in_order() {
    let pages = vec![
        page_body(0, 50, Some("tok1")),
        page_body(50, 50, Some("tok2")),
        page_body(100, 20, None),
    ];
    let mut s = Session::new("@chan".to_string());
    s.feed_lookup(200, r#"{"items":[{"id":"UCchan"}]}"#);

    let mut requests = 0usize;
    loop {
        match s.next_action() {
            Action::FetchPage { channel_id, page_token } => {
                assert_eq!(channel_id, "UCchan");
                let expected_token = match requests {
                    0 => None,
                    1 => Some("tok1".to_string()),
                    2 => Some("tok2".to_string()),
                    _ => panic!("a fourth request was attempted"),
                };
                assert_eq!(page_token, expected_token);
                s.feed_page(200, &pages[requests]);
                requests += 1;
            }
            Action::Publish => break,
            other => panic!("unexpected action {other:?}"),
        }
    }
    assert_eq!(requests, 3);
    assert_eq!(s.videos.len(), 120);
    for (i, v) in s.videos.iter().enumerate() {
        assert_eq!(v.video_id, format!("v{i}"));
        assert_eq!(v.title, format!("t{i}"));
        assert_eq!(v.description, format!("d{i}"));
        assert_eq!(v.published_at, format!("p{i}"));
    }
}

#[test]
fn page_failure_abandons_the_run() {
    let mut s = Session::new("@chan".to_string());
    s.feed_lookup(200, r#"{"items":[{"id":"UCchan"}]}"#);
    s.feed_page(200, &page_body(0, 2, Some("tok1")));
    s.feed_page(500, &page_body(2, 2, None));
    match s.next_action() {
        Action::Abort { failure } => {
            assert!(matches!(failure, ApiFailure::Transport { status: 500 }));
        }
        other => panic!("expected the run to abort, got {other:?}"),
    }
}

#[test]
fn page_error_member_abandons_the_run() {
    let mut s = Session::new("@chan".to_string());
    s.feed_lookup(200, r#"{"items":[{"id":"UCchan"}]}"#);
    s.feed_page(200, r#"{"error":"backend says no"}"#);
    match s.next_action() {
        Action::Abort { failure } => match failure {
            ApiFailure::Api { message } => assert_eq!(message, r#""backend says no""#),
            other => panic!("expected an API failure, got {other:?}"),
        },
        other => panic!("expected the run to abort, got {other:?}"),
    }
}

#[test]
fn page_without_items_finishes_empty() {
    let mut s = Session::new("@quiet".to_string());
    s.feed_lookup(200, r#"{"items":[{"id":"UCquiet"}]}"#);
    s.feed_page(200, r#"{"kind":"youtube#searchListResponse"}"#);
    assert!(matches!(s.next_action(), Action::Publish));
    assert!(s.videos.is_empty());
}

#[test]
fn absent_fields_default_to_empty_strings() {
    let mut s = Session::new("@chan".to_string());
    s.feed_lookup(200, r#"{"items":[{"id":"UCchan"}]}"#);
    s.feed_page(200, r#"{"items":[{"id":{},"snippet":{"title":"only title"}}]}"#);
    assert_eq!(s.videos.len(), 1);
    assert_eq!(s.videos[0].video_id, "");
    assert_eq!(s.videos[0].title, "only title");
    assert_eq!(s.videos[0].description, "");
    assert_eq!(s.videos[0].published_at, "");
}
