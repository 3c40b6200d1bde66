use loded::capture::{attach_ports, filter_desktops, CaptureManager, CaptureState, Error};
use loded::screencast::{
    CreateSessionResponse, CursorMode, PersistMode, SourceType, StartCastResponse, Stream,
    StreamProperties,
};
use loded::session_request::CorrelationError;

fn stream(path: u32, id: Option<&str>, size: Option<(i32, i32)>) -> Stream {
    Stream::new(
        path,
        StreamProperties::new(id.map(|s| s.to_string()), Some((0, 0)), size, Some(SourceType::monitor())),
    )
}

fn negotiate(
    m: &mut CaptureManager,
    stored: Option<String>,
    granted: Option<&str>,
    streams: Vec<Stream>,
) -> (Option<String>, Vec<loded::capture::Desktop>) {
    m.begin_capture(stored).unwrap();
    let select = m
        .session_created(Ok(CreateSessionResponse {
            session_handle: Some("/org/freedesktop/portal/desktop/session/1_5/s1".to_string()),
        }))
        .unwrap();
    assert_eq!(select.types, Some(SourceType::monitor()));
    assert_eq!(select.multiple, Some(true));
    assert_eq!(select.cursor_mode, Some(CursorMode::embedded()));
    assert_eq!(select.persist_mode, Some(PersistMode::ExplicitlyRevoked));
    let offered = select.restore_token.clone();
    m.sources_selected(Ok(())).unwrap();
    let desktops = m
        .cast_started(Ok(StartCastResponse {
            streams,
            restore_token: granted.map(|s| s.to_string()),
        }))
        .unwrap();
    (offered, desktops)
}

#[test]
fn begin_capture_while_active_is_refused() {
    let mut m = CaptureManager::new();
    let _ = negotiate(&mut m, None, Some("T"), vec![]);
    assert_eq!(m.state(), CaptureState::Streaming);
    assert!(matches!(m.begin_capture(None), Err(Error::AlreadyStarted)));
    assert_eq!(m.state(), CaptureState::Streaming);
    assert!(m.session().is_some());

    let mut m = CaptureManager::new();
    m.begin_capture(None).unwrap();
    assert!(matches!(m.begin_capture(None), Err(Error::AlreadyStarted)));
}

#[test]
fn restore_token_is_carried_to_the_next_negotiation() {
    let mut first = CaptureManager::new();
    let (offered, _) = negotiate(&mut first, None, Some("T-granted"), vec![]);
    assert_eq!(offered, None);
    let written = first.token_to_write().unwrap();
    assert_eq!(written, "T-granted");

    let mut second = CaptureManager::new();
    let (offered, _) = negotiate(&mut second, Some(written), Some("T2"), vec![]);
    assert_eq!(offered.as_deref(), Some("T-granted"));
    assert_eq!(second.token_to_write().unwrap(), "T2");
}

#[test]
fn missing_restore_token_cannot_be_written() {
    let mut m = CaptureManager::new();
    let _ = negotiate(&mut m, Some("old".to_string()), None, vec![]);
    assert!(matches!(m.token_to_write(), Err(Error::FailedTokenOperation)));
}

#[test]
fn record_without_size_is_dropped() {
    let mut m = CaptureManager::new();
    let streams = vec![
        stream(10, Some("a"), Some((1920, 1080))),
        stream(11, Some("b"), None),
        stream(12, Some("c"), Some((1280, 720))),
    ];
    let (_, ds) = negotiate(&mut m, None, Some("T"), streams);
    assert_eq!(ds.len(), 2);
    assert_eq!(ds[0].loded_id, 0);
    assert_eq!(ds[1].loded_id, 1);
    assert_eq!(ds[0].id, "a");
    assert_eq!(ds[1].id, "c");
    assert_eq!(ds[1].pipewire_path, 12);
    assert_eq!((ds[1].width, ds[1].height), (1280, 720));
    assert_eq!(ds[1].port, None);
}

#[test]
fn filtering_keeps_exactly_the_complete_records() {
    let streams = vec![
        stream(1, None, Some((1, 1))),
        stream(2, Some("x"), Some((2, 2))),
        stream(3, None, None),
        stream(4, Some("y"), Some((4, 4))),
        stream(5, Some("z"), None),
    ];
    let ds = filter_desktops(&streams);
    let ids: Vec<&str> = ds.iter().map(|d| d.id.as_str()).collect();
    assert_eq!(ids, vec!["x", "y"]);
    let idx: Vec<u64> = ds.iter().map(|d| d.loded_id).collect();
    assert_eq!(idx, vec![0, 1]);
    assert!(filter_desktops(&vec![]).is_empty());
}

#[test]
fn failed_encoders_are_left_out() {
    let streams = vec![
        stream(1, Some("a"), Some((1, 1))),
        stream(2, Some("b"), Some((2, 2))),
        stream(3, Some("c"), Some((3, 3))),
    ];
    let ds = filter_desktops(&streams);
    let out = attach_ports(ds, vec![Some(5000), None, Some(5002)]);
    assert_eq!(out.len(), 2);
    assert_eq!(out[0].id, "a");
    assert_eq!(out[0].port, Some(5000));
    assert_eq!(out[1].id, "c");
    assert_eq!(out[1].port, Some(5002));
    assert_eq!(out[1].loded_id, 2);
}

#[test]
fn broker_failures_release_the_session() {
    let mut m = CaptureManager::new();
    m.begin_capture(None).unwrap();
    let r = m.session_created(Err(CorrelationError::SpoofedReply));
    assert!(matches!(r, Err(Error::Broker(CorrelationError::SpoofedReply))));
    assert_eq!(m.state(), CaptureState::Idle);

    m.begin_capture(None).unwrap();
    let r = m.session_created(Ok(CreateSessionResponse { session_handle: None }));
    assert!(matches!(r, Err(Error::MissingSessionHandle)));
    assert_eq!(m.state(), CaptureState::Idle);

    m.begin_capture(None).unwrap();
    m.session_created(Ok(CreateSessionResponse { session_handle: Some("/s".to_string()) }))
        .unwrap();
    assert_eq!(m.session().as_deref(), Some("/s"));
    let r = m.sources_selected(Err(CorrelationError::BrokerRejected(1)));
    assert!(matches!(r, Err(Error::Broker(CorrelationError::BrokerRejected(1)))));
    assert_eq!(m.session(), None);

    m.begin_capture(None).unwrap();
    m.session_created(Ok(CreateSessionResponse { session_handle: Some("/s".to_string()) }))
        .unwrap();
    m.sources_selected(Ok(())).unwrap();
    let r = m.cast_started(Err(CorrelationError::BrokerCallFailed));
    assert!(matches!(r, Err(Error::Broker(CorrelationError::BrokerCallFailed))));
    assert_eq!(m.state(), CaptureState::Idle);
}

#[test]
fn select_sources_options_use_fresh_handles() {
    let mut m = CaptureManager::new();
    let create = m.begin_capture(None).unwrap();
    assert!(create.handle_token.as_str().starts_with("rdesktopd_"));
    let select = m
        .session_created(Ok(CreateSessionResponse { session_handle: Some("/s".to_string()) }))
        .unwrap();
    assert_ne!(select.handle_token.as_str(), create.handle_token.as_str());
    let start = m.sources_selected(Ok(())).unwrap();
    assert_eq!(start.handle_token.as_str().len(), 25);
}

#[test]
fn session_handle_must_be_an_object_path() {
    for bad in ["", "s", "/a//b", "/a/", "/a-b", "/é"] {
        let mut m = CaptureManager::new();
        m.begin_capture(None).unwrap();
        let r = m.session_created(Ok(CreateSessionResponse { session_handle: Some(bad.to_string()) }));
        assert!(matches!(r, Err(Error::InvalidSessionHandle)), "{bad}");
        assert_eq!(m.state(), CaptureState::Idle);
    }
    for good in ["/", "/a_1/B2"] {
        let mut m = CaptureManager::new();
        m.begin_capture(None).unwrap();
        let r = m.session_created(Ok(CreateSessionResponse { session_handle: Some(good.to_string()) }));
        assert!(r.is_ok(), "{good}");
        assert_eq!(m.state(), CaptureState::SessionCreated);
    }
}
