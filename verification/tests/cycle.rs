use random_stream::cycle::{listed, run, Action, Event, Phase};
use random_stream::error::ErrorKind;
use random_stream::request::{Credentials, Method};
use random_stream::state::TemplateApp;
use random_stream::stream::{Pagination, ResponseStreams, ResponseStreamsData};

fn two_pixels() -> Vec<u8> {
    vec![
        137, 80, 78, 71, 13, 10, 26, 10, 0, 0, 0, 13, 73, 72, 68, 82, 0, 0, 0, 2, 0, 0, 0, 1, 8, 6,
        0, 0, 0, 244, 34, 127, 138, 0, 0, 0, 14, 73, 68, 65, 84, 120, 156, 99, 248, 207, 192, 0,
        66, 255, 1, 15, 249, 3, 253, 133, 17, 153, 118, 0, 0, 0, 0, 73, 69, 78, 68, 174, 66, 96,
        130,
    ]
}

fn stream(name: &str, viewers: u32) -> ResponseStreamsData {
    ResponseStreamsData {
        id: format!("id-{name}"),
        user_id: String::from("2"),
        user_login: name.to_lowercase(),
        user_name: String::from(name),
        game_id: String::from("3"),
        game_name: String::from("Chess"),
        title: String::from("blitz"),
        viewer_count: viewers,
        started_at: String::from("2022-05-01T10:00:00Z"),
        language: String::from("en"),
        thumbnail_url: format!("https://x/{name}-{{width}}x{{height}}.jpg"),
        tag_ids: Vec::new(),
        is_mature: false,
        stream_type: String::from("live"),
        image: None,
    }
}

fn listing(streams: Vec<ResponseStreamsData>) -> ResponseStreams {
    ResponseStreams { data: streams, pagination: Pagination { cursor: String::from("next") } }
}

fn full_credentials() -> Credentials {
    Credentials {
        client_id: Some(String::from("my-client")),
        client_secret: Some(String::from("s3cret")),
        access_token: Some(String::from("t0k3n")),
    }
}

#[test]
fn a_trigger_asks_for_the_listing() {
    let step = run(Phase::Idle, Event::Triggered(full_credentials()));
    assert!(matches!(step.phase, Phase::Listing));
    match step.action {
        Action::Send(request) => {
            assert_eq!(request.method, Method::Get);
            assert_eq!(request.url, "https://api.twitch.tv/helix/streams?first=100");
            assert_eq!(request.headers[0].value, "Bearer t0k3n");
            assert_eq!(request.headers[1].value, "my-client");
        }
        _ => panic!("the listing was to be asked for"),
    }
}

#[test]
fn a_trigger_without_credentials_fails_at_once() {
    let credentials = Credentials { client_id: None, client_secret: None, access_token: None };
    let step = run(Phase::Idle, Event::Triggered(credentials));
    assert!(matches!(step.phase, Phase::Idle));
    assert!(matches!(step.action, Action::Finish(Err(ErrorKind::MissingCredential))));
}

#[test]
fn an_empty_listing_ends_the_cycle() {
    let step = run(Phase::Listing, Event::Listed(Ok(listing(Vec::new()))));
    assert!(matches!(step.phase, Phase::Idle));
    assert!(matches!(step.action, Action::Finish(Err(ErrorKind::EmptyInput))));
}

#[test]
fn a_failed_listing_ends_the_cycle_with_its_failure() {
    let step = run(Phase::Listing, Event::Listed(Err(ErrorKind::Network)));
    assert!(matches!(step.phase, Phase::Idle));
    assert!(matches!(step.action, Action::Finish(Err(ErrorKind::Network))));
    let step = run(Phase::Listing, Event::Listed(Err(ErrorKind::Parse)));
    assert!(matches!(step.phase, Phase::Idle));
    assert!(matches!(step.action, Action::Finish(Err(ErrorKind::Parse))));
}

#[test]
fn a_listing_leads_to_the_thumbnail_of_the_chosen_stream() {
    let step = run(Phase::Listing, Event::Listed(Ok(listing(vec![stream("Only", 3)]))));
    match step.phase {
        Phase::Loading(chosen) => {
            assert_eq!(chosen.user_name, "Only");
            assert_eq!(chosen.viewer_count, 3);
        }
        _ => panic!("the thumbnail was to be loaded"),
    }
    match step.action {
        Action::Send(request) => {
            assert_eq!(request.method, Method::Get);
            assert_eq!(request.url, "https://x/Only-640x360.jpg");
            assert!(request.headers.is_empty());
        }
        _ => panic!("the thumbnail was to be asked for"),
    }
}

#[test]
fn a_failed_download_ends_the_cycle_with_its_failure() {
    let step = run(Phase::Loading(stream("Only", 3)), Event::Loaded(Err(ErrorKind::Network)));
    assert!(matches!(step.phase, Phase::Idle));
    assert!(matches!(step.action, Action::Finish(Err(ErrorKind::Network))));
}

#[test]
fn bytes_that_are_no_image_still_end_the_cycle_well() {
    let bytes = b"not an image".to_vec();
    let step = run(Phase::Loading(stream("Only", 3)), Event::Loaded(Ok(bytes)));
    assert!(matches!(step.phase, Phase::Idle));
    match step.action {
        Action::Finish(Ok(shown)) => {
            assert!(shown.image.is_none());
            assert_eq!(shown.id, "id-Only");
            assert_eq!(shown.user_name, "Only");
            assert_eq!(shown.title, "blitz");
            assert_eq!(shown.viewer_count, 3);
            assert_eq!(shown.thumbnail_url, "https://x/Only-{width}x{height}.jpg");
        }
        _ => panic!("the cycle was to end with the stream"),
    }
}

#[test]
fn an_image_ends_the_cycle_with_a_thumbnail() {
    let step = run(Phase::Loading(stream("Only", 3)), Event::Loaded(Ok(two_pixels())));
    assert!(matches!(step.phase, Phase::Idle));
    match step.action {
        Action::Finish(Ok(shown)) => {
            assert_eq!(shown.image.as_ref().map(|image| image.size()), Some([2, 1]));
            assert_eq!(shown.user_name, "Only");
        }
        _ => panic!("the cycle was to end with the stream"),
    }
}

#[test]
fn events_out_of_turn_are_ignored() {
    let step = run(Phase::Idle, Event::Loaded(Ok(two_pixels())));
    assert!(matches!(step.phase, Phase::Idle));
    assert!(matches!(step.action, Action::Ignore));

    let step = run(Phase::Idle, Event::Listed(Ok(listing(vec![stream("a", 1)]))));
    assert!(matches!(step.phase, Phase::Idle));
    assert!(matches!(step.action, Action::Ignore));

    let step = run(Phase::Listing, Event::Triggered(full_credentials()));
    assert!(matches!(step.phase, Phase::Listing));
    assert!(matches!(step.action, Action::Ignore));

    let step = run(Phase::Listing, Event::Loaded(Err(ErrorKind::Network)));
    assert!(matches!(step.phase, Phase::Listing));
    assert!(matches!(step.action, Action::Ignore));

    let step = run(Phase::Loading(stream("kept", 8)), Event::Triggered(full_credentials()));
    match step.phase {
        Phase::Loading(chosen) => assert_eq!(chosen.user_name, "kept"),
        _ => panic!("the phase was to stay"),
    }
    assert!(matches!(step.action, Action::Ignore));

    let step = run(Phase::Loading(stream("kept", 8)), Event::Listed(Err(ErrorKind::Parse)));
    assert!(matches!(step.phase, Phase::Loading(_)));
    assert!(matches!(step.action, Action::Ignore));
}

#[test]
fn the_streams_of_a_listing_are_handed_on() {
    match listed(Ok(listing(vec![stream("a", 1), stream("b", 2)]))) {
        Ok(streams) => {
            assert_eq!(streams.len(), 2);
            assert_eq!(streams[0].user_name, "a");
            assert_eq!(streams[1].user_name, "b");
        }
        Err(_) => panic!("the listing arrived"),
    }
    assert!(matches!(listed(Err(ErrorKind::Parse)), Err(ErrorKind::Parse)));
    assert!(matches!(listed(Err(ErrorKind::Network)), Err(ErrorKind::Network)));
}

/// Drives one whole cycle against a listing of two streams and a thumbnail
/// that decodes.
fn fetch(app: &mut TemplateApp) {
    let step = run(Phase::Idle, Event::Triggered(full_credentials()));
    assert!(matches!(step.action, Action::Send(_)));
    let step = run(step.phase, Event::Listed(Ok(listing(vec![stream("Ann", 111), stream("Bob", 222)]))));
    let asked_for = match &step.action {
        Action::Send(request) => request.url.clone(),
        _ => panic!("the thumbnail was to be asked for"),
    };
    let step = run(step.phase, Event::Loaded(Ok(two_pixels())));
    assert!(matches!(step.phase, Phase::Idle));
    match step.action {
        Action::Finish(outcome) => {
            if let Ok(shown) = &outcome {
                assert_eq!(asked_for, format!("https://x/{}-640x360.jpg", shown.user_name));
            }
            app.update(outcome);
        }
        _ => panic!("the cycle was to end"),
    }
}

#[test]
fn a_whole_cycle_shows_one_of_two_streams() {
    for _ in 0..100 {
        let mut app = TemplateApp::default();
        fetch(&mut app);
        let shown = match &app.stream {
            Some(shown) => shown,
            None => panic!("a stream was to be shown"),
        };
        match shown.user_name.as_str() {
            "Ann" => {
                assert_eq!(shown.viewer_count, 111);
                assert_eq!(shown.id, "id-Ann");
            }
            "Bob" => {
                assert_eq!(shown.viewer_count, 222);
                assert_eq!(shown.id, "id-Bob");
            }
            other => panic!("{other} was not in the listing"),
        }
        assert!(shown.image.is_some());
    }
}

#[test]
fn a_whole_cycle_reaches_both_streams() {
    let mut seen = [false, false];
    for _ in 0..200 {
        let mut app = TemplateApp::default();
        fetch(&mut app);
        match app.stream.as_ref().map(|shown| shown.viewer_count) {
            Some(111) => seen[0] = true,
            Some(222) => seen[1] = true,
            _ => panic!("one of the two streams was to be shown"),
        }
    }
    assert!(seen[0] && seen[1]);
}

#[test]
fn a_failed_cycle_keeps_the_stream_on_display() {
    let mut app = TemplateApp::default();
    fetch(&mut app);
    let before = app.stream.as_ref().map(|shown| shown.id.clone());
    let step = run(Phase::Idle, Event::Triggered(full_credentials()));
    let step = run(step.phase, Event::Listed(Err(ErrorKind::Network)));
    match step.action {
        Action::Finish(outcome) => app.update(outcome),
        _ => panic!("the cycle was to end"),
    }
    assert_eq!(app.stream.as_ref().map(|shown| shown.id.clone()), before);
}
