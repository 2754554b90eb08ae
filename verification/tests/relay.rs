use acds_bot::{
    Action, Config, Embed, Event, Failure, Handler, HttpResponse, Intake, Mastodon, MessagePusher,
    Msg, Outcome, Part, Progress, PublishResult, RawMessage, Request, RequestParameter, Step, Turn,
    UploadPolicy,
};

fn credentials(token: Option<&str>) -> Mastodon {
    Mastodon {
        client_id: String::from("client.id"),
        client_secret: String::from("client.secret"),
        redirect_uri: String::from("uri"),
        auth_code: String::from("jumbledtext"),
        token: token.map(String::from),
    }
}

fn config(token: Option<&str>, upload_policy: UploadPolicy) -> Config {
    Config {
        token: String::from("your.token"),
        mastodon: credentials(token),
        relay_author: 7,
        log_author: 9,
        upload_policy,
    }
}

fn message(text: Option<&str>, image: Option<&str>) -> Msg {
    Msg { message: text.map(String::from), attachment: image.map(String::from) }
}

fn response(status: u16, body: &str) -> Event {
    Event::Response(HttpResponse { status, content_length: None, body: body.as_bytes().to_vec() })
}

fn publish_request(token: &str, status: Option<&str>, media: Option<&str>) -> Request {
    Request::Publish {
        url: String::from("https://mastodon.social/api/v1/statuses"),
        token: String::from(token),
        body: RequestParameter {
            status: status.map(String::from),
            media_ids: media.map(|handle| vec![String::from(handle)]),
            visibility: String::from("public"),
        },
    }
}

// Runs a relay against scripted answers and returns what was asked for and how it ended.
fn run(pusher: &mut MessagePusher, answers: Vec<Event>) -> (Vec<Request>, Option<Outcome>) {
    let mut asked = Vec::new();
    let mut event = Event::Begin;
    let mut answers = answers.into_iter();
    loop {
        match pusher.push(event) {
            Action::Perform(request) => {
                asked.push(request);
                match answers.next() {
                    Some(answer) => event = answer,
                    None => return (asked, None),
                }
            }
            Action::Finish(outcome) => return (asked, Some(outcome)),
            Action::Ignore => return (asked, None),
        }
    }
}

#[test]
fn starred_text_is_relayed_and_confirmed() {
    let conf = config(Some("your_token"), UploadPolicy::Abort);
    let inbound = RawMessage {
        author_id: 7,
        channel_id: 42,
        content: String::new(),
        embeds: vec![Embed { description: Some(String::from("hello")), image_url: None }],
    };
    let captured = match Handler::new(&conf).message(&inbound) {
        Intake::Relay(captured) => captured,
        other => panic!("not relayed: {:?}", other),
    };
    let mut pusher = MessagePusher::build(captured, conf);
    let (asked, outcome) =
        run(&mut pusher, vec![response(200, "{\"url\":\"https://mastodon.social/@bot/9\"}")]);
    assert_eq!(asked, vec![publish_request("your_token", Some("hello"), None)]);
    let reply = Handler::reply(&outcome.unwrap());
    assert!(reply.contains("https://mastodon.social/@bot/9"));
}

#[test]
fn body_of_a_text_message() {
    assert_eq!(
        RequestParameter::build(&message(Some("hello"), None), None),
        RequestParameter {
            status: Some(String::from("hello")),
            media_ids: None,
            visibility: String::from("public"),
        }
    );
}

#[test]
fn body_of_an_image_only_message() {
    let body = RequestParameter::build(
        &message(None, Some("https://cdn.example/a.png")),
        Some(String::from("22348641")),
    );
    assert_eq!(body.status, None);
    assert_eq!(body.media_ids, Some(vec![String::from("22348641")]));
    assert_eq!(body.visibility, "public");
}

#[test]
fn body_status_is_the_text_with_or_without_image() {
    let with_image = RequestParameter::build(
        &message(Some("hello"), Some("https://cdn.example/a.png")),
        Some(String::from("22348641")),
    );
    let without_image = RequestParameter::build(&message(Some("hello"), None), None);
    assert_eq!(with_image.status, Some(String::from("hello")));
    assert_eq!(without_image.status, Some(String::from("hello")));
    assert_eq!(with_image.media_ids, Some(vec![String::from("22348641")]));
}

#[test]
fn text_message_with_cached_token_is_published() {
    let mut pusher = MessagePusher::build(
        message(Some("hello"), None),
        config(Some("your_token"), UploadPolicy::Abort),
    );
    let (asked, outcome) = run(
        &mut pusher,
        vec![response(200, "{\"id\":\"1\",\"url\":\"https://mastodon.social/@bot/1\"}")],
    );
    assert_eq!(asked, vec![publish_request("your_token", Some("hello"), None)]);
    let outcome = outcome.unwrap();
    assert_eq!(
        outcome,
        Outcome::Published(PublishResult {
            url: String::from("https://mastodon.social/@bot/1"),
            degraded: None,
        })
    );
    let reply = Handler::reply(&outcome);
    assert!(reply.contains("https://mastodon.social/@bot/1"));
    assert_eq!(reply, "Published: https://mastodon.social/@bot/1");
    assert!(pusher.is_done());
}

#[test]
fn token_is_acquired_before_publishing() {
    let mut pusher =
        MessagePusher::build(message(Some("hello"), None), config(None, UploadPolicy::Abort));
    let (asked, outcome) = run(
        &mut pusher,
        vec![
            response(200, "{\"access_token\":\"fresh\"}"),
            response(200, "{\"url\":\"https://mastodon.social/@bot/2\"}"),
        ],
    );
    assert_eq!(asked.len(), 2);
    assert!(matches!(asked[0], Request::Token { .. }));
    assert_eq!(asked[1], publish_request("fresh", Some("hello"), None));
    assert_eq!(
        outcome,
        Some(Outcome::Published(PublishResult {
            url: String::from("https://mastodon.social/@bot/2"),
            degraded: None,
        }))
    );
    assert_eq!(pusher.list.token, Some(String::from("fresh")));
}

#[test]
fn auth_failure_ends_the_relay_unchanged() {
    let mut pusher =
        MessagePusher::build(message(Some("hello"), None), config(None, UploadPolicy::Abort));
    let (asked, outcome) = run(&mut pusher, vec![response(401, "{\"error\":\"invalid_grant\"}")]);
    assert_eq!(asked.len(), 1);
    assert_eq!(
        outcome,
        Some(Outcome::Failed(Failure::AuthFailure {
            body: String::from("{\"error\":\"invalid_grant\"}"),
        }))
    );
    assert_eq!(pusher.list.token, None);
}

#[test]
fn image_is_uploaded_then_published_with_its_handle() {
    let mut pusher = MessagePusher::build(
        message(Some("hello"), Some("https://cdn.example/a.png")),
        config(Some("your_token"), UploadPolicy::Abort),
    );
    let (asked, outcome) = run(
        &mut pusher,
        vec![
            response(200, "PNGDATA"),
            response(200, "{\"id\":\"22348641\"}"),
            response(200, "{\"url\":\"https://mastodon.social/@bot/3\"}"),
        ],
    );
    assert_eq!(
        asked,
        vec![
            Request::Fetch { url: String::from("https://cdn.example/a.png") },
            Request::Upload {
                url: String::from("https://mastodon.social/api/v2/media"),
                token: String::from("your_token"),
                part: Part {
                    name: String::from("file"),
                    file_name: String::from("image.png"),
                    mime: String::from("image/png"),
                    bytes: b"PNGDATA".to_vec(),
                },
            },
            publish_request("your_token", Some("hello"), Some("22348641")),
        ]
    );
    assert_eq!(
        outcome,
        Some(Outcome::Published(PublishResult {
            url: String::from("https://mastodon.social/@bot/3"),
            degraded: None,
        }))
    );
}

#[test]
fn image_only_message_is_published_without_status() {
    let mut pusher = MessagePusher::build(
        message(None, Some("https://cdn.example/a.png")),
        config(None, UploadPolicy::TextOnly),
    );
    let (asked, outcome) = run(
        &mut pusher,
        vec![
            response(200, "{\"access_token\":\"fresh\"}"),
            response(200, "PNGDATA"),
            response(200, "{\"id\":\"77\"}"),
            response(200, "{\"url\":\"https://mastodon.social/@bot/4\"}"),
        ],
    );
    assert_eq!(asked.len(), 4);
    assert_eq!(asked[3], publish_request("fresh", None, Some("77")));
    assert!(matches!(outcome, Some(Outcome::Published(_))));
}

#[test]
fn upload_failure_aborts_the_relay() {
    let mut pusher = MessagePusher::build(
        message(Some("hello"), Some("https://cdn.example/a.png")),
        config(Some("your_token"), UploadPolicy::Abort),
    );
    let (asked, outcome) =
        run(&mut pusher, vec![response(200, "PNGDATA"), response(500, "media is down")]);
    assert_eq!(asked.len(), 2);
    let outcome = outcome.unwrap();
    assert_eq!(
        outcome,
        Outcome::Failed(Failure::UploadFailure {
            status: Some(500),
            content_length: None,
            body: String::from("media is down"),
        })
    );
    let reply = Handler::reply(&outcome);
    assert_eq!(reply, "Relay failed: UploadFailure (status 500): media is down");
    assert!(!reply.contains("https://"));
}

#[test]
fn upload_failure_degrades_to_text_where_chosen() {
    let mut pusher = MessagePusher::build(
        message(Some("hello"), Some("https://cdn.example/a.png")),
        config(Some("your_token"), UploadPolicy::TextOnly),
    );
    let (asked, outcome) = run(
        &mut pusher,
        vec![
            response(200, "PNGDATA"),
            response(500, "media is down"),
            response(200, "{\"url\":\"https://mastodon.social/@bot/5\"}"),
        ],
    );
    assert_eq!(asked.len(), 3);
    assert_eq!(asked[2], publish_request("your_token", Some("hello"), None));
    let outcome = outcome.unwrap();
    assert_eq!(
        outcome,
        Outcome::Published(PublishResult {
            url: String::from("https://mastodon.social/@bot/5"),
            degraded: Some(Failure::UploadFailure {
                status: Some(500),
                content_length: None,
                body: String::from("media is down"),
            }),
        })
    );
    assert_eq!(
        Handler::reply(&outcome),
        "Published without media: https://mastodon.social/@bot/5 \
         (UploadFailure (status 500): media is down)"
    );
}

#[test]
fn image_only_message_cannot_degrade() {
    let mut pusher = MessagePusher::build(
        message(None, Some("https://cdn.example/a.png")),
        config(Some("your_token"), UploadPolicy::TextOnly),
    );
    let (asked, outcome) = run(&mut pusher, vec![response(404, "gone")]);
    assert_eq!(asked.len(), 1);
    assert_eq!(
        outcome,
        Some(Outcome::Failed(Failure::FetchFailure {
            status: Some(404),
            body: String::from("gone"),
        }))
    );
}

#[test]
fn fetch_failure_degrades_like_an_upload_failure() {
    let mut pusher = MessagePusher::build(
        message(Some("hello"), Some("https://cdn.example/a.png")),
        config(Some("your_token"), UploadPolicy::TextOnly),
    );
    let (asked, outcome) = run(
        &mut pusher,
        vec![
            Event::Unreachable { detail: String::from("dns error") },
            response(200, "{\"url\":\"https://mastodon.social/@bot/6\"}"),
        ],
    );
    assert_eq!(asked.len(), 2);
    assert_eq!(
        outcome,
        Some(Outcome::Published(PublishResult {
            url: String::from("https://mastodon.social/@bot/6"),
            degraded: Some(Failure::FetchFailure {
                status: None,
                body: String::from("dns error"),
            }),
        }))
    );
}

#[test]
fn response_without_url_is_publish_failure() {
    let mut pusher = MessagePusher::build(
        message(Some("hello"), None),
        config(Some("your_token"), UploadPolicy::Abort),
    );
    let (_, outcome) = run(&mut pusher, vec![response(200, "{\"id\":\"1\",\"content\":\"hello\"}")]);
    assert_eq!(
        outcome,
        Some(Outcome::Failed(Failure::PublishFailure {
            body: String::from("{\"id\":\"1\",\"content\":\"hello\"}"),
        }))
    );
}

#[test]
fn error_status_without_url_is_publish_failure() {
    let mut pusher = MessagePusher::build(
        message(Some("hello"), None),
        config(Some("your_token"), UploadPolicy::Abort),
    );
    let (_, outcome) = run(&mut pusher, vec![response(422, "{\"error\":\"Validation failed\"}")]);
    assert_eq!(
        outcome,
        Some(Outcome::Failed(Failure::PublishFailure {
            body: String::from("{\"error\":\"Validation failed\"}"),
        }))
    );
}

#[test]
fn url_is_read_whatever_the_status() {
    let mut pusher = MessagePusher::build(
        message(Some("hello"), None),
        config(Some("your_token"), UploadPolicy::Abort),
    );
    let (_, outcome) =
        run(&mut pusher, vec![response(500, "{\"url\":\"https://mastodon.social/@bot/7\"}")]);
    assert_eq!(
        outcome,
        Some(Outcome::Published(PublishResult {
            url: String::from("https://mastodon.social/@bot/7"),
            degraded: None,
        }))
    );
}

#[test]
fn publish_response_that_is_not_json_is_publish_failure() {
    let mut pusher = MessagePusher::build(
        message(Some("hello"), None),
        config(Some("your_token"), UploadPolicy::Abort),
    );
    let (_, outcome) = run(&mut pusher, vec![response(502, "<html>bad gateway</html>")]);
    assert_eq!(
        outcome,
        Some(Outcome::Failed(Failure::PublishFailure {
            body: String::from("<html>bad gateway</html>"),
        }))
    );
}

#[test]
fn unreachable_publish_endpoint_is_publish_failure() {
    let mut pusher = MessagePusher::build(
        message(Some("hello"), None),
        config(Some("your_token"), UploadPolicy::Abort),
    );
    let (_, outcome) =
        run(&mut pusher, vec![Event::Unreachable { detail: String::from("connection reset") }]);
    assert_eq!(
        outcome,
        Some(Outcome::Failed(Failure::PublishFailure { body: String::from("connection reset") }))
    );
}

#[test]
fn empty_message_is_not_published() {
    let mut pusher =
        MessagePusher::build(Msg::new(), config(Some("your_token"), UploadPolicy::TextOnly));
    let (asked, outcome) = run(&mut pusher, Vec::new());
    assert!(asked.is_empty());
    assert_eq!(outcome, Some(Outcome::Failed(Failure::MissingEmbed)));
}

#[test]
fn events_that_are_not_awaited_are_ignored() {
    let mut pusher = MessagePusher::build(
        message(Some("hello"), None),
        config(Some("your_token"), UploadPolicy::Abort),
    );
    assert_eq!(pusher.push(response(200, "{\"url\":\"https://x/1\"}")), Action::Ignore);
    assert_eq!(pusher.progress, Progress::Idle);
    assert!(matches!(pusher.push(Event::Begin), Action::Perform(Request::Publish { .. })));
    assert_eq!(pusher.push(Event::Begin), Action::Ignore);
    assert_eq!(pusher.progress, Progress::AwaitPublish { degraded: None });
    assert!(matches!(pusher.push(response(200, "{\"url\":\"https://x/1\"}")), Action::Finish(_)));
    assert_eq!(pusher.push(Event::Begin), Action::Ignore);
    assert_eq!(pusher.push(response(200, "{\"url\":\"https://x/2\"}")), Action::Ignore);
    assert_eq!(pusher.progress, Progress::Done);
}

#[test]
fn build_starts_idle_with_the_configured_credentials() {
    let pusher = MessagePusher::build(
        message(Some("hello"), None),
        config(Some("your_token"), UploadPolicy::TextOnly),
    );
    assert_eq!(pusher.message, message(Some("hello"), None));
    assert_eq!(pusher.list, credentials(Some("your_token")));
    assert_eq!(pusher.policy, UploadPolicy::TextOnly);
    assert_eq!(pusher.progress, Progress::Idle);
    assert!(!pusher.is_done());
}

#[test]
fn send_steps_without_a_pusher() {
    let mut store = credentials(None);
    let msg = message(Some("hello"), None);
    let turn = store.send(&msg, UploadPolicy::Abort, Progress::Idle, Event::Begin);
    assert_eq!(turn.progress, Progress::AwaitToken);
    let turn = store.send(
        &msg,
        UploadPolicy::Abort,
        turn.progress,
        response(200, "{\"access_token\":\"fresh\"}"),
    );
    assert_eq!(
        turn,
        Turn {
            progress: Progress::AwaitPublish { degraded: None },
            action: Action::Perform(publish_request("fresh", Some("hello"), None)),
        }
    );
    assert_eq!(store.token, Some(String::from("fresh")));
}

#[test]
fn message_that_lost_its_image_is_not_published() {
    let mut store = credentials(Some("your_token"));
    let turn = store.send(
        &message(Some("hello"), None),
        UploadPolicy::TextOnly,
        Progress::AwaitUpload { token: String::from("your_token") },
        response(200, "{\"id\":\"77\"}"),
    );
    assert_eq!(turn, Turn::fail(Failure::MissingEmbed));
}

#[test]
fn after_upload_follows_the_step() {
    let msg = message(Some("hello"), Some("https://cdn.example/a.png"));
    let turn = Mastodon::after_upload(
        String::from("your_token"),
        &msg,
        UploadPolicy::Abort,
        Step::Ready(String::from("77")),
    );
    assert_eq!(
        turn.action,
        Action::Perform(publish_request("your_token", Some("hello"), Some("77")))
    );
    let turn = Mastodon::after_upload(
        String::from("your_token"),
        &msg,
        UploadPolicy::Abort,
        Step::Ask(Request::Fetch { url: String::from("https://cdn.example/a.png") }),
    );
    assert_eq!(turn.progress, Progress::AwaitImage { token: String::from("your_token") });
}

#[test]
fn after_token_follows_the_step() {
    let msg = message(None, Some("https://cdn.example/a.png"));
    let turn = Mastodon::after_token(&msg, Step::Ready(String::from("fresh")));
    assert_eq!(
        turn,
        Turn {
            progress: Progress::AwaitImage { token: String::from("fresh") },
            action: Action::Perform(Request::Fetch {
                url: String::from("https://cdn.example/a.png"),
            }),
        }
    );
    let turn = Mastodon::after_token(&msg, Step::Failed(Failure::MissingEmbed));
    assert_eq!(turn, Turn::fail(Failure::MissingEmbed));
    let turn = Mastodon::after_token(&Msg::new(), Step::Ready(String::from("fresh")));
    assert_eq!(turn, Turn::fail(Failure::MissingEmbed));
}

#[test]
fn accept_publish_settles_from_what_was_read() {
    assert_eq!(
        Mastodon::accept_publish(String::from("{}"), None, None),
        Outcome::Failed(Failure::PublishFailure { body: String::from("{}") })
    );
    assert_eq!(
        Mastodon::accept_publish(String::from("{}"), Some(String::from("https://x/1")), None),
        Outcome::Published(PublishResult { url: String::from("https://x/1"), degraded: None })
    );
}

#[test]
fn handler_is_built_from_the_configuration() {
    let handler = Handler::new(&config(None, UploadPolicy::Abort));
    assert_eq!(handler, Handler { relay_author: 7, log_author: 9 });
}
