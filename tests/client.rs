use libot::client::{
    game_event_path, is_success_status, join_url, ApiRequest, BotClient, BotClientBuilder,
    Endpoint, HttpMethod, RequestBody, DEFAULT_BASE_URL,
};
use libot::error::BotClientBuilderError;
use libot::model::challenge::DeclineReason;
use libot::model::game::chat::ChatRoom;

fn test_client() -> BotClient {
    BotClientBuilder::new()
        .with_token("mock_token")
        .with_base_url("http://127.0.0.1:1234")
        .build()
        .unwrap()
}

fn request_to(endpoint: Endpoint) -> ApiRequest {
    test_client().request(&endpoint)
}

#[test]
fn building_bot_client_fails_without_token() {
    let result = BotClientBuilder::new().build();

    assert!(matches!(result, Err(BotClientBuilderError::NoToken)));
}

#[test]
fn building_bot_client_fails_with_invalid_token() {
    let result = BotClientBuilder::new().with_token("\0").build();

    assert!(matches!(result, Err(BotClientBuilderError::InvalidToken(_))));
}

#[test]
fn building_bot_client_succeeds_with_valid_token_and_default_base_url() {
    let result = BotClientBuilder::new().with_token("abc123").build();

    assert!(result.is_ok());
    assert_eq!(result.unwrap().base_url(), DEFAULT_BASE_URL);
}

#[test]
fn building_bot_client_succeeds_with_valid_token_and_overridden_base_url() {
    let base_url = "https://base.url/path";
    let result = BotClientBuilder::new().with_token("abc123").with_base_url(base_url).build();

    assert!(result.is_ok());
    assert_eq!(result.unwrap().base_url(), base_url);
}

#[test]
fn building_bot_client_refuses_control_characters_but_not_tabs_or_unicode() {
    assert!(matches!(
        BotClientBuilder::new().with_token("ab\ncd").build(),
        Err(BotClientBuilderError::InvalidToken(_))
    ));
    assert!(matches!(
        BotClientBuilder::new().with_token("ab\u{7f}").build(),
        Err(BotClientBuilderError::InvalidToken(_))
    ));
    assert!(BotClientBuilder::new().with_token("ab\tcd").build().is_ok());
    assert!(BotClientBuilder::new().with_token("äöü").build().is_ok());
}

#[test]
fn default_builder_is_the_new_builder() {
    let result = BotClientBuilder::default().with_token("abc123").build().unwrap();

    assert_eq!(result.base_url(), DEFAULT_BASE_URL);
    assert!(matches!(BotClientBuilder::default().build(), Err(BotClientBuilderError::NoToken)));
}

#[test]
fn joining_url_works_if_no_slash_is_present() {
    let url = join_url("https://base.url/path", "sub/path");

    assert_eq!(url.as_str(), "https://base.url/path/sub/path");
}

#[test]
fn joining_url_works_if_base_url_has_slash() {
    let url = join_url("https://lichess.org/", "my/path");

    assert_eq!(url.as_str(), "https://lichess.org/my/path");
}

#[test]
fn joining_url_works_if_base_path_has_slash() {
    let url = join_url("https://lichess.org/api", "/sub/path");

    assert_eq!(url.as_str(), "https://lichess.org/api/sub/path");
}

#[test]
fn joining_url_works_if_both_have_slash() {
    let url = join_url("https://lichess.org/api/", "/bot/whatever");

    assert_eq!(url.as_str(), "https://lichess.org/api/bot/whatever");
}

#[test]
fn joining_url_example_and_edges() {
    assert_eq!(join_url("https://h/api/", "/bot/x"), "https://h/api/bot/x");
    assert_eq!(join_url("", ""), "/");
    assert_eq!(join_url("/", "/"), "/");
    assert_eq!(join_url("https://h", ""), "https://h/");
    assert_eq!(join_url("https://h//", "//p"), "https://h///p");
}

#[test]
fn success_status_is_the_2xx_range() {
    assert!(!is_success_status(199));
    assert!(is_success_status(200));
    assert!(is_success_status(204));
    assert!(is_success_status(299));
    assert!(!is_success_status(300));
    assert!(!is_success_status(404));
    assert!(!is_success_status(500));
}

#[test]
fn game_event_path_names_the_game() {
    assert_eq!(game_event_path("testId"), "/bot/game/stream/testId");
}

#[test]
fn accept_challenge_success() {
    let request = request_to(Endpoint::AcceptChallenge {
        challenge_id: "testChallengeId".to_owned(),
    });

    assert_eq!(request.method, HttpMethod::Post);
    assert_eq!(request.url, "http://127.0.0.1:1234/challenge/testChallengeId/accept");
    assert_eq!(request.body, RequestBody::Empty);
    assert!(is_success_status(200));
}

#[test]
fn decline_challenge_success_without_reason() {
    let request = request_to(Endpoint::DeclineChallenge {
        challenge_id: "testChallengeId".to_owned(),
        reason: None,
    });

    assert_eq!(request.method, HttpMethod::Post);
    assert_eq!(request.url, "http://127.0.0.1:1234/challenge/testChallengeId/decline");
    assert_eq!(request.body, RequestBody::Json("{}".to_owned()));
    assert!(is_success_status(200));
}

#[test]
fn decline_challenge_success_with_reason() {
    let request = request_to(Endpoint::DeclineChallenge {
        challenge_id: "testChallengeId".to_owned(),
        reason: Some(DeclineReason::Generic),
    });

    assert_eq!(request.method, HttpMethod::Post);
    assert_eq!(request.url, "http://127.0.0.1:1234/challenge/testChallengeId/decline");
    assert_eq!(request.body, RequestBody::Json("{\"reason\":\"generic\"}".to_owned()));
    assert!(is_success_status(200));
}

#[test]
fn make_move_with_and_without_draw_offer() {
    for (offer_draw, expected) in [(false, "false"), (true, "true")] {
        let request = request_to(Endpoint::MakeMove {
            game_id: "testGameId".to_owned(),
            mov: "testMove".to_owned(),
            offer_draw,
        });

        assert_eq!(request.method, HttpMethod::Post);
        assert_eq!(
            request.url,
            format!("http://127.0.0.1:1234/bot/game/testGameId/move/testMove?offeringDraw={}", expected)
        );
        assert_eq!(request.body, RequestBody::Empty);
    }
}

#[test]
fn send_chat_message() {
    let request = request_to(Endpoint::SendChatMessage {
        game_id: "testGameId".to_owned(),
        room: ChatRoom::Player,
        text: "testText".to_owned(),
    });

    assert_eq!(request.method, HttpMethod::Post);
    assert_eq!(request.url, "http://127.0.0.1:1234/bot/game/testGameId/chat");
    assert_eq!(request.body, RequestBody::Form("room=player&text=testText".to_owned()));
    assert!(is_success_status(200));
}

#[test]
fn send_chat_message_encodes_the_text() {
    let request = request_to(Endpoint::SendChatMessage {
        game_id: "g".to_owned(),
        room: ChatRoom::Spectator,
        text: "good game & thanks".to_owned(),
    });

    assert_eq!(request.body, RequestBody::Form("room=spectator&text=good+game+%26+thanks".to_owned()));
}

#[test]
fn abort_game() {
    let request = request_to(Endpoint::AbortGame { game_id: "testGameId".to_owned() });

    assert_eq!(request.method, HttpMethod::Post);
    assert_eq!(request.url, "http://127.0.0.1:1234/bot/game/testGameId/abort");
    assert_eq!(request.body, RequestBody::Empty);
    assert!(is_success_status(200));
}

#[test]
fn resign_game() {
    let request = request_to(Endpoint::ResignGame { game_id: "testGameId".to_owned() });

    assert_eq!(request.method, HttpMethod::Post);
    assert_eq!(request.url, "http://127.0.0.1:1234/bot/game/testGameId/resign");
    assert_eq!(request.body, RequestBody::Empty);
    assert!(is_success_status(200));
}

#[test]
fn offer_or_accept_draw() {
    let request = request_to(Endpoint::OfferOrAcceptDraw { game_id: "testGameId".to_owned() });

    assert_eq!(request.method, HttpMethod::Post);
    assert_eq!(request.url, "http://127.0.0.1:1234/bot/game/testGameId/draw/yes");
    assert_eq!(request.body, RequestBody::Empty);
    assert!(is_success_status(200));
}

#[test]
fn decline_draw() {
    let request = request_to(Endpoint::DeclineDraw { game_id: "testGameId".to_owned() });

    assert_eq!(request.method, HttpMethod::Post);
    assert_eq!(request.url, "http://127.0.0.1:1234/bot/game/testGameId/draw/no");
    assert_eq!(request.body, RequestBody::Empty);
    assert!(is_success_status(200));
}

#[test]
fn add_time() {
    let request = request_to(Endpoint::AddTime { game_id: "testGameId".to_owned(), seconds: 240 });

    assert_eq!(request.method, HttpMethod::Post);
    assert_eq!(request.url, "http://127.0.0.1:1234/round/testGameId/add-time/240");
    assert_eq!(request.body, RequestBody::Empty);
    assert!(is_success_status(200));
}

#[test]
fn add_time_writes_negative_and_zero_seconds() {
    let negative = request_to(Endpoint::AddTime { game_id: "g".to_owned(), seconds: -15 });
    let zero = request_to(Endpoint::AddTime { game_id: "g".to_owned(), seconds: 0 });

    assert_eq!(negative.url, "http://127.0.0.1:1234/round/g/add-time/-15");
    assert_eq!(zero.url, "http://127.0.0.1:1234/round/g/add-time/0");
}

#[test]
fn reading_endpoints_use_get() {
    let cases = [
        (Endpoint::PendingChallenges, "/challenge"),
        (Endpoint::GameChat { game_id: "testGameId".to_owned() }, "/bot/game/testGameId/chat"),
        (Endpoint::Profile { username: "testId".to_owned() }, "/user/testId"),
        (Endpoint::MyProfile, "/account"),
        (Endpoint::MyPreferences, "/account/preferences"),
        (Endpoint::EventStream, "/stream/event"),
        (Endpoint::GameStream { game_id: "testId".to_owned() }, "/bot/game/stream/testId"),
    ];

    for (endpoint, path) in cases {
        assert_eq!(endpoint.path(), path);
        let request = request_to(endpoint);
        assert_eq!(request.method, HttpMethod::Get);
        assert_eq!(request.url, format!("http://127.0.0.1:1234{}", path));
        assert_eq!(request.body, RequestBody::Empty);
    }
}
