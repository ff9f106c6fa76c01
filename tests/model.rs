use libot::model::bool_from_integer;
use libot::text::i32_to_decimal;
use libot::model::challenge::DeclineReason;
use libot::model::game::chat::ChatRoom;
use libot::model::game::{
    decode_game_status, decode_variant, game_status_from_id, game_status_from_name, GameStatus,
    GameStatusError, Variant,
};
use libot::model::request::{chat_message_form, decline_request_body, move_query};

const STATUSES: [(i64, &str, GameStatus); 13] = [
    (10, "created", GameStatus::Created),
    (20, "started", GameStatus::Started),
    (25, "aborted", GameStatus::Aborted),
    (30, "mate", GameStatus::Mate),
    (31, "resign", GameStatus::Resign),
    (32, "stalemate", GameStatus::Stalemate),
    (33, "timeout", GameStatus::Timeout),
    (34, "draw", GameStatus::Draw),
    (35, "outoftime", GameStatus::OutOfTime),
    (36, "cheat", GameStatus::Cheat),
    (37, "noStart", GameStatus::NoStart),
    (38, "unknownFinish", GameStatus::UnknownFinish),
    (60, "variantEnd", GameStatus::VariantEnd),
];

#[test]
fn parse_game_status_works_for_id_only() {
    for (id, _, expected) in STATUSES {
        assert_eq!(decode_game_status(Some(id), None), Ok(Some(expected)));
        assert_eq!(game_status_from_id(id), Ok(expected));
    }
}

#[test]
fn parse_game_status_works_for_name_only() {
    for (_, name, expected) in STATUSES {
        assert_eq!(decode_game_status(None, Some(name)), Ok(Some(expected)));
        assert_eq!(game_status_from_name(name), Ok(expected));
    }
}

#[test]
fn parse_game_status_works_for_id_and_name() {
    for (id, name, expected) in STATUSES {
        assert_eq!(decode_game_status(Some(id), Some(name)), Ok(Some(expected)));
    }
}

#[test]
fn parse_game_status_fails() {
    assert_eq!(decode_game_status(Some(5), None), Err(GameStatusError::UnknownId(5)));
    assert_eq!(
        decode_game_status(None, Some("help")),
        Err(GameStatusError::UnknownName("help".to_owned()))
    );
    assert_eq!(
        decode_game_status(Some(10), Some("aborted")),
        Err(GameStatusError::IdNameMismatch(10, "aborted".to_owned()))
    );
}

#[test]
fn unknown_id_is_reported_before_unknown_name() {
    assert_eq!(decode_game_status(Some(5), Some("help")), Err(GameStatusError::UnknownId(5)));
    assert_eq!(
        decode_game_status(Some(10), Some("help")),
        Err(GameStatusError::UnknownName("help".to_owned()))
    );
}

#[test]
fn parse_game_status_is_none() {
    assert_eq!(decode_game_status(None, None), Ok(None));
}

#[test]
fn status_names_are_case_sensitive() {
    assert_eq!(
        game_status_from_name("Created"),
        Err(GameStatusError::UnknownName("Created".to_owned()))
    );
    assert_eq!(
        game_status_from_name("nostart"),
        Err(GameStatusError::UnknownName("nostart".to_owned()))
    );
}

#[test]
fn game_status_is_running() {
    for (_, _, status) in STATUSES {
        let expected = matches!(status, GameStatus::Created | GameStatus::Started);
        assert_eq!(status.is_running(), expected);
    }
}

#[test]
fn variant_decodes_from_key_and_empty_object_to_none() {
    assert_eq!(decode_variant(Some("chess960")), Ok(Some(Variant::Chess960)));
    assert_eq!(decode_variant(None), Ok(None));
    let keys = [
        ("standard", Variant::Standard),
        ("chess960", Variant::Chess960),
        ("crazyhouse", Variant::Crazyhouse),
        ("antichess", Variant::Antichess),
        ("atomic", Variant::Atomic),
        ("horde", Variant::Horde),
        ("kingOfTheHill", Variant::KingOfTheHill),
        ("racingKings", Variant::RacingKings),
        ("threeCheck", Variant::ThreeCheck),
        ("fromPosition", Variant::FromPosition),
    ];
    for (key, variant) in keys {
        assert_eq!(decode_variant(Some(key)), Ok(Some(variant)));
    }
}

#[test]
fn variant_with_unknown_key_is_refused() {
    let result = decode_variant(Some("bughouse"));

    assert_eq!(result.unwrap_err().key, "bughouse");
}

#[test]
fn model_serialize_decline_request_without_reason() {
    let serialized = decline_request_body(None);

    assert_eq!(serialized, "{}".to_owned());
}

#[test]
fn request_serialize_decline_request_without_reason() {
    let serialized = decline_request_body(None);

    assert_eq!(serialized, "{}".to_owned());
}

#[test]
fn serialize_decline_request_with_reason() {
    let cases = [
        (DeclineReason::Generic, r#"{"reason":"generic"}"#),
        (DeclineReason::Later, r#"{"reason":"later"}"#),
        (DeclineReason::TooFast, r#"{"reason":"tooFast"}"#),
        (DeclineReason::TooSlow, r#"{"reason":"tooSlow"}"#),
        (DeclineReason::TimeControl, r#"{"reason":"timeControl"}"#),
        (DeclineReason::Rated, r#"{"reason":"rated"}"#),
        (DeclineReason::Casual, r#"{"reason":"casual"}"#),
        (DeclineReason::Standard, r#"{"reason":"standard"}"#),
        (DeclineReason::Variant, r#"{"reason":"variant"}"#),
        (DeclineReason::NoBot, r#"{"reason":"noBot"}"#),
        (DeclineReason::OnlyBot, r#"{"reason":"onlyBot"}"#),
    ];
    for (reason, expected_json) in cases {
        assert_eq!(decline_request_body(Some(reason)), expected_json.to_owned());
    }
}

#[test]
fn chat_form_and_move_query() {
    assert_eq!(chat_message_form(ChatRoom::Player, "testText"), "room=player&text=testText");
    assert_eq!(chat_message_form(ChatRoom::Spectator, "a=b"), "room=spectator&text=a%3Db");
    assert_eq!(move_query(true), "offeringDraw=true");
    assert_eq!(move_query(false), "offeringDraw=false");
}

#[test]
fn json_body_of_a_reason_is_quoted() {
    assert_eq!(decline_request_body(Some(DeclineReason::TooFast)), "{\"reason\":\"tooFast\"}");
}

#[test]
fn integers_are_written_in_decimal() {
    assert_eq!(i32_to_decimal(0), "0");
    assert_eq!(i32_to_decimal(7), "7");
    assert_eq!(i32_to_decimal(240), "240");
    assert_eq!(i32_to_decimal(-15), "-15");
    assert_eq!(i32_to_decimal(i32::MAX), "2147483647");
    assert_eq!(i32_to_decimal(i32::MIN), "-2147483648");
}

#[test]
fn preference_flags_decode_from_zero_and_one_only() {
    assert_eq!(bool_from_integer(0), Some(false));
    assert_eq!(bool_from_integer(1), Some(true));
    assert_eq!(bool_from_integer(2), None);
    assert_eq!(bool_from_integer(-1), None);
}
