use serde_json::Value;
use std::str::FromStr;
use vimeet::json::decimal_text;
use vimeet::json::parse_decimal;
use vimeet::messages::inbound;
use vimeet::messages::inbound::GetMessageType;
use vimeet::messages::outbound;
use vimeet::messages::outbound::Types;
use vimeet::server::Raised;
use vimeet::server::User;

fn json(text: &str) -> Value {
    serde_json::from_str(text).unwrap()
}

#[test]
fn decimal_text_writes_plain_numerals() {
    assert_eq!(decimal_text(0), "0");
    assert_eq!(decimal_text(7), "7");
    assert_eq!(decimal_text(10), "10");
    assert_eq!(decimal_text(12345), "12345");
    assert_eq!(decimal_text(1000000007), "1000000007");
    assert_eq!(decimal_text(u64::MAX), "18446744073709551615");
}

#[test]
fn decimal_text_agrees_with_std() {
    let mut n: u64 = 1;
    for _ in 0..64 {
        assert_eq!(decimal_text(n), n.to_string());
        assert_eq!(decimal_text(n - 1), (n - 1).to_string());
        n = n.wrapping_mul(2);
    }
}

#[test]
fn parse_decimal_reads_unsigned_numbers() {
    assert_eq!(parse_decimal("0"), Some(0));
    assert_eq!(parse_decimal("2"), Some(2));
    assert_eq!(parse_decimal("+5"), Some(5));
    assert_eq!(parse_decimal("007"), Some(7));
    assert_eq!(parse_decimal("18446744073709551615"), Some(u64::MAX));
}

#[test]
fn parse_decimal_refuses_everything_else() {
    assert_eq!(parse_decimal(""), None);
    assert_eq!(parse_decimal("+"), None);
    assert_eq!(parse_decimal("-1"), None);
    assert_eq!(parse_decimal("++1"), None);
    assert_eq!(parse_decimal("1+"), None);
    assert_eq!(parse_decimal(" 1"), None);
    assert_eq!(parse_decimal("1 "), None);
    assert_eq!(parse_decimal("12a"), None);
    assert_eq!(parse_decimal("1.5"), None);
    assert_eq!(parse_decimal("\"2\""), None);
    assert_eq!(parse_decimal("١٢"), None);
    assert_eq!(parse_decimal("18446744073709551616"), None);
    assert_eq!(parse_decimal("99999999999999999999999"), None);
}

#[test]
fn parse_decimal_agrees_with_std() {
    let samples = [
        "", "0", "1", "+1", "-0", "+", "00", "+00012", "18446744073709551615",
        "18446744073709551616", "18446744073709551625", "1844674407370955161", "x", "1x", "x1",
        "1_000", "0x10", " 7", "7\n", "+-3",
    ];
    for s in samples {
        assert_eq!(parse_decimal(s), s.parse::<u64>().ok(), "{:?}", s);
    }
}

#[test]
fn outbound_type_names_are_the_wire_names() {
    assert_eq!(Types::Joined.name(), "joined");
    assert_eq!(Types::All.name(), "all");
    assert_eq!(Types::SelfStatus.name(), "self");
    assert_eq!(Types::Raised.name(), "raised");
    assert_eq!(Types::Lower.name(), "lower");
    assert_eq!(Types::Instant.name(), "instant");
    assert_eq!(Types::Elevated.name(), "elevated");
    assert_eq!(Types::Receded.name(), "receded");
    assert_eq!(Types::Error.name(), "error");
    assert_eq!(Types::VoteDelete.name(), "deletevote");
    assert_eq!(Types::Poll.name(), "poll");
    assert_eq!(Types::PollOption.name(), "polloption");
    assert_eq!(Types::Vote.name(), "vote");
    assert_eq!(Types::PollClose.name(), "closepoll");
}

#[test]
fn inbound_types_are_read_from_their_names() {
    assert_eq!(inbound::Types::from_str("raise").unwrap(), inbound::Types::Raise);
    assert_eq!(inbound::Types::from_str("lower").unwrap(), inbound::Types::Lower);
    assert_eq!(inbound::Types::from_str("instant").unwrap(), inbound::Types::Instant);
    assert_eq!(inbound::Types::from_str("elevate").unwrap(), inbound::Types::Elevate);
    assert_eq!(inbound::Types::from_str("recede").unwrap(), inbound::Types::Recede);
    assert_eq!(inbound::Types::from_str("poll").unwrap(), inbound::Types::Poll);
    assert_eq!(inbound::Types::from_str("polloption").unwrap(), inbound::Types::PollOption);
    assert_eq!(inbound::Types::from_str("vote").unwrap(), inbound::Types::Vote);
    assert_eq!(inbound::Types::from_str("closepoll").unwrap(), inbound::Types::PollClose);
    assert_eq!(inbound::Types::named("vote").unwrap(), inbound::Types::Vote);
}

#[test]
fn unknown_inbound_type_is_an_error() {
    assert!(inbound::Types::from_str("").is_err());
    assert!(inbound::Types::from_str("Raise").is_err());
    assert!(inbound::Types::from_str("raise ").is_err());
    assert!(inbound::Types::from_str("joined").is_err());
    assert!(inbound::Types::from_str("pollclose").is_err());
    assert!(inbound::Types::named("NOT PARSEABLE").is_err());
}

#[test]
fn invalid_message_type_says_so() {
    let error = inbound::Types::from_str("dance").unwrap_err();
    assert_eq!(error.message(), "Invalid message type");
    assert_eq!(outbound::InvalidMessageType.message(), "Invalid message type");
}

#[test]
fn inbound_skeletons_tell_their_type() {
    let a = inbound::ArbitraryObject { kind: "instant".to_string(), object: "[1,2]".to_string() };
    assert_eq!(a.get_type().unwrap(), inbound::Types::Instant);
    let u = inbound::UsizeObject { kind: "elevate".to_string(), object: 2 };
    assert_eq!(u.get_type().unwrap(), inbound::Types::Elevate);
    let h = inbound::HashMapObject {
        kind: "vote".to_string(),
        object: vec![("pollobject".to_string(), "lunch".to_string())],
    };
    assert_eq!(h.get_type().unwrap(), inbound::Types::Vote);
    let bad = inbound::UsizeObject { kind: "nothing".to_string(), object: 2 };
    assert!(bad.get_type().is_err());
}

#[test]
fn outbound_skeletons_tell_their_type() {
    let p = outbound::Poll { kind: Types::Poll, object: "lunch".to_string() };
    assert_eq!(outbound::GetMessageType::get_type(&p).unwrap(), Types::Poll);
    let c = outbound::PermissionChange { kind: Types::Receded, object: 2, elevated: false };
    assert_eq!(outbound::GetMessageType::get_type(&c).unwrap(), Types::Receded);
}

#[test]
fn writers_put_members_in_key_order() {
    assert_eq!(
        outbound::write_titled(Types::Poll, "\"lunch\""),
        r#"{"object":"lunch","type":"poll"}"#
    );
    assert_eq!(
        outbound::write_titled(Types::PollClose, "\"lunch\""),
        r#"{"object":"lunch","type":"closepoll"}"#
    );
    assert_eq!(
        outbound::write_poll_option("\"lunch\"", "\"pizza\""),
        r#"{"pollobject":"lunch","polloptionobject":"pizza","type":"polloption"}"#
    );
    assert_eq!(
        outbound::write_vote("\"lunch\"", "\"pizza\"", "\"bob\"", 2),
        r#"{"pollobject":"lunch","polloptionobject":"pizza","type":"vote","userid":2,"username":"bob"}"#
    );
    assert_eq!(
        outbound::write_vote_delete("\"lunch\"", "\"pizza\"", 0),
        r#"{"pollobject":"lunch","polloptionobject":"pizza","type":"deletevote","userid":0}"#
    );
    assert_eq!(
        outbound::write_error("\"not_raised\"", "\"no\""),
        r#"{"description":"no","object":"not_raised","type":"error"}"#
    );
    assert_eq!(
        outbound::write_owned(Types::Instant, 12, "\"bob\"", "{\"a\":[1]}", true),
        r#"{"elevated":true,"object":{"a":[1]},"owner_id":12,"owner_name":"bob","type":"instant"}"#
    );
    assert_eq!(
        outbound::write_permission(Types::SelfStatus, 1, true),
        r#"{"elevated":true,"object":1,"type":"self"}"#
    );
    assert_eq!(
        outbound::write_permission(Types::Receded, 20, false),
        r#"{"elevated":false,"object":20,"type":"receded"}"#
    );
    assert_eq!(
        outbound::write_joined(2, "\"bob\"", false),
        r#"{"object":{"elevated":false,"id":2,"name":"bob"},"type":"joined"}"#
    );
    assert_eq!(
        outbound::write_member_entry(1, "\"alice\"", true),
        r#""1":{"elevated":true,"name":"alice"}"#
    );
    assert_eq!(
        outbound::write_raised_entry("\"topic\"", 2, "\"bob\""),
        r#"{"object":"topic","owner_id":2,"owner_name":"bob"}"#
    );
}

#[test]
fn commas_stand_between_items_only() {
    assert_eq!(outbound::join_with_commas(&vec![]), "");
    assert_eq!(outbound::join_with_commas(&vec!["a".to_string()]), "a");
    assert_eq!(
        outbound::join_with_commas(&vec!["a".to_string(), "".to_string(), "c".to_string()]),
        "a,,c"
    );
    assert_eq!(
        outbound::write_all(&vec!["\"1\":1".to_string(), "\"2\":2".to_string()], &vec![]),
        r#"{"joined":{"1":1,"2":2},"raised":[],"type":"all"}"#
    );
}

#[test]
fn strings_are_quoted_and_escaped() {
    let frame = outbound::Poll { kind: Types::Poll, object: "say \"hi\"\\\n\u{1}é".to_string() };
    let text = frame.to_json();
    assert_eq!(text, "{\"object\":\"say \\\"hi\\\"\\\\\\n\\u0001é\",\"type\":\"poll\"}");
    assert_eq!(json(&text)["object"], Value::String("say \"hi\"\\\n\u{1}é".to_string()));
}

#[test]
fn every_frame_is_json_with_its_fields() {
    let vote = outbound::Vote {
        kind: Types::Vote,
        pollobject: "lunch".to_string(),
        polloptionobject: "pizza".to_string(),
        username: "bob".to_string(),
        userid: 2,
    };
    assert_eq!(
        json(&vote.to_json()),
        json(r#"{"type":"vote","pollobject":"lunch","polloptionobject":"pizza","username":"bob","userid":2}"#)
    );
    let gone = outbound::VoteDelete {
        kind: Types::VoteDelete,
        pollobject: "lunch".to_string(),
        polloptionobject: "pizza".to_string(),
        userid: 2,
    };
    assert_eq!(
        json(&gone.to_json()),
        json(r#"{"type":"deletevote","pollobject":"lunch","polloptionobject":"pizza","userid":2}"#)
    );
    let error = outbound::Error {
        kind: Types::Error,
        object: "poll_closed".to_string(),
        description: "Sorry, the poll is already closed".to_string(),
    };
    assert_eq!(
        json(&error.to_json()),
        json(r#"{"type":"error","object":"poll_closed","description":"Sorry, the poll is already closed"}"#)
    );
    let option = outbound::PollOption {
        kind: Types::PollOption,
        pollobject: "lunch".to_string(),
        polloptionobject: "pizza".to_string(),
    };
    assert_eq!(
        json(&option.to_json()),
        json(r#"{"type":"polloption","pollobject":"lunch","polloptionobject":"pizza"}"#)
    );
    let close = outbound::PollClose { kind: Types::PollClose, object: "lunch".to_string() };
    assert_eq!(json(&close.to_json()), json(r#"{"type":"closepoll","object":"lunch"}"#));
    let joined = outbound::User {
        kind: Types::Joined,
        object: outbound::UserFormat { id: 2, name: "bob".to_string(), elevated: false },
    };
    assert_eq!(
        json(&joined.to_json()),
        json(r#"{"type":"joined","object":{"id":2,"name":"bob","elevated":false}}"#)
    );
    let owned = outbound::OwnedObject {
        kind: Types::Lower,
        owner_id: 2,
        owner_name: "bob".to_string(),
        object: "\"topic\"".to_string(),
        elevated: false,
    };
    assert_eq!(
        json(&owned.to_json()),
        json(r#"{"type":"lower","owner_id":2,"owner_name":"bob","object":"topic","elevated":false}"#)
    );
    let elevated = outbound::PermissionChange { kind: Types::Elevated, object: 2, elevated: true };
    assert_eq!(
        json(&elevated.to_json()),
        json(r#"{"type":"elevated","object":2,"elevated":true}"#)
    );
}

#[test]
fn snapshot_lists_flags_and_users() {
    let all = outbound::All {
        kind: Types::All,
        raised: vec![
            Raised { object: "\"a\"".to_string(), owner_id: 2, owner_name: "bob".to_string() },
            Raised { object: "{\"k\":1}".to_string(), owner_id: 1, owner_name: "al\"ice".to_string() },
        ],
        joined: vec![
            (1, User { name: "al\"ice".to_string(), elevated: true }),
            (2, User { name: "bob".to_string(), elevated: false }),
            (10, User { name: "".to_string(), elevated: false }),
        ],
    };
    let text = all.to_json();
    assert_eq!(
        text,
        "{\"joined\":{\"1\":{\"elevated\":true,\"name\":\"al\\\"ice\"},\"2\":{\"elevated\":false,\"name\":\"bob\"},\"10\":{\"elevated\":false,\"name\":\"\"}},\"raised\":[{\"object\":\"a\",\"owner_id\":2,\"owner_name\":\"bob\"},{\"object\":{\"k\":1},\"owner_id\":1,\"owner_name\":\"al\\\"ice\"}],\"type\":\"all\"}"
    );
    let value = json(&text);
    assert_eq!(value["joined"]["10"]["name"], Value::String(String::new()));
    assert_eq!(value["raised"][1]["object"]["k"], json("1"));
    assert_eq!(outbound::snapshot_json(&all.raised, &all.joined), text);
}

#[test]
fn empty_snapshot_has_empty_lists() {
    assert_eq!(
        outbound::snapshot_json(&vec![], &vec![]),
        r#"{"joined":{},"raised":[],"type":"all"}"#
    );
}

#[test]
fn flags_are_equal_by_object_and_owner() {
    let a = Raised { object: "\"t\"".to_string(), owner_id: 2, owner_name: "bob".to_string() };
    let b = Raised { object: "\"t\"".to_string(), owner_id: 2, owner_name: "robert".to_string() };
    let c = Raised { object: "\"t\"".to_string(), owner_id: 3, owner_name: "bob".to_string() };
    let d = Raised { object: "\"u\"".to_string(), owner_id: 2, owner_name: "bob".to_string() };
    assert!(a == b);
    assert!(a != c);
    assert!(a != d);
}
