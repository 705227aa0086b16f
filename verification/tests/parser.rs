use vimeet::coordinator::Command;
use vimeet::session::classify;
use vimeet::session::parse_frame;
use vimeet::session::read_members;
use vimeet::session::trim;
use vimeet::session::white_space;
use vimeet::session::Member;

fn parse(text: &str) -> Option<Command> {
    parse_frame(text, 7, &"bob".to_string(), &"R".to_string())
}

#[test]
fn raise_needs_a_string() {
    match parse(r#"{"type":"raise","raiseobject":"topic"}"#) {
        Some(Command::Raise(m)) => {
            assert_eq!(m.object, "\"topic\"");
            assert_eq!(m.owner_id, 7);
            assert_eq!(m.owner_name, "bob");
            assert_eq!(m.room_name, "R");
        }
        _ => panic!("no raise"),
    }
    assert!(parse(r#"{"type":"raise","raiseobject":5}"#).is_none());
    assert!(parse(r#"{"type":"raise","raiseobject":null}"#).is_none());
    assert!(parse(r#"{"type":"raise","lowerobject":"topic"}"#).is_none());
    assert!(parse(r#"{"type":"raise"}"#).is_none());
}

#[test]
fn lower_needs_a_string() {
    match parse(r#"{"lowerobject":"a \"b\"","type":"lower"}"#) {
        Some(Command::Lower(m)) => {
            assert_eq!(m.object, r#""a \"b\"""#);
            assert_eq!(m.owner_id, 7);
            assert_eq!(m.owner_name, "bob");
            assert_eq!(m.room_name, "R");
        }
        _ => panic!("no lower"),
    }
    assert!(parse(r#"{"type":"lower","lowerobject":["topic"]}"#).is_none());
    assert!(parse(r#"{"type":"lower","raiseobject":"topic"}"#).is_none());
}

#[test]
fn instant_takes_any_value() {
    match parse(r#"{"type":"instant","instantobject": { "b" : [1, 2.5, null], "a": "x" } }"#) {
        Some(Command::Instant(m)) => {
            assert_eq!(m.object, r#"{"a":"x","b":[1,2.5,null]}"#);
            assert_eq!(m.owner_id, 7);
        }
        _ => panic!("no instant"),
    }
    match parse(r#"{"type":"instant","instantobject":null}"#) {
        Some(Command::Instant(m)) => assert_eq!(m.object, "null"),
        _ => panic!("no instant"),
    }
    match parse(r#"{"type":"instant","instantobject":"wave"}"#) {
        Some(Command::Instant(m)) => assert_eq!(m.object, "\"wave\""),
        _ => panic!("no instant"),
    }
    assert!(parse(r#"{"type":"instant"}"#).is_none());
}

#[test]
fn poll_needs_a_title() {
    match parse(r#"{"type":"poll","pollobject":"lunch"}"#) {
        Some(Command::Poll(m)) => {
            assert_eq!(m.title, "lunch");
            assert_eq!(m.owner_id, 7);
            assert_eq!(m.owner_name, "bob");
            assert_eq!(m.room_name, "R");
            assert!(m.options.is_empty());
            assert!(m.votes.is_empty());
            assert!(!m.closed);
        }
        _ => panic!("no poll"),
    }
    assert!(parse(r#"{"type":"poll","pollobject":1}"#).is_none());
    assert!(parse(r#"{"type":"poll"}"#).is_none());
}

#[test]
fn polloption_needs_both_titles() {
    match parse(r#"{"type":"polloption","pollobject":"lunch","polloptionobject":"pizza"}"#) {
        Some(Command::PollOption(m)) => {
            assert_eq!(m.poll_title, "lunch");
            assert_eq!(m.title, "pizza");
            assert_eq!(m.owner_id, 7);
            assert_eq!(m.owner_name, "bob");
            assert_eq!(m.room_name, "R");
        }
        _ => panic!("no option"),
    }
    assert!(parse(r#"{"type":"polloption","pollobject":"lunch"}"#).is_none());
    assert!(parse(r#"{"type":"polloption","polloptionobject":"pizza"}"#).is_none());
    assert!(parse(r#"{"type":"polloption","pollobject":"lunch","polloptionobject":3}"#).is_none());
}

#[test]
fn vote_needs_both_titles() {
    match parse(r#"{"type":"vote","pollobject":"lunch","polloptionobject":"pizza"}"#) {
        Some(Command::Vote(m)) => {
            assert_eq!(m.poll_title, "lunch");
            assert_eq!(m.option_title, "pizza");
            assert_eq!(m.owner_id, 7);
            assert_eq!(m.owner_name, "bob");
            assert_eq!(m.room_name, "R");
        }
        _ => panic!("no vote"),
    }
    assert!(parse(r#"{"type":"vote","pollobject":"lunch"}"#).is_none());
    assert!(parse(r#"{"type":"vote","pollobject":true,"polloptionobject":"pizza"}"#).is_none());
}

#[test]
fn closepoll_needs_a_title() {
    match parse(r#"{"type":"closepoll","pollobject":"lunch"}"#) {
        Some(Command::PollClose(m)) => {
            assert_eq!(m.poll_title, "lunch");
            assert_eq!(m.sender_id, 7);
            assert_eq!(m.sender_name, "bob");
            assert_eq!(m.room_name, "R");
        }
        _ => panic!("no close"),
    }
    assert!(parse(r#"{"type":"closepoll","object":"lunch"}"#).is_none());
}

#[test]
fn elevate_and_recede_need_a_user_id() {
    match parse(r#"{"type":"elevate","object":"2"}"#) {
        Some(Command::Elevate(m)) => {
            assert_eq!(m.object, 2);
            assert_eq!(m.owner_id, 7);
            assert_eq!(m.room_name, "R");
        }
        _ => panic!("no elevate"),
    }
    match parse(r#"{"type":"recede","object":"18446744073709551615"}"#) {
        Some(Command::Recede(m)) => {
            assert_eq!(m.object, u64::MAX);
            assert_eq!(m.owner_id, 7);
            assert_eq!(m.room_name, "R");
        }
        _ => panic!("no recede"),
    }
    match parse(r#"{"type":"elevate","object":31}"#) {
        Some(Command::Elevate(m)) => assert_eq!(m.object, 31),
        _ => panic!("no elevate"),
    }
    assert!(parse(r#"{"type":"elevate","object":"bob"}"#).is_none());
    assert!(parse(r#"{"type":"elevate","object":""}"#).is_none());
    assert!(parse(r#"{"type":"elevate","object":"-2"}"#).is_none());
    assert!(parse(r#"{"type":"elevate","object":-2}"#).is_none());
    assert!(parse(r#"{"type":"elevate","object":2.5}"#).is_none());
    assert!(parse(r#"{"type":"elevate","object":[2]}"#).is_none());
    assert!(parse(r#"{"type":"elevate","object":"18446744073709551616"}"#).is_none());
    assert!(parse(r#"{"type":"recede","object":null}"#).is_none());
    assert!(parse(r#"{"type":"recede"}"#).is_none());
}

#[test]
fn malformed_frames_are_dropped() {
    assert!(parse("").is_none());
    assert!(parse("hello").is_none());
    assert!(parse("{").is_none());
    assert!(parse(r#"{"type":"raise","raiseobject":"topic""#).is_none());
    assert!(parse(r#"{"type":"raise","raiseobject":"topic"} x"#).is_none());
    assert!(parse(r#"["type","raise"]"#).is_none());
    assert!(parse("null").is_none());
    assert!(parse("7").is_none());
    assert!(parse(r#""raise""#).is_none());
    assert!(parse("{}").is_none());
}

#[test]
fn unknown_or_missing_type_is_dropped() {
    assert!(parse(r#"{"type":"dance","raiseobject":"topic"}"#).is_none());
    assert!(parse(r#"{"type":"RAISE","raiseobject":"topic"}"#).is_none());
    assert!(parse(r#"{"type":5,"raiseobject":"topic"}"#).is_none());
    assert!(parse(r#"{"type":["raise"],"raiseobject":"topic"}"#).is_none());
    assert!(parse(r#"{"raiseobject":"topic"}"#).is_none());
    assert!(parse(r#"{"Type":"raise","raiseobject":"topic"}"#).is_none());
    assert!(parse(r#"{"type":"joined","object":{}}"#).is_none());
}

#[test]
fn white_space_around_a_frame_is_ignored() {
    assert!(parse("  \r\n\t{\"type\":\"poll\",\"pollobject\":\"lunch\"}\n").is_some());
    assert!(parse("\u{a0}\u{2003}{\"type\":\"poll\",\"pollobject\":\"lunch\"}\u{3000}\u{85}").is_some());
    assert!(parse("{ \"type\" : \"poll\" , \"pollobject\" : \"lunch\" }").is_some());
    assert!(parse("\u{feff}{\"type\":\"poll\",\"pollobject\":\"lunch\"}").is_none());
}

#[test]
fn extra_members_do_no_harm() {
    match parse(r#"{"zz":[1,{"a":2}],"type":"raise","raiseobject":"t","lowerobject":4}"#) {
        Some(Command::Raise(m)) => assert_eq!(m.object, "\"t\""),
        _ => panic!("no raise"),
    }
}

#[test]
fn the_last_of_two_equal_keys_counts() {
    match parse(r#"{"type":"raise","type":"lower","lowerobject":"t","raiseobject":"t"}"#) {
        Some(Command::Lower(m)) => assert_eq!(m.object, "\"t\""),
        _ => panic!("no lower"),
    }
}

#[test]
fn members_come_with_text_and_string() {
    let members = read_members(r#"{"b":"x\ny","a":[1, 2],"c":{"k":"v"}}"#).unwrap();
    assert_eq!(members.len(), 3);
    assert_eq!(members[0].key, "a");
    assert_eq!(members[0].text, "[1,2]");
    assert_eq!(members[0].string, None);
    assert_eq!(members[1].key, "b");
    assert_eq!(members[1].text, "\"x\\ny\"");
    assert_eq!(members[1].string, Some("x\ny".to_string()));
    assert_eq!(members[2].key, "c");
    assert_eq!(members[2].text, "{\"k\":\"v\"}");
    assert_eq!(members[2].string, None);
    assert!(read_members("[]").is_none());
    assert!(read_members("null").is_none());
    assert!(read_members("{\"a\":}").is_none());
    assert_eq!(read_members("{}").unwrap().len(), 0);
}

#[test]
fn classify_reads_members_as_given() {
    let member = |key: &str, text: &str, string: Option<&str>| Member {
        key: key.to_string(),
        text: text.to_string(),
        string: string.map(|s| s.to_string()),
    };
    let name = "bob".to_string();
    let room = "R".to_string();
    let members = vec![
        member("type", "\"elevate\"", Some("elevate")),
        member("object", "\"12\"", Some("12")),
        member("object", "\"13\"", Some("13")),
    ];
    match classify(&members, 7, &name, &room) {
        Some(Command::Elevate(m)) => assert_eq!(m.object, 12),
        _ => panic!("no elevate"),
    }
    let members = vec![member("type", "\"recede\"", Some("recede")), member("object", "12", None)];
    match classify(&members, 7, &name, &room) {
        Some(Command::Recede(m)) => assert_eq!(m.object, 12),
        _ => panic!("no recede"),
    }
    let members = vec![member("type", "\"raise\"", None), member("raiseobject", "\"t\"", Some("t"))];
    assert!(classify(&members, 7, &name, &room).is_none());
    let members = vec![member("type", "5", Some("raise")), member("raiseobject", "7", Some("t"))];
    match classify(&members, 7, &name, &room) {
        Some(Command::Raise(m)) => assert_eq!(m.object, "7"),
        _ => panic!("no raise"),
    }
    assert!(classify(&vec![], 7, &name, &room).is_none());
}

#[test]
fn trim_removes_white_space_at_both_ends() {
    assert_eq!(trim(""), "");
    assert_eq!(trim("   "), "");
    assert_eq!(trim("a"), "a");
    assert_eq!(trim(" a b "), "a b");
    assert_eq!(trim("\t\n\u{b}\u{c}\r x\u{85}\u{a0}"), "x");
    assert_eq!(trim("\u{1680}\u{2000}\u{200a}é \u{2028}\u{2029}\u{202f}\u{205f}\u{3000}"), "é");
    assert_eq!(trim("\u{200b}a\u{200b}"), "\u{200b}a\u{200b}");
    assert_eq!(trim("\u{feff}a"), "\u{feff}a");
}

#[test]
fn trim_agrees_with_std() {
    let samples = [
        "", " ", "a", " a", "a ", "  a  b  ", "\n", "\u{a0}x\u{a0}", "\u{180e}x", "日本 ",
        " \u{3000}日本\u{3000} ", "\u{1f}x\u{1f}", "\u{2007}x", "x\u{200a}\u{200b}",
    ];
    for s in samples {
        assert_eq!(trim(s), s.trim(), "{:?}", s);
    }
}

#[test]
fn white_space_is_what_std_calls_white_space() {
    let mut n: u32 = 0;
    while n <= 0x10ffff {
        if let Some(c) = char::from_u32(n) {
            assert_eq!(white_space(c), c.is_whitespace(), "{:x}", n);
        }
        n += 1;
    }
}
