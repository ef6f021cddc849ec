use ossm::ble::{
    get_all_patterns_json, get_pattern_description, parse_command, pattern_description_reply,
    process_command, CommandString, InputField, PatternText, RemoteAction,
};
use ossm::engine::PatternMeta;

fn command(text: &str) -> CommandString {
    let mut c = CommandString::new();
    assert!(c.push_str(text));
    c
}

#[test]
fn set_commands() {
    assert_eq!(
        parse_command(b"set:speed:50"),
        Some(RemoteAction::SetInput { field: InputField::Speed, percent: 50 })
    );
    assert_eq!(
        parse_command(b"set:stroke:150"),
        Some(RemoteAction::SetInput { field: InputField::Stroke, percent: 100 })
    );
    assert_eq!(
        parse_command(b"set:depth:+7:extra"),
        Some(RemoteAction::SetInput { field: InputField::Depth, percent: 7 })
    );
    assert_eq!(
        parse_command(b"set:sensation:0"),
        Some(RemoteAction::SetInput { field: InputField::Sensation, percent: 0 })
    );
    assert_eq!(parse_command(b"set:pattern:3"), Some(RemoteAction::PlayPattern(3)));
    assert_eq!(parse_command(b"set:pattern:4294967295"), Some(RemoteAction::PlayPattern(4294967295)));
}

#[test]
fn refused_commands() {
    assert_eq!(parse_command(b"set:speed:4294967296"), None);
    assert_eq!(parse_command(b"set:speed:-1"), None);
    assert_eq!(parse_command(b"set:speed:+"), None);
    assert_eq!(parse_command(b"set:speed:"), None);
    assert_eq!(parse_command(b"set:speed:5x"), None);
    assert_eq!(parse_command(b"set:speed"), None);
    assert_eq!(parse_command(b"set:volume:5"), None);
    assert_eq!(parse_command(b"set"), None);
    assert_eq!(parse_command(b""), None);
    assert_eq!(parse_command(b"go:nowhere"), None);
    assert_eq!(parse_command(b"jump:speed:5"), None);
    assert_eq!(parse_command(b"SET:speed:5"), None);
}

#[test]
fn go_commands() {
    assert_eq!(parse_command(b"go:simplePenetration"), Some(RemoteAction::Go));
    assert_eq!(parse_command(b"go:strokeEngine"), Some(RemoteAction::Go));
    assert_eq!(parse_command(b"go:menu:ignored"), Some(RemoteAction::Go));
}

#[test]
fn replies() {
    let r = process_command(&command("set:speed:50"));
    assert_eq!(r.action, Some(RemoteAction::SetInput { field: InputField::Speed, percent: 50 }));
    assert_eq!(r.response.as_str(), "ok:set:speed:50");
    let r = process_command(&command("bogus"));
    assert_eq!(r.action, None);
    assert_eq!(r.response.as_str(), "fail:bogus");
    let long = "go:menu:".to_string() + &"x".repeat(56);
    assert_eq!(long.len(), 64);
    let r = process_command(&command(&long));
    assert_eq!(r.action, Some(RemoteAction::Go));
    assert_eq!(r.response.as_str(), "ok:overflow");
    let fits = "go:menu:".to_string() + &"x".repeat(53);
    let r = process_command(&command(&fits));
    assert_eq!(r.response.as_str(), "ok:".to_string() + &fits);
    let bad = "x".repeat(60);
    let r = process_command(&command(&bad));
    assert_eq!(r.response.as_str(), "fail:overflow");
}

#[test]
fn command_string_capacity() {
    let mut c = CommandString::new();
    assert!(c.push_str(&"a".repeat(64)));
    assert!(!c.push_str("b"));
    assert_eq!(c.as_str().len(), 64);
}

fn patterns() -> Vec<PatternMeta> {
    vec![
        PatternMeta { name: "Simple", description: "In and out" },
        PatternMeta { name: "Teasing", description: "Short strokes" },
    ]
}

#[test]
fn patterns_json() {
    let out = get_all_patterns_json(&patterns());
    assert_eq!(
        out.as_str(),
        r#"[{"name":"Simple","idx":0},{"name":"Teasing","idx":1}]"#
    );
    let out = get_all_patterns_json(&[]);
    assert_eq!(out.as_str(), "]");
}

#[test]
fn patterns_json_overflow_stays_bounded() {
    let many: Vec<PatternMeta> = (0..20)
        .map(|_| PatternMeta { name: "A fairly long pattern name", description: "" })
        .collect();
    let out = get_all_patterns_json(&many);
    assert!(out.as_str().len() <= 256);
    let mut expected = String::from("[");
    for i in 0..5 {
        expected.push_str(&format!("{{\"name\":\"A fairly long pattern name\",\"idx\":{}}},", i));
    }
    expected.push_str("{\"name\":]");
    assert_eq!(out.as_str(), expected);
}

#[test]
fn patterns_json_overflow_inside_a_name_drops_a_whole_character() {
    let name: &'static str = Box::leak("\u{e9}".repeat(120).into_boxed_str());
    let ps = [PatternMeta { name, description: "" }];
    let out = get_all_patterns_json(&ps);
    let expected = format!("[{{\"name\":\"{}]", "\u{e9}".repeat(119));
    assert_eq!(out.as_str(), expected);
}

#[test]
fn patterns_json_overflow_at_the_index_digits() {
    let name: &'static str = Box::leak("a".repeat(238).into_boxed_str());
    let ps = [PatternMeta { name, description: "" }];
    let out = get_all_patterns_json(&ps);
    let expected = format!("[{{\"name\":\"{}\",\"idx\"]", "a".repeat(238));
    assert_eq!(out.as_str(), expected);
}

#[test]
fn pattern_descriptions() {
    assert_eq!(get_pattern_description(&patterns(), 1).as_str(), "Short strokes");
    assert_eq!(get_pattern_description(&patterns(), 2).as_str(), "Invalid pattern index");
    let long: &'static str = Box::leak("d".repeat(300).into_boxed_str());
    let ps = [PatternMeta { name: "Long", description: long }];
    assert_eq!(get_pattern_description(&ps, 0).as_str(), "Pattern Description Too Long");
}

#[test]
fn pattern_text_pop_and_push() {
    let mut t = PatternText::new();
    assert!(!t.pop());
    assert!(t.push_char('['));
    assert!(t.push_str("ab"));
    assert!(t.pop());
    assert_eq!(t.as_str(), "[a");
}

fn request(text: &str) -> PatternText {
    let mut t = PatternText::new();
    assert!(t.push_str(text));
    t
}

#[test]
fn pattern_description_requests() {
    assert_eq!(pattern_description_reply(&patterns(), &request("0")).as_str(), "In and out");
    assert_eq!(pattern_description_reply(&patterns(), &request("+1")).as_str(), "Short strokes");
    assert_eq!(
        pattern_description_reply(&patterns(), &request("7")).as_str(),
        "Invalid pattern index"
    );
    assert_eq!(
        pattern_description_reply(&patterns(), &request("one")).as_str(),
        "Could not parse pattern index"
    );
    assert_eq!(
        pattern_description_reply(&patterns(), &request("")).as_str(),
        "Could not parse pattern index"
    );
    assert_eq!(
        pattern_description_reply(&patterns(), &request("99999999999999999999999")).as_str(),
        "Could not parse pattern index"
    );
}
