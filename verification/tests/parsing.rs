use access_log_transform::entry::AccessLog;
use access_log_transform::error::LogError;
use access_log_transform::grammar::{fields_from_groups, group_text, LogFields, LogParser};
use access_log_transform::json::{JsonMember, JsonObject, JsonValue};
use access_log_transform::numeric::parse_unsigned;
use access_log_transform::parser::apache_log2json;
use access_log_transform::timestamp::{
    normalise_timestamp, parse_timestamp, render_instant, DualTimestamp, Instant,
};

const SAMPLE: &str = r#"7.248.7.119 - - [14/Dec/2017:22:16:45 +09:00] "GET /explore" 200 9947 "-" "Mozilla/5.0 (Windows NT 6.2; WOW64; rv:8.5) Gecko/20100101 Firefox/8.5.1" "#;

fn parser() -> LogParser {
    LogParser::new().unwrap()
}

fn text(name: &str, value: &str) -> JsonMember {
    JsonMember { name: name.to_string(), value: JsonValue::Text(value.to_string()) }
}

fn number(name: &str, value: u32) -> JsonMember {
    JsonMember { name: name.to_string(), value: JsonValue::Number(value) }
}

fn sample_entry() -> AccessLog {
    AccessLog {
        host: "7.248.7.119".to_string(),
        ident: "-".to_string(),
        authuser: "-".to_string(),
        timestamp: "2017-12-14T22:16:45+09:00".to_string(),
        timestamp_utc: "2017-12-14T13:16:45+00:00".to_string(),
        request: "GET /explore".to_string(),
        response: 200,
        bytes: 9947,
    }
}

fn line_with(timestamp: &str, status: &str, bytes: &str) -> String {
    format!("10.0.0.1 - frank [{}] \"GET / HTTP/1.1\" {} {}", timestamp, status, bytes)
}

#[test]
fn transform_data_test() {
    let data = r#"7.248.7.119 - - [14/Dec/2017:22:16:45 +09:00] "GET /explore" 200 9947 "-" "Mozilla/5.0 (Windows NT 6.2; WOW64; rv:8.5) Gecko/20100101 Firefox/8.5.1" "#;
    let a = apache_log2json(&parser(), data).unwrap();

    println!("{:?}", a);
}

#[test]
fn sample_line_gives_its_json_object() {
    let object = apache_log2json(&parser(), SAMPLE).unwrap();
    let expected = JsonObject {
        members: vec![
            text("host", "7.248.7.119"),
            text("ident", "-"),
            text("authuser", "-"),
            text("@timestamp", "2017-12-14T22:16:45+09:00"),
            text("@timestamp_utc", "2017-12-14T13:16:45+00:00"),
            text("request", "GET /explore"),
            number("response", 200),
            number("bytes", 9947),
        ],
    };
    assert_eq!(object, expected);
}

#[test]
fn sample_line_parses_to_its_entry() {
    assert_eq!(parser().parse(SAMPLE), Ok(sample_entry()));
}

#[test]
fn captures_lists_the_whole_match_and_seven_groups() {
    let groups = parser().captures(SAMPLE).unwrap();
    let expected: Vec<Option<String>> = vec![
        Some(r#"7.248.7.119 - - [14/Dec/2017:22:16:45 +09:00] "GET /explore" 200 9947"#.to_string()),
        Some("7.248.7.119".to_string()),
        Some("-".to_string()),
        Some("-".to_string()),
        Some("14/Dec/2017:22:16:45 +09:00".to_string()),
        Some("GET /explore".to_string()),
        Some("200".to_string()),
        Some("9947".to_string()),
    ];
    assert_eq!(groups, expected);
}

#[test]
fn captures_of_a_foreign_line_is_none() {
    assert_eq!(parser().captures("this is not an access log line"), None);
    assert_eq!(parser().captures(""), None);
}

#[test]
fn captures_are_anchored_at_the_start() {
    let shifted = format!(" {}", SAMPLE);
    assert_eq!(parser().captures(&shifted), None);
}

#[test]
fn empty_brackets_leave_the_timestamp_group_absent() {
    let groups = parser().captures(r#"1.2.3.4 - - [] "GET /" 200 12"#).unwrap();
    assert_eq!(groups.len(), 8);
    assert_eq!(groups[4], None);
    assert_eq!(groups[1], Some("1.2.3.4".to_string()));
}

#[test]
fn request_is_the_shortest_quoted_text() {
    let entry = parser().parse(r#"1.2.3.4 a b [14/Dec/2017:22:16:45 +09:00] "GET /a" 200 1 "x" 404 2"#).unwrap();
    assert_eq!(entry.request, "GET /a");
    assert_eq!(entry.response, 200);
    assert_eq!(entry.bytes, 1);
}

#[test]
fn grammar_mismatch_is_reported() {
    assert_eq!(parser().parse("no log line"), Err(LogError::GrammarMismatch));
    assert_eq!(apache_log2json(&parser(), "no log line"), Err(LogError::GrammarMismatch));
    // Four digits of status do not fit the three that the grammar asks for.
    assert_eq!(
        parser().parse(&line_with("14/Dec/2017:22:16:45 +09:00", "2000", "1")),
        Err(LogError::GrammarMismatch)
    );
}

#[test]
fn absent_timestamp_is_invalid() {
    assert_eq!(
        parser().parse(r#"1.2.3.4 - - [] "GET /" 200 12"#),
        Err(LogError::TimestampInvalid)
    );
}

#[test]
fn unreadable_timestamp_is_invalid() {
    assert_eq!(
        parser().parse(&line_with("99/Foo/2017:22:16:45 +09:00", "200", "12")),
        Err(LogError::TimestampInvalid)
    );
    assert_eq!(
        parser().parse(&line_with("31/Feb/2017:22:16:45 +09:00", "200", "12")),
        Err(LogError::TimestampInvalid)
    );
}

#[test]
fn timestamp_is_judged_before_the_numbers() {
    assert_eq!(
        parser().parse(&line_with("99/Foo/2017:22:16:45 +09:00", "200", "99999999999")),
        Err(LogError::TimestampInvalid)
    );
}

#[test]
fn byte_count_beyond_32_bits_is_invalid() {
    assert_eq!(
        parser().parse(&line_with("14/Dec/2017:22:16:45 +09:00", "200", "4294967296")),
        Err(LogError::NumericInvalid)
    );
    let entry = parser().parse(&line_with("14/Dec/2017:22:16:45 +09:00", "200", "4294967295")).unwrap();
    assert_eq!(entry.bytes, u32::MAX);
}

#[test]
fn digits_outside_ascii_are_invalid_numbers() {
    // The grammar takes any decimal digit; only ASCII digits write a number.
    assert_eq!(
        parser().parse(&line_with("14/Dec/2017:22:16:45 +09:00", "200", "\u{661}\u{662}")),
        Err(LogError::NumericInvalid)
    );
    assert_eq!(
        parser().parse(&line_with("14/Dec/2017:22:16:45 +09:00", "\u{662}00", "12")),
        Err(LogError::NumericInvalid)
    );
}

#[test]
fn dual_timestamp_scenario() {
    let entry = parser().parse(SAMPLE).unwrap();
    assert_eq!(entry.timestamp, "2017-12-14T22:16:45+09:00");
    assert_eq!(entry.timestamp_utc, "2017-12-14T13:16:45+00:00");
}

#[test]
fn offset_format_scenario() {
    let with_colon = parser().parse(&line_with("14/Dec/2017:22:16:45 +09:00", "200", "12")).unwrap();
    let without = parser().parse(&line_with("14/Dec/2017:22:16:45 +0900", "200", "12")).unwrap();
    assert_eq!(with_colon, without);
    assert_eq!(
        parse_timestamp("14/Dec/2017:22:16:45 +0900"),
        parse_timestamp("14/Dec/2017:22:16:45 +09:00")
    );
}

#[test]
fn status_and_bytes_scenario() {
    let entry = parser().parse(SAMPLE).unwrap();
    assert_eq!(entry.response, 200);
    assert_eq!(entry.bytes, 9947);
    let document = entry.to_json().to_vec().unwrap();
    let value: serde_json::Value = serde_json::from_slice(&document).unwrap();
    assert!(value["response"].is_u64());
    assert!(value["bytes"].is_u64());
    assert_eq!(value["response"].as_u64(), Some(200));
    assert_eq!(value["bytes"].as_u64(), Some(9947));
}

#[test]
fn parse_timestamp_gives_instant_and_offset() {
    assert_eq!(
        parse_timestamp("14/Dec/2017:22:16:45 +09:00"),
        Ok(Instant { seconds: 1513257405, nanos: 0, offset: 32400 })
    );
    assert_eq!(
        parse_timestamp("14/Dec/2017:13:16:45 -0130"),
        Ok(Instant { seconds: 1513262805, nanos: 0, offset: -5400 })
    );
    assert_eq!(
        parse_timestamp("01/Jan/1970:00:00:00 +00:00"),
        Ok(Instant { seconds: 0, nanos: 0, offset: 0 })
    );
}

#[test]
fn parse_timestamp_rejects_other_texts() {
    assert_eq!(parse_timestamp(""), Err(LogError::TimestampInvalid));
    assert_eq!(parse_timestamp("14/Dec/2017:22:16:45"), Err(LogError::TimestampInvalid));
    assert_eq!(parse_timestamp("2017-12-14T22:16:45+09:00"), Err(LogError::TimestampInvalid));
    assert_eq!(parse_timestamp("14/Dec/2017:25:16:45 +09:00"), Err(LogError::TimestampInvalid));
}

#[test]
fn instant_renders_at_its_offset_and_at_utc() {
    let instant = Instant { seconds: 1513257405, nanos: 0, offset: 32400 };
    assert_eq!(instant.to_rfc3339(), Some("2017-12-14T22:16:45+09:00".to_string()));
    assert_eq!(instant.to_utc(), Instant { seconds: 1513257405, nanos: 0, offset: 0 });
    assert_eq!(instant.to_utc().to_rfc3339(), Some("2017-12-14T13:16:45+00:00".to_string()));
    assert_eq!(
        render_instant(&instant),
        Some(DualTimestamp {
            local: "2017-12-14T22:16:45+09:00".to_string(),
            utc: "2017-12-14T13:16:45+00:00".to_string(),
        })
    );
}

#[test]
fn instant_with_western_offset_renders_the_day_before() {
    let instant = Instant { seconds: 0, nanos: 0, offset: -3600 };
    assert_eq!(instant.to_rfc3339(), Some("1969-12-31T23:00:00-01:00".to_string()));
    assert_eq!(instant.to_utc().to_rfc3339(), Some("1970-01-01T00:00:00+00:00".to_string()));
}

#[test]
fn instant_outside_the_calendar_does_not_render() {
    assert_eq!(Instant { seconds: 0, nanos: 0, offset: 86400 }.to_rfc3339(), None);
    assert_eq!(Instant { seconds: 0, nanos: 0, offset: -86400 }.to_rfc3339(), None);
    assert_eq!(Instant { seconds: i64::MAX, nanos: 0, offset: 0 }.to_rfc3339(), None);
    assert_eq!(Instant { seconds: 0, nanos: 2_000_000_000, offset: 0 }.to_rfc3339(), None);
    assert_eq!(render_instant(&Instant { seconds: 0, nanos: 0, offset: 86400 }), None);
}

#[test]
fn leap_second_survives_normalisation() {
    assert_eq!(
        parse_timestamp("31/Dec/2016:23:59:60 +00:00"),
        Ok(Instant { seconds: 1483228799, nanos: 1_000_000_000, offset: 0 })
    );
    let stamps = normalise_timestamp("31/Dec/2016:23:59:60 +00:00").unwrap();
    assert_eq!(stamps.local, "2016-12-31T23:59:60+00:00");
    assert_eq!(stamps.utc, "2016-12-31T23:59:60+00:00");
}

#[test]
fn normalise_timestamp_gives_both_renderings() {
    assert_eq!(
        normalise_timestamp("14/Dec/2017:22:16:45 +0900"),
        Ok(DualTimestamp {
            local: "2017-12-14T22:16:45+09:00".to_string(),
            utc: "2017-12-14T13:16:45+00:00".to_string(),
        })
    );
    assert_eq!(normalise_timestamp("yesterday"), Err(LogError::TimestampInvalid));
}

#[test]
fn parse_unsigned_reads_decimal_tokens() {
    assert_eq!(parse_unsigned("0"), Some(0));
    assert_eq!(parse_unsigned("200"), Some(200));
    assert_eq!(parse_unsigned("9947"), Some(9947));
    assert_eq!(parse_unsigned("007"), Some(7));
    assert_eq!(parse_unsigned("+5"), Some(5));
    assert_eq!(parse_unsigned("4294967295"), Some(4294967295));
    assert_eq!(parse_unsigned("00000000004294967295"), Some(4294967295));
}

#[test]
fn parse_unsigned_rejects_everything_else() {
    assert_eq!(parse_unsigned(""), None);
    assert_eq!(parse_unsigned("+"), None);
    assert_eq!(parse_unsigned("-5"), None);
    assert_eq!(parse_unsigned("-0"), None);
    assert_eq!(parse_unsigned("++5"), None);
    assert_eq!(parse_unsigned("5+"), None);
    assert_eq!(parse_unsigned("12a"), None);
    assert_eq!(parse_unsigned(" 12"), None);
    assert_eq!(parse_unsigned("12 "), None);
    assert_eq!(parse_unsigned("1_000"), None);
    assert_eq!(parse_unsigned("4294967296"), None);
    assert_eq!(parse_unsigned("99999999999999999999999"), None);
    assert_eq!(parse_unsigned("\u{661}\u{662}\u{663}"), None);
}

#[test]
fn parse_unsigned_agrees_with_the_standard_parser() {
    let tokens = [
        "", "+", "-", "0", "+0", "-0", "1", "12", "200", "0200", "+200", "4294967295",
        "4294967296", "42949672950", "18446744073709551616", "1e3", "0x10", "٣", " 1", "1 ",
    ];
    for token in tokens {
        assert_eq!(parse_unsigned(token), token.parse::<u32>().ok(), "token {:?}", token);
    }
}

#[test]
fn group_text_copies_a_present_group() {
    let groups = vec![Some("whole".to_string()), None, Some("two".to_string())];
    assert_eq!(group_text(&groups, 0), Some("whole".to_string()));
    assert_eq!(group_text(&groups, 1), None);
    assert_eq!(group_text(&groups, 2), Some("two".to_string()));
    assert_eq!(group_text(&groups, 3), None);
}

fn eight(timestamp: Option<&str>) -> Vec<Option<String>> {
    vec![
        Some("whole".to_string()),
        Some("1.2.3.4".to_string()),
        Some("i".to_string()),
        Some("u".to_string()),
        timestamp.map(|t| t.to_string()),
        Some("GET /".to_string()),
        Some("200".to_string()),
        Some("12".to_string()),
    ]
}

fn named(timestamp: Option<&str>) -> LogFields {
    LogFields {
        host: "1.2.3.4".to_string(),
        ident: "i".to_string(),
        authuser: "u".to_string(),
        timestamp: timestamp.map(|t| t.to_string()),
        request: "GET /".to_string(),
        status: "200".to_string(),
        bytes: "12".to_string(),
    }
}

#[test]
fn fields_from_groups_names_the_groups() {
    assert_eq!(fields_from_groups(&eight(Some("t"))), Some(named(Some("t"))));
    assert_eq!(fields_from_groups(&eight(None)), Some(named(None)));
}

#[test]
fn fields_from_groups_wants_eight_groups_and_every_token() {
    assert_eq!(fields_from_groups(&vec![]), None);
    let mut short = eight(Some("t"));
    short.pop();
    assert_eq!(fields_from_groups(&short), None);
    let mut long = eight(Some("t"));
    long.push(Some("more".to_string()));
    assert_eq!(fields_from_groups(&long), None);
    for index in [1usize, 2, 3, 5, 6, 7] {
        let mut groups = eight(Some("t"));
        groups[index] = None;
        assert_eq!(fields_from_groups(&groups), None, "group {}", index);
    }
    let mut whole_absent = eight(Some("t"));
    whole_absent[0] = None;
    assert_eq!(fields_from_groups(&whole_absent), Some(named(Some("t"))));
}

#[test]
fn from_fields_reads_the_numbers() {
    let stamps = DualTimestamp { local: "L".to_string(), utc: "U".to_string() };
    let entry = AccessLog::from_fields(named(Some("t")), stamps.clone()).unwrap();
    assert_eq!(
        entry,
        AccessLog {
            host: "1.2.3.4".to_string(),
            ident: "i".to_string(),
            authuser: "u".to_string(),
            timestamp: "L".to_string(),
            timestamp_utc: "U".to_string(),
            request: "GET /".to_string(),
            response: 200,
            bytes: 12,
        }
    );
    let mut bad_status = named(Some("t"));
    bad_status.status = "2x0".to_string();
    assert_eq!(AccessLog::from_fields(bad_status, stamps.clone()), Err(LogError::NumericInvalid));
    let mut bad_bytes = named(Some("t"));
    bad_bytes.bytes = "4294967296".to_string();
    assert_eq!(AccessLog::from_fields(bad_bytes, stamps), Err(LogError::NumericInvalid));
}

#[test]
fn to_json_lists_the_eight_members() {
    let object = sample_entry().to_json();
    let names: Vec<&str> = object.members.iter().map(|m| m.name.as_str()).collect();
    assert_eq!(
        names,
        vec!["host", "ident", "authuser", "@timestamp", "@timestamp_utc", "request", "response", "bytes"]
    );
    assert_eq!(object.members[6].value, JsonValue::Number(200));
    assert_eq!(object.members[0].value, JsonValue::Text("7.248.7.119".to_string()));
}

#[test]
fn to_vec_writes_compact_json_with_sorted_names() {
    let document = sample_entry().to_json().to_vec().unwrap();
    assert_eq!(
        String::from_utf8(document).unwrap(),
        r#"{"@timestamp":"2017-12-14T22:16:45+09:00","@timestamp_utc":"2017-12-14T13:16:45+00:00","authuser":"-","bytes":9947,"host":"7.248.7.119","ident":"-","request":"GET /explore","response":200}"#
    );
}

#[test]
fn to_vec_escapes_text() {
    let object = JsonObject { members: vec![text("q", "a\"b\\c\n"), number("n", 0)] };
    assert_eq!(String::from_utf8(object.to_vec().unwrap()).unwrap(), r#"{"n":0,"q":"a\"b\\c\n"}"#);
    let empty = JsonObject { members: vec![] };
    assert_eq!(empty.to_vec().unwrap(), b"{}".to_vec());
}

#[test]
fn description_names_each_failure() {
    assert_eq!(LogError::GrammarMismatch.description(), "FAIL. unmatched pattern.");
    let all = [
        LogError::GrammarMismatch,
        LogError::TimestampInvalid,
        LogError::NumericInvalid,
        LogError::InvalidEncoding,
        LogError::InvalidUtf8,
        LogError::SerializeFailed,
    ];
    for (i, a) in all.iter().enumerate() {
        assert!(a.description().starts_with("FAIL. "));
        for b in &all[i + 1..] {
            assert_ne!(a.description(), b.description());
        }
    }
}
