use acp_harness::framing::{frame_line, log_record, LineFramer};
use acp_harness::parser::{AcpEventParser, ParsedLine};
use acp_harness::protocol::AcpEvent;
use acp_harness::text::{
    char_is_ascii_digit, decimal_string, find, first_visible_is, matches_at, rfind_char,
    same_text, starts_with, to_chars,
};

fn chars(s: &str) -> Vec<char> {
    s.chars().collect()
}

#[test]
fn execute_command_is_title_before_annotation() {
    assert_eq!(AcpEventParser::parse_execute_command("ls -la (pwd=/tmp)"), "ls -la");
    assert_eq!(AcpEventParser::parse_execute_command("ls -la"), "ls -la");
    assert_eq!(AcpEventParser::parse_execute_command("  ls -la  "), "ls -la");
    assert_eq!(AcpEventParser::parse_execute_command("echo (a) (b)"), "echo");
    assert_eq!(AcpEventParser::parse_execute_command("echo(a) (b) (c)"), "echo(a)");
    assert_eq!(AcpEventParser::parse_execute_command(" (only)"), "");
    assert_eq!(AcpEventParser::parse_execute_command(""), "");
    assert_eq!(AcpEventParser::parse_execute_command(" \t\n"), "");
    assert_eq!(AcpEventParser::parse_execute_command("a  (b)"), "a");
    assert_eq!(AcpEventParser::parse_execute_command("\u{a0}caf\u{e9}\u{2003} (x)"), "caf\u{e9}");
    assert_eq!(
        AcpEventParser::parse_execute_command("caf\u{e9} \u{2003}(x)"),
        "caf\u{e9} \u{2003}(x)"
    );
    assert_eq!(AcpEventParser::parse_execute_command("x ("), "x");
}

#[test]
fn line_is_trimmed_like_std() {
    for line in ["", " ", "a", "  {\"Done\":\"x\"}\r\n", "\u{3000}x y\u{85}", "\u{200b}z "] {
        assert_eq!(AcpEventParser::trim_line(line), line.trim());
    }
}

#[test]
fn parsed_line_holds_events() {
    let line = ParsedLine::Event(AcpEvent::Done("end".to_string()));
    assert_eq!(line.clone(), line);
    assert_ne!(line, ParsedLine::Done);
    assert_ne!(ParsedLine::SessionId("a".to_string()), ParsedLine::Error("a".to_string()));
}

#[test]
fn characters_are_decoded() {
    assert_eq!(to_chars("h\u{e9}\u{1f600}!"), vec!['h', '\u{e9}', '\u{1f600}', '!']);
    assert_eq!(to_chars(""), Vec::<char>::new());
}

#[test]
fn searching_characters() {
    let hay = chars("abcabc");
    assert_eq!(find(&hay, &chars("bc")), Some(1));
    assert_eq!(find(&hay, &chars("abcabc")), Some(0));
    assert_eq!(find(&hay, &chars("")), Some(0));
    assert_eq!(find(&hay, &chars("cb")), None);
    assert_eq!(find(&hay, &chars("abcabca")), None);
    assert_eq!(find(&chars(""), &chars("")), Some(0));
    assert!(matches_at(&hay, &chars("abc"), 3));
    assert!(!matches_at(&hay, &chars("abc"), 4));
    assert!(matches_at(&hay, &chars(""), 6));
    assert!(!matches_at(&hay, &chars(""), 7));
    assert_eq!(rfind_char(&hay, 'a'), Some(3));
    assert_eq!(rfind_char(&hay, 'z'), None);
    assert!(starts_with(&hay, &chars("abca")));
    assert!(!starts_with(&hay, &chars("b")));
    assert!(starts_with(&hay, &chars("")));
    assert!(!starts_with(&chars("ab"), &chars("abc")));
}

#[test]
fn digits_and_trimming() {
    assert!(char_is_ascii_digit('0') && char_is_ascii_digit('9'));
    assert!(!char_is_ascii_digit('a') && !char_is_ascii_digit('\u{0661}'));
    assert!(same_text("caf\u{e9}", "caf\u{e9}"));
    assert!(same_text("", ""));
    assert!(!same_text("abc", "abd"));
    assert!(!same_text("abc", "ab"));
    assert!(!same_text("ab", "abc"));
    assert!(first_visible_is(&chars(" \n{x"), '{'));
    assert!(!first_visible_is(&chars(" x{"), '{'));
    assert!(!first_visible_is(&chars("  "), '{'));
}

#[test]
fn numbers_in_decimal() {
    assert_eq!(decimal_string(0), "0");
    assert_eq!(decimal_string(7), "7");
    assert_eq!(decimal_string(10), "10");
    assert_eq!(decimal_string(1234567890), "1234567890");
    assert_eq!(decimal_string(usize::MAX), usize::MAX.to_string());
}

#[test]
fn lines_for_the_child_end_by_platform() {
    assert_eq!(frame_line("{\"a\":1}".to_string(), false), "{\"a\":1}\n");
    assert_eq!(frame_line("{\"a\":1}".to_string(), true), "{\"a\":1}\r\n");
    assert_eq!(frame_line(String::new(), false), "\n");
}

#[test]
fn tee_writes_bytes_and_line_feed() {
    assert_eq!(log_record("ab"), vec![b'a', b'b', b'\n']);
    assert_eq!(log_record("\u{e9}"), vec![0xc3, 0xa9, 0x0a]);
    assert_eq!(log_record(""), vec![0x0a]);
}

#[test]
fn framer_cuts_at_line_feeds() {
    let mut framer = LineFramer::new();
    assert_eq!(framer.push("{\"a\""), Vec::<String>::new());
    assert_eq!(framer.push(":1}\n{\"b\":2}\n{\"c\""), vec!["{\"a\":1}", "{\"b\":2}"]);
    assert_eq!(framer.push(""), Vec::<String>::new());
    assert_eq!(framer.push("\n\n"), vec!["{\"c\"", ""]);
    assert_eq!(framer.finish(), None);
    framer.push("tail\r");
    assert_eq!(framer.finish(), Some("tail\r".to_string()));
    assert_eq!(framer.finish(), None);
}

#[test]
fn framing_does_not_depend_on_chunking() {
    let text = "one\ntwo\n\nthree\nrest";
    let mut whole = LineFramer::new();
    let expected = whole.push(text);
    assert_eq!(expected, vec!["one", "two", "", "three"]);
    for cut in 0..=text.len() {
        let mut framer = LineFramer::new();
        let mut lines = framer.push(&text[..cut]);
        lines.extend(framer.push(&text[cut..]));
        assert_eq!(lines, expected);
        assert_eq!(framer.finish(), Some("rest".to_string()));
    }
}

#[test]
fn framer_reads_bytes_lossily() {
    let mut framer = LineFramer::new();
    assert_eq!(framer.push_bytes(b"ok\n\xffbad\nh\xc3"), vec!["ok", "\u{fffd}bad"]);
    assert_eq!(framer.push_bytes(b"\xa9\n"), vec!["h\u{fffd}\u{fffd}"]);
}
