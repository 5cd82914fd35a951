use portal_session::text::{decimal_string, join_lines, line_at, terminate_lines};

fn strings(items: &[&str]) -> Vec<String> {
    items.iter().map(|s| s.to_string()).collect()
}

#[test]
fn decimal_string_of_small_numbers() {
    assert_eq!(decimal_string(0), "0");
    assert_eq!(decimal_string(3), "3");
    assert_eq!(decimal_string(9), "9");
    assert_eq!(decimal_string(10), "10");
    assert_eq!(decimal_string(11), "11");
    assert_eq!(decimal_string(100), "100");
    assert_eq!(decimal_string(1234567890), "1234567890");
}

#[test]
fn decimal_string_agrees_with_std_formatting() {
    for n in [0usize, 7, 42, 99, 101, 4096, 65535, 1_000_000, usize::MAX] {
        assert_eq!(decimal_string(n), format!("{}", n));
    }
}

#[test]
fn join_lines_puts_line_feeds_between_lines() {
    assert_eq!(join_lines(&strings(&[])), "");
    assert_eq!(join_lines(&strings(&["only"])), "only");
    assert_eq!(join_lines(&strings(&["OK", "TOKEN123"])), "OK\nTOKEN123");
    assert_eq!(join_lines(&strings(&["a", "", "c"])), "a\n\nc");
}

#[test]
fn terminate_lines_ends_every_line() {
    assert_eq!(terminate_lines(&strings(&[])), "");
    assert_eq!(terminate_lines(&strings(&["only"])), "only\n");
    assert_eq!(terminate_lines(&strings(&["a", "", "c"])), "a\n\nc\n");
}

#[test]
fn line_at_finds_each_line() {
    let text = "first\nsecond\nthird";
    assert_eq!(line_at(text, 0), Some("first".to_string()));
    assert_eq!(line_at(text, 1), Some("second".to_string()));
    assert_eq!(line_at(text, 2), Some("third".to_string()));
    assert_eq!(line_at(text, 3), None);
}

#[test]
fn line_at_ignores_the_final_line_feed() {
    assert_eq!(line_at("OK\nTOKEN123\n", 1), Some("TOKEN123".to_string()));
    assert_eq!(line_at("OK\nTOKEN123\n", 2), None);
    assert_eq!(line_at("OK\n", 1), None);
    assert_eq!(line_at("OK\n\n", 1), Some(String::new()));
    assert_eq!(line_at("", 0), None);
    assert_eq!(line_at("\n", 0), Some(String::new()));
    assert_eq!(line_at("\n", 1), None);
}

#[test]
fn line_at_drops_a_carriage_return_before_a_line_feed_only() {
    assert_eq!(line_at("OK\r\nTOKEN\r\n", 0), Some("OK".to_string()));
    assert_eq!(line_at("OK\r\nTOKEN\r\n", 1), Some("TOKEN".to_string()));
    assert_eq!(line_at("OK\nTOKEN\r", 1), Some("TOKEN\r".to_string()));
    assert_eq!(line_at("a\rb\nc", 0), Some("a\rb".to_string()));
    assert_eq!(line_at("\r\n", 0), Some(String::new()));
}

#[test]
fn line_at_agrees_with_std_lines() {
    let samples = [
        "",
        "\n",
        "\n\n",
        "a",
        "a\n",
        "a\nb",
        "a\r\nb\r\n",
        "a\r",
        "\r",
        "\r\n\r\n",
        "été\nnoël\n",
        "x\n\ny\n\n",
    ];
    for text in samples {
        let expected: Vec<String> = text.lines().map(|l| l.to_string()).collect();
        for n in 0..expected.len() + 2 {
            assert_eq!(line_at(text, n), expected.get(n).cloned(), "line {} of {:?}", n, text);
        }
    }
}
