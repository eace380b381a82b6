use restdeck::text::{
    chars_of, contains, find_char, join, lines_of, push_decimal, replace, string_from_chars, trim,
};
use restdeck::vars::{parse_env_vars, placeholder, substitute};

fn cv(s: &str) -> Vec<char> {
    s.chars().collect()
}

fn sv(v: &[char]) -> String {
    v.iter().collect()
}

fn lines(s: &str) -> Vec<String> {
    lines_of(&cv(s)).iter().map(|l| sv(l)).collect()
}

#[test]
fn chars_and_strings_round_trip() {
    assert_eq!(chars_of("héllo"), vec!['h', 'é', 'l', 'l', 'o']);
    assert_eq!(string_from_chars(&['a', 'ß', '→']), "aß→");
    assert_eq!(string_from_chars(&[]), "");
}

#[test]
fn trim_removes_unicode_whitespace() {
    assert_eq!(sv(&trim(&cv("  a b \t\n"))), "a b");
    assert_eq!(sv(&trim(&cv("\u{3000}x\u{a0}"))), "x");
    assert_eq!(sv(&trim(&cv("   "))), "");
    assert_eq!(sv(&trim(&cv(""))), "");
    assert_eq!(sv(&trim(&cv("abc"))), "abc");
}

#[test]
fn find_char_gives_first_position() {
    assert_eq!(find_char(&cv("a=b=c"), '='), Some(1));
    assert_eq!(find_char(&cv("abc"), '='), None);
    assert_eq!(find_char(&cv("é=x"), '='), Some(1));
}

#[test]
fn lines_split_like_str_lines() {
    assert_eq!(lines(""), Vec::<String>::new());
    assert_eq!(lines("a"), vec!["a"]);
    assert_eq!(lines("a\n"), vec!["a"]);
    assert_eq!(lines("\n"), vec![""]);
    assert_eq!(lines("a\n\nb"), vec!["a", "", "b"]);
    assert_eq!(lines("foo\r\nbar\n\nbaz\r"), vec!["foo", "bar", "", "baz\r"]);
    for s in ["x\ny\r\nz", "\n\n", "a\r\n", "\r", "one"] {
        let expected: Vec<String> = s.lines().map(|l| l.to_string()).collect();
        assert_eq!(lines(s), expected);
    }
}

#[test]
fn join_puts_separator_between_pieces() {
    let pieces = vec![cv("a"), cv(""), cv("b")];
    assert_eq!(sv(&join(&pieces, &['\n'])), "a\n\nb");
    assert_eq!(sv(&join(&Vec::new(), &[','])), "");
    assert_eq!(sv(&join(&vec![cv("only")], &[','])), "only");
}

#[test]
fn replace_is_left_to_right_without_overlap() {
    assert_eq!(sv(&replace(&cv("aaa"), &cv("aa"), &cv("b"))), "ba");
    assert_eq!(sv(&replace(&cv("{{x}}/{{x}}"), &cv("{{x}}"), &cv("1"))), "1/1");
    assert_eq!(sv(&replace(&cv("none here"), &cv("{{x}}"), &cv("1"))), "none here");
    assert_eq!(sv(&replace(&cv("ab"), &cv("abc"), &cv("z"))), "ab");
    assert_eq!("aaa".replace("aa", "b"), "ba");
}

#[test]
fn contains_finds_substrings() {
    assert!(contains(&cv(": true,"), &cv("true")));
    assert!(!contains(&cv(": tru"), &cv("true")));
    assert!(contains(&cv("x"), &cv("")));
}

#[test]
fn decimal_digits() {
    let mut out = Vec::new();
    push_decimal(&mut out, 0);
    assert_eq!(sv(&out), "0");
    let mut out = vec!['#'];
    push_decimal(&mut out, 1234567890123);
    assert_eq!(sv(&out), "#1234567890123");
    let mut out = Vec::new();
    push_decimal(&mut out, u128::MAX);
    assert_eq!(sv(&out), u128::MAX.to_string());
}

#[test]
fn env_vars_are_parsed_per_line() {
    let vars = parse_env_vars("  baseUrl = https://x.test \n\n# comment\nkey=a=b\n=empty\r\nlast=1");
    let got: Vec<(String, String)> = vars.iter().map(|(k, v)| (sv(k), sv(v))).collect();
    assert_eq!(
        got,
        vec![
            ("baseUrl".to_string(), "https://x.test".to_string()),
            ("key".to_string(), "a=b".to_string()),
            ("".to_string(), "empty".to_string()),
            ("last".to_string(), "1".to_string()),
        ]
    );
    assert!(parse_env_vars("").is_empty());
}

#[test]
fn placeholders_are_substituted_in_order() {
    assert_eq!(sv(&placeholder(&cv("k"))), "{{k}}");
    let vars = vec![(cv("a"), cv("{{b}}")), (cv("b"), cv("2"))];
    assert_eq!(substitute("{{a}}-{{b}}", &vars), "2-2");
    let vars = vec![(cv("b"), cv("2")), (cv("a"), cv("{{b}}"))];
    assert_eq!(substitute("{{a}}-{{b}}", &vars), "{{b}}-2");
    assert_eq!(substitute("{{ a }}", &vec![(cv("a"), cv("1"))]), "{{ a }}");
    assert_eq!(substitute("plain", &Vec::new()), "plain");
}
