use storyblok_mcp::env_file::{parse_env_file, parse_env_line};

fn entry(key: &str, value: &str) -> (String, String) {
    (key.to_string(), value.to_string())
}

#[test]
fn comment_and_quotes() {
    let text = "# comment\nSTORYBLOK_MANAGEMENT_TOKEN=\"abc123\"\nSTORYBLOK_SPACE_ID=42\n";
    assert_eq!(
        parse_env_file(text),
        vec![
            entry("STORYBLOK_MANAGEMENT_TOKEN", "abc123"),
            entry("STORYBLOK_SPACE_ID", "42"),
        ]
    );
}

#[test]
fn same_result_without_final_line_feed() {
    let text = "# comment\nSTORYBLOK_MANAGEMENT_TOKEN=\"abc123\"\nSTORYBLOK_SPACE_ID=42";
    assert_eq!(
        parse_env_file(text),
        vec![
            entry("STORYBLOK_MANAGEMENT_TOKEN", "abc123"),
            entry("STORYBLOK_SPACE_ID", "42"),
        ]
    );
}

#[test]
fn empty_file_has_no_entries() {
    assert_eq!(parse_env_file(""), Vec::<(String, String)>::new());
}

#[test]
fn only_line_feeds_have_no_entries() {
    assert_eq!(parse_env_file("\n\n\n"), Vec::<(String, String)>::new());
}

#[test]
fn blank_lines_are_skipped() {
    assert_eq!(parse_env_file("\n   \n\t\nA=1\n \u{a0} \n"), vec![entry("A", "1")]);
}

#[test]
fn line_without_separator_is_skipped() {
    assert_eq!(
        parse_env_file("A=1\nthis line has no separator\nB=2\n"),
        vec![entry("A", "1"), entry("B", "2")]
    );
    assert_eq!(parse_env_file("no separator at all"), Vec::<(String, String)>::new());
}

#[test]
fn skipped_line_changes_nothing_wherever_it_stands() {
    let expected = parse_env_file("A=1\nB=2\n");
    assert_eq!(parse_env_file("junk\nA=1\nB=2\n"), expected);
    assert_eq!(parse_env_file("A=1\njunk\nB=2\n"), expected);
    assert_eq!(parse_env_file("A=1\nB=2\njunk\n"), expected);
}

#[test]
fn comment_lines_are_skipped() {
    assert_eq!(parse_env_file("#A=1\n  # B=2\nC=3\n"), vec![entry("C", "3")]);
}

#[test]
fn hash_inside_a_line_is_kept() {
    assert_eq!(parse_env_file("A=1 # not a comment\n"), vec![entry("A", "1 # not a comment")]);
}

#[test]
fn key_and_value_are_trimmed() {
    assert_eq!(parse_env_file("  KEY \t=  some value  \n"), vec![entry("KEY", "some value")]);
}

#[test]
fn carriage_return_is_trimmed() {
    assert_eq!(parse_env_file("A=1\r\nB=\"2\"\r\n"), vec![entry("A", "1"), entry("B", "2")]);
}

#[test]
fn split_is_at_the_first_separator() {
    assert_eq!(parse_env_file("URL=http://host/?a=b&c=d\n"), vec![entry("URL", "http://host/?a=b&c=d")]);
    assert_eq!(parse_env_file("A==\n"), vec![entry("A", "=")]);
}

#[test]
fn double_quotes_are_stripped() {
    assert_eq!(parse_env_file("A=\"x y\"\n"), vec![entry("A", "x y")]);
}

#[test]
fn single_quotes_are_stripped() {
    assert_eq!(parse_env_file("A='x y'\n"), vec![entry("A", "x y")]);
}

#[test]
fn only_one_layer_of_quotes_is_stripped() {
    assert_eq!(parse_env_file("A=\"\"x\"\"\n"), vec![entry("A", "\"x\"")]);
    assert_eq!(parse_env_file("A=\"'x'\"\n"), vec![entry("A", "'x'")]);
}

#[test]
fn quotes_that_do_not_match_stay() {
    assert_eq!(parse_env_file("A=\"x'\n"), vec![entry("A", "\"x'")]);
    assert_eq!(parse_env_file("A=\"x\n"), vec![entry("A", "\"x")]);
    assert_eq!(parse_env_file("A=x\"\n"), vec![entry("A", "x\"")]);
    assert_eq!(parse_env_file("A=\"\n"), vec![entry("A", "\"")]);
}

#[test]
fn empty_quotes_give_an_empty_value() {
    assert_eq!(parse_env_file("A=\"\"\nB=''\n"), vec![entry("A", ""), entry("B", "")]);
}

#[test]
fn whitespace_inside_quotes_is_kept() {
    assert_eq!(parse_env_file("A=  \"  x  \"  \n"), vec![entry("A", "  x  ")]);
}

#[test]
fn quotes_round_the_key_stay() {
    assert_eq!(parse_env_file("\"A\"=1\n"), vec![entry("\"A\"", "1")]);
}

#[test]
fn empty_key_and_empty_value_are_kept() {
    assert_eq!(parse_env_file("=v\nK=\n=\n"), vec![entry("", "v"), entry("K", ""), entry("", "")]);
}

#[test]
fn repeated_key_is_kept_each_time() {
    assert_eq!(
        parse_env_file("A=1\nB=2\nA=3\nA=1\n"),
        vec![entry("A", "1"), entry("B", "2"), entry("A", "3"), entry("A", "1")]
    );
}

#[test]
fn entries_keep_file_order() {
    assert_eq!(
        parse_env_file("Z=1\nA=2\nM=3\n"),
        vec![entry("Z", "1"), entry("A", "2"), entry("M", "3")]
    );
}

#[test]
fn parts_cut_after_a_line_feed_add_up() {
    let head = "A=1\n# c\nB='2'\n";
    let tail = "A=9\n\nC = 3";
    let mut expected = parse_env_file(head);
    expected.extend(parse_env_file(tail));
    assert_eq!(parse_env_file(&format!("{head}{tail}")), expected);
    assert_eq!(expected.len(), 4);
}

#[test]
fn text_beyond_ascii_is_kept() {
    assert_eq!(
        parse_env_file("NAME=\u{3000}Zoë 日本\u{2003}\nK\u{e9}Y='ß'\n"),
        vec![entry("NAME", "Zoë 日本"), entry("K\u{e9}Y", "ß")]
    );
}

#[test]
fn one_line_at_a_time() {
    assert_eq!(parse_env_line("A=1"), Some(entry("A", "1")));
    assert_eq!(parse_env_line("  A = \"1\"  "), Some(entry("A", "1")));
    assert_eq!(parse_env_line(""), None);
    assert_eq!(parse_env_line("   "), None);
    assert_eq!(parse_env_line("# A=1"), None);
    assert_eq!(parse_env_line("A"), None);
}

#[test]
fn file_agrees_with_its_lines() {
    let text = "A=1\n\n#x\nB = 'two'\nnone\n C=\"3\" ";
    let mut by_line = Vec::new();
    for line in text.split('\n') {
        if let Some(found) = parse_env_line(line) {
            by_line.push(found);
        }
    }
    assert_eq!(parse_env_file(text), by_line);
    assert_eq!(by_line.len(), 3);
}
