//! The text transformations on concrete values: occurrence removal and its
//! idempotence, line appending and the append/remove round trip, trimming
//! and transcript splitting.

use hey_cli::text::{
    after_last_exec, append_line_content, before_first_exec, contains_char, contains_substring,
    ends_with_str, find_first_match, find_last_match, remove_all_occurrences, str_eq, trim_exec,
};

#[test]
fn remove_all_drops_every_occurrence() {
    assert_eq!(remove_all_occurrences("hello world", "o"), "hell wrld");
    assert_eq!(remove_all_occurrences("aaa", "a"), "");
    assert_eq!(remove_all_occurrences("abcabc", "abc"), "");
    assert_eq!(remove_all_occurrences("no match here", "xyz"), "no match here");
    assert_eq!(remove_all_occurrences("anything", ""), "anything");
}

#[test]
fn remove_all_handles_occurrences_formed_by_removal() {
    // one sweep over "aabb" leaves "ab"; the removal runs until stable
    assert_eq!(remove_all_occurrences("aabb", "ab"), "");
}

#[test]
fn remove_all_twice_equals_once() {
    let cases = vec![
        ("hello world", "o"),
        ("aabb", "ab"),
        ("source line\nsource line\n", "source line"),
        ("", "x"),
        ("abc", ""),
    ];
    for (content, pattern) in cases {
        let once = remove_all_occurrences(content, pattern);
        let twice = remove_all_occurrences(&once, pattern);
        assert_eq!(twice, once);
    }
}

#[test]
fn append_line_starts_on_its_own_line() {
    assert_eq!(append_line_content("abc\n", "x"), "abc\nx");
    assert_eq!(append_line_content("abc", "x"), "abc\nx");
    assert_eq!(append_line_content("", "x"), "\nx");
}

#[test]
fn append_then_remove_restores_content() {
    let content = "line one\nline two\n";
    let line = "source ~/.config/fish/functions/setup_hey_cli.fish";
    let appended = append_line_content(content, line);
    assert_eq!(remove_all_occurrences(&appended, line), content);
}

#[test]
fn install_update_leaves_one_reference_line() {
    let line = "source ~/.config/zsh/functions/setup_hey_cli.zsh";
    let stale = format!("{line}\nalias x=y\n{line}\n", line = line);
    let refreshed = append_line_content(&remove_all_occurrences(&stale, line), line);
    assert_eq!(refreshed.matches(line).count(), 1);
    let refreshed_again = append_line_content(&remove_all_occurrences(&refreshed, line), line);
    assert_eq!(refreshed_again.matches(line).count(), 1);
}

#[test]
fn trim_strips_blanks_on_both_sides() {
    assert_eq!(trim_exec("  hello \n"), "hello");
    assert_eq!(trim_exec("\t\r\n "), "");
    assert_eq!(trim_exec("x"), "x");
}

#[test]
fn split_helpers_cut_at_the_sentinel() {
    let transcript = "echoed text\nhey-cli-prompt-start\nls -la\n";
    assert_eq!(before_first_exec(transcript, "hey-cli-prompt-start"), "echoed text\n");
    assert_eq!(after_last_exec(transcript, "hey-cli-prompt-start"), "\nls -la\n");
    assert_eq!(before_first_exec("no marker", "hey-cli-prompt-start"), "no marker");
    assert_eq!(after_last_exec("a|b|c", "|"), "c");
}

#[test]
fn search_helpers_find_positions() {
    assert_eq!(find_first_match("abcabc", "bc"), Some(1));
    assert_eq!(find_last_match("abcabc", "bc"), Some(4));
    assert_eq!(find_first_match("abc", "zz"), None);
    assert!(contains_substring("abcabc", "cab"));
    assert!(!contains_substring("abcabc", "cba"));
    assert!(contains_char("a\nb", '\n'));
    assert!(!contains_char("ab", '\n'));
    assert!(ends_with_str("path/to/fish", "/fish"));
    assert!(!ends_with_str("fish", "/fish"));
    assert!(str_eq("same", "same"));
    assert!(!str_eq("same", "sane"));
}
