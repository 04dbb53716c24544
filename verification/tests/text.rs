use equation_maker::diagnostics::extract_message;
use equation_maker::recolor::recolor_svg;
use equation_maker::strutil::{find_char, i32_to_dec, join_path, replace_all, str_concat, str_concat3, u64_to_dec};

#[test]
fn find_char_first_occurrence() {
    assert_eq!(find_char("hello!", '!'), Some(5));
    assert_eq!(find_char("a!b!c", '!'), Some(1));
    assert_eq!(find_char("abc", '!'), None);
    assert_eq!(find_char("", '!'), None);
}

#[test]
fn u64_decimal_rendering() {
    assert_eq!(u64_to_dec(0), "0");
    assert_eq!(u64_to_dec(7), "7");
    assert_eq!(u64_to_dec(1234567890), "1234567890");
    assert_eq!(u64_to_dec(u64::MAX), "18446744073709551615");
}

#[test]
fn i32_decimal_rendering() {
    assert_eq!(i32_to_dec(0), "0");
    assert_eq!(i32_to_dec(42), "42");
    assert_eq!(i32_to_dec(-5), "-5");
    assert_eq!(i32_to_dec(i32::MIN), "-2147483648");
}

#[test]
fn concat_and_join() {
    assert_eq!(str_concat("ab", "cd"), "abcd");
    assert_eq!(str_concat3("a", "b", "c"), "abc");
    assert_eq!(join_path("root", "eq.tex"), "root/eq.tex");
    assert_eq!(join_path("", "x"), "/x");
}

#[test]
fn replace_basic() {
    assert_eq!(replace_all("fill:#fff;stroke:#fff", "#fff", "red"), "fill:red;stroke:red");
    assert_eq!(replace_all("abc", "#fff", "red"), "abc");
    assert_eq!(replace_all("", "#fff", "red"), "");
}

#[test]
fn replace_is_leftmost_nonoverlapping() {
    assert_eq!(replace_all("aaa", "aa", "b"), "ba");
    assert_eq!(replace_all("aaaa", "aa", "b"), "bb");
}

#[test]
fn recolor_replaces_fill_token_only() {
    let svg = "<svg><path fill=\"#fff\" d=\"M0 0\"/><rect fill=\"#fff\"/></svg>";
    let red = recolor_svg(svg, "red");
    assert_eq!(red, "<svg><path fill=\"red\" d=\"M0 0\"/><rect fill=\"red\"/></svg>");
    // the input is untouched and a second color starts from the same input
    let blue = recolor_svg(svg, "blue");
    assert_eq!(blue, "<svg><path fill=\"blue\" d=\"M0 0\"/><rect fill=\"blue\"/></svg>");
    assert_eq!(svg, "<svg><path fill=\"#fff\" d=\"M0 0\"/><rect fill=\"#fff\"/></svg>");
}

#[test]
fn recolor_without_token_is_identity() {
    let svg = "<svg><path fill=\"#000\"/></svg>";
    assert_eq!(recolor_svg(svg, "red"), svg);
}

#[test]
fn recolor_is_deterministic() {
    let svg = "<svg fill=\"#fff\"/>";
    assert_eq!(recolor_svg(svg, "teal"), recolor_svg(svg, "teal"));
}

#[test]
fn extract_starts_at_bang_and_stops_at_blank_line() {
    let blob = "... preamble ...\n! Undefined control sequence.\nl.5 \\foo\n\n";
    let msg = extract_message(blob, "");
    assert_eq!(msg, "! Undefined control sequence.\nl.5 \\foo");
}

#[test]
fn extract_without_bang_returns_text_unchanged() {
    let blob = "warning: something odd\nbut no marker here\n";
    let msg = extract_message(blob, "unused stderr");
    assert_eq!(msg, blob);
}

#[test]
fn extract_prefers_stdout_falls_back_to_stderr() {
    assert_eq!(extract_message("", "spawned but died"), "spawned but died");
    assert_eq!(extract_message("out", "err"), "out");
    assert_eq!(extract_message("", ""), "");
}

#[test]
fn extract_applies_heuristic_to_stderr_too() {
    let blob = "noise first\n! Broken pipe.\nl.1 z\n\ntrailing log\n";
    assert_eq!(extract_message("", blob), "! Broken pipe.\nl.1 z");
    // stdout wins even when stderr also holds a marker
    assert_eq!(extract_message("plain output", blob), "plain output");
}

#[test]
fn extract_handles_crlf_and_whitespace_only_lines() {
    let blob = "log\r\n! Error here.\r\nl.2 x\r\n \t\r\nnot kept\n";
    let msg = extract_message(blob, "");
    assert_eq!(msg, "! Error here.\nl.2 x");
}

#[test]
fn extract_keeps_message_reaching_end_of_text() {
    let blob = "! Missing $ inserted.\nl.9 y";
    let msg = extract_message(blob, "");
    assert_eq!(msg, "! Missing $ inserted.\nl.9 y");
}

#[test]
fn extract_bang_line_alone() {
    assert_eq!(extract_message("!\n\nrest of the log\n", ""), "!");
    assert_eq!(extract_message("! at start\ntail", "ignored"), "! at start\ntail");
}
