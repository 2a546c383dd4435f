use s3h::ansi::ansi_clean_up;
use s3h::json::pair_object;
use s3h::keys::{
    callback_key, command_key, ctrlc_key, known_core_addr_key, known_guest_jwt_key, output_key,
};
use s3h::markdown::markdown_escape;
use s3h::server::monitor_report;

#[test]
fn markdown_escape_escapes_reserved_characters() {
    assert_eq!(markdown_escape("a_b*c".to_string()), "a\\_b\\*c");
}

#[test]
fn markdown_escape_covers_every_reserved_character() {
    let reserved = "\\_*[]()~`>#+-=|{}.!";
    let expected: String = reserved.chars().flat_map(|c| ['\\', c]).collect();
    assert_eq!(markdown_escape(reserved.to_string()), expected);
}

#[test]
fn markdown_escape_keeps_ordinary_text() {
    assert_eq!(markdown_escape("hello world 42".to_string()), "hello world 42");
    assert_eq!(markdown_escape("héllo ✓ 😀 <tag,@&;:".to_string()), "héllo ✓ 😀 <tag,@&;:");
    assert_eq!(markdown_escape(String::new()), "");
}

#[test]
fn markdown_escape_of_parts_concatenates() {
    let a = "x.y".to_string();
    let b = "(z)".to_string();
    let whole = markdown_escape(format!("{}{}", a, b));
    assert_eq!(whole, format!("{}{}", markdown_escape(a), markdown_escape(b)));
}

#[test]
fn markdown_escape_round_trips() {
    let original = "rm -rf ./tmp_dir && echo \\done!";
    let escaped = markdown_escape(original.to_string());
    let mut back = String::new();
    let mut chars = escaped.chars();
    while let Some(c) = chars.next() {
        if c == '\\' {
            back.push(chars.next().unwrap());
        } else {
            back.push(c);
        }
    }
    assert_eq!(back, original);
}

#[test]
fn ansi_clean_up_removes_colours() {
    let out = ansi_clean_up(b"\x1b[01;32mgreen\x1b[0m text");
    assert_eq!(out, "green text".to_string());
}

#[test]
fn ansi_clean_up_removes_titles_through_the_line_end() {
    let out = ansi_clean_up(b"a\x1b]0;user@host: ~\x07prompt$ \nls\n");
    assert_eq!(out, "als\n".to_string());
}

#[test]
fn ansi_clean_up_removes_titles_up_to_newline() {
    let out = ansi_clean_up(b"\x1b]0;title\nrest");
    assert_eq!(out, "rest".to_string());
    let out = ansi_clean_up(b"before\x1b]0;title to the end");
    assert_eq!(out, "before".to_string());
}

#[test]
fn ansi_clean_up_decodes_invalid_utf8_leniently() {
    let out = ansi_clean_up(b"a\xffb");
    assert_eq!(out, "a\u{fffd}b".to_string());
}

#[test]
fn ansi_clean_up_keeps_plain_output() {
    assert_eq!(ansi_clean_up(b"total 0\n"), "total 0\n".to_string());
    assert_eq!(ansi_clean_up(b""), String::new());
}

#[test]
fn pair_object_writes_json_literals() {
    assert_eq!(pair_object("text", "hi", "k", "v"), "{\"text\":\"hi\",\"k\":\"v\"}");
    assert_eq!(
        pair_object("text", "say \"hi\"\n\\", "k", "\u{1}"),
        "{\"text\":\"say \\\"hi\\\"\\n\\\\\",\"k\":\"\\u0001\"}"
    );
}

#[test]
fn monitor_report_wraps_cleaned_escaped_output() {
    let msg = monitor_report(b"a_b\x1b[0m");
    assert_eq!(
        String::from_utf8(msg).unwrap(),
        "{\"text\":\"```\\na\\\\_b\\n```\",\"parse_mode\":\"MarkdownV2\"}"
    );
}

#[test]
fn variable_keys_are_numbered_in_decimal() {
    assert_eq!(command_key(0), "command:0");
    assert_eq!(command_key(10), "command:10");
    assert_eq!(output_key(42), "output:42");
    assert_eq!(ctrlc_key(u64::MAX), "ctrlc:18446744073709551615");
    assert_eq!(callback_key("abc"), "tg_bot:callback:abc");
}

#[test]
fn registry_keys_name_the_user() {
    assert_eq!(known_core_addr_key("u1"), "_internal:known_users:u1:core_addr");
    assert_eq!(known_guest_jwt_key("u1"), "_internal:known_users:u1:guest_jwt");
}

#[test]
fn pair_object_uses_short_and_unicode_escapes() {
    assert_eq!(
        pair_object("a\u{8}\t\u{c}\r", "\u{1f}\u{7f}é", "k", "/"),
        "{\"a\\b\\t\\f\\r\":\"\\u001f\u{7f}é\",\"k\":\"/\"}"
    );
}
