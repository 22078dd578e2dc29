use rash::dispatch::parse_command;
use rash::text::chars_of;
use rash::text::decimal_text;
use rash::text::signed_decimal_text;
use rash::text::split;
use rash::text::trim;

fn samples() -> Vec<&'static str> {
    vec![
        "",
        " ",
        "   ",
        "\n",
        "ls\n",
        "  ls -l  \r\n",
        "\t\tcat  file\t",
        "a",
        " a",
        "a ",
        "a b",
        "a  b",
        " a  b  ",
        "\u{3000}wide\u{2003}",
        "\u{a0}nbsp\u{a0}",
        "\u{85}next\u{85}",
        "\u{200b}zero-width\u{200b}",
        "x\u{1680}y",
        "héllo wörld ",
        "-c",
        "    leading",
        "trailing    ",
    ]
}

#[test]
fn chars_of_lists_every_character() {
    assert_eq!(chars_of(""), Vec::<char>::new());
    assert_eq!(chars_of("a b"), vec!['a', ' ', 'b']);
    assert_eq!(chars_of("hé\n"), vec!['h', 'é', '\n']);
}

#[test]
fn trim_removes_surrounding_white_space() {
    assert_eq!(trim("  ls -l  \r\n"), "ls -l");
    assert_eq!(trim("ls\n"), "ls");
    assert_eq!(trim("\t a  b \t"), "a  b");
    assert_eq!(trim(""), "");
    assert_eq!(trim(" \n\t "), "");
    assert_eq!(trim("plain"), "plain");
}

#[test]
fn trim_agrees_with_the_standard_library() {
    for s in samples() {
        assert_eq!(trim(s), s.trim());
    }
}

#[test]
fn trim_knows_wide_spaces_and_keeps_zero_width_ones() {
    assert_eq!(trim("\u{3000}wide\u{2003}"), "wide");
    assert_eq!(trim("\u{200b}zw\u{200b}"), "\u{200b}zw\u{200b}");
}

#[test]
fn trim_is_idempotent() {
    for s in samples() {
        let once = trim(s);
        let twice = trim(&once);
        assert_eq!(twice, once);
    }
}

#[test]
fn trimmed_line_has_no_white_space_at_its_ends() {
    for s in samples() {
        let once = trim(s);
        if let Some(first) = once.chars().next() {
            assert!(!first.is_whitespace());
        }
        if let Some(last) = once.chars().last() {
            assert!(!last.is_whitespace());
        }
    }
}

#[test]
fn split_cuts_at_every_space() {
    assert_eq!(split("a b c"), vec!["a", "b", "c"]);
    assert_eq!(split("a"), vec!["a"]);
    assert_eq!(split(""), vec![""]);
    assert_eq!(split(" "), vec!["", ""]);
    assert_eq!(split("a  b"), vec!["a", "", "b"]);
    assert_eq!(split(" a "), vec!["", "a", ""]);
    assert_eq!(split("a\tb c"), vec!["a\tb", "c"]);
    assert_eq!(split("é ü"), vec!["é", "ü"]);
}

#[test]
fn split_agrees_with_the_standard_library() {
    for s in samples() {
        let expected: Vec<String> = s.split(" ").map(|p| p.to_string()).collect();
        assert_eq!(split(s), expected);
    }
}

#[test]
fn split_pieces_join_back() {
    for s in samples() {
        let pieces = split(s);
        assert!(pieces.iter().all(|p| !p.contains(' ')));
        assert_eq!(pieces.join(" "), s);
    }
}

#[test]
fn decimal_text_writes_numerals() {
    assert_eq!(decimal_text(0), "0");
    assert_eq!(decimal_text(7), "7");
    assert_eq!(decimal_text(10), "10");
    assert_eq!(decimal_text(127), "127");
    assert_eq!(decimal_text(1234567890), "1234567890");
    assert_eq!(decimal_text(u64::MAX), "18446744073709551615");
}

#[test]
fn signed_decimal_text_writes_the_sign() {
    assert_eq!(signed_decimal_text(0), "0");
    assert_eq!(signed_decimal_text(13), "13");
    assert_eq!(signed_decimal_text(-1), "-1");
    assert_eq!(signed_decimal_text(-405), "-405");
    assert_eq!(signed_decimal_text(i32::MAX), "2147483647");
    assert_eq!(signed_decimal_text(i32::MIN), "-2147483648");
}

#[test]
fn parse_command_takes_name_and_arguments() {
    let command = parse_command("  ls -l /tmp \n");
    assert_eq!(command.name, "ls");
    assert_eq!(command.args, vec!["-l", "/tmp"]);
}

#[test]
fn parse_command_keeps_empty_arguments() {
    let command = parse_command("echo  a   b");
    assert_eq!(command.name, "echo");
    assert_eq!(command.args, vec!["", "a", "", "", "b"]);
}

#[test]
fn parse_command_of_blank_line_is_empty_name() {
    let command = parse_command("   ");
    assert_eq!(command.name, "");
    assert!(command.args.is_empty());
    let alone = parse_command("true");
    assert_eq!(alone.name, "true");
    assert!(alone.args.is_empty());
}
