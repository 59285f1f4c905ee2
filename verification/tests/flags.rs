use moddedboost::flags::parse_flags;

fn reference(flags: &str) -> Vec<String> {
    let mut args = Vec::new();
    for pair in flags.split("--") {
        let trimmed = pair.trim();
        if !trimmed.is_empty() {
            let parts: Vec<&str> = trimmed.split(' ').collect();
            args.push(format!("--{}", parts[0]));
            if parts.len() > 1 {
                args.push(parts[1].to_string());
            }
        }
    }
    args
}

#[test]
fn flags_with_values() {
    assert_eq!(
        parse_flags("--transfers 4 --checkers 8"),
        vec!["--transfers", "4", "--checkers", "8"]
    );
}

#[test]
fn flags_without_values() {
    assert_eq!(parse_flags("--dry-run"), vec!["--dry-run"]);
    assert_eq!(parse_flags("--fast-list --update"), vec!["--fast-list", "--update"]);
}

#[test]
fn empty_and_blank_flag_texts_yield_nothing() {
    assert!(parse_flags("").is_empty());
    assert!(parse_flags("   ").is_empty());
    assert!(parse_flags("--").is_empty());
    assert!(parse_flags(" -- -- ").is_empty());
}

#[test]
fn text_before_the_first_dashes_is_a_flag_too() {
    assert_eq!(parse_flags("verbose --size-only"), vec!["--verbose", "--size-only"]);
}

#[test]
fn further_parts_of_a_flag_are_dropped() {
    assert_eq!(parse_flags("--filter a b c"), vec!["--filter", "a"]);
}

#[test]
fn a_double_space_gives_an_empty_value() {
    assert_eq!(parse_flags("--name  value"), vec!["--name", ""]);
}

#[test]
fn a_dash_inside_a_name_stays() {
    assert_eq!(parse_flags("--max-age 3d"), vec!["--max-age", "3d"]);
    assert_eq!(parse_flags("---x"), vec!["---x"]);
}

#[test]
fn a_tab_does_not_part_name_and_value() {
    assert_eq!(parse_flags("--name\tvalue"), vec!["--name\tvalue"]);
}

#[test]
fn flag_parsing_agrees_with_std_on_many_texts() {
    let texts = [
        "",
        "--a",
        "--a b",
        "--a b --c d",
        "  --a   b  ",
        "a--b--c",
        "----",
        "--a--b",
        "-- a",
        "--\u{3000}wide\u{3000}",
        "--bwlimit 1M --exclude *.tmp --checksum",
        "--a b--c d",
        "--header \"X: y\"",
        "-",
        " - - ",
    ];
    for text in texts {
        assert_eq!(parse_flags(text), reference(text), "{:?}", text);
    }
}
