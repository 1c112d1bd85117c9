use todo::text::{chars_of, str_eq, to_ascii_lower, trim_bounds, white_space};

#[test]
fn white_space_is_the_unicode_property() {
    let mut count = 0;
    for n in 0..=0x10FFFFu32 {
        if let Some(c) = char::from_u32(n) {
            assert_eq!(white_space(c), c.is_whitespace(), "U+{:04X}", n);
            if white_space(c) {
                count += 1;
            }
        }
    }
    assert_eq!(count, 25);
}

#[test]
fn white_space_on_named_characters() {
    assert!(white_space(' '));
    assert!(white_space('\n'));
    assert!(white_space('\r'));
    assert!(white_space('\t'));
    assert!(white_space('\u{A0}'));
    assert!(white_space('\u{3000}'));
    assert!(!white_space('y'));
    assert!(!white_space('\u{200B}'));
    assert!(!white_space('\u{0}'));
}

#[test]
fn ascii_lower_agrees_with_std_on_every_character() {
    for n in 0..=0x10FFFFu32 {
        if let Some(c) = char::from_u32(n) {
            assert_eq!(to_ascii_lower(c), c.to_ascii_lowercase(), "U+{:04X}", n);
        }
    }
}

#[test]
fn ascii_lower_on_named_characters() {
    assert_eq!(to_ascii_lower('A'), 'a');
    assert_eq!(to_ascii_lower('Z'), 'z');
    assert_eq!(to_ascii_lower('Y'), 'y');
    assert_eq!(to_ascii_lower('y'), 'y');
    assert_eq!(to_ascii_lower('@'), '@');
    assert_eq!(to_ascii_lower('['), '[');
    assert_eq!(to_ascii_lower('É'), 'É');
}

#[test]
fn chars_of_keeps_every_character_in_order() {
    assert_eq!(chars_of(""), Vec::<char>::new());
    assert_eq!(chars_of("yes"), vec!['y', 'e', 's']);
    assert_eq!(chars_of("2% ümlaut 牛乳"), "2% ümlaut 牛乳".chars().collect::<Vec<char>>());
}

fn trimmed_by_bounds(s: &str) -> String {
    let chars = chars_of(s);
    let (start, end) = trim_bounds(&chars);
    assert!(start <= end && end <= chars.len());
    chars[start..end].iter().collect()
}

#[test]
fn trim_bounds_agree_with_std_trim() {
    let samples = [
        "",
        " ",
        "\n",
        "yes",
        "yes\n",
        "  yes  ",
        "\t y e s \r\n",
        "\u{A0}yes\u{3000}",
        " \u{2003} ",
        "a",
        " a",
        "a ",
        "\u{200B}x\u{200B}",
    ];
    for s in samples {
        assert_eq!(trimmed_by_bounds(s), s.trim(), "{:?}", s);
    }
}

#[test]
fn trim_bounds_exact_values() {
    assert_eq!(trim_bounds(&chars_of("  yes \n")), (2, 5));
    assert_eq!(trim_bounds(&chars_of("yes")), (0, 3));
    assert_eq!(trim_bounds(&chars_of("   ")), (3, 3));
    assert_eq!(trim_bounds(&chars_of("")), (0, 0));
}

#[test]
fn str_eq_compares_characters() {
    assert!(str_eq("", ""));
    assert!(str_eq("--init", "--init"));
    assert!(!str_eq("--init", "--inot"));
    assert!(!str_eq("--init", "--ini"));
    assert!(!str_eq("-i", "--init"));
    assert!(!str_eq("TODO", "todo"));
    assert!(str_eq("牛乳", "牛乳"));
    assert!(!str_eq("牛乳", "牛"));
}
