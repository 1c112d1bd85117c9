use todo::confirm::is_affirmative;

#[test]
fn yes_in_any_case_confirms() {
    for line in ["y", "Y", "yes", "YES", "Yes", "yEs", "yeS"] {
        assert!(is_affirmative(line), "{:?}", line);
    }
}

#[test]
fn white_space_around_the_answer_is_ignored() {
    for line in ["y\n", "yes\n", "yes\r\n", "  yes  ", "\tY\n", "\u{A0}YES\u{3000}\n"] {
        assert!(is_affirmative(line), "{:?}", line);
    }
}

#[test]
fn anything_else_declines() {
    for line in [
        "", "\n", " ", "n", "N", "no", "ye", "yess", "yes please", "y e s", "yy", "ok",
        "\u{FF59}", "ye\u{17F}", "y\u{200B}", "1", "yes.",
    ] {
        assert!(!is_affirmative(line), "{:?}", line);
    }
}
