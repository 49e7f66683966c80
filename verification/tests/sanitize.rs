use emote_archiver::sanitize_filename;

#[test]
fn spaces_become_underscores() {
    assert_eq!(sanitize_filename("my guild name"), "my_guild_name");
}

#[test]
fn forbidden_characters_are_removed() {
    assert_eq!(sanitize_filename("a\\b/c:d*e?f\"g<h>i|j"), "abcdefghij");
}

#[test]
fn mixed_input_exact_value() {
    assert_eq!(sanitize_filename("My Guild: The \"Best\" One?"), "My_Guild_The_Best_One");
}

#[test]
fn empty_string_stays_empty() {
    assert_eq!(sanitize_filename(""), "");
}

#[test]
fn clean_names_pass_through() {
    assert_eq!(sanitize_filename("already_clean-name.txt"), "already_clean-name.txt");
}

#[test]
fn sanitize_is_idempotent_on_samples() {
    let samples = ["a b", "x/y:z", "  lots  of  spaces  ", "plain", "*?<>|\\\"/:", ""];
    for s in samples {
        let once = sanitize_filename(s);
        let twice = sanitize_filename(&once);
        assert_eq!(once, twice);
    }
}

#[test]
fn sanitized_output_has_no_forbidden_characters() {
    let samples = ["a b", "x/y:z", "w*i?l\"d<c>a|r\\d", "unicode émoji ☺ name"];
    for s in samples {
        let out = sanitize_filename(s);
        for c in out.chars() {
            assert!(!"\\/:*?\"<>| ".contains(c), "bad char {c:?} in {out:?}");
        }
    }
}

#[test]
fn non_ascii_characters_are_kept() {
    assert_eq!(sanitize_filename("émoji ☺"), "émoji_☺");
}
