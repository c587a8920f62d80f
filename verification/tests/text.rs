use detaxine_ui::class_parse::merge_would_panic;
use detaxine_ui::tailwind::{merge_classes_with, merge_options};
use detaxine_ui::text::{crate_ident, join_classes, trim, white_space};

#[test]
fn crate_ident_replaces_hyphens() {
    assert_eq!(crate_ident("my-cool-app"), "my_cool_app");
    assert_eq!(crate_ident("plain"), "plain");
    assert_eq!(crate_ident(""), "");
    assert_eq!(crate_ident("-a-"), "_a_");
}

#[test]
fn crate_ident_is_idempotent() {
    let once = crate_ident("a-b-c");
    assert_eq!(crate_ident(&once), once);
}

#[test]
fn white_space_matches_std() {
    for c in ['\t', '\n', ' ', '\u{85}', '\u{a0}', '\u{1680}', '\u{2000}', '\u{200a}', '\u{2028}', '\u{3000}', 'a', '-', '\u{200b}', '\u{feff}'] {
        assert_eq!(white_space(c), c.is_whitespace(), "{:?}", c);
    }
}

#[test]
fn trim_matches_std() {
    for s in ["", "   ", " a ", "\u{3000}a b\t", "ab", "\n\nx\u{a0}"] {
        assert_eq!(trim(s), s.trim());
    }
}

#[test]
fn join_drops_empty_and_trims() {
    assert_eq!(join_classes(&["a"]), "a");
    assert_eq!(join_classes(&["  a \t"]), "a");
    assert_eq!(join_classes(&["a", "b"]), "a b");
    assert_eq!(join_classes(&["a", "b", "c", "d", "e", "f"]), "a b c d e f");
    assert_eq!(join_classes(&[" one", "two ", " three"]), "one two three");
    assert_eq!(join_classes(&["a", "    ", "b", "c", " "]), "a b c");
    assert_eq!(join_classes(&[]), "");
}

#[test]
fn merge_resolves_conflicts_rightmost_wins() {
    assert_eq!(merge_classes_with(&["py-2 px-4", "p-4"], "", ":"), "p-4");
    assert_eq!(merge_classes_with(&["p-4", "py-2"], "", ":"), "p-4 py-2");
    let (prefix, separator) = merge_options();
    assert_eq!((prefix, separator), ("", ":"));
    assert_eq!(merge_classes_with(&["bg-black", "bg-white"], prefix, separator), "bg-white");
}

#[test]
fn merge_respects_prefix() {
    assert_eq!(merge_classes_with(&["tw-bg-black", "tw-bg-white"], "tw-", ":"), "tw-bg-white");
    assert_eq!(merge_classes_with(&["tw-bg-black", "tw-bg-white"], "", ":"), "tw-bg-black tw-bg-white");
}

#[test]
fn merge_panics_only_on_scanned_runaway_escapes() {
    assert!(!merge_would_panic("", "", ":"));
    assert!(!merge_would_panic("w-[1px] bg-red-500", "", ":"));
    assert!(!merge_would_panic("w-[a\\]b]", "", ":"));
    assert!(!merge_would_panic("a\\", "", ":"));
    assert!(!merge_would_panic("[x]\\", "", ":"));
    assert!(!merge_would_panic("[a]b[\\", "", ":"));
    assert!(!merge_would_panic("[x][\\", "", ":"));
    assert!(!merge_would_panic("w-[1px\\\\", "", ":"));
    assert!(merge_would_panic("[\\", "", ":"));
    assert!(merge_would_panic("w-[1px\\", "", ":"));
    assert!(merge_would_panic("p-4 w-[1px\\ m-2", "", ":"));
    assert!(merge_would_panic("hover:[\\", "", ":"));
    assert!(merge_would_panic("[&>*]:[\\", "", ":"));
    assert!(!merge_would_panic("[&>*]:[\\", "", "|"));
    assert!(merge_would_panic("!-[\\", "", ":"));
}

#[test]
fn merge_runs_where_the_model_says_it_does_not_panic() {
    for (text, separator) in [
        ("[a]b[\\", ":"),
        ("[x][\\", ":"),
        ("[x]\\", ":"),
        ("a\\", ":"),
        ("w-[1px\\\\", ":"),
        ("[&>*]:[\\", "|"),
        ("data-[x\\]:[y]", ":"),
        ("hover:w-[calc(1px\\)]", ":"),
    ] {
        assert!(!merge_would_panic(text, "", separator), "{text:?}");
        let _ = merge_classes_with(&[text], "", separator);
    }
}
