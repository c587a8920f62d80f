use detaxine_ui::button::{
    button_class_merges, button_class_with, button_content_class_merges, button_content_class_with,
    content_styles, group_button_class_merges, group_button_class_with, group_button_classes_with,
    is_first, is_last, ButtonType,
    BUTTON_BASE_CLASS, CONTENT_BASE_CLASS, GROUP_BASE_CLASS,
};

// ButtonType

#[test]
fn button_type_default_is_button() {
    assert!(matches!(ButtonType::default(), ButtonType::Button));
}

#[test]
fn button_type_clone() {
    assert!(matches!(ButtonType::Submit.clone(), ButtonType::Submit));
}

#[test]
fn button_type_attributes() {
    assert_eq!(ButtonType::Button.as_attr(), "button");
    assert_eq!(ButtonType::Submit.as_attr(), "submit");
    assert_eq!(ButtonType::Reset.as_attr(), "reset");
    assert_eq!(ButtonType::default().as_attr(), "button");
    assert_eq!(ButtonType::Submit.clone().as_attr(), "submit");
}

// Icon/text layout logic

#[test]
fn no_text_produces_no_layout_class() {
    assert_eq!(content_styles(false, true), "");
    assert_eq!(content_styles(false, false), "");
}

#[test]
fn icon_before_true_places_icon_first() {
    assert!(!content_styles(true, true).contains("flex-row-reverse"));
}

#[test]
fn icon_before_false_reverses_order() {
    assert!(content_styles(true, false).contains("flex-row-reverse"));
}

#[test]
fn layout_classes_exact() {
    assert_eq!(content_styles(true, true), "gap-2");
    assert_eq!(content_styles(true, false), "gap-2 flex-row-reverse");
}

// ButtonGroup border-radius logic

#[test]
fn single_button_is_both_first_and_last() {
    assert!(is_first(0));
    assert!(is_last(0, 1));
}

#[test]
fn first_button_is_not_last_in_group() {
    assert!(is_first(0));
    assert!(!is_last(0, 3));
}

#[test]
fn middle_button_is_neither_first_nor_last() {
    assert!(!is_first(1));
    assert!(!is_last(1, 3));
}

#[test]
fn last_button_is_not_first_in_group() {
    assert!(!is_first(2));
    assert!(is_last(2, 3));
}

// Class merging

#[test]
fn button_class_defaults_to_base() {
    assert_eq!(button_class_with(None, None, "", ":"), BUTTON_BASE_CLASS);
}

#[test]
fn button_class_override_replaces_conflicting_default() {
    let merged = button_class_with(None, Some("py-4"), "", ":");
    assert_eq!(
        merged,
        "font-bold px-4 cursor-pointer rounded-[5px] disabled:opacity-50 disabled:cursor-not-allowed py-4"
    );
}

#[test]
fn button_class_puts_class_after_style_ext() {
    let merged = button_class_with(Some("bg-red-500"), Some("bg-blue-500"), "", ":");
    assert!(merged.ends_with("bg-blue-500"));
    assert!(!merged.contains("bg-red-500"));
}

#[test]
fn content_class_without_text() {
    assert_eq!(button_content_class_with(false, true, None, None, "", ":"), CONTENT_BASE_CLASS);
}

#[test]
fn content_class_with_icon_after_text() {
    assert_eq!(
        button_content_class_with(true, false, None, Some("text-sm"), "", ":"),
        "flex items-center justify-center gap-2 flex-row-reverse text-sm"
    );
}

#[test]
fn group_classes_round_only_the_ends() {
    let classes = group_button_classes_with(3, "", "", "", ":");
    assert_eq!(classes.len(), 3);
    assert_eq!(classes[0], format!("{} rounded-l-[5px]", GROUP_BASE_CLASS));
    assert_eq!(classes[1], GROUP_BASE_CLASS);
    assert_eq!(classes[2], format!("{} rounded-r-[5px]", GROUP_BASE_CLASS));
}

#[test]
fn single_group_button_is_rounded_on_both_sides() {
    assert_eq!(
        group_button_class_with(0, 1, "", "", "", ":"),
        format!("{} rounded-l-[5px] rounded-r-[5px]", GROUP_BASE_CLASS)
    );
}

#[test]
fn empty_group_has_no_classes() {
    assert!(group_button_classes_with(0, "a", "b", "", ":").is_empty());
    assert!(group_button_classes_with(0, "[\\", "", "", ":").is_empty());
}

#[test]
fn group_class_override_wins() {
    let classes = group_button_classes_with(2, "", "border-red-500", "", ":");
    assert_eq!(classes.len(), 2);
    assert!(classes[0].contains("border-red-500"));
    assert!(!classes[0].contains("border-light-gray"));
    assert!(classes[0].ends_with(" rounded-l-[5px]"));
    assert!(classes[1].ends_with(" rounded-r-[5px]"));
}

#[test]
fn merge_checks_follow_the_parser() {
    assert!(button_class_merges(None, Some("w-[1px]"), "", ":"));
    assert!(!button_class_merges(None, Some("w-[1px\\"), "", ":"));
    assert!(!button_class_merges(Some("[\\"), None, "", ":"));
    assert!(button_class_merges(Some("[a]b[\\"), None, "", ":"));
    assert!(button_content_class_merges(true, false, None, None, "", ":"));
    assert!(!button_content_class_merges(true, false, None, Some("x-[\\"), "", ":"));
    assert!(group_button_class_merges("", "border-red-500", "", ":"));
    assert!(!group_button_class_merges("[\\", "", "", ":"));
}
