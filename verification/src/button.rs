//! The decisions of the button components: the `type` attribute, the
//! layout of icon and text, and the classes of single and grouped buttons.

use vstd::prelude::*;
use vstd::string::*;
use crate::class_parse::{merge_panics, merge_would_panic};
use crate::tailwind::{merge_classes_with, tw_merged};
use crate::text::{
    trim_start_spec,
    join_classes, join_classes_spec, lemma_join_after, lemma_join_single, lemma_trim_untouched, spaced, str_views,
    trim_spec,
};

verus! {

/// The `type` attribute of a button.
#[derive(Clone, Copy, Debug)]
pub enum ButtonType {
    /// A plain button (the default).
    Button,
    /// A button that submits its form.
    Submit,
    /// A button that resets its form.
    Reset,
}

impl Default for ButtonType {
    fn default() -> (t: ButtonType)
        ensures
            t == ButtonType::Button,
    {
        ButtonType::Button
    }
}

impl ButtonType {
    /// The value of the HTML `type` attribute.
    pub open spec fn attr_spec(&self) -> Seq<char> {
        match self {
            ButtonType::Button => "button"@,
            ButtonType::Submit => "submit"@,
            ButtonType::Reset => "reset"@,
        }
    }

    /// The value of the HTML `type` attribute: `button`, `submit` or `reset`.
    pub fn as_attr(&self) -> (attr: &'static str)
        ensures
            attr@ == self.attr_spec(),
    {
        match self {
            ButtonType::Button => "button",
            ButtonType::Submit => "submit",
            ButtonType::Reset => "reset",
        }
    }
}

/// The classes every single button starts from.
pub const BUTTON_BASE_CLASS: &'static str = "font-bold py-2 px-4 cursor-pointer rounded-[5px] disabled:opacity-50 disabled:cursor-not-allowed";

/// The classes the content span of a button starts from.
pub const CONTENT_BASE_CLASS: &'static str = "flex flex-row items-center justify-center";

/// The classes every button of a group starts from.
pub const GROUP_BASE_CLASS: &'static str = "font-bold py-2 px-4 border border-light-gray border-l-0 cursor-pointer disabled:opacity-50 disabled:cursor-not-allowed";

/// Added to the first button of a group.
pub const GROUP_FIRST_CLASS: &'static str = " rounded-l-[5px]";

/// Added to the last button of a group.
pub const GROUP_LAST_CLASS: &'static str = " rounded-r-[5px]";

/// The layout class of a button's content: none without text, a gap with
/// the icon before the text, and a reversed row with the icon after it.
pub open spec fn content_styles_spec(has_text: bool, icon_before: bool) -> Seq<char> {
    if !has_text {
        ""@
    } else if icon_before {
        "gap-2"@
    } else {
        "gap-2 flex-row-reverse"@
    }
}

/// The layout class of a button's content.
pub fn content_styles(has_text: bool, icon_before: bool) -> (styles: &'static str)
    ensures
        styles@ == content_styles_spec(has_text, icon_before),
{
    if !has_text {
        ""
    } else if icon_before {
        "gap-2"
    } else {
        "gap-2 flex-row-reverse"
    }
}

/// Whether the button at `index` opens its group.
pub fn is_first(index: usize) -> (first: bool)
    ensures
        first == (index == 0),
{
    index == 0
}

/// Whether the button at `index` closes a group of `len` buttons.
pub fn is_last(index: usize, len: usize) -> (last: bool)
    requires
        len >= 1,
    ensures
        last == (index == len - 1),
{
    index == len - 1
}

/// The text of an optional class list; an absent one is empty.
pub open spec fn class_or_empty(class: Option<&str>) -> Seq<char> {
    match class {
        Some(c) => c@,
        None => Seq::empty(),
    }
}

fn or_empty<'a>(class: Option<&'a str>) -> (c: &'a str)
    ensures
        c@ == class_or_empty(class),
{
    match class {
        Some(c) => c,
        None => {
            proof {
                reveal_strlit("");
            }
            ""
        },
    }
}

/// The joined class list of a single button: its base classes, then the
/// deprecated `style_ext`, then `class`.
pub open spec fn button_class_list(style_ext: Seq<char>, class: Seq<char>) -> Seq<char> {
    join_classes_spec(seq![BUTTON_BASE_CLASS@, style_ext, class])
}

/// The joined class list of a button's content span.
pub open spec fn content_class_list(
    has_text: bool,
    icon_before: bool,
    children_style_ext: Seq<char>,
    content_class: Seq<char>,
) -> Seq<char> {
    join_classes_spec(
        seq![CONTENT_BASE_CLASS@, content_styles_spec(has_text, icon_before), children_style_ext, content_class],
    )
}

/// The joined class list shared by the buttons of a group.
pub open spec fn group_class_list(style_ext: Seq<char>, class: Seq<char>) -> Seq<char> {
    join_classes_spec(seq![GROUP_BASE_CLASS@, style_ext, class])
}

/// The class of a single button: its base classes, then the deprecated
/// `style_ext`, then `class`, merged so that later classes win conflicts.
pub open spec fn button_class_spec(
    style_ext: Seq<char>,
    class: Seq<char>,
    prefix: Seq<char>,
    separator: Seq<char>,
) -> Seq<char> {
    tw_merged(button_class_list(style_ext, class), prefix, separator)
}

/// The class of a single button, merged with the given options.
pub fn button_class_with(
    style_ext: Option<&str>,
    class: Option<&str>,
    prefix: &'static str,
    separator: &'static str,
) -> (merged: String)
    requires
        !merge_panics(button_class_list(class_or_empty(style_ext), class_or_empty(class)), prefix@, separator@),
    ensures
        merged@ == button_class_spec(class_or_empty(style_ext), class_or_empty(class), prefix@, separator@),
{
    let items = vec![BUTTON_BASE_CLASS, or_empty(style_ext), or_empty(class)];
    assert(str_views(items@) == seq![BUTTON_BASE_CLASS@, class_or_empty(style_ext), class_or_empty(class)]);
    merge_classes_with(items.as_slice(), prefix, separator)
}

/// The class of a button's content span: the base classes, the layout
/// class, then the deprecated `children_style_ext`, then `content_class`.
pub open spec fn button_content_class_spec(
    has_text: bool,
    icon_before: bool,
    children_style_ext: Seq<char>,
    content_class: Seq<char>,
    prefix: Seq<char>,
    separator: Seq<char>,
) -> Seq<char> {
    tw_merged(content_class_list(has_text, icon_before, children_style_ext, content_class), prefix, separator)
}

/// The class of a button's content span, merged with the given options.
pub fn button_content_class_with(
    has_text: bool,
    icon_before: bool,
    children_style_ext: Option<&str>,
    content_class: Option<&str>,
    prefix: &'static str,
    separator: &'static str,
) -> (merged: String)
    requires
        !merge_panics(
            content_class_list(has_text, icon_before, class_or_empty(children_style_ext), class_or_empty(content_class)),
            prefix@,
            separator@,
        ),
    ensures
        merged@ == button_content_class_spec(
            has_text,
            icon_before,
            class_or_empty(children_style_ext),
            class_or_empty(content_class),
            prefix@,
            separator@,
        ),
{
    let items = vec![
        CONTENT_BASE_CLASS,
        content_styles(has_text, icon_before),
        or_empty(children_style_ext),
        or_empty(content_class),
    ];
    assert(str_views(items@) == seq![
        CONTENT_BASE_CLASS@,
        content_styles_spec(has_text, icon_before),
        class_or_empty(children_style_ext),
        class_or_empty(content_class),
    ]);
    merge_classes_with(items.as_slice(), prefix, separator)
}

/// The rounding of the button at `index` in a group of `len`: the first
/// is rounded on the left, the last on the right.
pub open spec fn group_rounding(index: int, len: int) -> Seq<char> {
    (if index == 0 { GROUP_FIRST_CLASS@ } else { Seq::empty() }) + (if index == len - 1 {
        GROUP_LAST_CLASS@
    } else {
        Seq::empty()
    })
}

/// The class of the button at `index` in a group of `len` buttons.
pub open spec fn group_button_class_spec(
    index: int,
    len: int,
    style_ext: Seq<char>,
    class: Seq<char>,
    prefix: Seq<char>,
    separator: Seq<char>,
) -> Seq<char> {
    tw_merged(group_class_list(style_ext, class), prefix, separator) + group_rounding(index, len)
}

/// The class of the button at `index` in a group of `len` buttons, merged
/// with the given options.
pub fn group_button_class_with(
    index: usize,
    len: usize,
    style_ext: &str,
    class: &str,
    prefix: &'static str,
    separator: &'static str,
) -> (merged: String)
    requires
        index < len,
        !merge_panics(group_class_list(style_ext@, class@), prefix@, separator@),
    ensures
        merged@ == group_button_class_spec(index as int, len as int, style_ext@, class@, prefix@, separator@),
{
    let items = vec![GROUP_BASE_CLASS, style_ext, class];
    assert(str_views(items@) == seq![GROUP_BASE_CLASS@, style_ext@, class@]);
    let mut merged = merge_classes_with(items.as_slice(), prefix, separator);
    let ghost base = merged@;
    if is_first(index) {
        merged.append(GROUP_FIRST_CLASS);
    }
    if is_last(index, len) {
        merged.append(GROUP_LAST_CLASS);
    }
    assert(merged@ == base + group_rounding(index as int, len as int));
    merged
}

/// The texts of a list of strings.
pub open spec fn string_views(strings: Seq<String>) -> Seq<Seq<char>> {
    strings.map_values(|s: String| s@)
}

/// The classes of all `len` buttons of a group, in order.
pub open spec fn group_classes_spec(
    len: int,
    style_ext: Seq<char>,
    class: Seq<char>,
    prefix: Seq<char>,
    separator: Seq<char>,
) -> Seq<Seq<char>> {
    Seq::new(len as nat, |i: int| group_button_class_spec(i, len, style_ext, class, prefix, separator))
}

/// The classes of all `len` buttons of a group, merged with the given options.
pub fn group_button_classes_with(
    len: usize,
    style_ext: &str,
    class: &str,
    prefix: &'static str,
    separator: &'static str,
) -> (classes: Vec<String>)
    requires
        len > 0 ==> !merge_panics(group_class_list(style_ext@, class@), prefix@, separator@),
    ensures
        classes@.len() == len,
        string_views(classes@) == group_classes_spec(len as int, style_ext@, class@, prefix@, separator@),
{
    let mut classes: Vec<String> = Vec::new();
    let mut i: usize = 0;
    while i < len
        invariant
            i <= len,
            classes@.len() == i,
            i < len ==> !merge_panics(group_class_list(style_ext@, class@), prefix@, separator@),
            forall|k: int|
                0 <= k < i ==> #[trigger] classes@[k]@ == group_button_class_spec(
                    k,
                    len as int,
                    style_ext@,
                    class@,
                    prefix@,
                    separator@,
                ),
        decreases len - i,
    {
        let c = group_button_class_with(i, len, style_ext, class, prefix, separator);
        classes.push(c);
        i = i + 1;
    }
    assert(string_views(classes@) =~= group_classes_spec(len as int, style_ext@, class@, prefix@, separator@));
    classes
}


/// Whether `part` occurs in `s` as a run of consecutive characters.
pub open spec fn has_infix(s: Seq<char>, part: Seq<char>) -> bool {
    exists|i: int| 0 <= i && i + part.len() <= s.len() && #[trigger] s.subrange(i, i + part.len()) == part
}

/// A button's content is laid out only when it has text, and its row is
/// reversed (icon after the text) exactly when the icon does not come first.
pub proof fn lemma_content_layout(has_text: bool, icon_before: bool)
    ensures
        (content_styles_spec(has_text, icon_before).len() == 0) <==> !has_text,
        has_infix(content_styles_spec(has_text, icon_before), "flex-row-reverse"@) <==> (has_text
            && !icon_before),
{
    reveal_strlit("");
    reveal_strlit("gap-2");
    reveal_strlit("gap-2 flex-row-reverse");
    reveal_strlit("flex-row-reverse");
    let styles = content_styles_spec(has_text, icon_before);
    let part = "flex-row-reverse"@;
    if has_text && !icon_before {
        assert(styles.subrange(6int, 6int + part.len()) == part);
    } else if has_text {
        assert(styles.len() < part.len());
    }
}

/// In a group, only the ends are rounded: a single button on both sides,
/// otherwise the first on the left, the last on the right and the others
/// not at all.
pub proof fn lemma_group_rounding(len: int)
    requires
        len >= 1,
    ensures
        len == 1 ==> group_rounding(0, len) == GROUP_FIRST_CLASS@ + GROUP_LAST_CLASS@,
        len >= 2 ==> group_rounding(0, len) == GROUP_FIRST_CLASS@,
        len >= 2 ==> group_rounding(len - 1, len) == GROUP_LAST_CLASS@,
        forall|i: int| 0 < i < len - 1 ==> #[trigger] group_rounding(i, len).len() == 0,
{
    assert(GROUP_FIRST_CLASS@ + Seq::<char>::empty() == GROUP_FIRST_CLASS@);
    assert(Seq::<char>::empty() + GROUP_LAST_CLASS@ == GROUP_LAST_CLASS@);
}

/// Whether a single button's classes merge without panicking.
pub fn button_class_merges(
    style_ext: Option<&str>,
    class: Option<&str>,
    prefix: &str,
    separator: &str,
) -> (ok: bool)
    ensures
        ok == !merge_panics(button_class_list(class_or_empty(style_ext), class_or_empty(class)), prefix@, separator@),
{
    let items = vec![BUTTON_BASE_CLASS, or_empty(style_ext), or_empty(class)];
    assert(str_views(items@) == seq![BUTTON_BASE_CLASS@, class_or_empty(style_ext), class_or_empty(class)]);
    let joined = join_classes(items.as_slice());
    !merge_would_panic(joined.as_str(), prefix, separator)
}

/// Whether a content span's classes merge without panicking.
pub fn button_content_class_merges(
    has_text: bool,
    icon_before: bool,
    children_style_ext: Option<&str>,
    content_class: Option<&str>,
    prefix: &str,
    separator: &str,
) -> (ok: bool)
    ensures
        ok == !merge_panics(
            content_class_list(has_text, icon_before, class_or_empty(children_style_ext), class_or_empty(content_class)),
            prefix@,
            separator@,
        ),
{
    let items = vec![
        CONTENT_BASE_CLASS,
        content_styles(has_text, icon_before),
        or_empty(children_style_ext),
        or_empty(content_class),
    ];
    assert(str_views(items@) == seq![
        CONTENT_BASE_CLASS@,
        content_styles_spec(has_text, icon_before),
        class_or_empty(children_style_ext),
        class_or_empty(content_class),
    ]);
    let joined = join_classes(items.as_slice());
    !merge_would_panic(joined.as_str(), prefix, separator)
}

/// Whether the classes shared by a group's buttons merge without panicking.
pub fn group_button_class_merges(style_ext: &str, class: &str, prefix: &str, separator: &str) -> (ok: bool)
    ensures
        ok == !merge_panics(group_class_list(style_ext@, class@), prefix@, separator@),
{
    let items = vec![GROUP_BASE_CLASS, style_ext, class];
    assert(str_views(items@) == seq![GROUP_BASE_CLASS@, style_ext@, class@]);
    let joined = join_classes(items.as_slice());
    !merge_would_panic(joined.as_str(), prefix, separator)
}


proof fn lemma_bases_untrimmed()
    ensures
        trim_spec(BUTTON_BASE_CLASS@) == BUTTON_BASE_CLASS@,
        trim_spec(CONTENT_BASE_CLASS@) == CONTENT_BASE_CLASS@,
        trim_spec(GROUP_BASE_CLASS@) == GROUP_BASE_CLASS@,
        BUTTON_BASE_CLASS@.len() > 0,
        CONTENT_BASE_CLASS@.len() > 0,
        GROUP_BASE_CLASS@.len() > 0,
{
    reveal_strlit("font-bold py-2 px-4 cursor-pointer rounded-[5px] disabled:opacity-50 disabled:cursor-not-allowed");
    reveal_strlit("flex flex-row items-center justify-center");
    reveal_strlit("font-bold py-2 px-4 border border-light-gray border-l-0 cursor-pointer disabled:opacity-50 disabled:cursor-not-allowed");
    lemma_trim_untouched(BUTTON_BASE_CLASS@);
    lemma_trim_untouched(CONTENT_BASE_CLASS@);
    lemma_trim_untouched(GROUP_BASE_CLASS@);
}

proof fn lemma_layout_spaced(has_text: bool, icon_before: bool)
    ensures
        spaced(content_styles_spec(has_text, icon_before)) == (if !has_text {
            Seq::<char>::empty()
        } else if icon_before {
            seq![' '] + "gap-2"@
        } else {
            seq![' '] + "gap-2 flex-row-reverse"@
        }),
{
    reveal_strlit("");
    reveal_strlit("gap-2");
    reveal_strlit("gap-2 flex-row-reverse");
    if has_text {
        lemma_trim_untouched(content_styles_spec(has_text, icon_before));
    } else {
        assert(trim_start_spec(Seq::<char>::empty()) == Seq::<char>::empty());
    }
}

/// A single button's class is the merge of its default classes followed by
/// the deprecated `style_ext` and then `class`, each trimmed and after a
/// space (left out when empty): a caller's class comes after every default,
/// and `class` after `style_ext`, so the caller's classes win conflicts.
pub proof fn lemma_button_class_order(style_ext: Seq<char>, class: Seq<char>, prefix: Seq<char>, separator: Seq<char>)
    ensures
        button_class_spec(style_ext, class, prefix, separator) == tw_merged(
            BUTTON_BASE_CLASS@ + spaced(style_ext) + spaced(class),
            prefix,
            separator,
        ),
        button_class_list(style_ext, class).subrange(0, BUTTON_BASE_CLASS@.len() as int) == BUTTON_BASE_CLASS@,
{
    lemma_bases_untrimmed();
    lemma_join_after(BUTTON_BASE_CLASS@, style_ext, class);
    let l = BUTTON_BASE_CLASS@ + spaced(style_ext) + spaced(class);
    assert(l == BUTTON_BASE_CLASS@ + (spaced(style_ext) + spaced(class)));
    assert(l.subrange(0, BUTTON_BASE_CLASS@.len() as int) =~= BUTTON_BASE_CLASS@);
}

/// A content span's class is the merge of its default classes, then the
/// layout of the given `has_text` and `icon_before` (nothing without text,
/// `gap-2` with the icon first, `gap-2 flex-row-reverse` with it last), then
/// `children_style_ext` and `content_class`, each after a space.
pub proof fn lemma_content_class_layout(
    has_text: bool,
    icon_before: bool,
    children_style_ext: Seq<char>,
    content_class: Seq<char>,
    prefix: Seq<char>,
    separator: Seq<char>,
)
    ensures
        button_content_class_spec(has_text, icon_before, children_style_ext, content_class, prefix, separator)
            == tw_merged(
            CONTENT_BASE_CLASS@ + (if !has_text {
                Seq::<char>::empty()
            } else if icon_before {
                seq![' '] + "gap-2"@
            } else {
                seq![' '] + "gap-2 flex-row-reverse"@
            }) + spaced(children_style_ext) + spaced(content_class),
            prefix,
            separator,
        ),
{
    lemma_bases_untrimmed();
    lemma_layout_spaced(has_text, icon_before);
    let layout = content_styles_spec(has_text, icon_before);
    lemma_join_after(CONTENT_BASE_CLASS@, layout, children_style_ext);
    let items3 = seq![CONTENT_BASE_CLASS@, layout, children_style_ext];
    let items4 = seq![CONTENT_BASE_CLASS@, layout, children_style_ext, content_class];
    assert(items3.push(content_class) =~= items4);
    crate::text::lemma_join_push(items3, content_class);
}

/// Every button of a group carries the same merged classes (its defaults,
/// then `style_ext`, then `class`); they differ only in the rounding that
/// the first and the last one add.
pub proof fn lemma_group_classes_shared(
    len: int,
    style_ext: Seq<char>,
    class: Seq<char>,
    prefix: Seq<char>,
    separator: Seq<char>,
)
    ensures
        forall|i: int|
            0 <= i < len ==> #[trigger] group_button_class_spec(i, len, style_ext, class, prefix, separator)
                == tw_merged(GROUP_BASE_CLASS@ + spaced(style_ext) + spaced(class), prefix, separator) + (if i
                == 0 {
                GROUP_FIRST_CLASS@
            } else {
                Seq::<char>::empty()
            }) + (if i == len - 1 {
                GROUP_LAST_CLASS@
            } else {
                Seq::<char>::empty()
            }),
        forall|i: int|
            0 <= i < len ==> #[trigger] group_classes_spec(len, style_ext, class, prefix, separator)[i]
                == group_button_class_spec(i, len, style_ext, class, prefix, separator),
{
    lemma_bases_untrimmed();
    lemma_join_after(GROUP_BASE_CLASS@, style_ext, class);
    let m = tw_merged(group_class_list(style_ext, class), prefix, separator);
    assert forall|i: int| 0 <= i < len implies #[trigger] group_button_class_spec(i, len, style_ext, class, prefix, separator)
        == m + (if i == 0 { GROUP_FIRST_CLASS@ } else { Seq::<char>::empty() }) + (if i == len - 1 {
        GROUP_LAST_CLASS@
    } else {
        Seq::<char>::empty()
    }) by {
        let a = if i == 0 { GROUP_FIRST_CLASS@ } else { Seq::<char>::empty() };
        let b = if i == len - 1 { GROUP_LAST_CLASS@ } else { Seq::<char>::empty() };
        assert(m + (a + b) =~= m + a + b);
    }
}

} // verus!
