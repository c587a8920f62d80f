//! Conflict-aware merging of Tailwind class lists, through `tailwind_fuse`.

use vstd::prelude::*;
use crate::class_parse::merge_panics;
use crate::text::{join_classes, join_classes_spec, str_views};

verus! {

/// What `tailwind_fuse` makes of the class list `class` when it merges it
/// with the modifier prefix `prefix` and separator `separator`: the classes
/// in order, each dropped where a later one conflicts with it.
pub uninterp spec fn tw_merged(class: Seq<char>, prefix: Seq<char>, separator: Seq<char>) -> Seq<char>;

/// Trusted: `tailwind_fuse::merge::tw_merge_options` with the options
/// `prefix` and `separator`. Its source is a pure function of the class text
/// and the two options (no global state, no hashing order reaches the
/// output); the contract names that result `tw_merged`. Its class parser
/// panics exactly on the texts that `merge_panics` describes (a scanned
/// bracket that ends in an unpaired backslash), so those are ruled out.
#[verifier::external_body]
fn tw_merge_options(class: &str, prefix: &'static str, separator: &'static str) -> (merged: String)
    requires
        !merge_panics(class@, prefix@, separator@),
    ensures
        merged@ == tw_merged(class@, prefix@, separator@),
{
    tailwind_fuse::merge::tw_merge_options(class, tailwind_fuse::merge::MergeOptions { prefix, separator })
}

/// Trusted: `<MergeOptions as Default>::default`, which returns the options
/// set once for the whole process by `set_merge_options`, or the prefix ""
/// and separator ":" when none were set. Since that is process state,
/// nothing is stated of the result.
#[verifier::external_body]
fn current_merge_options() -> (&'static str, &'static str) {
    let options = tailwind_fuse::merge::MergeOptions::default();
    (options.prefix, options.separator)
}

/// Merges the class lists `items` with the given options, as `tw_merge!`
/// does: the lists are joined (trimmed, empty ones dropped) and the joined
/// text is merged.
pub fn merge_classes_with(items: &[&str], prefix: &'static str, separator: &'static str) -> (merged: String)
    requires
        !merge_panics(join_classes_spec(str_views(items@)), prefix@, separator@),
    ensures
        merged@ == tw_merged(join_classes_spec(str_views(items@)), prefix@, separator@),
{
    let joined = join_classes(items);
    tw_merge_options(joined.as_str(), prefix, separator)
}

/// The modifier prefix and separator that `tw_merge!` uses in this
/// process. They are process state: nothing is stated of them.
pub fn merge_options() -> (&'static str, &'static str) {
    current_merge_options()
}

} // verus!
