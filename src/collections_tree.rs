use vstd::prelude::*;
use vstd::string::StringExecFns;
use crate::automation::string_texts;

verus! {

/// The short key summary shown under the collections tree.
pub open spec fn tree_panel_help_lines() -> Seq<Seq<char>> {
    seq![
        "Tree Navigation:"@,
        "  \u{2191}/\u{2193}: Navigate"@,
        "  Enter: Select/Expand"@,
        "  Space: Toggle expand"@,
        "  Ctrl+N: New template"@,
        "  Del: Delete selected"@,
    ]
}

/// The short key summary shown under the collections tree.
pub fn get_tree_help_text() -> (r: Vec<String>)
    ensures
        string_texts(r@) == tree_panel_help_lines(),
{
    let r = vec![
        String::from_str("Tree Navigation:"),
        String::from_str("  \u{2191}/\u{2193}: Navigate"),
        String::from_str("  Enter: Select/Expand"),
        String::from_str("  Space: Toggle expand"),
        String::from_str("  Ctrl+N: New template"),
        String::from_str("  Del: Delete selected"),
    ];
    assert(string_texts(r@) =~= tree_panel_help_lines());
    r
}

} // verus!
