use vstd::prelude::*;
use crate::tree::NodeType;

verus! {

/// Whether a clipboard item moves or copies.
#[derive(Debug, Clone, Copy, PartialEq, Eq, Structural)]
pub enum ClipboardOperation {
    Cut,
    Copy,
}

/// A tree item on the clipboard.
#[derive(Debug, Clone)]
pub struct ClipboardItem {
    pub operation: ClipboardOperation,
    pub item_type: NodeType,
    pub name: String,
    pub path: String,
    /// Location on disk, for file operations
    pub full_file_path: String,
}

} // verus!
