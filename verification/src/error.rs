use vstd::prelude::*;

verus! {

/// The caller's intent for the files placed on the clipboard.
///
/// Some desktop environments distinguish a copy from a cut when files are
/// pasted; the intent is advisory and carries no filesystem side effect of
/// its own. The macOS pasteboard has no such notion, so its adapter accepts
/// the intent and ignores it.
#[derive(Clone, Copy, Debug, PartialEq, Eq, Structural)]
pub enum FileOperation {
    Copy,
    Move,
}

/// Everything that can go wrong when reading or writing the clipboard.
#[derive(Debug, PartialEq, Eq)]
pub enum ClipboardError {
    /// The clipboard holds no file-reference payload (empty, or some other
    /// kind of content such as plain text).
    NoFiles,
    /// A path handed to a write does not resolve to an existing filesystem
    /// entry; the whole write is rejected and the clipboard left untouched.
    NoExist,
    /// A native clipboard call itself failed; the message describes the
    /// failure.
    SystemError(String),
}

} // verus!
