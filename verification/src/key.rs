//! The keys that reach the editor, already decoded.

use vstd::prelude::*;

verus! {

/// One input event. Whoever reads the terminal decodes its bytes into
/// these; input that it cannot name arrives as `Other`.
#[derive(Debug, Clone, Copy, PartialEq, Eq, Structural)]
pub enum KeyEvent {
    /// The interrupt key: the session ends.
    Terminate,
    Up,
    Down,
    Left,
    Right,
    /// A typed character; the Enter key arrives as a newline.
    Char(char),
    /// Anything else. The editor ignores it.
    Other,
}

impl KeyEvent {
    /// Whether the key only moves the cursor.
    pub open spec fn is_movement(self) -> bool {
        self is Up || self is Down || self is Left || self is Right
    }
}

} // verus!
