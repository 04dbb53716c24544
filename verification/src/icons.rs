//! The folder glyphs of the bundled icon font, and their code points.

use vstd::prelude::*;

verus! {

/// The folder icons the interface can show.
#[derive(Copy, Clone, Debug, Hash, PartialEq, Eq, Structural)]
pub enum Icon {
    /// folder
    Folder,
    /// folder2
    Folder2,
    /// folder2-open
    Folder2Open,
}

/// The icon font's character for an icon.
pub fn icon_to_char(icon: Icon) -> (r: char)
    ensures
        r == (match icon {
            Icon::Folder => '\u{61}',
            Icon::Folder2 => '\u{62}',
            Icon::Folder2Open => '\u{63}',
        }),
{
    match icon {
        Icon::Folder => '\u{61}',
        Icon::Folder2 => '\u{62}',
        Icon::Folder2Open => '\u{63}',
    }
}

} // verus!
