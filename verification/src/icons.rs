//! Material Symbols codepoints used by the components.
use vstd::prelude::*;

verus! {

/// The "check" glyph of Material Symbols.
pub const ICON_CHECK: char = '\u{e5ca}';

/// The "remove" (horizontal bar) glyph of Material Symbols.
pub const ICON_REMOVE: char = '\u{e15b}';

} // verus!
