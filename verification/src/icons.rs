//! Display glyphs for the built-in actions, and the Unicode
//! bidirectional control characters used when rendering menu lines.
use vstd::prelude::*;

verus! {

pub const LOCK_SCREEN: char = '\u{f033e}';

pub const LOGOUT: char = '\u{f0343}';

pub const SUSPEND: char = '\u{f04b2}';

pub const HIBERNATE: char = '\u{f02ca}';

pub const REBOOT: char = '\u{f0709}';

pub const SHUTDOWN: char = '\u{f0425}';

pub const CANCEL: char = '\u{f0156}';

/// Left-to-right mark.
pub const LRM: char = '\u{200e}';

/// Left-to-right isolate; the fallback icon when a merge hands in an
/// empty icon string.
pub const LRI: char = '\u{2066}';

/// First strong isolate.
pub const FSI: char = '\u{2068}';

/// Pop directional isolate.
pub const PDI: char = '\u{2069}';

} // verus!
