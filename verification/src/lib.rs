//! System colors of the Win32 desktop: the packed color value, the named
//! color indices, and the presence latch that remembers whether an index is
//! backed by a real color on the running system.
//!
//! The platform itself is not called from here. [`SysColor::get`] takes the
//! two platform reads as functions: one that gives the brush of a native
//! color index, one that gives its packed color.

pub mod accessor;
pub mod color;
pub mod index;
pub mod once_bool;
pub mod protocol;

pub use accessor::{get_sys_color, PresenceTable};
pub use color::SysColor;
pub use index::SysColorIndex;
pub use once_bool::{OnceBool, PresenceFlag};
