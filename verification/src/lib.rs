//! A menu widget for small displays.
//!
//! A [`Menu`] owns a list of entries: actions, toggles, bounded integers,
//! submenus and exits. The host drives it once per tick. It polls its
//! buttons into a [`Keys`] snapshot and hands that to `update`, which finds
//! the buttons that went down since the tick before, moves the cursor,
//! steps the entry under it, and passes the input on while a submenu has the
//! focus. Then the host asks `draw` for the tick's drawing operations, which
//! are none unless something changed, carries them out on its display, and
//! reports the outcome to `finish_draw`.
//!
//! The modules, from the leaves up:
//!
//! - [`keys`]: button snapshots and their rising edges;
//! - [`cursor`]: the highlighted index, which wraps at both ends;
//! - [`options`]: the size of the surface and the look of a menu;
//! - [`model`]: the menu as a mathematical value, and a tick as a function
//!   on it;
//! - [`menu`]: the menu itself, specified against the model;
//! - [`glyph`]: the glyphs that show a toggle's and an integer's value;
//! - [`render`]: the layout of a frame as a list of drawing operations;
//! - [`laws`]: what holds of every menu, whatever the buttons do.

pub mod cursor;
pub mod error;
pub mod glyph;
pub mod keys;
pub mod laws;
pub mod menu;
pub mod model;
pub mod options;
pub mod render;

pub use cursor::advance;
pub use error::MenuError;
pub use keys::{edges, Keys};
pub use menu::{EntryType, Menu, MenuEntry};
pub use options::{MenuOptions, Size};
pub use render::DrawOp;
