//! Card atlas grid model and interactive region editor.
//!
//! An atlas is one large bitmap holding a regular grid of equal-sized cards.
//! This crate maps a card index to its pixel rectangle, keeps the named
//! regions drawn on a card, turns pointer events into selections and new
//! regions, and reads and writes the region document.

pub mod document;
pub mod geometry;
pub mod gesture;
pub mod json;
pub mod naming;
pub mod picker;
pub mod pixels;
pub mod region;
pub mod session;

pub use document::{deserialize, Loaded, ParseError, RegionDocument};
pub use geometry::{configure, AtlasSize, CardSize, Geometry, Rect};
pub use gesture::{
    DisplayFrame, GestureController, GestureOutput, GestureState, PointerButton, PointerEvent,
    Scale, ScreenPoint, ScreenRect,
};
pub use picker::{open_image_picker, take_selected_image_bytes, Mailbox, PickerRequest};
pub use pixels::{decode, DecodeError, PixelBuffer};
pub use region::{Region, RegionStore};
pub use session::EditorSession;
