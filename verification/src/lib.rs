//! Core editing logic of the Cedilla markdown editor: the Vim key-binding
//! state machine and the decisions behind loading, pasting and naming images.

pub mod editor;
pub mod image_laws;
pub mod images;
pub mod text;
pub mod paths;
pub mod raster;
pub mod urls;
pub mod vim;
pub mod vim_keymap;
pub mod vim_laws;
