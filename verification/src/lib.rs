//! Quote cards: a photograph cropped to a fixed aspect ratio, covered by a
//! translucent colour layer and set with up to five text fields.
//!
//! This library holds the rules of the card: the geometry of the crop, the
//! properties of an image being edited and how a stored, partial copy of them is
//! merged back, the placement of every line of text, the decorative panel behind
//! the primary quote, the frame that is exported, and the names of the files
//! that belong to an image.
//!
//! Lengths are whole pixels unless a name says otherwise. The measures of a
//! line of text and the sizes of fonts are given in thousandths of a pixel,
//! because a font's metrics are seldom whole pixels; ratios of a position are
//! thousandths of the image's height. Every result is computed exactly and
//! rounded once, at the end.
//!
//! The library cuts, scales and tints pictures with the `image` crate. It does
//! not read or write files, measure or draw glyphs, or blur: it says where
//! everything is drawn and how the export is encoded, and leaves the drawing to
//! its caller.
//!
//! - `geometry`: ratio crops and the scaling of lengths.
//! - `config`: the settings of a profile, and the command line.
//! - `properties`: the properties of the open image and their stored form.
//! - `layout`: where the lines of a field are drawn.
//! - `panel`: the panel behind the primary quote.
//! - `card`: the plan of the whole card.
//! - `raster`: pictures as plain samples.
//! - `container`: the image that is open in the editor.
//! - `export`: the frame that is exported and its encoding.
//! - `names`: the names of the files of an image.
//! - `image_info`: the kinds of image files.
//! - `session`: the commands to the worker that owns the image.
//! - `result_ext`: what becomes of a failed step.
//! - `text`: what is needed of strings.

pub mod card;
pub mod config;
pub mod container;
pub mod export;
pub mod geometry;
pub mod image_info;
pub mod layout;
pub mod names;
pub mod panel;
pub mod properties;
pub mod raster;
pub mod result_ext;
pub mod session;
pub mod text;
