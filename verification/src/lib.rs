//! A small retained-mode scene graph and a text-transcript widget.
//!
//! A tree of [`frames::Frame`]s and a [`transcript::Transcript`] are flattened
//! into one ordered list of drawing commands, a
//! [`display_list::DisplayListBuilder`], which a host hands to its renderer.
//! All geometry is in whole layout units.

pub mod geometry;
pub mod display_list;

pub mod frames;
pub mod transcript;
pub mod events;
pub mod gestures;
