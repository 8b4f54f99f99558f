//! An incremental software renderer for layouts of labels, shapes and images,
//! and the registry of a hotkey hook.
//!
//! A scene is described with fixed-point numbers. The library decides what is
//! drawn, in which order and with which paint, keeps the background layer in
//! a surface of its own, tracks the rows that the foreground touches and
//! copies only those back into the frame. A rasterizer carries out the drawing
//! commands that the library hands out.
//!
//! - `fixed`: saturating fixed-point numbers.
//! - `scene`: what a frame shows.
//! - `surface`: pixel surfaces.
//! - `image`: decoded images with premultiplied alpha.
//! - `rasterizer`: the drawing commands of a layer.
//! - `dirty`: the rows that a layer touches.
//! - `blur`: the cache of the blurred background image.
//! - `background`: how the background surface is started anew.
//! - `renderer`: the renderers, which put the frames together.
//! - `hotkey`: hotkeys and the hook that keeps their callbacks.

pub mod background;
pub mod blur;
pub mod dirty;
pub mod fixed;
pub mod hotkey;
pub mod image;
pub mod rasterizer;
pub mod renderer;
pub mod scene;
pub mod surface;
