//! Widget toolkit logic for small SDL applications: key and mouse state
//! tracking, alignment, rectangle geometry, circle rasterisation and the
//! behaviour of buttons, switches, sliders and text inputs.
//!
//! Everything here is plain data; drawing and event polling are done by the
//! caller, which hands the events in and draws what these functions compute.
#![allow(non_snake_case)]

pub mod bloc;
pub mod canvas;
pub mod circle;
pub mod color;
pub mod fonts;
pub mod fps;
pub mod geometry;
pub mod grid;
pub mod input;
pub mod oxy;
pub mod style;
pub mod text;
pub mod widgets;
