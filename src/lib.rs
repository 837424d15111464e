//! A layered vector-drawing canvas: exact integer geometry, canvas elements,
//! layers with an id index, a viewport, and the drawing tools that turn
//! pointer gestures into elements.

pub mod geometry;
pub mod element;
pub mod error;
pub mod canvas;
pub mod tool;
pub mod brush;
pub mod eraser;
pub mod shape;
pub mod text;
pub mod selection;
pub mod manager;
pub mod config;
pub mod i18n;
pub mod platform;
pub mod events;
pub mod drawing_engine;
