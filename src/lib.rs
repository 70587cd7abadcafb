//! Freehand digit capture: pointer events become strokes, strokes become a
//! drawing path, and a raster of the canvas becomes a small RGBA bitmap that a
//! background renderer hands back in submission order.
pub mod capture;
pub mod strokes;
pub mod raster;
pub mod coordinator;
pub mod session;
