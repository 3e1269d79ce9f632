//! The shared state of an emulated signature-capture tablet: an RGBA raster,
//! the stroke in progress that turns pointer samples into segments, the armed
//! flag, the point count, PNG snapshots, and the replies of the tablet's wire
//! protocol.
pub mod canvas;
pub mod protocol;
pub mod stroke;
pub mod tablet;
