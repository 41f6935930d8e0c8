//! Orientation algebra for axis-aligned bricks.
//!
//! A brick points along one of six face normals and is spun by one of four
//! quarter turns about that normal, which makes 24 rigid orientations of a
//! cube. The crate composes orientations, carries offsets from a brick's
//! local frame into the world frame, and measures a brick along a world axis.
//!
//! Every table the crate relies on is constant data; the group laws of the
//! composition table and the shape of the transform table are proved, not
//! assumed.

pub mod catalog;
pub mod save;
pub mod util;
