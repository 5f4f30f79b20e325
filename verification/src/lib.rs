//! A small platform-integration layer that exposes the operating system's
//! shared clipboard (pasteboard) as a uniform read/write interface.
//!
//! The verified core models the pasteboard state as an ordered sequence of
//! items, each offering its content in one or more typed representations,
//! and pins down the two operations of the layer: read the first item's
//! primary representation, and replace the whole contents with a single new
//! item. Every native call of the surrounding binding signals failure by a
//! null handle or a false boolean; the decision taken at each such point is
//! a verified function here, so that each failure maps to exactly one named
//! error and nothing else.

pub mod errors;
pub mod laws;
pub mod model;
pub mod steps;
