//! Image reconciliation and compositing: two decoded RGBA pixel grids are
//! brought to a common size, blended pixel by pixel with standard alpha
//! compositing, and the result is placed in a capacity-bounded output buffer
//! under a freshly generated file name.

pub mod buffer;
pub mod compose;
pub mod errors;
pub mod grid;
pub mod naming;
pub mod reconcile;
