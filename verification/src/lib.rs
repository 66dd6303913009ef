//! Boundary layer between managed application code and a foreign,
//! callback-driven rendering runtime with a fixed binary layout.
//!
//! Two subsystems share one discipline:
//!
//! * the bitmap marshaler ([`bitmap`]) turns a portable, self-describing
//!   image into the flat header-plus-payload block the foreign drawing
//!   primitives consume, rejecting images whose dimensions do not fit the
//!   native header's fixed-width fields;
//! * the event dispatch bridge ([`dispatch`]) decodes the runtime's raw
//!   integer event codes, decides for each callback invocation whether a
//!   registered handler runs, and fixes the sentinel codes and failure
//!   policy returned to the runtime.

pub mod bitmap;
pub mod color;
pub mod dispatch;
pub mod ui;
