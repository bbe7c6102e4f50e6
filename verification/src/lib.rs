//! A small library built around ownership and borrowing: a `Sensor` record
//! whose value moves between owners, and an `Image` view whose lifetime is
//! tied to the buffer it borrows.

pub mod image;
pub mod sensor;
