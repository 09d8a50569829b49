//! A registry of a fixed number of parking spots: listing, booking and
//! releasing them, and the fee owed for the time a spot was held.

pub mod clock;
pub mod console;
pub mod fee;
pub mod registry;
pub mod spot;
pub mod text;
