//! Session layer for a TourBox controller reached over Bluetooth Low Energy.
//!
//! The crate holds the decisions of a session and none of its transport: it
//! finds the GATT endpoints of the controller in a picture of the device,
//! sequences the initialisation frames, decodes notification frames into input
//! events, and stops every one of these steps once the shutdown token has
//! fired. A caller performs the transport operations that the session asks for
//! and reports what became of them.

pub mod error;
pub mod gatt;
pub mod input;
pub mod protocol;
pub mod resolver;
pub mod search;
pub mod session;
pub mod shutdown;
pub mod tourbox;
