//! Helix: the libultra runtime model of an N64 host — message queues, the cooperative
//! scheduler, the retrace clock arithmetic, the cart ROM container and the capture selection
//! grammar — with each piece's behaviour stated and proved.
pub mod utils;
pub mod gui;
pub mod network;
pub mod render;
pub mod speech;
pub mod ultra;
