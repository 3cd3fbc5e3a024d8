//! The libultra runtime: the scheduler's token, message queues, events, the VI retrace clock,
//! the cart ROM device, EEPROM, PI DMA checks and the COUNT timer.
pub mod event;
pub mod mesg;
pub mod pi;
pub mod rcp;
pub mod rom;
pub mod runtime;
pub mod save;
pub mod sched;
pub mod timer;
pub mod vi;
