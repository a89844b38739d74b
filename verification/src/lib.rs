//! The Sharp SM83 (Game Boy) CPU core: registers, flags, the bus interface
//! that the processor drives, and the instruction semantics.
pub mod alu;
pub mod bits;
pub mod bus;
pub mod cpu;
pub mod decode;
pub mod laws;
pub mod ops;
pub mod ram;
pub mod registers;
pub mod semantics;
