//! Instruction-execution core of a Sharp SM83 (Game Boy) CPU: register file,
//! ALU, memory bus, micro-operation decoder and executor.
pub mod alu;
pub mod cart;
pub mod cpu;
pub mod decoder;
pub mod instructions;
pub mod interconnect;
pub mod microops;
pub mod registers;
pub mod semantics;
