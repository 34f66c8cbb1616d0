//! Saved execution state for RISC-V privilege transitions.
//!
//! A [`context::TrapContext`] holds the complete register state of a program
//! at the boundary between user and supervisor mode: the 32 general-purpose
//! registers, the saved `sstatus` word, and the address execution resumes at.
//! [`context::TrapContext::app_init_context`] synthesizes such a state for a
//! program that has never run, so that the first trap-return drops into user
//! mode at the program's entry point.

pub mod context;
pub mod sstatus;
