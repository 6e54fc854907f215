//! A small personal toolkit library: a pomodoro session engine (cyclic
//! segment sequencing, a pausable countdown state machine, input routing
//! and session orchestration) and a word-list regex search engine.

pub mod countdown;
pub mod input;
pub mod pomo;
pub mod session;
pub mod sequence;
pub mod word;
