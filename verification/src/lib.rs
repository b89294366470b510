//! Human-like typing: given a text, decide which keys to press and how long
//! to wait between them, including occasional slips that are corrected at
//! once.
//!
//! The library only decides. [`engine::HumanTypist::type_text`] returns the
//! keystrokes and pauses as a list of [`engine::Action`] values, and the
//! caller performs them.
//!
//! - [`config`]: the numbers that govern pacing and slips.
//! - [`keyboard`]: which keys lie beside which, and the wrong key of a slip.
//! - [`engine`]: the typist, and what it does for each character.
//! - [`outcome`]: what a list of actions amounts to, and the proofs that the
//!   text reaches the screen whatever slips were made.
//! - [`text`]: getting a source text ready for typing.
//! - [`entropy`], [`unicode`]: the calls into `rand` and the standard
//!   library that are taken on trust.

pub mod config;
pub mod engine;
pub mod entropy;
pub mod keyboard;
pub mod outcome;
pub mod text;
pub mod unicode;
