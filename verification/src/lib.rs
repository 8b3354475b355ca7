//! Word boundaries of Unicode text (UAX #29): iterators over the segments
//! of a string between word boundaries and over its words, with contracts
//! that pin down every segment they yield, and the laws that the
//! segmentation keeps.
pub mod ascii_cuts;
pub mod ascii_rules;
pub mod joining;
pub mod laws;
pub mod line_breaks;
pub mod run_breaks;
pub mod tables;
pub mod text;
pub mod word;
pub mod word_rules;
