//! Generation of random version-4 UUIDs and parsing of the command line
//! that asks for them.

pub mod args;
pub mod ident;

pub use args::{parse_count_reply, parse_output_mode, MyError, OutputMode, NUM_TO_GENERATE};
pub use ident::{gen_uuids, Uuid};
