//! Decoder for the lines that a shogi engine sends to its controlling
//! program under the USI protocol.
//!
//! `EngineCommandParser::new` splits a line into tokens and `parse` decodes
//! them. The grammar is stated over token sequences in `grammar`, the
//! properties it has in `laws`.

pub mod command;
pub mod grammar;
pub mod laws;
pub mod numbers;
pub mod parser;
pub mod text;

pub use command::{
    BestMoveParams, CheckmateParams, EngineCommand, Error, IdParams, InfoParams, OptionKind,
    OptionParams, ScoreKind,
};
pub use parser::EngineCommandParser;
