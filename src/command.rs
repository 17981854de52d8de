//! The decoded commands and the mathematical values they stand for.

use vstd::prelude::*;
use crate::text::views;

verus! {

/// The only way a line can fail to decode.
#[derive(Debug, Clone, Copy, PartialEq, Eq, Structural)]
pub enum Error {
    IllegalSyntax,
}

/// How a reported score is to be read.
#[derive(Debug, Clone, Copy, PartialEq, Eq, Structural)]
pub enum ScoreKind {
    CpExact,
    CpLowerbound,
    CpUpperbound,
    MateExact,
    MateLowerbound,
    MateUpperbound,
    /// Mate is found, with only its side known; the value is `1` or `-1`.
    MateSignOnly,
}

#[derive(Debug, Clone, PartialEq, Eq)]
pub enum BestMoveParams {
    Resign,
    Win,
    /// The move, and the move the engine would ponder on.
    MakeMove(String, Option<String>),
}

#[derive(Debug, Clone, PartialEq, Eq)]
pub enum CheckmateParams {
    NoMate,
    Timeout,
    /// The mating sequence; never empty.
    Mate(Vec<String>),
}

#[derive(Debug, Clone, PartialEq, Eq)]
pub enum IdParams {
    Name(String),
    Author(String),
}

#[derive(Debug, Clone, PartialEq, Eq)]
pub enum InfoParams {
    /// Search depth, and selective depth when reported.
    Depth(i32, Option<i32>),
    /// Time searched, in milliseconds.
    Time(u64),
    MultiPv(i32),
    Nodes(i32),
    /// Principal variation: always the last entry of a line.
    Pv(Vec<String>),
    Score(i32, ScoreKind),
    CurrMove(String),
    HashFull(i32),
    Nps(i32),
    /// Free text: always the last entry of a line.
    Text(String),
}

#[derive(Debug, Clone, PartialEq, Eq)]
#[allow(inconsistent_fields)]
pub enum OptionKind {
    Check { default: Option<bool> },
    Spin { default: Option<i32>, min: Option<i32>, max: Option<i32> },
    Combo { default: Option<String>, vars: Vec<String> },
    Button { default: Option<String> },
    String { default: Option<String> },
    Filename { default: Option<String> },
}

#[derive(Debug, Clone, PartialEq, Eq)]
pub struct OptionParams {
    pub name: String,
    pub value: OptionKind,
}

#[derive(Debug, Clone, PartialEq, Eq)]
pub enum EngineCommand {
    BestMove(BestMoveParams),
    Checkmate(CheckmateParams),
    Id(IdParams),
    Info(Vec<InfoParams>),
    Option(OptionParams),
    ReadyOk,
    UsiOk,
    /// A command word this decoder does not know; not an error.
    Unknown,
}

pub enum BestMoveModel {
    Resign,
    Win,
    MakeMove(Seq<char>, Option<Seq<char>>),
}

pub enum CheckmateModel {
    NoMate,
    Timeout,
    Mate(Seq<Seq<char>>),
}

pub enum IdModel {
    Name(Seq<char>),
    Author(Seq<char>),
}

pub enum InfoModel {
    Depth(i32, Option<i32>),
    Time(u64),
    MultiPv(i32),
    Nodes(i32),
    Pv(Seq<Seq<char>>),
    Score(i32, ScoreKind),
    CurrMove(Seq<char>),
    HashFull(i32),
    Nps(i32),
    Text(Seq<char>),
}

#[allow(inconsistent_fields)]
pub enum OptionKindModel {
    Check { default: Option<bool> },
    Spin { default: Option<i32>, min: Option<i32>, max: Option<i32> },
    Combo { default: Option<Seq<char>>, vars: Seq<Seq<char>> },
    Button { default: Option<Seq<char>> },
    String { default: Option<Seq<char>> },
    Filename { default: Option<Seq<char>> },
}

pub struct OptionModel {
    pub name: Seq<char>,
    pub value: OptionKindModel,
}

pub enum CommandModel {
    BestMove(BestMoveModel),
    Checkmate(CheckmateModel),
    Id(IdModel),
    Info(Seq<InfoModel>),
    Option(OptionModel),
    ReadyOk,
    UsiOk,
    Unknown,
}

pub open spec fn opt_view(o: Option<String>) -> Option<Seq<char>> {
    match o {
        Some(s) => Some(s@),
        None => None,
    }
}

impl View for BestMoveParams {
    type V = BestMoveModel;

    open spec fn view(&self) -> BestMoveModel {
        match self {
            BestMoveParams::Resign => BestMoveModel::Resign,
            BestMoveParams::Win => BestMoveModel::Win,
            BestMoveParams::MakeMove(m, p) => BestMoveModel::MakeMove(m@, opt_view(*p)),
        }
    }
}

impl View for CheckmateParams {
    type V = CheckmateModel;

    open spec fn view(&self) -> CheckmateModel {
        match self {
            CheckmateParams::NoMate => CheckmateModel::NoMate,
            CheckmateParams::Timeout => CheckmateModel::Timeout,
            CheckmateParams::Mate(ms) => CheckmateModel::Mate(views(ms@)),
        }
    }
}

impl View for IdParams {
    type V = IdModel;

    open spec fn view(&self) -> IdModel {
        match self {
            IdParams::Name(s) => IdModel::Name(s@),
            IdParams::Author(s) => IdModel::Author(s@),
        }
    }
}

impl View for InfoParams {
    type V = InfoModel;

    open spec fn view(&self) -> InfoModel {
        match self {
            InfoParams::Depth(d, s) => InfoModel::Depth(*d, *s),
            InfoParams::Time(ms) => InfoModel::Time(*ms),
            InfoParams::MultiPv(n) => InfoModel::MultiPv(*n),
            InfoParams::Nodes(n) => InfoModel::Nodes(*n),
            InfoParams::Pv(ms) => InfoModel::Pv(views(ms@)),
            InfoParams::Score(v, k) => InfoModel::Score(*v, *k),
            InfoParams::CurrMove(m) => InfoModel::CurrMove(m@),
            InfoParams::HashFull(n) => InfoModel::HashFull(*n),
            InfoParams::Nps(n) => InfoModel::Nps(*n),
            InfoParams::Text(s) => InfoModel::Text(s@),
        }
    }
}

/// The entries of an `info` line, as values.
pub open spec fn entries_view(v: Seq<InfoParams>) -> Seq<InfoModel> {
    v.map_values(|e: InfoParams| e@)
}

impl View for OptionKind {
    type V = OptionKindModel;

    open spec fn view(&self) -> OptionKindModel {
        match self {
            OptionKind::Check { default } => OptionKindModel::Check { default: *default },
            OptionKind::Spin { default, min, max } => OptionKindModel::Spin {
                default: *default,
                min: *min,
                max: *max,
            },
            OptionKind::Combo { default, vars } => OptionKindModel::Combo {
                default: opt_view(*default),
                vars: views(vars@),
            },
            OptionKind::Button { default } => OptionKindModel::Button {
                default: opt_view(*default),
            },
            OptionKind::String { default } => OptionKindModel::String {
                default: opt_view(*default),
            },
            OptionKind::Filename { default } => OptionKindModel::Filename {
                default: opt_view(*default),
            },
        }
    }
}

impl View for OptionParams {
    type V = OptionModel;

    open spec fn view(&self) -> OptionModel {
        OptionModel { name: self.name@, value: self.value@ }
    }
}

impl View for EngineCommand {
    type V = CommandModel;

    open spec fn view(&self) -> CommandModel {
        match self {
            EngineCommand::BestMove(b) => CommandModel::BestMove(b@),
            EngineCommand::Checkmate(c) => CommandModel::Checkmate(c@),
            EngineCommand::Id(i) => CommandModel::Id(i@),
            EngineCommand::Info(es) => CommandModel::Info(entries_view(es@)),
            EngineCommand::Option(o) => CommandModel::Option(o@),
            EngineCommand::ReadyOk => CommandModel::ReadyOk,
            EngineCommand::UsiOk => CommandModel::UsiOk,
            EngineCommand::Unknown => CommandModel::Unknown,
        }
    }
}

/// A decoding result, as a value.
pub open spec fn result_view(r: Result<EngineCommand, Error>) -> Result<CommandModel, Error> {
    match r {
        Ok(c) => Ok(c@),
        Err(e) => Err(e),
    }
}

} // verus!
