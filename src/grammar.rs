//! The line grammar, stated over the tokens of a line.
//!
//! Every function here reads the whole token sequence `t` of a line; the
//! command word is `t[0]` and positions are indices into `t`.

use vstd::prelude::*;
use crate::command::{
    BestMoveModel, CheckmateModel, CommandModel, Error, IdModel, InfoModel, OptionKindModel,
    OptionModel, ScoreKind,
};
use crate::numbers::{bool_of, i32_of, u64_of};

verus! {

/// The items of `s` with `sep` between each two.
pub open spec fn joined(s: Seq<Seq<char>>, sep: Seq<char>) -> Seq<char>
    decreases s.len(),
{
    if s.len() == 0 {
        seq![]
    } else if s.len() == 1 {
        s[0]
    } else {
        joined(s.drop_last(), sep) + sep + s.last()
    }
}

/// The tokens from `j` on, joined with single spaces.
pub open spec fn text_from(t: Seq<Seq<char>>, j: int) -> Seq<char> {
    joined(t.subrange(j, t.len() as int), seq![' '])
}

/// A default value as written: `<empty>` stands for the empty string.
pub open spec fn default_text(s: Seq<char>) -> Seq<char> {
    if s == "<empty>"@ {
        seq![]
    } else {
        s
    }
}

/// Whether token `j` exists and is `w`.
pub open spec fn is_at(t: Seq<Seq<char>>, j: int, w: Seq<char>) -> bool {
    0 <= j < t.len() && t[j] == w
}

/// Token `j` read as an `i32`, if it exists and is one.
pub open spec fn i32_at(t: Seq<Seq<char>>, j: int) -> Option<i32> {
    if 0 <= j < t.len() {
        i32_of(t[j])
    } else {
        None
    }
}

pub open spec fn best_move(t: Seq<Seq<char>>) -> Result<CommandModel, Error> {
    if t.len() == 2 && t[1] == "resign"@ {
        Ok(CommandModel::BestMove(BestMoveModel::Resign))
    } else if t.len() == 2 && t[1] == "win"@ {
        Ok(CommandModel::BestMove(BestMoveModel::Win))
    } else if t.len() == 2 {
        Ok(CommandModel::BestMove(BestMoveModel::MakeMove(t[1], None)))
    } else if t.len() == 4 && t[2] == "ponder"@ {
        Ok(CommandModel::BestMove(BestMoveModel::MakeMove(t[1], Some(t[3]))))
    } else {
        Err(Error::IllegalSyntax)
    }
}

pub open spec fn checkmate(t: Seq<Seq<char>>) -> Result<CommandModel, Error> {
    if t.len() < 2 {
        Err(Error::IllegalSyntax)
    } else if t[1] == "notimplemented"@ {
        Ok(CommandModel::Checkmate(CheckmateModel::NoMate))
    } else if t[1] == "timeout"@ {
        Ok(CommandModel::Checkmate(CheckmateModel::Timeout))
    } else if t[1] == "nomate"@ {
        Ok(CommandModel::Checkmate(CheckmateModel::NoMate))
    } else {
        Ok(CommandModel::Checkmate(CheckmateModel::Mate(t.subrange(1, t.len() as int))))
    }
}

pub open spec fn id(t: Seq<Seq<char>>) -> Result<CommandModel, Error> {
    if t.len() < 2 {
        Err(Error::IllegalSyntax)
    } else if t[1] == "name"@ {
        Ok(CommandModel::Id(IdModel::Name(text_from(t, 2))))
    } else if t[1] == "author"@ {
        Ok(CommandModel::Id(IdModel::Author(text_from(t, 2))))
    } else {
        Err(Error::IllegalSyntax)
    }
}

/// A score of value `v` whose number ends at token `j - 1`, with the bound
/// suffix read at `j`: the entry, and where the next item starts.
pub open spec fn bounded_score(
    t: Seq<Seq<char>>,
    j: int,
    v: i32,
    exact: ScoreKind,
    lower: ScoreKind,
    upper: ScoreKind,
) -> (InfoModel, int) {
    if is_at(t, j, "lowerbound"@) {
        (InfoModel::Score(v, lower), j + 1)
    } else if is_at(t, j, "upperbound"@) {
        (InfoModel::Score(v, upper), j + 1)
    } else {
        (InfoModel::Score(v, exact), j)
    }
}

/// An entry of one numeric argument at `i + 1`, built by `f`.
pub open spec fn numeric(t: Seq<Seq<char>>, i: int, f: spec_fn(i32) -> InfoModel) -> Result<
    (InfoModel, int, bool),
    Error,
> {
    match i32_at(t, i + 1) {
        Some(n) => Ok((f(n), i + 2, false)),
        None => Err(Error::IllegalSyntax),
    }
}

pub open spec fn score(t: Seq<Seq<char>>, i: int) -> Result<(InfoModel, int, bool), Error> {
    if i + 2 >= t.len() {
        Err(Error::IllegalSyntax)
    } else if t[i + 1] == "cp"@ {
        match i32_of(t[i + 2]) {
            Some(v) => {
                let (e, j) = bounded_score(
                    t,
                    i + 3,
                    v,
                    ScoreKind::CpExact,
                    ScoreKind::CpLowerbound,
                    ScoreKind::CpUpperbound,
                );
                Ok((e, j, false))
            },
            None => Err(Error::IllegalSyntax),
        }
    } else if t[i + 1] == "mate"@ {
        if t[i + 2] == "+"@ {
            Ok((InfoModel::Score(1, ScoreKind::MateSignOnly), i + 3, false))
        } else if t[i + 2] == "-"@ {
            Ok((InfoModel::Score(-1i32, ScoreKind::MateSignOnly), i + 3, false))
        } else {
            match i32_of(t[i + 2]) {
                Some(v) => {
                    let (e, j) = bounded_score(
                        t,
                        i + 3,
                        v,
                        ScoreKind::MateExact,
                        ScoreKind::MateLowerbound,
                        ScoreKind::MateUpperbound,
                    );
                    Ok((e, j, false))
                },
                None => Err(Error::IllegalSyntax),
            }
        }
    } else {
        Err(Error::IllegalSyntax)
    }
}

/// The `info` item whose keyword is token `i`: its entry, where the next
/// item starts, and whether the item ends the line.
pub open spec fn info_step(t: Seq<Seq<char>>, i: int) -> Result<(InfoModel, int, bool), Error> {
    let k = t[i];
    if k == "depth"@ {
        match i32_at(t, i + 1) {
            Some(d) => if is_at(t, i + 2, "seldepth"@) {
                match i32_at(t, i + 3) {
                    Some(s) => Ok((InfoModel::Depth(d, Some(s)), i + 4, false)),
                    None => Err(Error::IllegalSyntax),
                }
            } else {
                Ok((InfoModel::Depth(d, None), i + 2, false))
            },
            None => Err(Error::IllegalSyntax),
        }
    } else if k == "time"@ {
        if i + 1 < t.len() && u64_of(t[i + 1]) is Some {
            Ok((InfoModel::Time(u64_of(t[i + 1])->0), i + 2, false))
        } else {
            Err(Error::IllegalSyntax)
        }
    } else if k == "multipv"@ {
        numeric(t, i, |n: i32| InfoModel::MultiPv(n))
    } else if k == "nodes"@ {
        numeric(t, i, |n: i32| InfoModel::Nodes(n))
    } else if k == "pv"@ {
        Ok((InfoModel::Pv(t.subrange(i + 1, t.len() as int)), t.len() as int, true))
    } else if k == "score"@ {
        score(t, i)
    } else if k == "currmove"@ {
        if i + 1 < t.len() {
            Ok((InfoModel::CurrMove(t[i + 1]), i + 2, false))
        } else {
            Err(Error::IllegalSyntax)
        }
    } else if k == "hashfull"@ {
        numeric(t, i, |n: i32| InfoModel::HashFull(n))
    } else if k == "nps"@ {
        numeric(t, i, |n: i32| InfoModel::Nps(n))
    } else if k == "string"@ {
        Ok((InfoModel::Text(text_from(t, i + 1)), t.len() as int, true))
    } else {
        Err(Error::IllegalSyntax)
    }
}

/// The entries read so far, followed by what the rest of the line gives.
pub open spec fn prepend(acc: Seq<InfoModel>, rest: Result<Seq<InfoModel>, Error>) -> Result<
    Seq<InfoModel>,
    Error,
> {
    match rest {
        Ok(es) => Ok(acc + es),
        Err(e) => Err(e),
    }
}

/// The entries of the `info` items from token `i` to the end of the line.
///
/// An item always ends after its keyword (`j > i`); the test of `j <= i`
/// only makes the recursion visibly well-founded.
pub open spec fn info_from(t: Seq<Seq<char>>, i: int) -> Result<Seq<InfoModel>, Error>
    decreases t.len() - i,
{
    if i < 0 || i >= t.len() {
        Ok(seq![])
    } else {
        match info_step(t, i) {
            Err(e) => Err(e),
            Ok((e, j, last)) => if last || j <= i {
                Ok(seq![e])
            } else {
                match info_from(t, j) {
                    Ok(es) => Ok(seq![e] + es),
                    Err(x) => Err(x),
                }
            },
        }
    }
}

/// The token after the first `default` at or after `j`, if there are both.
pub open spec fn after_default(t: Seq<Seq<char>>, j: int) -> Option<Seq<char>>
    decreases t.len() - j,
{
    if j < 0 || j >= t.len() {
        None
    } else if t[j] == "default"@ {
        if j + 1 < t.len() {
            Some(t[j + 1])
        } else {
            None
        }
    } else {
        after_default(t, j + 1)
    }
}

/// A `default` of a text-valued option.
pub open spec fn text_default(t: Seq<Seq<char>>) -> Option<Seq<char>> {
    match after_default(t, 5) {
        Some(s) => Some(default_text(s)),
        None => None,
    }
}

/// The `spin` body from token `j` on, with the values read before it.
pub open spec fn spin_from(
    t: Seq<Seq<char>>,
    j: int,
    default: Option<i32>,
    min: Option<i32>,
    max: Option<i32>,
) -> OptionKindModel
    decreases t.len() + 1 - j,
{
    if j < 0 || j >= t.len() {
        OptionKindModel::Spin { default, min, max }
    } else if t[j] == "default"@ {
        spin_from(t, j + 2, i32_at(t, j + 1), min, max)
    } else if t[j] == "min"@ {
        spin_from(t, j + 2, default, i32_at(t, j + 1), max)
    } else if t[j] == "max"@ {
        spin_from(t, j + 2, default, min, i32_at(t, j + 1))
    } else {
        spin_from(t, j + 1, default, min, max)
    }
}

/// The `combo` body from token `j` on, with the default read before it.
pub open spec fn combo_from(t: Seq<Seq<char>>, j: int, default: Option<Seq<char>>) -> OptionKindModel
    decreases t.len() - j,
{
    if j < 0 || j >= t.len() {
        OptionKindModel::Combo { default, vars: seq![] }
    } else if t[j] == "default"@ {
        if j + 1 < t.len() {
            combo_from(t, j + 2, Some(default_text(t[j + 1])))
        } else {
            OptionKindModel::Combo { default: None, vars: seq![] }
        }
    } else if t[j] == "var"@ {
        OptionKindModel::Combo { default, vars: t.subrange(j + 1, t.len() as int) }
    } else {
        combo_from(t, j + 1, default)
    }
}

/// The body of an option of type `t[4]`, read from token 5 on.
pub open spec fn option_kind(t: Seq<Seq<char>>) -> Option<OptionKindModel> {
    let ty = t[4];
    if ty == "check"@ {
        Some(
            OptionKindModel::Check {
                default: match after_default(t, 5) {
                    Some(s) => bool_of(s),
                    None => None,
                },
            },
        )
    } else if ty == "spin"@ {
        Some(spin_from(t, 5, None, None, None))
    } else if ty == "combo"@ {
        Some(combo_from(t, 5, None))
    } else if ty == "button"@ {
        Some(OptionKindModel::Button { default: text_default(t) })
    } else if ty == "string"@ {
        Some(OptionKindModel::String { default: text_default(t) })
    } else if ty == "filename"@ {
        Some(OptionKindModel::Filename { default: text_default(t) })
    } else {
        None
    }
}

pub open spec fn option(t: Seq<Seq<char>>) -> Result<CommandModel, Error> {
    if t.len() >= 5 && t[1] == "name"@ && t[3] == "type"@ {
        match option_kind(t) {
            Some(k) => Ok(CommandModel::Option(OptionModel { name: t[2], value: k })),
            None => Err(Error::IllegalSyntax),
        }
    } else {
        Err(Error::IllegalSyntax)
    }
}

/// What a line of tokens `t` decodes to.
pub open spec fn command(t: Seq<Seq<char>>) -> Result<CommandModel, Error> {
    if t.len() == 0 {
        Err(Error::IllegalSyntax)
    } else if t[0] == "bestmove"@ {
        best_move(t)
    } else if t[0] == "checkmate"@ {
        checkmate(t)
    } else if t[0] == "id"@ {
        id(t)
    } else if t[0] == "info"@ {
        match info_from(t, 1) {
            Ok(es) => Ok(CommandModel::Info(es)),
            Err(e) => Err(e),
        }
    } else if t[0] == "option"@ {
        option(t)
    } else if t[0] == "readyok"@ {
        Ok(CommandModel::ReadyOk)
    } else if t[0] == "usiok"@ {
        Ok(CommandModel::UsiOk)
    } else {
        Ok(CommandModel::Unknown)
    }
}

} // verus!
