//! The decoder: a line's tokens in, a command out.

use vstd::prelude::*;
use itertools::Itertools;
use crate::command::{
    entries_view, opt_view, result_view, BestMoveParams, CheckmateParams, CommandModel, EngineCommand, Error,
    IdParams, InfoModel, InfoParams, OptionKind, OptionParams, ScoreKind,
};
use crate::grammar::{
    after_default, best_move, bounded_score, checkmate, combo_from, command, default_text, i32_at,
    id, info_from, info_step, is_at, joined, option, prepend, score, spin_from,
    text_default, text_from,
};
use crate::numbers::{parse_bool, parse_i32, parse_u64};
use crate::text::{token_is, tokenize, tokens, views};

verus! {

/// Relies on `itertools::Itertools::join`: the text of each item from
/// `from` on, with `sep` written between each two.
#[verifier::external_body]
fn join_tail(items: &Vec<String>, from: usize, sep: &str) -> (r: String)
    requires
        from <= items.len(),
    ensures
        r@ == joined(views(items@).subrange(from as int, items@.len() as int), sep@),
{
    items[from..].iter().join(sep)
}

/// A default value as written: `<empty>` stands for the empty string.
fn parse_default(s: &str) -> (r: String)
    ensures
        r@ == default_text(s@),
{
    if token_is(s, "<empty>") {
        String::new()
    } else {
        s.to_owned()
    }
}

/// An executable `info` item agrees with the grammar's.
spec fn step_agrees(
    r: Result<(InfoParams, usize, bool), Error>,
    s: Result<(InfoModel, int, bool), Error>,
) -> bool {
    match (r, s) {
        (Ok((e, j, last)), Ok((e2, j2, last2))) => e@ == e2 && j as int == j2 && last == last2,
        (Err(x), Err(y)) => x == y,
        _ => false,
    }
}

/// A parser over the tokens of one line.
pub struct EngineCommandParser {
    tokens: Vec<String>,
}

impl View for EngineCommandParser {
    type V = Seq<Seq<char>>;

    closed spec fn view(&self) -> Seq<Seq<char>> {
        views(self.tokens@)
    }
}

impl EngineCommandParser {
    proof fn lemma_len(&self)
        ensures
            self@.len() == self.tokens.len(),
    {
    }

    /// Splits `cmd` into its whitespace-separated tokens.
    pub fn new(cmd: &str) -> (p: EngineCommandParser)
        ensures
            p@ == tokens(cmd@),
    {
        EngineCommandParser { tokens: tokenize(cmd) }
    }

    /// Decodes the line.
    pub fn parse(self) -> (r: Result<EngineCommand, Error>)
        ensures
            result_view(r) == command(self@),
    {
        if self.tokens.len() == 0 {
            return Err(Error::IllegalSyntax);
        }
        if self.at(0, "bestmove") {
            self.parse_bestmove()
        } else if self.at(0, "checkmate") {
            self.parse_checkmate()
        } else if self.at(0, "id") {
            self.parse_id()
        } else if self.at(0, "info") {
            self.parse_info()
        } else if self.at(0, "option") {
            self.parse_option()
        } else if self.at(0, "readyok") {
            Ok(EngineCommand::ReadyOk)
        } else if self.at(0, "usiok") {
            Ok(EngineCommand::UsiOk)
        } else {
            Ok(EngineCommand::Unknown)
        }
    }

    /// Whether token `j` exists and is `w`.
    fn at(&self, j: usize, w: &str) -> (r: bool)
        ensures
            r == is_at(self@, j as int, w@),
    {
        j < self.tokens.len() && token_is(self.tokens[j].as_str(), w)
    }

    /// Token `j` read as an `i32`, if it exists and is one.
    fn int_at(&self, j: usize) -> (r: Option<i32>)
        ensures
            r == i32_at(self@, j as int),
    {
        if j < self.tokens.len() {
            parse_i32(self.tokens[j].as_str())
        } else {
            None
        }
    }

    /// The tokens from `j` on.
    fn tail(&self, j: usize) -> (r: Vec<String>)
        requires
            j <= self@.len(),
        ensures
            views(r@) == self@.subrange(j as int, self@.len() as int),
    {
        let mut r: Vec<String> = Vec::new();
        let mut k: usize = j;
        while k < self.tokens.len()
            invariant
                j <= k <= self.tokens.len(),
                views(r@) == self@.subrange(j as int, k as int),
            decreases self.tokens.len() - k,
        {
            let ghost prev = r@;
            r.push(self.tokens[k].clone());
            assert(views(r@) =~= views(prev).push(self@[k as int]));
            assert(self@.subrange(j as int, k + 1) =~= self@.subrange(j as int, k as int).push(
                self@[k as int],
            ));
            k = k + 1;
        }
        r
    }

    /// The tokens from `j` on, joined with single spaces.
    fn text(&self, j: usize) -> (r: String)
        requires
            j <= self@.len(),
        ensures
            r@ == text_from(self@, j as int),
    {
        proof {
            assert(" "@ =~= seq![' ']) by {
                reveal_strlit(" ");
            }
        }
        join_tail(&self.tokens, j, " ")
    }

    fn parse_bestmove(&self) -> (r: Result<EngineCommand, Error>)
        requires
            self@.len() >= 1,
        ensures
            result_view(r) == best_move(self@),
    {
        let n = self.tokens.len();
        if n == 2 && self.at(1, "resign") {
            Ok(EngineCommand::BestMove(BestMoveParams::Resign))
        } else if n == 2 && self.at(1, "win") {
            Ok(EngineCommand::BestMove(BestMoveParams::Win))
        } else if n == 2 {
            Ok(EngineCommand::BestMove(BestMoveParams::MakeMove(self.tokens[1].clone(), None)))
        } else if n == 4 && self.at(2, "ponder") {
            Ok(
                EngineCommand::BestMove(
                    BestMoveParams::MakeMove(self.tokens[1].clone(), Some(self.tokens[3].clone())),
                ),
            )
        } else {
            Err(Error::IllegalSyntax)
        }
    }

    fn parse_checkmate(&self) -> (r: Result<EngineCommand, Error>)
        requires
            self@.len() >= 1,
        ensures
            result_view(r) == checkmate(self@),
    {
        if self.tokens.len() < 2 {
            Err(Error::IllegalSyntax)
        } else if self.at(1, "notimplemented") {
            Ok(EngineCommand::Checkmate(CheckmateParams::NoMate))
        } else if self.at(1, "timeout") {
            Ok(EngineCommand::Checkmate(CheckmateParams::Timeout))
        } else if self.at(1, "nomate") {
            Ok(EngineCommand::Checkmate(CheckmateParams::NoMate))
        } else {
            Ok(EngineCommand::Checkmate(CheckmateParams::Mate(self.tail(1))))
        }
    }

    fn parse_id(&self) -> (r: Result<EngineCommand, Error>)
        requires
            self@.len() >= 1,
        ensures
            result_view(r) == id(self@),
    {
        if self.tokens.len() < 2 {
            Err(Error::IllegalSyntax)
        } else if self.at(1, "name") {
            Ok(EngineCommand::Id(IdParams::Name(self.text(2))))
        } else if self.at(1, "author") {
            Ok(EngineCommand::Id(IdParams::Author(self.text(2))))
        } else {
            Err(Error::IllegalSyntax)
        }
    }
    /// A score whose number is token `j - 1`, with its bound suffix read at `j`.
    fn bounded(&self, j: usize, v: i32, exact: ScoreKind, lower: ScoreKind, upper: ScoreKind) -> (r: (
        InfoParams,
        usize,
    ))
        requires
            j <= self@.len(),
        ensures
            (r.0@, r.1 as int) == bounded_score(self@, j as int, v, exact, lower, upper),
            j <= r.1 <= self@.len(),
    {
        proof {
            self.lemma_len();
        }
        if self.at(j, "lowerbound") {
            (InfoParams::Score(v, lower), j + 1)
        } else if self.at(j, "upperbound") {
            (InfoParams::Score(v, upper), j + 1)
        } else {
            (InfoParams::Score(v, exact), j)
        }
    }

    /// The `score` item whose keyword is token `i`.
    fn score_item(&self, i: usize) -> (r: Result<(InfoParams, usize, bool), Error>)
        requires
            i < self@.len(),
        ensures
            step_agrees(r, score(self@, i as int)),
            r matches Ok((_, j, _)) ==> i < j <= self@.len(),
    {
        proof {
            self.lemma_len();
        }
        if self.tokens.len() - i <= 2 {
            Err(Error::IllegalSyntax)
        } else if self.at(i + 1, "cp") {
            match parse_i32(self.tokens[i + 2].as_str()) {
                Some(v) => {
                    let (e, j) = self.bounded(
                        i + 3,
                        v,
                        ScoreKind::CpExact,
                        ScoreKind::CpLowerbound,
                        ScoreKind::CpUpperbound,
                    );
                    Ok((e, j, false))
                },
                None => Err(Error::IllegalSyntax),
            }
        } else if self.at(i + 1, "mate") {
            if self.at(i + 2, "+") {
                Ok((InfoParams::Score(1, ScoreKind::MateSignOnly), i + 3, false))
            } else if self.at(i + 2, "-") {
                Ok((InfoParams::Score(-1, ScoreKind::MateSignOnly), i + 3, false))
            } else {
                match parse_i32(self.tokens[i + 2].as_str()) {
                    Some(v) => {
                        let (e, j) = self.bounded(
                            i + 3,
                            v,
                            ScoreKind::MateExact,
                            ScoreKind::MateLowerbound,
                            ScoreKind::MateUpperbound,
                        );
                        Ok((e, j, false))
                    },
                    None => Err(Error::IllegalSyntax),
                }
            }
        } else {
            Err(Error::IllegalSyntax)
        }
    }

    /// The `info` item whose keyword is token `i`: its entry, where the next
    /// item starts, and whether it ends the line.
    fn info_item(&self, i: usize) -> (r: Result<(InfoParams, usize, bool), Error>)
        requires
            i < self@.len(),
        ensures
            step_agrees(r, info_step(self@, i as int)),
            r matches Ok((_, j, _)) ==> i < j <= self@.len(),
    {
        let n = self.tokens.len();
        if self.at(i, "depth") {
            match self.int_at(i + 1) {
                Some(d) => if self.at(i + 2, "seldepth") {
                    match self.int_at(i + 3) {
                        Some(s) => Ok((InfoParams::Depth(d, Some(s)), i + 4, false)),
                        None => Err(Error::IllegalSyntax),
                    }
                } else {
                    Ok((InfoParams::Depth(d, None), i + 2, false))
                },
                None => Err(Error::IllegalSyntax),
            }
        } else if self.at(i, "time") {
            if i + 1 < n {
                match parse_u64(self.tokens[i + 1].as_str()) {
                    Some(ms) => Ok((InfoParams::Time(ms), i + 2, false)),
                    None => Err(Error::IllegalSyntax),
                }
            } else {
                Err(Error::IllegalSyntax)
            }
        } else if self.at(i, "multipv") {
            match self.int_at(i + 1) {
                Some(v) => Ok((InfoParams::MultiPv(v), i + 2, false)),
                None => Err(Error::IllegalSyntax),
            }
        } else if self.at(i, "nodes") {
            match self.int_at(i + 1) {
                Some(v) => Ok((InfoParams::Nodes(v), i + 2, false)),
                None => Err(Error::IllegalSyntax),
            }
        } else if self.at(i, "pv") {
            Ok((InfoParams::Pv(self.tail(i + 1)), n, true))
        } else if self.at(i, "score") {
            self.score_item(i)
        } else if self.at(i, "currmove") {
            if i + 1 < n {
                Ok((InfoParams::CurrMove(self.tokens[i + 1].clone()), i + 2, false))
            } else {
                Err(Error::IllegalSyntax)
            }
        } else if self.at(i, "hashfull") {
            match self.int_at(i + 1) {
                Some(v) => Ok((InfoParams::HashFull(v), i + 2, false)),
                None => Err(Error::IllegalSyntax),
            }
        } else if self.at(i, "nps") {
            match self.int_at(i + 1) {
                Some(v) => Ok((InfoParams::Nps(v), i + 2, false)),
                None => Err(Error::IllegalSyntax),
            }
        } else if self.at(i, "string") {
            Ok((InfoParams::Text(self.text(i + 1)), n, true))
        } else {
            Err(Error::IllegalSyntax)
        }
    }

    fn parse_info(&self) -> (r: Result<EngineCommand, Error>)
        requires
            self@.len() >= 1,
        ensures
            result_view(r) == match info_from(self@, 1) {
                Ok(es) => Ok(CommandModel::Info(es)),
                Err(e) => Err(e),
            },
    {
        let n = self.tokens.len();
        let mut entries: Vec<InfoParams> = Vec::new();
        let mut i: usize = 1;
        assert(entries_view(entries@) =~= seq![]);
        assert(prepend(seq![], info_from(self@, 1)) == info_from(self@, 1)) by {
            if let Ok(es) = info_from(self@, 1) {
                assert(Seq::<InfoModel>::empty() + es =~= es);
            }
        }
        while i < n
            invariant
                1 <= i <= n,
                n == self@.len(),
                info_from(self@, 1) == prepend(entries_view(entries@), info_from(self@, i as int)),
            decreases n - i,
        {
            let ghost acc = entries_view(entries@);
            match self.info_item(i) {
                Err(e) => {
                    return Err(e);
                },
                Ok((e, j, last)) => {
                    let ghost em = e@;
                    entries.push(e);
                    assert(entries_view(entries@) =~= acc.push(em));
                    if last {
                        assert(acc + seq![em] =~= acc.push(em));
                        return Ok(EngineCommand::Info(entries));
                    }
                    proof {
                        if let Ok(es) = info_from(self@, j as int) {
                            assert(acc + (seq![em] + es) =~= acc.push(em) + es);
                        }
                    }
                    i = j;
                },
            }
        }
        assert(info_from(self@, i as int) == Ok::<Seq<InfoModel>, Error>(seq![]));
        assert(entries_view(entries@) + seq![] =~= entries_view(entries@));
        Ok(EngineCommand::Info(entries))
    }

    /// Where the value after the first `default` at or after `j` stands.
    fn find_default(&self, j: usize) -> (r: Option<usize>)
        ensures
            match r {
                Some(k) => k < self@.len() && after_default(self@, j as int) == Some(self@[k as int]),
                None => after_default(self@, j as int) is None,
            },
    {
        let n = self.tokens.len();
        let mut k: usize = j;
        while k < n
            invariant
                j <= k,
                n == self@.len(),
                after_default(self@, j as int) == after_default(self@, k as int),
            decreases n - k,
        {
            if self.at(k, "default") {
                if k + 1 < n {
                    return Some(k + 1);
                } else {
                    return None;
                }
            }
            k = k + 1;
        }
        None
    }

    /// The `default` of a text-valued option.
    fn text_default_value(&self) -> (r: Option<String>)
        ensures
            opt_view(r) == text_default(self@),
    {
        match self.find_default(5) {
            Some(k) => Some(parse_default(self.tokens[k].as_str())),
            None => None,
        }
    }

    fn spin_body(&self) -> (r: OptionKind)
        requires
            self@.len() >= 5,
        ensures
            r@ == spin_from(self@, 5, None, None, None),
    {
        let n = self.tokens.len();
        let mut default: Option<i32> = None;
        let mut min: Option<i32> = None;
        let mut max: Option<i32> = None;
        let mut k: usize = 5;
        while k < n
            invariant
                5 <= k <= n,
                n == self@.len(),
                spin_from(self@, 5, None, None, None) == spin_from(self@, k as int, default, min, max),
            decreases n - k,
        {
            let key = if self.at(k, "default") {
                0u8
            } else if self.at(k, "min") {
                1u8
            } else if self.at(k, "max") {
                2u8
            } else {
                3u8
            };
            if key < 3 {
                let v = self.int_at(k + 1);
                if key == 0 {
                    default = v;
                } else if key == 1 {
                    min = v;
                } else {
                    max = v;
                }
                if k + 1 < n {
                    k = k + 2;
                } else {
                    assert(spin_from(self@, k + 2, default, min, max) == spin_from(
                        self@,
                        n as int,
                        default,
                        min,
                        max,
                    ));
                    k = n;
                }
            } else {
                k = k + 1;
            }
        }
        OptionKind::Spin { default, min, max }
    }

    fn combo_body(&self) -> (r: OptionKind)
        requires
            self@.len() >= 5,
        ensures
            r@ == combo_from(self@, 5, None),
    {
        let n = self.tokens.len();
        let mut default: Option<String> = None;
        let mut k: usize = 5;
        while k < n
            invariant
                5 <= k,
                n == self@.len(),
                combo_from(self@, 5, None) == combo_from(self@, k as int, opt_view(default)),
            decreases n - k,
        {
            if self.at(k, "default") {
                if k + 1 < n {
                    default = Some(parse_default(self.tokens[k + 1].as_str()));
                    k = k + 2;
                } else {
                    assert(views(Seq::<String>::empty()) =~= seq![]);
                    return OptionKind::Combo { default: None, vars: Vec::new() };
                }
            } else if self.at(k, "var") {
                return OptionKind::Combo { default, vars: self.tail(k + 1) };
            } else {
                k = k + 1;
            }
        }
        assert(views(Seq::<String>::empty()) =~= seq![]);
        OptionKind::Combo { default, vars: Vec::new() }
    }

    fn parse_option(&self) -> (r: Result<EngineCommand, Error>)
        requires
            self@.len() >= 1,
        ensures
            result_view(r) == option(self@),
    {
        if !(self.tokens.len() >= 5 && self.at(1, "name") && self.at(3, "type")) {
            return Err(Error::IllegalSyntax);
        }
        let kind = if self.at(4, "check") {
            let default = match self.find_default(5) {
                Some(k) => parse_bool(self.tokens[k].as_str()),
                None => None,
            };
            OptionKind::Check { default }
        } else if self.at(4, "spin") {
            self.spin_body()
        } else if self.at(4, "combo") {
            self.combo_body()
        } else if self.at(4, "button") {
            OptionKind::Button { default: self.text_default_value() }
        } else if self.at(4, "string") {
            OptionKind::String { default: self.text_default_value() }
        } else if self.at(4, "filename") {
            OptionKind::Filename { default: self.text_default_value() }
        } else {
            return Err(Error::IllegalSyntax);
        };
        Ok(EngineCommand::Option(OptionParams { name: self.tokens[2].clone(), value: kind }))
    }
}

} // verus!
