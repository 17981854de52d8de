//! Properties of the grammar that hold for every line.

use vstd::prelude::*;
use crate::command::{BestMoveModel, CommandModel, Error, InfoModel, OptionKindModel, OptionModel, ScoreKind};
use crate::grammar::{
    after_default, combo_from, command, info_from, info_step, is_at, prepend, text_from,
};
use crate::numbers::i32_of;

verus! {

/// A `bestmove` line with one move word (other than `resign` and `win`)
/// decodes to that move with nothing to ponder; adding `ponder p` sets the
/// pondered move to `p`.
pub proof fn lemma_bestmove_move(m: Seq<char>, p: Seq<char>)
    requires
        m != "resign"@,
        m != "win"@,
    ensures
        command(seq!["bestmove"@, m]) == Ok::<CommandModel, Error>(
            CommandModel::BestMove(BestMoveModel::MakeMove(m, None)),
        ),
        command(seq!["bestmove"@, m, "ponder"@, p]) == Ok::<CommandModel, Error>(
            CommandModel::BestMove(BestMoveModel::MakeMove(m, Some(p))),
        ),
{
}

/// A `bestmove` line of any other shape than one word, or a move followed by
/// `ponder` and a move, fails.
pub proof fn lemma_bestmove_other_shapes_fail(t: Seq<Seq<char>>)
    requires
        t.len() > 0,
        t[0] == "bestmove"@,
        !(t.len() == 2 || (t.len() == 4 && t[2] == "ponder"@)),
    ensures
        command(t) == Err::<CommandModel, Error>(Error::IllegalSyntax),
{
}

/// An empty line is an error.
pub proof fn lemma_empty_line_fails()
    ensures
        command(seq![]) == Err::<CommandModel, Error>(Error::IllegalSyntax),
{
}

/// A line whose first token is no known command word is `Unknown`, never an
/// error.
pub proof fn lemma_unknown_word(t: Seq<Seq<char>>)
    requires
        t.len() > 0,
        t[0] != "bestmove"@,
        t[0] != "checkmate"@,
        t[0] != "id"@,
        t[0] != "info"@,
        t[0] != "option"@,
        t[0] != "readyok"@,
        t[0] != "usiok"@,
    ensures
        command(t) == Ok::<CommandModel, Error>(CommandModel::Unknown),
{
}

/// An `info` item always moves forward, and ends the line exactly when its
/// entry is a move list or a text.
proof fn lemma_step_shape(t: Seq<Seq<char>>, i: int)
    requires
        0 <= i < t.len(),
        info_step(t, i) is Ok,
    ensures
        i < info_step(t, i)->Ok_0.1 <= t.len(),
        info_step(t, i)->Ok_0.2 <==> (info_step(t, i)->Ok_0.0 is Pv || info_step(
            t,
            i,
        )->Ok_0.0 is Text),
{
}

/// In the entries of `info` items, a move list or a text can only come last.
pub proof fn lemma_info_terminal_last(t: Seq<Seq<char>>, i: int)
    requires
        info_from(t, i) is Ok,
    ensures
        forall|k: int|
            0 <= k < info_from(t, i)->Ok_0.len() - 1 ==> !(#[trigger] info_from(t, i)->Ok_0[k] is Pv)
                && !(info_from(t, i)->Ok_0[k] is Text),
    decreases t.len() - i,
{
    if 0 <= i < t.len() {
        lemma_step_shape(t, i);
        let (e, j, last) = info_step(t, i)->Ok_0;
        if !last {
            lemma_info_terminal_last(t, j);
            let rest = info_from(t, j)->Ok_0;
            assert forall|k: int| 0 <= k < info_from(t, i)->Ok_0.len() - 1 implies !(
            #[trigger] info_from(t, i)->Ok_0[k] is Pv) && !(info_from(t, i)->Ok_0[k] is Text) by {
                if k > 0 {
                    assert(info_from(t, i)->Ok_0[k] == rest[k - 1]);
                }
            }
        }
    }
}

/// No token at or after `m` takes part in an item that starts before `m`,
/// when that item does not run to the end of the line and token `m` is not a
/// suffix word.
proof fn lemma_step_prefix(t: Seq<Seq<char>>, i: int, m: int)
    requires
        0 <= i < m <= t.len(),
        info_step(t.take(m), i) matches Ok((_, _, false)),
        m < t.len() ==> t[m] != "seldepth"@ && t[m] != "lowerbound"@ && t[m] != "upperbound"@,
    ensures
        info_step(t, i) == info_step(t.take(m), i),
{
    let a = t.take(m);
    assert(forall|k: int| 0 <= k < m ==> a[k] == t[k]);
}

/// Items of an `info` line are read in order, each from its own tokens:
/// where the tokens before `m` read alone as complete items, none of them a
/// move list or a text, and token `m` is no suffix word (`seldepth`,
/// `lowerbound`, `upperbound`) that the last of them could take, the entries
/// of the line are theirs followed by those from `m` on.
pub proof fn lemma_info_split(t: Seq<Seq<char>>, i: int, m: int)
    requires
        0 <= i <= m <= t.len(),
        info_from(t.take(m), i) is Ok,
        forall|k: int|
            0 <= k < info_from(t.take(m), i)->Ok_0.len() ==> !(#[trigger] info_from(
                t.take(m),
                i,
            )->Ok_0[k] is Pv) && !(info_from(t.take(m), i)->Ok_0[k] is Text),
        m < t.len() ==> t[m] != "seldepth"@ && t[m] != "lowerbound"@ && t[m] != "upperbound"@,
    ensures
        info_from(t, i) == prepend(info_from(t.take(m), i)->Ok_0, info_from(t, m)),
    decreases m - i,
{
    let a = t.take(m);
    let ea = info_from(a, i)->Ok_0;
    if i == m {
        assert(ea =~= seq![]);
        if let Ok(es) = info_from(t, m) {
            assert(ea + es =~= es);
        }
    } else {
        lemma_step_shape(a, i);
        let (e, j, last) = info_step(a, i)->Ok_0;
        assert(ea[0] == e);
        lemma_step_prefix(t, i, m);
        let rest = info_from(a, j)->Ok_0;
        assert forall|k: int| 0 <= k < rest.len() implies !(#[trigger] rest[k] is Pv) && !(
        rest[k] is Text) by {
            assert(ea[k + 1] == rest[k]);
        }
        lemma_info_split(t, j, m);
        if let Ok(es) = info_from(t, m) {
            assert(seq![e] + (rest + es) =~= ea + es);
        }
    }
}

/// Once the item `pv` or `string` is reached, nothing after it is read as
/// an item: its move list or text is the last entry.
pub proof fn lemma_info_rest_of_line(t: Seq<Seq<char>>, m: int)
    requires
        0 <= m < t.len(),
    ensures
        t[m] == "pv"@ ==> info_from(t, m) == Ok::<Seq<InfoModel>, Error>(
            seq![InfoModel::Pv(t.subrange(m + 1, t.len() as int))],
        ),
        t[m] == "string"@ ==> info_from(t, m) == Ok::<Seq<InfoModel>, Error>(
            seq![InfoModel::Text(text_from(t, m + 1))],
        ),
{
    reveal_strlit("pv");
    reveal_strlit("string");
    reveal_strlit("depth");
    reveal_strlit("time");
    reveal_strlit("multipv");
    reveal_strlit("nodes");
    reveal_strlit("score");
    reveal_strlit("currmove");
    reveal_strlit("hashfull");
    reveal_strlit("nps");
    assert("pv"@[0] != "depth"@[0] && "pv"@[0] != "time"@[0] && "pv"@[0] != "multipv"@[0]
        && "pv"@[0] != "nodes"@[0]);
    assert("string"@[0] != "depth"@[0] && "string"@[0] != "time"@[0] && "string"@[0]
        != "multipv"@[0] && "string"@[0] != "nodes"@[0] && "string"@[0] != "pv"@[0]
        && "string"@[1] != "score"@[1] && "string"@[0] != "currmove"@[0] && "string"@[0]
        != "hashfull"@[0] && "string"@[0] != "nps"@[0]);
}

/// `score cp n` is exact unless the next token is `lowerbound` or
/// `upperbound`, which then gives the bound; with no next token it is exact.
pub proof fn lemma_score_cp_kind(t: Seq<Seq<char>>, i: int, n: i32)
    requires
        0 <= i,
        i + 2 < t.len(),
        t[i] == "score"@,
        t[i + 1] == "cp"@,
        i32_of(t[i + 2]) == Some(n),
    ensures
        !is_at(t, i + 3, "lowerbound"@) && !is_at(t, i + 3, "upperbound"@) ==> info_step(t, i)
            == Ok::<(InfoModel, int, bool), Error>(
            (InfoModel::Score(n, ScoreKind::CpExact), i + 3, false),
        ),
        is_at(t, i + 3, "lowerbound"@) ==> info_step(t, i) == Ok::<(InfoModel, int, bool), Error>(
            (InfoModel::Score(n, ScoreKind::CpLowerbound), i + 4, false),
        ),
        is_at(t, i + 3, "upperbound"@) ==> info_step(t, i) == Ok::<(InfoModel, int, bool), Error>(
            (InfoModel::Score(n, ScoreKind::CpUpperbound), i + 4, false),
        ),
{
    reveal_strlit("score");
    reveal_strlit("depth");
    reveal_strlit("time");
    reveal_strlit("multipv");
    reveal_strlit("nodes");
    reveal_strlit("pv");
    reveal_strlit("lowerbound");
    reveal_strlit("upperbound");
    assert("score"@[0] != "depth"@[0] && "score"@[0] != "time"@[0] && "score"@[0]
        != "multipv"@[0] && "score"@[0] != "nodes"@[0] && "score"@[0] != "pv"@[0]);
    assert("lowerbound"@[0] != "upperbound"@[0]);
}

/// `score mate +` is the value 1 and `score mate -` the value -1, both of
/// kind `MateSignOnly`, with no bound suffix read.
pub proof fn lemma_score_mate_sign(t: Seq<Seq<char>>, i: int)
    requires
        0 <= i,
        i + 2 < t.len(),
        t[i] == "score"@,
        t[i + 1] == "mate"@,
    ensures
        t[i + 2] == "+"@ ==> info_step(t, i) == Ok::<(InfoModel, int, bool), Error>(
            (InfoModel::Score(1, ScoreKind::MateSignOnly), i + 3, false),
        ),
        t[i + 2] == "-"@ ==> info_step(t, i) == Ok::<(InfoModel, int, bool), Error>(
            (InfoModel::Score(-1i32, ScoreKind::MateSignOnly), i + 3, false),
        ),
{
    reveal_strlit("score");
    reveal_strlit("depth");
    reveal_strlit("time");
    reveal_strlit("multipv");
    reveal_strlit("nodes");
    reveal_strlit("pv");
    reveal_strlit("cp");
    reveal_strlit("mate");
    reveal_strlit("+");
    reveal_strlit("-");
    assert("score"@[0] != "depth"@[0] && "score"@[0] != "time"@[0] && "score"@[0]
        != "multipv"@[0] && "score"@[0] != "nodes"@[0] && "score"@[0] != "pv"@[0]);
    assert("mate"@[0] != "cp"@[0]);
    assert("+"@[0] != "-"@[0]);
}

/// A default written `<empty>` decodes to the empty string, for every
/// option type whose default is text.
pub proof fn lemma_empty_default_text(t: Seq<Seq<char>>)
    requires
        t.len() >= 5,
        t[0] == "option"@,
        t[1] == "name"@,
        t[3] == "type"@,
        after_default(t, 5) == Some("<empty>"@),
    ensures
        t[4] == "button"@ ==> command(t) == Ok::<CommandModel, Error>(
            CommandModel::Option(
                OptionModel { name: t[2], value: OptionKindModel::Button { default: Some(seq![]) } },
            ),
        ),
        t[4] == "string"@ ==> command(t) == Ok::<CommandModel, Error>(
            CommandModel::Option(
                OptionModel { name: t[2], value: OptionKindModel::String { default: Some(seq![]) } },
            ),
        ),
        t[4] == "filename"@ ==> command(t) == Ok::<CommandModel, Error>(
            CommandModel::Option(
                OptionModel {
                    name: t[2],
                    value: OptionKindModel::Filename { default: Some(seq![]) },
                },
            ),
        ),
{
    reveal_strlit("option");
    reveal_strlit("bestmove");
    reveal_strlit("checkmate");
    reveal_strlit("id");
    reveal_strlit("info");
    reveal_strlit("button");
    reveal_strlit("string");
    reveal_strlit("filename");
    reveal_strlit("check");
    reveal_strlit("spin");
    reveal_strlit("combo");
    assert("option"@[0] != "bestmove"@[0] && "option"@[0] != "checkmate"@[0] && "option"@[0]
        != "id"@[0] && "option"@[0] != "info"@[0]);
    assert("button"@[0] != "check"@[0] && "button"@[0] != "spin"@[0] && "button"@[0]
        != "combo"@[0]);
    assert("string"@[0] != "check"@[0] && "string"@[1] != "spin"@[1] && "string"@[0]
        != "combo"@[0] && "string"@[0] != "button"@[0]);
    assert("filename"@[0] != "check"@[0] && "filename"@[0] != "spin"@[0] && "filename"@[0]
        != "combo"@[0] && "filename"@[0] != "button"@[0] && "filename"@[0] != "string"@[0]);
}

/// In a `combo` body, `default <empty>` sets the default to the empty
/// string.
pub proof fn lemma_empty_default_combo(t: Seq<Seq<char>>, j: int, d: Option<Seq<char>>)
    requires
        0 <= j,
        j + 1 < t.len(),
        t[j] == "default"@,
        t[j + 1] == "<empty>"@,
    ensures
        combo_from(t, j, d) == combo_from(t, j + 2, Some(seq![])),
{
}

} // verus!
