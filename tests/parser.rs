use usi_parser::{
    BestMoveParams, CheckmateParams, EngineCommand, EngineCommandParser, Error, IdParams,
    InfoParams, OptionKind, OptionParams, ScoreKind,
};

fn parse(line: &str) -> Result<EngineCommand, Error> {
    EngineCommandParser::new(line).parse()
}

fn s(x: &str) -> String {
    x.to_string()
}

fn info(line: &str) -> Vec<InfoParams> {
    match parse(line) {
        Ok(EngineCommand::Info(es)) => es,
        other => panic!("not an info line: {:?}", other),
    }
}

fn option_kind(line: &str) -> OptionKind {
    match parse(line) {
        Ok(EngineCommand::Option(o)) => o.value,
        other => panic!("not an option line: {:?}", other),
    }
}

#[test]
fn bestmove_plain_move() {
    assert_eq!(
        parse("bestmove 7g7f"),
        Ok(EngineCommand::BestMove(BestMoveParams::MakeMove(s("7g7f"), None)))
    );
}

#[test]
fn bestmove_with_ponder() {
    assert_eq!(
        parse("bestmove 7g7f ponder 8c8d"),
        Ok(EngineCommand::BestMove(BestMoveParams::MakeMove(s("7g7f"), Some(s("8c8d")))))
    );
}

#[test]
fn bestmove_resign_and_win() {
    assert_eq!(parse("bestmove resign"), Ok(EngineCommand::BestMove(BestMoveParams::Resign)));
    assert_eq!(parse("bestmove win"), Ok(EngineCommand::BestMove(BestMoveParams::Win)));
}

#[test]
fn bestmove_without_move_fails() {
    assert_eq!(parse("bestmove"), Err(Error::IllegalSyntax));
}

#[test]
fn bestmove_other_suffixes_fail() {
    assert_eq!(parse("bestmove 7g7f 8c8d"), Err(Error::IllegalSyntax));
    assert_eq!(parse("bestmove 7g7f ponder"), Err(Error::IllegalSyntax));
    assert_eq!(parse("bestmove 7g7f wait 8c8d"), Err(Error::IllegalSyntax));
    assert_eq!(parse("bestmove 7g7f ponder 8c8d 2g2f"), Err(Error::IllegalSyntax));
    assert_eq!(parse("bestmove resign now"), Err(Error::IllegalSyntax));
}

#[test]
fn checkmate_sequence() {
    assert_eq!(
        parse("checkmate 7g7f 8c8d"),
        Ok(EngineCommand::Checkmate(CheckmateParams::Mate(vec![s("7g7f"), s("8c8d")])))
    );
}

#[test]
fn checkmate_nomate_synonyms() {
    let a = parse("checkmate notimplemented");
    let b = parse("checkmate nomate");
    assert_eq!(a, b);
    assert_eq!(a, Ok(EngineCommand::Checkmate(CheckmateParams::NoMate)));
}

#[test]
fn checkmate_timeout_and_missing() {
    assert_eq!(parse("checkmate timeout"), Ok(EngineCommand::Checkmate(CheckmateParams::Timeout)));
    assert_eq!(parse("checkmate"), Err(Error::IllegalSyntax));
}

#[test]
fn id_joins_the_rest() {
    assert_eq!(
        parse("id name  Deep   Blue 2"),
        Ok(EngineCommand::Id(IdParams::Name(s("Deep Blue 2"))))
    );
    assert_eq!(parse("id author A. U. Thor"), Ok(EngineCommand::Id(IdParams::Author(s("A. U. Thor")))));
    assert_eq!(parse("id name"), Ok(EngineCommand::Id(IdParams::Name(s("")))));
}

#[test]
fn id_bad_field_fails() {
    assert_eq!(parse("id version 1"), Err(Error::IllegalSyntax));
    assert_eq!(parse("id"), Err(Error::IllegalSyntax));
}

#[test]
fn info_depth_score_pv() {
    assert_eq!(
        info("info depth 10 seldepth 12 score cp 34 pv 7g7f 3c3d"),
        vec![
            InfoParams::Depth(10, Some(12)),
            InfoParams::Score(34, ScoreKind::CpExact),
            InfoParams::Pv(vec![s("7g7f"), s("3c3d")]),
        ]
    );
}

#[test]
fn info_keeps_order() {
    assert_eq!(
        info("info nps 1500 time 2000 nodes 3000 multipv 2 hashfull 500 currmove 2g2f depth 3"),
        vec![
            InfoParams::Nps(1500),
            InfoParams::Time(2000),
            InfoParams::Nodes(3000),
            InfoParams::MultiPv(2),
            InfoParams::HashFull(500),
            InfoParams::CurrMove(s("2g2f")),
            InfoParams::Depth(3, None),
        ]
    );
}

#[test]
fn info_pv_and_string_end_the_line() {
    assert_eq!(
        info("info pv 7g7f depth 3 score cp 1"),
        vec![InfoParams::Pv(vec![s("7g7f"), s("depth"), s("3"), s("score"), s("cp"), s("1")])]
    );
    assert_eq!(
        info("info depth 2 string hello  depth 3"),
        vec![InfoParams::Depth(2, None), InfoParams::Text(s("hello depth 3"))]
    );
    assert_eq!(info("info string"), vec![InfoParams::Text(s(""))]);
    assert_eq!(info("info pv"), vec![InfoParams::Pv(vec![])]);
}

#[test]
fn info_empty_is_valid() {
    assert_eq!(parse("info"), Ok(EngineCommand::Info(vec![])));
}

#[test]
fn score_cp_kinds() {
    assert_eq!(info("info score cp 34"), vec![InfoParams::Score(34, ScoreKind::CpExact)]);
    assert_eq!(
        info("info score cp -5 lowerbound"),
        vec![InfoParams::Score(-5, ScoreKind::CpLowerbound)]
    );
    assert_eq!(
        info("info score cp +7 upperbound depth 1"),
        vec![InfoParams::Score(7, ScoreKind::CpUpperbound), InfoParams::Depth(1, None)]
    );
    assert_eq!(
        info("info score cp 12 nodes 9"),
        vec![InfoParams::Score(12, ScoreKind::CpExact), InfoParams::Nodes(9)]
    );
}

#[test]
fn score_mate_kinds() {
    assert_eq!(info("info score mate 5"), vec![InfoParams::Score(5, ScoreKind::MateExact)]);
    assert_eq!(
        info("info score mate -3 lowerbound"),
        vec![InfoParams::Score(-3, ScoreKind::MateLowerbound)]
    );
    assert_eq!(
        info("info score mate 3 upperbound"),
        vec![InfoParams::Score(3, ScoreKind::MateUpperbound)]
    );
}

#[test]
fn score_mate_sign_only() {
    assert_eq!(info("info score mate +"), vec![InfoParams::Score(1, ScoreKind::MateSignOnly)]);
    assert_eq!(info("info score mate -"), vec![InfoParams::Score(-1, ScoreKind::MateSignOnly)]);
    assert_eq!(parse("info score mate + lowerbound"), Err(Error::IllegalSyntax));
}

#[test]
fn info_errors() {
    assert_eq!(parse("info depth"), Err(Error::IllegalSyntax));
    assert_eq!(parse("info depth x"), Err(Error::IllegalSyntax));
    assert_eq!(parse("info depth 3 seldepth"), Err(Error::IllegalSyntax));
    assert_eq!(parse("info nodes 2147483648"), Err(Error::IllegalSyntax));
    assert_eq!(parse("info time -1"), Err(Error::IllegalSyntax));
    assert_eq!(parse("info score cp"), Err(Error::IllegalSyntax));
    assert_eq!(parse("info score cp x"), Err(Error::IllegalSyntax));
    assert_eq!(parse("info score wdl 1"), Err(Error::IllegalSyntax));
    assert_eq!(parse("info currmove"), Err(Error::IllegalSyntax));
    assert_eq!(parse("info bogus 1"), Err(Error::IllegalSyntax));
    assert_eq!(parse("info depth 1 lowerbound"), Err(Error::IllegalSyntax));
}

#[test]
fn info_number_limits() {
    assert_eq!(info("info nodes 2147483647"), vec![InfoParams::Nodes(2147483647)]);
    assert_eq!(info("info multipv -2147483648"), vec![InfoParams::MultiPv(-2147483648)]);
    assert_eq!(
        info("info time 18446744073709551615"),
        vec![InfoParams::Time(18446744073709551615)]
    );
    assert_eq!(parse("info time 18446744073709551616"), Err(Error::IllegalSyntax));
    assert_eq!(info("info time +0042"), vec![InfoParams::Time(42)]);
    assert_eq!(parse("info multipv -2147483649"), Err(Error::IllegalSyntax));
    assert_eq!(parse("info nps +"), Err(Error::IllegalSyntax));
}

#[test]
fn option_spin() {
    assert_eq!(
        parse("option name USI_Hash type spin default 256 min 1 max 1024"),
        Ok(EngineCommand::Option(OptionParams {
            name: s("USI_Hash"),
            value: OptionKind::Spin { default: Some(256), min: Some(1), max: Some(1024) },
        }))
    );
}

#[test]
fn option_spin_any_order_and_skips() {
    assert_eq!(
        option_kind("option name X type spin max 9 junk default x min -3"),
        OptionKind::Spin { default: None, min: Some(-3), max: Some(9) }
    );
    assert_eq!(
        option_kind("option name X type spin default"),
        OptionKind::Spin { default: None, min: None, max: None }
    );
}

#[test]
fn option_check() {
    assert_eq!(
        option_kind("option name Ponder type check default true"),
        OptionKind::Check { default: Some(true) }
    );
    assert_eq!(
        option_kind("option name Ponder type check default false"),
        OptionKind::Check { default: Some(false) }
    );
    assert_eq!(option_kind("option name Ponder type check"), OptionKind::Check { default: None });
    assert_eq!(
        option_kind("option name Ponder type check default yes"),
        OptionKind::Check { default: None }
    );
}

#[test]
fn option_combo() {
    assert_eq!(
        option_kind("option name Style type combo default Normal var Solid var Normal var Risky"),
        OptionKind::Combo {
            default: Some(s("Normal")),
            vars: vec![s("Solid"), s("var"), s("Normal"), s("var"), s("Risky")],
        }
    );
    assert_eq!(
        option_kind("option name Style type combo default <empty>"),
        OptionKind::Combo { default: Some(s("")), vars: vec![] }
    );
}

#[test]
fn option_text_defaults() {
    assert_eq!(
        option_kind("option name Book type string default <empty>"),
        OptionKind::String { default: Some(s("")) }
    );
    assert_eq!(
        option_kind("option name Book type filename default book.db"),
        OptionKind::Filename { default: Some(s("book.db")) }
    );
    assert_eq!(
        option_kind("option name Clear type button"),
        OptionKind::Button { default: None }
    );
    assert_eq!(
        option_kind("option name Clear type button x default <empty>"),
        OptionKind::Button { default: Some(s("")) }
    );
}

#[test]
fn option_errors() {
    assert_eq!(parse("option name X type slider"), Err(Error::IllegalSyntax));
    assert_eq!(parse("option name X type"), Err(Error::IllegalSyntax));
    assert_eq!(parse("option label X type spin"), Err(Error::IllegalSyntax));
    assert_eq!(parse("option"), Err(Error::IllegalSyntax));
}

#[test]
fn unknown_command() {
    assert_eq!(parse("foobar"), Ok(EngineCommand::Unknown));
    assert_eq!(parse("Bestmove 7g7f"), Ok(EngineCommand::Unknown));
}

#[test]
fn empty_line_fails() {
    assert_eq!(parse(""), Err(Error::IllegalSyntax));
    assert_eq!(parse(" \t  "), Err(Error::IllegalSyntax));
}

#[test]
fn readyok_and_usiok() {
    assert_eq!(parse("readyok"), Ok(EngineCommand::ReadyOk));
    assert_eq!(parse("usiok trailing words"), Ok(EngineCommand::UsiOk));
}

#[test]
fn unicode_whitespace_separates() {
    assert_eq!(
        parse("bestmove\u{3000}7g7f\tponder\u{a0}8c8d\n"),
        Ok(EngineCommand::BestMove(BestMoveParams::MakeMove(s("7g7f"), Some(s("8c8d")))))
    );
}
