//! Characters, tokens and keyword comparison.

use vstd::prelude::*;
use vstd::string::*;

verus! {

/// The characters that `char::is_whitespace` accepts: those with the
/// Unicode `White_Space` property.
pub open spec fn is_ws(c: char) -> bool {
    ('\u{9}' <= c && c <= '\u{d}') || c == ' ' || c == '\u{85}' || c == '\u{a0}'
        || c == '\u{1680}' || ('\u{2000}' <= c && c <= '\u{200a}') || c == '\u{2028}'
        || c == '\u{2029}' || c == '\u{202f}' || c == '\u{205f}' || c == '\u{3000}'
}

/// Whether `c` separates tokens.
pub fn is_whitespace(c: char) -> (r: bool)
    ensures
        r == is_ws(c),
{
    ('\u{9}' <= c && c <= '\u{d}') || c == ' ' || c == '\u{85}' || c == '\u{a0}'
        || c == '\u{1680}' || ('\u{2000}' <= c && c <= '\u{200a}') || c == '\u{2028}'
        || c == '\u{2029}' || c == '\u{202f}' || c == '\u{205f}' || c == '\u{3000}'
}

/// The characters of `s`, in order.
pub fn chars_of(s: &str) -> (v: Vec<char>)
    ensures
        v@ == s@,
{
    let mut v: Vec<char> = Vec::new();
    for c in it: s.chars()
        invariant
            it.seq() == s@,
            v@ == it.seq().take(it.index() as int),
    {
        v.push(c);
    }
    v
}

/// The text of each string, in order.
pub open spec fn views(v: Seq<String>) -> Seq<Seq<char>> {
    v.map_values(|x: String| x@)
}

/// Splitting read from left to right: the tokens completed so far and the
/// token under way (empty between tokens).
pub open spec fn scan(s: Seq<char>) -> (Seq<Seq<char>>, Seq<char>)
    decreases s.len(),
{
    if s.len() == 0 {
        (seq![], seq![])
    } else {
        let (done, cur) = scan(s.drop_last());
        let c = s.last();
        if !is_ws(c) {
            (done, cur.push(c))
        } else if cur.len() > 0 {
            (done.push(cur), seq![])
        } else {
            (done, cur)
        }
    }
}

/// The maximal runs of non-whitespace characters of `s`, in order.
pub open spec fn tokens(s: Seq<char>) -> Seq<Seq<char>> {
    let (done, cur) = scan(s);
    if cur.len() > 0 {
        done.push(cur)
    } else {
        done
    }
}

/// No character of `x` is whitespace.
pub open spec fn ws_free(x: Seq<char>) -> bool {
    forall|c: int| 0 <= c < x.len() ==> !is_ws(#[trigger] x[c])
}

/// What splitting has read so far is made of whitespace-free runs, all
/// finished ones non-empty.
proof fn lemma_scan_shape(s: Seq<char>)
    ensures
        forall|k: int|
            0 <= k < scan(s).0.len() ==> #[trigger] scan(s).0[k].len() > 0 && ws_free(scan(s).0[k]),
        ws_free(scan(s).1),
    decreases s.len(),
{
    if s.len() > 0 {
        lemma_scan_shape(s.drop_last());
        let (done, cur) = scan(s.drop_last());
        let c = s.last();
        if !is_ws(c) {
            assert forall|i: int| 0 <= i < cur.len() + 1 implies !is_ws(#[trigger] cur.push(c)[i]) by {
                if i < cur.len() {
                    assert(cur.push(c)[i] == cur[i]);
                }
            }
        } else if cur.len() > 0 {
            assert forall|k: int| 0 <= k < done.len() + 1 implies #[trigger] done.push(cur)[k].len()
                > 0 && ws_free(done.push(cur)[k]) by {
                if k < done.len() {
                    assert(done.push(cur)[k] == done[k]);
                }
            }
        }
    }
}

/// Every token is a non-empty run of characters that are not whitespace.
pub proof fn lemma_tokens_shape(s: Seq<char>)
    ensures
        forall|k: int| 0 <= k < tokens(s).len() ==> #[trigger] tokens(s)[k].len() > 0 && ws_free(tokens(s)[k]),
{
    lemma_scan_shape(s);
    let (done, cur) = scan(s);
    if cur.len() > 0 {
        assert forall|k: int| 0 <= k < done.len() + 1 implies #[trigger] done.push(cur)[k].len() > 0
            && ws_free(done.push(cur)[k]) by {
            if k < done.len() {
                assert(done.push(cur)[k] == done[k]);
            }
        }
    }
}

/// Splits `line` at whitespace into its tokens.
pub fn tokenize(line: &str) -> (r: Vec<String>)
    ensures
        views(r@) == tokens(line@),
{
    let cs = chars_of(line);
    let n = cs.len();
    let mut out: Vec<String> = Vec::new();
    let mut start: usize = 0;
    let mut in_tok = false;
    let mut i: usize = 0;
    while i < n
        invariant
            cs@ == line@,
            n == cs.len(),
            i <= n,
            in_tok ==> start < i,
            scan(cs@.take(i as int)) == (views(out@), if in_tok {
                cs@.subrange(start as int, i as int)
            } else {
                Seq::<char>::empty()
            }),
        decreases n - i,
    {
        let c = cs[i];
        proof {
            assert(cs@.take(i as int + 1).drop_last() =~= cs@.take(i as int));
            assert(cs@.take(i as int + 1).last() == c);
        }
        if !is_whitespace(c) {
            if !in_tok {
                in_tok = true;
                start = i;
                assert(cs@.subrange(start as int, i as int + 1) =~= seq![].push(c));
            } else {
                assert(cs@.subrange(start as int, i as int + 1) =~= cs@.subrange(
                    start as int,
                    i as int,
                ).push(c));
            }
        } else if in_tok {
            let ghost prev = out@;
            let t = line.substring_char(start, i).to_owned();
            out.push(t);
            in_tok = false;
            assert(views(out@) =~= views(prev).push(cs@.subrange(start as int, i as int)));
        }
        i = i + 1;
    }
    let ghost before = out@;
    if in_tok {
        let t = line.substring_char(start, n).to_owned();
        out.push(t);
        assert(views(out@) =~= views(before).push(cs@.subrange(start as int, n as int)));
    }
    proof {
        assert(cs@.take(n as int) =~= line@);
    }
    assert(views(out@) =~= tokens(line@));
    out
}

/// Whether two character vectors hold the same characters.
fn same_chars(a: &Vec<char>, b: &Vec<char>) -> (r: bool)
    ensures
        r == (a@ == b@),
{
    if a.len() != b.len() {
        return false;
    }
    let mut i: usize = 0;
    while i < a.len()
        invariant
            a.len() == b.len(),
            i <= a.len(),
            forall|j: int| 0 <= j < i ==> a@[j] == b@[j],
        decreases a.len() - i,
    {
        if a[i] != b[i] {
            return false;
        }
        i = i + 1;
    }
    assert(a@ =~= b@);
    true
}

/// Whether the token `tok` is exactly the word `w`.
pub fn token_is(tok: &str, w: &str) -> (r: bool)
    ensures
        r == (tok@ == w@),
{
    let a = chars_of(tok);
    let b = chars_of(w);
    same_chars(&a, &b)
}

} // verus!
