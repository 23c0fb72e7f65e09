//! General properties of the scanner, proved once and for all from its
//! specification [`scan_from`](crate::scan::scan_from).

use vstd::prelude::*;

use crate::scan::{
    alnum_end, eof_token, is_alnum_char, is_alpha_char, is_blank_char, newline_count, scan_from,
    scan_step, two_char_kind, ScanErrorView, ScanStep,
};
use crate::tokens::{keyword_kind, TokenKind, TokenView};

verus! {

/// Removing the first character of `s` removes its newline, if it is one.
proof fn lemma_newline_count_front(s: Seq<char>)
    requires
        s.len() > 0,
    ensures
        newline_count(s) == newline_count(s.subrange(1, s.len() as int)) + if s[0] == '\n' {
            1int
        } else {
            0int
        },
    decreases s.len(),
{
    if s.len() == 1 {
        assert(s.drop_last() =~= Seq::<char>::empty());
        assert(s.subrange(1, 1) =~= Seq::<char>::empty());
    } else {
        lemma_newline_count_front(s.drop_last());
        assert(s.drop_last().subrange(1, s.drop_last().len() as int) =~= s.subrange(
            1,
            s.len() as int,
        ).drop_last());
        assert(s.subrange(1, s.len() as int).last() == s.last());
    }
}

/// A wholly alphanumeric tail makes the alphanumeric run reach the end.
proof fn lemma_alnum_end_full(src: Seq<char>, j: int)
    requires
        0 <= j <= src.len(),
        forall|k: int| j <= k < src.len() ==> is_alnum_char(src[k]),
    ensures
        alnum_end(src, j) == src.len(),
    decreases src.len() - j,
{
    if j < src.len() {
        lemma_alnum_end_full(src, j + 1);
    }
}

/// Law: a source containing only whitespace scans to exactly the terminal
/// end marker, on line `line` plus one per newline of the input.
pub proof fn lemma_whitespace_scans_to_end_marker(src: Seq<char>, i: int, line: int)
    requires
        0 <= i <= src.len(),
        forall|k: int| 0 <= k < src.len() ==> is_blank_char(src[k]),
    ensures
        scan_from(src, i, line) == Ok::<Seq<TokenView>, ScanErrorView>(
            seq![eof_token(line + newline_count(src.subrange(i, src.len() as int)))],
        ),
    decreases src.len() - i,
{
    if i >= src.len() {
        assert(src.subrange(i, src.len() as int) =~= Seq::<char>::empty());
    } else {
        let c = src[i];
        let tail = src.subrange(i, src.len() as int);
        assert(tail[0] == c);
        lemma_newline_count_front(tail);
        assert(tail.subrange(1, tail.len() as int) =~= src.subrange(i + 1, src.len() as int));
        if c == '\n' {
            lemma_whitespace_scans_to_end_marker(src, i + 1, line + 1);
        } else {
            lemma_whitespace_scans_to_end_marker(src, i + 1, line);
        }
    }
}

/// Law: every successful scan is terminated by exactly one end-of-input
/// marker — the last token, and no token before it.
pub proof fn lemma_ok_scan_ends_with_one_end_marker(src: Seq<char>, i: int, line: int)
    requires
        scan_from(src, i, line) is Ok,
    ensures
        ({
            let ts = scan_from(src, i, line)->Ok_0;
            &&& ts.len() >= 1
            &&& ts.last().kind == TokenKind::EOF
            &&& forall|k: int| 0 <= k < ts.len() - 1 ==> ts[k].kind != TokenKind::EOF
        }),
    decreases src.len() - i,
{
    if i < src.len() {
        match scan_step(src, i, line) {
            ScanStep::Emit(t, p, l) => {
                let p2 = if i < p && p <= src.len() {
                    p
                } else {
                    i + 1
                };
                lemma_ok_scan_ends_with_one_end_marker(src, p2, l);
                assert(t.kind != TokenKind::EOF);
                let ts = scan_from(src, i, line)->Ok_0;
                let rest = scan_from(src, p2, l)->Ok_0;
                assert(ts == seq![t] + rest);
                assert(ts.last() == rest.last());
                assert(forall|k: int| 1 <= k < ts.len() ==> ts[k] == rest[k - 1]);
            },
            ScanStep::Skip(p, l) => {
                let p2 = if i < p && p <= src.len() {
                    p
                } else {
                    i + 1
                };
                lemma_ok_scan_ends_with_one_end_marker(src, p2, l);
            },
            ScanStep::Fail(e, _) => {},
        }
    }
}

/// Law (maximal munch): an operator head directly followed by `=` scans as
/// exactly one token of the two-character kind, never as two one-character
/// tokens.
pub proof fn lemma_maximal_munch_two_char(c: char)
    requires
        c == '!' || c == '=' || c == '<' || c == '>',
    ensures
        scan_from(seq![c, '='], 0, 1) == Ok::<Seq<TokenView>, ScanErrorView>(
            seq![
                TokenView { kind: two_char_kind(c), lexeme: seq![c, '='], literal: None, line: 1 },
                eof_token(1),
            ],
        ),
{
    let src = seq![c, '='];
    assert(src.subrange(0, 2) =~= src);
    let tv = TokenView { kind: two_char_kind(c), lexeme: src, literal: None, line: 1 };
    assert(scan_from(src, 2, 1) == Ok::<Seq<TokenView>, ScanErrorView>(seq![eof_token(1)]));
    assert(seq![tv] + seq![eof_token(1)] =~= seq![tv, eof_token(1)]);
}

/// Law: an alphabetic-led, wholly alphanumeric source scans to exactly one
/// token and the end marker; the token's kind is the keyword table's answer
/// for the whole run — the reserved kind for a keyword, `Identifier` for
/// every other such run.
pub proof fn lemma_alpha_run_scans_to_one_token(src: Seq<char>)
    requires
        src.len() >= 1,
        is_alpha_char(src[0]),
        forall|k: int| 0 <= k < src.len() ==> is_alnum_char(src[k]),
    ensures
        scan_from(src, 0, 1) == Ok::<Seq<TokenView>, ScanErrorView>(
            seq![
                TokenView { kind: keyword_kind(src), lexeme: src, literal: None, line: 1 },
                eof_token(1),
            ],
        ),
{
    lemma_alnum_end_full(src, 0);
    assert(src.subrange(0, src.len() as int) =~= src);
    let tv = TokenView { kind: keyword_kind(src), lexeme: src, literal: None, line: 1 };
    assert(scan_from(src, src.len() as int, 1) == Ok::<Seq<TokenView>, ScanErrorView>(
        seq![eof_token(1)],
    ));
    assert(seq![tv] + seq![eof_token(1)] =~= seq![tv, eof_token(1)]);
}

} // verus!
