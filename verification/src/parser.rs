//! Reading a gurgle command.
//!
//! Compilation runs in three passes over the input bytes:
//!
//! 1. the tokenizer turns the bytes into a sequence of tokens (numbers,
//!    dice, operators, parentheses, compare symbols), or fails;
//! 2. the grammar check walks the tokens once and decides whether they form
//!    `expr (checker)?` with balanced parentheses;
//! 3. the builder parses the tokens by precedence climbing, converting
//!    literals and enforcing the configured limits as it goes, and produces
//!    the syntax tree.
//!
//! A failure of pass 1 or 2 is an [`InvalidSyntax`](CompileError::InvalidSyntax)
//! error; pass 3 reports number and limit errors, in the order the items
//! stand in the command. Each pass has a specification function beside it
//! that pins its result exactly.

use vstd::prelude::*;

use crate::checker::{Checker, Compare};
use crate::config::{abs_of, sat_add, spec_check_dice, Config, Limit};
use crate::error::{CompileError, LiteralSpan};
use crate::expr::{
    node_dice_ok, AstTree, AstTreeNode, Dice, Item, Operator, PostProcessor,
};
use crate::tree::{BinaryTree, BinaryTreeNode};

verus! {

// ===== byte classes =====

/// Is `b` an ASCII decimal digit?
pub open spec fn is_digit(b: u8) -> bool {
    48 <= b <= 57
}

/// Is `b` a space? Spaces may stand between tokens, not inside one.
pub open spec fn is_space(b: u8) -> bool {
    b == 32
}

/// Is `b` an ASCII letter?
pub open spec fn is_alpha(b: u8) -> bool {
    (65 <= b <= 90) || (97 <= b <= 122)
}

/// `b` lowered to lower case, if it is an upper case ASCII letter.
pub open spec fn lower(b: u8) -> u8 {
    if 65 <= b <= 90 {
        (b + 32) as u8
    } else {
        b
    }
}

/// `p`, but never below `m`. The scan positions below only move forward;
/// phrasing that with `at_least` makes it plain to the termination checker.
pub open spec fn at_least(p: int, m: int) -> int {
    if p < m {
        m
    } else {
        p
    }
}

/// `p` clamped into `[m, n]`. The scan positions below stay in bounds and
/// only move forward; phrasing that with `step_to` makes it plain to the
/// termination checker.
pub open spec fn step_to(p: int, m: int, n: int) -> int {
    if p < m {
        m
    } else if p > n {
        n
    } else {
        p
    }
}

// ===== scanning spec functions =====

/// End of the digit run starting at `i`.
pub open spec fn digits_end(s: Seq<u8>, i: int) -> int
    decreases s.len() - i,
{
    if 0 <= i < s.len() && is_digit(s[i]) {
        digits_end(s, i + 1)
    } else {
        i
    }
}

/// End of the letter run starting at `i`.
pub open spec fn alpha_end(s: Seq<u8>, i: int) -> int
    decreases s.len() - i,
{
    if 0 <= i < s.len() && is_alpha(s[i]) {
        alpha_end(s, i + 1)
    } else {
        i
    }
}

/// The value of the digit run `[lo, hi)`, as a mathematical integer.
pub open spec fn digits_val(s: Seq<u8>, lo: int, hi: int) -> int
    decreases hi - lo,
{
    if lo >= hi {
        0
    } else {
        10 * digits_val(s, lo, hi - 1) + (s[hi - 1] - 48)
    }
}

/// The post processor named by the letter run `[lo, hi)`: empty means the
/// default `Sum`; `sum`, `avg`, `max` and `min` are matched case
/// insensitively; anything else is no keyword.
pub open spec fn keyword_pp(s: Seq<u8>, lo: int, hi: int) -> Option<PostProcessor> {
    if hi - lo == 0 {
        Some(PostProcessor::Sum)
    } else if hi - lo == 3 {
        let a = lower(s[lo]);
        let b = lower(s[lo + 1]);
        let c = lower(s[lo + 2]);
        if a == 115 && b == 117 && c == 109 {  // "sum"
            Some(PostProcessor::Sum)
        } else if a == 97 && b == 118 && c == 103 {  // "avg"
            Some(PostProcessor::Avg)
        } else if a == 109 && b == 97 && c == 120 {  // "max"
            Some(PostProcessor::Max)
        } else if a == 109 && b == 105 && c == 110 {  // "min"
            Some(PostProcessor::Min)
        } else {
            None
        }
    } else {
        None
    }
}

// ===== tokens =====

/// One token of a gurgle command. Number literals are kept as spans into
/// the input and converted later, so that a literal that does not fit is
/// reported only after the whole command has passed the grammar.
#[derive(Debug, Clone, Copy, PartialEq, Eq, Structural)]
pub enum Tok {
    /// A signed number literal: sign and digit span.
    Num {
        /// Whether the literal carries a minus sign.
        neg: bool,
        /// First digit.
        lo: usize,
        /// Just past the last digit.
        hi: usize,
    },
    /// A dice literal `<times>d<sided><keyword?>`.
    DiceTok {
        /// Whether the roll times carry a minus sign.
        tneg: bool,
        /// First digit of the roll times.
        tlo: usize,
        /// Just past the last digit of the roll times.
        thi: usize,
        /// Whether the side count carries a minus sign.
        sneg: bool,
        /// First digit of the side count.
        slo: usize,
        /// Just past the last digit of the side count.
        shi: usize,
        /// The post processor keyword, `Sum` when absent.
        pp: PostProcessor,
    },
    /// The `+` operator.
    Add,
    /// The `-` operator.
    Sub,
    /// The `*` operator.
    Mul,
    /// An opening parenthesis.
    LParen,
    /// A closing parenthesis.
    RParen,
    /// A compare symbol.
    CmpTok {
        /// The compare operator the symbol names.
        c: Compare,
    },
}

/// The digit run `[lo, hi)` is non-empty, in bounds, and all digits.
pub open spec fn span_wf(s: Seq<u8>, lo: usize, hi: usize) -> bool {
    lo < hi <= s.len() && (forall|j: int| lo <= j < hi ==> is_digit(#[trigger] s[j]))
}

/// The spans of a token are in bounds and hold digits.
pub open spec fn tok_wf(t: Tok, s: Seq<u8>) -> bool {
    match t {
        Tok::Num { neg, lo, hi } => span_wf(s, lo, hi),
        Tok::DiceTok { tneg, tlo, thi, sneg, slo, shi, pp } => span_wf(s, tlo, thi) && span_wf(
            s,
            slo,
            shi,
        ),
        _ => true,
    }
}

/// Every token's spans are in bounds and hold digits.
pub open spec fn toks_wf(toks: Seq<Tok>, s: Seq<u8>) -> bool {
    forall|k: int| 0 <= k < toks.len() ==> tok_wf(#[trigger] toks[k], s)
}

/// Prepend a token to a tokenization result.
pub open spec fn cons_tok(t: Tok, rest: Option<Seq<Tok>>) -> Option<Seq<Tok>> {
    match rest {
        Some(v) => Some(seq![t] + v),
        None => None,
    }
}

/// The tokens of `s` from position `i` on, or `None` when the bytes do not
/// scan. `item_pos` says whether the next token must be an item or an
/// opening parenthesis (at the start, after an operator, after an opening
/// parenthesis, and after a compare symbol) — there a `+` or `-` is the
/// sign of a number, everywhere else it is an operator.
pub open spec fn spec_tokens(s: Seq<u8>, i: int, item_pos: bool) -> Option<Seq<Tok>>
    decreases s.len() - i,
{
    if !(0 <= i < s.len()) {
        if item_pos {
            None
        } else {
            Some(Seq::empty())
        }
    } else if is_space(s[i]) {
        spec_tokens(s, i + 1, item_pos)
    } else if item_pos {
        let b = s[i];
        if b == 40 {  // '('
            cons_tok(Tok::LParen, spec_tokens(s, i + 1, true))
        } else if b == 43 || b == 45 || is_digit(b) {  // sign or digit
            let neg = b == 45;
            let dstart = if is_digit(b) {
                i
            } else {
                i + 1
            };
            if !(dstart < s.len() && is_digit(s[dstart])) {
                None
            } else {
                let dend = at_least(digits_end(s, dstart), dstart + 1);
                if dend < s.len() && s[dend] == 100 {  // 'd'
                    let p = dend + 1;
                    if !(p < s.len() && (s[p] == 43 || s[p] == 45 || is_digit(s[p]))) {
                        None
                    } else {
                        let sneg = s[p] == 45;
                        let sstart = if is_digit(s[p]) {
                            p
                        } else {
                            p + 1
                        };
                        if !(sstart < s.len() && is_digit(s[sstart])) {
                            None
                        } else {
                            let send = at_least(digits_end(s, sstart), sstart + 1);
                            let kend = at_least(alpha_end(s, send), send);
                            match keyword_pp(s, send, kend) {
                                None => None,
                                Some(pp) => cons_tok(
                                    Tok::DiceTok {
                                        tneg: neg,
                                        tlo: dstart as usize,
                                        thi: dend as usize,
                                        sneg,
                                        slo: sstart as usize,
                                        shi: send as usize,
                                        pp,
                                    },
                                    spec_tokens(s, step_to(kend, i + 1, s.len() as int), false),
                                ),
                            }
                        }
                    }
                } else {
                    cons_tok(
                        Tok::Num { neg, lo: dstart as usize, hi: dend as usize },
                        spec_tokens(s, step_to(dend, i + 1, s.len() as int), false),
                    )
                }
            }
        } else {
            None
        }
    } else {
        let b = s[i];
        if b == 43 {  // '+'
            cons_tok(Tok::Add, spec_tokens(s, i + 1, true))
        } else if b == 45 {  // '-'
            cons_tok(Tok::Sub, spec_tokens(s, i + 1, true))
        } else if b == 42 {  // '*'
            cons_tok(Tok::Mul, spec_tokens(s, i + 1, true))
        } else if b == 41 {  // ')'
            cons_tok(Tok::RParen, spec_tokens(s, i + 1, false))
        } else if b == 62 {  // '>'
            if i + 1 < s.len() && s[i + 1] == 61 {
                cons_tok(Tok::CmpTok { c: Compare::Gte }, spec_tokens(s, i + 2, true))
            } else {
                cons_tok(Tok::CmpTok { c: Compare::Gt }, spec_tokens(s, i + 1, true))
            }
        } else if b == 60 {  // '<'
            if i + 1 < s.len() && s[i + 1] == 61 {
                cons_tok(Tok::CmpTok { c: Compare::Lte }, spec_tokens(s, i + 2, true))
            } else {
                cons_tok(Tok::CmpTok { c: Compare::Lt }, spec_tokens(s, i + 1, true))
            }
        } else if b == 61 {  // '=' or '=='
            if i + 1 < s.len() && s[i + 1] == 61 {
                cons_tok(Tok::CmpTok { c: Compare::Eq }, spec_tokens(s, i + 2, true))
            } else {
                cons_tok(Tok::CmpTok { c: Compare::Eq }, spec_tokens(s, i + 1, true))
            }
        } else {
            None
        }
    }
}

/// The tokenizer's loop invariant: the tokens read so far, continued by
/// whatever starts at `i`, are the tokens of the whole input.
pub open spec fn tokens_ok(s: Seq<u8>, done: Seq<Tok>, i: int, item_pos: bool) -> bool {
    match spec_tokens(s, i, item_pos) {
        Some(rest) => spec_tokens(s, 0, true) == Some(done + rest),
        None => spec_tokens(s, 0, true) is None,
    }
}

proof fn lemma_tokens_ok_step(
    s: Seq<u8>,
    done: Seq<Tok>,
    i: int,
    ip: bool,
    t: Tok,
    i2: int,
    ip2: bool,
)
    requires
        tokens_ok(s, done, i, ip),
        spec_tokens(s, i, ip) == cons_tok(t, spec_tokens(s, i2, ip2)),
    ensures
        tokens_ok(s, done.push(t), i2, ip2),
{
    match spec_tokens(s, i2, ip2) {
        Some(rest) => {
            assert(done + (seq![t] + rest) =~= done.push(t) + rest);
        },
        None => {
        },
    }
}

// ===== scanning exec functions =====

/// Scan the digit run starting at `from`.
fn scan_digits(s: &[u8], from: usize) -> (r: usize)
    requires
        from <= s@.len(),
    ensures
        r == digits_end(s@, from as int),
        from <= r <= s@.len(),
        forall|j: int| from <= j < r ==> is_digit(#[trigger] s@[j]),
        (from < s@.len() && is_digit(s@[from as int])) ==> r > from,
{
    let mut k = from;
    while k < s.len() && 48 <= s[k] && s[k] <= 57
        invariant
            from <= k <= s@.len(),
            digits_end(s@, from as int) == digits_end(s@, k as int),
            forall|j: int| from <= j < k ==> is_digit(#[trigger] s@[j]),
        decreases s@.len() - k,
    {
        k = k + 1;
    }
    k
}

/// Scan the letter run starting at `from`.
fn scan_alpha(s: &[u8], from: usize) -> (r: usize)
    requires
        from <= s@.len(),
    ensures
        r == alpha_end(s@, from as int),
        from <= r <= s@.len(),
{
    let mut k = from;
    while k < s.len() && ((65 <= s[k] && s[k] <= 90) || (97 <= s[k] && s[k] <= 122))
        invariant
            from <= k <= s@.len(),
            alpha_end(s@, from as int) == alpha_end(s@, k as int),
        decreases s@.len() - k,
    {
        k = k + 1;
    }
    k
}

/// Lower one byte.
fn lower_exec(b: u8) -> (r: u8)
    ensures
        r == lower(b),
{
    if 65 <= b && b <= 90 {
        b + 32
    } else {
        b
    }
}

/// Match the letter run `[lo, hi)` as a post processor keyword.
pub(crate) fn keyword_pp_exec(s: &[u8], lo: usize, hi: usize) -> (r: Option<PostProcessor>)
    requires
        lo <= hi <= s@.len(),
    ensures
        r == keyword_pp(s@, lo as int, hi as int),
{
    if hi - lo == 0 {
        Some(PostProcessor::Sum)
    } else if hi - lo == 3 {
        let a = lower_exec(s[lo]);
        let b = lower_exec(s[lo + 1]);
        let c = lower_exec(s[lo + 2]);
        if a == 115 && b == 117 && c == 109 {
            Some(PostProcessor::Sum)
        } else if a == 97 && b == 118 && c == 103 {
            Some(PostProcessor::Avg)
        } else if a == 109 && b == 97 && c == 120 {
            Some(PostProcessor::Max)
        } else if a == 109 && b == 105 && c == 110 {
            Some(PostProcessor::Min)
        } else {
            None
        }
    } else {
        None
    }
}

/// Turn the input bytes into tokens, or `None` when they do not scan.
pub(crate) fn tokenize(s: &[u8]) -> (r: Option<Vec<Tok>>)
    ensures
        match r {
            Some(v) => spec_tokens(s@, 0, true) == Some(v@) && toks_wf(v@, s@),
            None => spec_tokens(s@, 0, true) is None,
        },
{
    let n = s.len();
    let mut i: usize = 0;
    let mut item_pos: bool = true;
    let mut toks: Vec<Tok> = Vec::new();
    loop
        invariant
            0 <= i <= n,
            n == s@.len(),
            toks_wf(toks@, s@),
            tokens_ok(s@, toks@, i as int, item_pos),
        decreases n - i,
    {
        if i >= n {
            if item_pos {
                return None;
            }
            proof {
                assert(toks@ + Seq::<Tok>::empty() =~= toks@);
            }
            return Some(toks);
        }
        let b = s[i];
        if b == 32 {
            i = i + 1;
            continue;
        }
        if item_pos {
            if b == 40 {
                proof {
                    lemma_tokens_ok_step(
                        s@,
                        toks@,
                        i as int,
                        true,
                        Tok::LParen,
                        i as int + 1,
                        true,
                    );
                }
                toks.push(Tok::LParen);
                i = i + 1;
            } else if b == 43 || b == 45 || (48 <= b && b <= 57) {
                let neg = b == 45;
                let dstart = if 48 <= b && b <= 57 {
                    i
                } else {
                    i + 1
                };
                if dstart >= n {
                    return None;
                }
                let b2 = s[dstart];
                if !(48 <= b2 && b2 <= 57) {
                    return None;
                }
                let dend = scan_digits(s, dstart);
                if dend < n && s[dend] == 100 {
                    // a dice literal
                    let p = dend + 1;
                    if p >= n {
                        return None;
                    }
                    let b3 = s[p];
                    if !(b3 == 43 || b3 == 45 || (48 <= b3 && b3 <= 57)) {
                        return None;
                    }
                    let sneg = b3 == 45;
                    let sstart = if 48 <= b3 && b3 <= 57 {
                        p
                    } else {
                        p + 1
                    };
                    if sstart >= n {
                        return None;
                    }
                    let b4 = s[sstart];
                    if !(48 <= b4 && b4 <= 57) {
                        return None;
                    }
                    let send = scan_digits(s, sstart);
                    let kend = scan_alpha(s, send);
                    match keyword_pp_exec(s, send, kend) {
                        None => {
                            return None;
                        },
                        Some(pp) => {
                            let tok = Tok::DiceTok {
                                tneg: neg,
                                tlo: dstart,
                                thi: dend,
                                sneg,
                                slo: sstart,
                                shi: send,
                                pp,
                            };
                            proof {
                                lemma_tokens_ok_step(
                                    s@,
                                    toks@,
                                    i as int,
                                    true,
                                    tok,
                                    kend as int,
                                    false,
                                );
                            }
                            toks.push(tok);
                            i = kend;
                            item_pos = false;
                        },
                    }
                } else {
                    let tok = Tok::Num { neg, lo: dstart, hi: dend };
                    proof {
                        lemma_tokens_ok_step(s@, toks@, i as int, true, tok, dend as int, false);
                    }
                    toks.push(tok);
                    i = dend;
                    item_pos = false;
                }
            } else {
                return None;
            }
        } else {
            if b == 43 || b == 45 || b == 42 || b == 41 {
                let tok = if b == 43 {
                    Tok::Add
                } else if b == 45 {
                    Tok::Sub
                } else if b == 42 {
                    Tok::Mul
                } else {
                    Tok::RParen
                };
                let ip2 = b != 41;
                proof {
                    lemma_tokens_ok_step(s@, toks@, i as int, false, tok, i as int + 1, ip2);
                }
                toks.push(tok);
                i = i + 1;
                item_pos = ip2;
            } else if b == 62 || b == 60 || b == 61 {
                let two = i + 1 < n && s[i + 1] == 61;
                let c = if b == 62 {
                    if two {
                        Compare::Gte
                    } else {
                        Compare::Gt
                    }
                } else if b == 60 {
                    if two {
                        Compare::Lte
                    } else {
                        Compare::Lt
                    }
                } else {
                    Compare::Eq
                };
                let step: usize = if two {
                    2
                } else {
                    1
                };
                let tok = Tok::CmpTok { c };
                proof {
                    lemma_tokens_ok_step(s@, toks@, i as int, false, tok, i as int + step, true);
                }
                toks.push(tok);
                i = i + step;
                item_pos = true;
            } else {
                return None;
            }
        }
    }
}

// ===== grammar check =====

/// Do the tokens from `i` on complete a well formed command? `item_pos`
/// says whether an item is expected next, `depth` is the number of open
/// parentheses. A compare symbol is only allowed outside parentheses, and
/// must be followed by exactly one number at the very end.
pub open spec fn valid_from(toks: Seq<Tok>, i: int, item_pos: bool, depth: int) -> bool
    decreases toks.len() - i,
{
    if !(0 <= i < toks.len()) {
        i == toks.len() && !item_pos && depth == 0
    } else {
        match toks[i] {
            Tok::Num { .. } => item_pos && valid_from(toks, i + 1, false, depth),
            Tok::DiceTok { .. } => item_pos && valid_from(toks, i + 1, false, depth),
            Tok::LParen => item_pos && valid_from(toks, i + 1, true, depth + 1),
            Tok::RParen => !item_pos && depth > 0 && valid_from(toks, i + 1, false, depth - 1),
            Tok::Add | Tok::Sub | Tok::Mul => !item_pos && valid_from(toks, i + 1, true, depth),
            Tok::CmpTok { .. } => !item_pos && depth == 0 && i + 2 == toks.len() && (toks[i + 1]
                is Num),
        }
    }
}

/// Do the tokens form a well formed command?
pub open spec fn toks_valid(toks: Seq<Tok>) -> bool {
    valid_from(toks, 0, true, 0)
}

/// Check the tokens against the grammar.
pub(crate) fn validate(toks: &Vec<Tok>) -> (r: bool)
    ensures
        r == toks_valid(toks@),
{
    let n = toks.len();
    let mut i: usize = 0;
    let mut item_pos: bool = true;
    let mut depth: usize = 0;
    loop
        invariant
            0 <= i <= n,
            depth <= i,
            n == toks@.len(),
            toks_valid(toks@) == valid_from(toks@, i as int, item_pos, depth as int),
        decreases n - i,
    {
        if i >= n {
            return !item_pos && depth == 0;
        }
        match toks[i] {
            Tok::Num { .. } => {
                if !item_pos {
                    return false;
                }
                i = i + 1;
                item_pos = false;
            },
            Tok::DiceTok { .. } => {
                if !item_pos {
                    return false;
                }
                i = i + 1;
                item_pos = false;
            },
            Tok::LParen => {
                if !item_pos {
                    return false;
                }
                depth = depth + 1;
                i = i + 1;
            },
            Tok::RParen => {
                if item_pos || depth == 0 {
                    return false;
                }
                depth = depth - 1;
                i = i + 1;
            },
            Tok::Add | Tok::Sub | Tok::Mul => {
                if item_pos {
                    return false;
                }
                i = i + 1;
                item_pos = true;
            },
            Tok::CmpTok { .. } => {
                if item_pos || depth != 0 {
                    return false;
                }
                if n - i == 2 {
                    return matches!(toks[i + 1], Tok::Num { .. });
                }
                return false;
            },
        }
    }
}

// ===== number conversion =====

/// The signed value of the digit run `[lo, hi)`, or `None` when it does
/// not fit an `i64`.
pub open spec fn spec_parse_i64(s: Seq<u8>, neg: bool, lo: int, hi: int) -> Option<i64> {
    let v = digits_val(s, lo, hi);
    if neg {
        if v <= 0x8000_0000_0000_0000 {
            Some((-v) as i64)
        } else {
            None
        }
    } else {
        if v <= 0x7fff_ffff_ffff_ffff {
            Some(v as i64)
        } else {
            None
        }
    }
}

proof fn lemma_digits_val_nonneg(s: Seq<u8>, lo: int, hi: int)
    requires
        forall|j: int| lo <= j < hi ==> is_digit(#[trigger] s[j]),
    ensures
        digits_val(s, lo, hi) >= 0,
    decreases hi - lo,
{
    if lo < hi {
        lemma_digits_val_nonneg(s, lo, hi - 1);
    }
}

proof fn lemma_digits_val_mono(s: Seq<u8>, lo: int, k: int, hi: int)
    requires
        lo <= k <= hi,
        forall|j: int| lo <= j < hi ==> is_digit(#[trigger] s[j]),
    ensures
        digits_val(s, lo, k) <= digits_val(s, lo, hi),
    decreases hi - k,
{
    if k < hi {
        lemma_digits_val_mono(s, lo, k, hi - 1);
        lemma_digits_val_nonneg(s, lo, hi - 1);
    }
}

/// Convert the digit run `[lo, hi)` with sign `neg` to an `i64`.
fn parse_i64(s: &[u8], neg: bool, lo: usize, hi: usize) -> (r: Option<i64>)
    requires
        lo < hi <= s@.len(),
        forall|j: int| lo <= j < hi ==> is_digit(#[trigger] s@[j]),
    ensures
        r == spec_parse_i64(s@, neg, lo as int, hi as int),
{
    let mut acc: u128 = 0;
    let mut k = lo;
    while k < hi
        invariant
            lo <= k <= hi,
            hi <= s@.len(),
            forall|j: int| lo <= j < hi ==> is_digit(#[trigger] s@[j]),
            acc == digits_val(s@, lo as int, k as int),
            acc <= 0x8000_0000_0000_0000,
        decreases hi - k,
    {
        let d = s[k];
        acc = acc * 10 + ((d - 48) as u128);
        k = k + 1;
        if acc > 0x8000_0000_0000_0000 {
            proof {
                lemma_digits_val_mono(s@, lo as int, k as int, hi as int);
            }
            return None;
        }
    }
    if neg {
        if acc == 0x8000_0000_0000_0000 {
            Some(i64::MIN)
        } else {
            Some(-(acc as i64))
        }
    } else {
        if acc > 0x7fff_ffff_ffff_ffff {
            None
        } else {
            Some(acc as i64)
        }
    }
}

// ===== the builder =====

/// Binding power of an operator: `*` binds tighter than `+` and `-`.
pub open spec fn bp(op: Operator) -> int {
    match op {
        Operator::Add => 1,
        Operator::Minus => 1,
        Operator::Multiply => 2,
    }
}

/// The operator a token names, if any.
pub open spec fn tok_op(t: Tok) -> Option<Operator> {
    match t {
        Tok::Add => Some(Operator::Add),
        Tok::Sub => Some(Operator::Minus),
        Tok::Mul => Some(Operator::Multiply),
        _ => None,
    }
}

/// One step of the builder: a parsed subtree with the position after it
/// and the updated counters, a compile error, or `Stuck` when the token
/// shape does not fit the grammar (the grammar check runs first, so the
/// builder never actually gets stuck).
#[derive(Debug)]
pub enum ParseStep {
    /// The token shape does not fit the grammar.
    Stuck,
    /// Compilation fails with this error.
    Fail(CompileError),
    /// A subtree was parsed.
    More {
        /// The parsed subtree.
        node: AstTreeNode,
        /// The position just past it.
        next: usize,
        /// Items seen so far.
        cnt: u64,
        /// Roll times summed so far.
        rt: u64,
    },
}

/// Parse one primary: a number, a dice, or a parenthesized expression.
/// Mirrors the order the limits are enforced in: the item is counted
/// first, then its literals are converted, then the dice checks and the
/// roll-times quota run.
pub open spec fn sp_item(
    s: Seq<u8>,
    toks: Seq<Tok>,
    cfg: Config,
    i: int,
    cnt: u64,
    rt: u64,
) -> ParseStep
    decreases toks.len() - i, 0int,
{
    if !(0 <= i < toks.len()) {
        ParseStep::Stuck
    } else {
        match toks[i] {
            Tok::Num { neg, lo, hi } => {
                let cnt2 = sat_add(cnt, 1);
                if cnt2 > cfg.max_item_count {
                    ParseStep::Fail(CompileError::ItemCountLimitExceeded)
                } else {
                    match spec_parse_i64(s, neg, lo as int, hi as int) {
                        None => ParseStep::Fail(
                            CompileError::ParseNumberError(LiteralSpan { neg, lo, hi }),
                        ),
                        Some(x) => if abs_of(x) > cfg.max_number_item_value {
                            ParseStep::Fail(CompileError::NumberItemOutOfRange)
                        } else {
                            ParseStep::More {
                                node: BinaryTreeNode::Leaf(Item::Number(x)),
                                next: (i + 1) as usize,
                                cnt: cnt2,
                                rt,
                            }
                        },
                    }
                }
            },
            Tok::DiceTok { tneg, tlo, thi, sneg, slo, shi, pp } => {
                let cnt2 = sat_add(cnt, 1);
                if cnt2 > cfg.max_item_count {
                    ParseStep::Fail(CompileError::ItemCountLimitExceeded)
                } else {
                    match spec_parse_i64(s, tneg, tlo as int, thi as int) {
                        None => ParseStep::Fail(
                            CompileError::ParseNumberError(
                                LiteralSpan { neg: tneg, lo: tlo, hi: thi },
                            ),
                        ),
                        Some(t) => match spec_parse_i64(s, sneg, slo as int, shi as int) {
                            None => ParseStep::Fail(
                                CompileError::ParseNumberError(
                                    LiteralSpan { neg: sneg, lo: slo, hi: shi },
                                ),
                            ),
                            Some(sd) => match spec_check_dice(t, sd, cfg) {
                                Err(e) => ParseStep::Fail(e),
                                Ok(()) => {
                                    let rt2 = sat_add(rt, t as u64);
                                    if rt2 > cfg.max_roll_times {
                                        ParseStep::Fail(
                                            CompileError::DiceRollTimesLimitExceeded,
                                        )
                                    } else {
                                        ParseStep::More {
                                            node: BinaryTreeNode::Leaf(
                                                Item::Dice(
                                                    Dice {
                                                        times: t as u64,
                                                        sided: sd as u64,
                                                        pp,
                                                    },
                                                ),
                                            ),
                                            next: (i + 1) as usize,
                                            cnt: cnt2,
                                            rt: rt2,
                                        }
                                    }
                                },
                            },
                        },
                    }
                }
            },
            Tok::LParen => match sp_expr(s, toks, cfg, i + 1, 1, cnt, rt) {
                ParseStep::Stuck => ParseStep::Stuck,
                ParseStep::Fail(e) => ParseStep::Fail(e),
                ParseStep::More { node, next, cnt, rt } => if next < toks.len()
                    && (toks[next as int] is RParen) {
                    ParseStep::More {
                        node: BinaryTreeNode::Leaf(Item::Parentheses(Box::new(node))),
                        next: (next + 1) as usize,
                        cnt,
                        rt,
                    }
                } else {
                    ParseStep::Stuck
                },
            },
            _ => ParseStep::Stuck,
        }
    }
}

/// Parse an expression by precedence climbing, starting at `i` with
/// minimum binding power `min_bp`: one primary, then `sp_tail` folds in
/// operators.
pub open spec fn sp_expr(
    s: Seq<u8>,
    toks: Seq<Tok>,
    cfg: Config,
    i: int,
    min_bp: int,
    cnt: u64,
    rt: u64,
) -> ParseStep
    decreases toks.len() - i, 2int,
{
    if !(0 <= i < toks.len()) {
        ParseStep::Stuck
    } else {
        match sp_item(s, toks, cfg, i, cnt, rt) {
            ParseStep::Stuck => ParseStep::Stuck,
            ParseStep::Fail(e) => ParseStep::Fail(e),
            ParseStep::More { node, next, cnt, rt } => sp_tail(
                s,
                toks,
                cfg,
                node,
                step_to(next as int, i + 1, toks.len() as int),
                min_bp,
                cnt,
                rt,
            ),
        }
    }
}

/// The climbing loop: while the next operator binds at least `min_bp`,
/// parse its right-hand side with the next higher minimum binding power
/// (operators of equal power fold left) and fold it into the accumulator.
pub open spec fn sp_tail(
    s: Seq<u8>,
    toks: Seq<Tok>,
    cfg: Config,
    acc: AstTreeNode,
    j: int,
    min_bp: int,
    cnt: u64,
    rt: u64,
) -> ParseStep
    decreases toks.len() - j, 1int,
{
    if !(0 <= j < toks.len()) {
        ParseStep::More { node: acc, next: j as usize, cnt, rt }
    } else {
        match tok_op(toks[j]) {
            None => ParseStep::More { node: acc, next: j as usize, cnt, rt },
            Some(op) => if bp(op) >= min_bp {
                match sp_expr(s, toks, cfg, j + 1, bp(op) + 1, cnt, rt) {
                    ParseStep::Stuck => ParseStep::Stuck,
                    ParseStep::Fail(e) => ParseStep::Fail(e),
                    ParseStep::More { node, next, cnt, rt } => sp_tail(
                        s,
                        toks,
                        cfg,
                        BinaryTreeNode::Tree(
                            BinaryTree { left: Box::new(acc), mid: op, right: Box::new(node) },
                        ),
                        step_to(next as int, j + 1, toks.len() as int),
                        min_bp,
                        cnt,
                        rt,
                    ),
                }
            } else {
                ParseStep::More { node: acc, next: j as usize, cnt, rt }
            },
        }
    }
}

/// The whole command: an expression, then an optional checker, then the
/// end of the tokens. The checker's target is converted and bound-checked
/// after the expression has been built.
pub open spec fn sp_command(s: Seq<u8>, toks: Seq<Tok>, cfg: Config) -> CommandStep {
    match sp_expr(s, toks, cfg, 0, 1, 0u64, 0u64) {
        ParseStep::Stuck => CommandStep::Stuck,
        ParseStep::Fail(e) => CommandStep::Fail(e),
        ParseStep::More { node, next, cnt, rt } => {
            if next == toks.len() {
                CommandStep::Done { expr: node, checker: None }
            } else if next as int + 2 == toks.len() && (toks[next as int] is CmpTok)
                && (toks[next as int + 1] is Num) {
                let c = toks[next as int]->CmpTok_c;
                let neg = toks[next as int + 1]->Num_neg;
                let lo = toks[next as int + 1]->Num_lo;
                let hi = toks[next as int + 1]->Num_hi;
                match spec_parse_i64(s, neg, lo as int, hi as int) {
                    None => CommandStep::Fail(
                        CompileError::ParseNumberError(LiteralSpan { neg, lo, hi }),
                    ),
                    Some(t) => if abs_of(t) > cfg.max_number_item_value {
                        CommandStep::Fail(CompileError::NumberItemOutOfRange)
                    } else {
                        CommandStep::Done {
                            expr: node,
                            checker: Some(Checker { compare: c, target: t }),
                        }
                    },
                }
            } else {
                CommandStep::Stuck
            }
        },
    }
}

/// Where the climbing loop may stand when it stops: at the end of the
/// tokens, before a closing parenthesis, before a compare symbol, or
/// before an operator that binds too weakly.
pub open spec fn tail_stop(toks: Seq<Tok>, next: int, min_bp: int) -> bool {
    next == toks.len() || (toks[next] is RParen) || (toks[next] is CmpTok) || (match tok_op(
        toks[next],
    ) {
        Some(op) => bp(op) < min_bp,
        None => false,
    })
}

proof fn lemma_item_not_stuck(
    s: Seq<u8>,
    toks: Seq<Tok>,
    cfg: Config,
    i: int,
    depth: int,
    cnt: u64,
    rt: u64,
)
    requires
        0 <= i,
        0 <= depth,
        toks.len() <= usize::MAX,
        valid_from(toks, i, true, depth),
    ensures
        !(sp_item(s, toks, cfg, i, cnt, rt) is Stuck),
        sp_item(s, toks, cfg, i, cnt, rt) matches ParseStep::More { next, .. } ==> i < next
            <= toks.len() && valid_from(toks, next as int, false, depth),
    decreases toks.len() - i, 0int,
{
    if i >= toks.len() {
        // valid_from refuses an item position at the end of the tokens
        assert(!valid_from(toks, i, true, depth));
    } else {
        match toks[i] {
            Tok::Num { .. } => {
            },
            Tok::DiceTok { .. } => {
            },
            Tok::LParen => {
                lemma_expr_not_stuck(s, toks, cfg, i + 1, 1, depth + 1, cnt, rt);
                let step = sp_expr(s, toks, cfg, i + 1, 1, cnt, rt);
                match step {
                    ParseStep::More { node, next, .. } => {
                        // the inner expression stops before a closing
                        // parenthesis: the other three stops contradict
                        // valid_from at (next, false, depth + 1)
                        assert(tail_stop(toks, next as int, 1));
                        if next as int == toks.len() {
                            assert(!valid_from(toks, next as int, false, depth + 1));
                        } else if toks[next as int] is CmpTok {
                            assert(!valid_from(toks, next as int, false, depth + 1));
                        } else {
                            assert(toks[next as int] is RParen);
                        }
                    },
                    _ => {
                    },
                }
            },
            Tok::RParen => {
                assert(!valid_from(toks, i, true, depth));
            },
            Tok::Add | Tok::Sub | Tok::Mul => {
                assert(!valid_from(toks, i, true, depth));
            },
            Tok::CmpTok { .. } => {
                assert(!valid_from(toks, i, true, depth));
            },
        }
    }
}

proof fn lemma_expr_not_stuck(
    s: Seq<u8>,
    toks: Seq<Tok>,
    cfg: Config,
    i: int,
    min_bp: int,
    depth: int,
    cnt: u64,
    rt: u64,
)
    requires
        0 <= i,
        1 <= min_bp,
        0 <= depth,
        toks.len() <= usize::MAX,
        valid_from(toks, i, true, depth),
    ensures
        !(sp_expr(s, toks, cfg, i, min_bp, cnt, rt) is Stuck),
        sp_expr(s, toks, cfg, i, min_bp, cnt, rt) matches ParseStep::More { next, .. } ==> i
            < next <= toks.len() && valid_from(toks, next as int, false, depth) && tail_stop(
            toks,
            next as int,
            min_bp,
        ),
    decreases toks.len() - i, 2int,
{
    if i >= toks.len() {
        assert(!valid_from(toks, i, true, depth));
    } else {
        lemma_item_not_stuck(s, toks, cfg, i, depth, cnt, rt);
        let step = sp_item(s, toks, cfg, i, cnt, rt);
        match step {
            ParseStep::More { node, next, cnt: cnt2, rt: rt2 } => {
                lemma_tail_not_stuck(s, toks, cfg, node, next as int, min_bp, depth, cnt2, rt2);
            },
            _ => {
            },
        }
    }
}

proof fn lemma_tail_not_stuck(
    s: Seq<u8>,
    toks: Seq<Tok>,
    cfg: Config,
    acc: AstTreeNode,
    j: int,
    min_bp: int,
    depth: int,
    cnt: u64,
    rt: u64,
)
    requires
        0 <= j <= toks.len(),
        1 <= min_bp,
        0 <= depth,
        toks.len() <= usize::MAX,
        valid_from(toks, j, false, depth),
    ensures
        !(sp_tail(s, toks, cfg, acc, j, min_bp, cnt, rt) is Stuck),
        sp_tail(s, toks, cfg, acc, j, min_bp, cnt, rt) matches ParseStep::More { next, .. }
            ==> j <= next <= toks.len() && valid_from(toks, next as int, false, depth)
            && tail_stop(toks, next as int, min_bp),
    decreases toks.len() - j, 1int,
{
    if j == toks.len() {
        // the loop stops at the end of the tokens
    } else {
        match tok_op(toks[j]) {
            None => {
                // the loop stops here; valid_from at an operator position
                // leaves only a closing parenthesis or a compare symbol
                match toks[j] {
                    Tok::Num { .. } => {
                        assert(!valid_from(toks, j, false, depth));
                    },
                    Tok::DiceTok { .. } => {
                        assert(!valid_from(toks, j, false, depth));
                    },
                    Tok::LParen => {
                        assert(!valid_from(toks, j, false, depth));
                    },
                    _ => {
                    },
                }
            },
            Some(op) => {
                if bp(op) >= min_bp {
                    lemma_expr_not_stuck(s, toks, cfg, j + 1, bp(op) + 1, depth, cnt, rt);
                    let step = sp_expr(s, toks, cfg, j + 1, bp(op) + 1, cnt, rt);
                    match step {
                        ParseStep::More { node, next, cnt: cnt2, rt: rt2 } => {
                            let newacc = BinaryTreeNode::Tree(
                                BinaryTree { left: Box::new(acc), mid: op, right: Box::new(node) },
                            );
                            lemma_tail_not_stuck(
                                s,
                                toks,
                                cfg,
                                newacc,
                                next as int,
                                min_bp,
                                depth,
                                cnt2,
                                rt2,
                            );
                        },
                        _ => {
                        },
                    }
                }
            },
        }
    }
}

/// A token sequence that passes the grammar check is never refused by the
/// builder: building it yields the compiled command or a number or limit
/// error, whatever the configuration.
proof fn lemma_valid_tokens_build(s: Seq<u8>, toks: Seq<Tok>, cfg: Config)
    requires
        toks.len() <= usize::MAX,
        toks_valid(toks),
    ensures
        !(sp_command(s, toks, cfg) is Stuck),
{
    lemma_expr_not_stuck(s, toks, cfg, 0, 1, 0, 0u64, 0u64);
    let step = sp_expr(s, toks, cfg, 0, 1, 0u64, 0u64);
    match step {
        ParseStep::More { node, next, .. } => {
            assert(tail_stop(toks, next as int, 1));
            if next as int == toks.len() {
            } else if toks[next as int] is RParen {
                assert(!valid_from(toks, next as int, false, 0));
            } else {
                assert(toks[next as int] is CmpTok);
                assert(valid_from(toks, next as int, false, 0));
            }
        },
        _ => {
        },
    }
}

proof fn lemma_spec_tokens_count(s: Seq<u8>, i: int, ip: bool)
    requires
        0 <= i <= s.len(),
    ensures
        spec_tokens(s, i, ip) matches Some(v) ==> v.len() <= s.len() - i,
    decreases s.len() - i,
{
    if !(0 <= i < s.len()) {
    } else if is_space(s[i]) {
        lemma_spec_tokens_count(s, i + 1, ip);
    } else if ip {
        let b = s[i];
        if b == 40 {
            lemma_spec_tokens_count(s, i + 1, true);
        } else if b == 43 || b == 45 || is_digit(b) {
            let dstart = if is_digit(b) {
                i
            } else {
                i + 1
            };
            if dstart < s.len() && is_digit(s[dstart]) {
                let dend = at_least(digits_end(s, dstart), dstart + 1);
                if dend < s.len() && s[dend] == 100 {
                    let p = dend + 1;
                    if p < s.len() && (s[p] == 43 || s[p] == 45 || is_digit(s[p])) {
                        let sstart = if is_digit(s[p]) {
                            p
                        } else {
                            p + 1
                        };
                        if sstart < s.len() && is_digit(s[sstart]) {
                            let send = at_least(digits_end(s, sstart), sstart + 1);
                            let kend = at_least(alpha_end(s, send), send);
                            lemma_spec_tokens_count(
                                s,
                                step_to(kend, i + 1, s.len() as int),
                                false,
                            );
                        }
                    }
                } else {
                    lemma_spec_tokens_count(s, step_to(dend, i + 1, s.len() as int), false);
                }
            }
        }
    } else {
        if i + 2 <= s.len() {
            lemma_spec_tokens_count(s, i + 2, true);
        }
        lemma_spec_tokens_count(s, i + 1, true);
        lemma_spec_tokens_count(s, i + 1, false);
    }
}

/// An `InvalidSyntax` error is exactly a failure of the grammar: compiling
/// reports it if and only if the bytes do not scan into tokens or the
/// tokens do not form a well formed command. Every other outcome is the
/// compiled command or a number or limit error.
pub proof fn lemma_syntax_error_iff_grammar(bytes: Seq<u8>, cfg: Config)
    requires
        bytes.len() <= usize::MAX,
    ensures
        (spec_compile(bytes, cfg) is Stuck) <==> (match spec_tokens(bytes, 0, true) {
            None => true,
            Some(toks) => !toks_valid(toks),
        }),
{
    match spec_tokens(bytes, 0, true) {
        None => {
        },
        Some(toks) => {
            lemma_spec_tokens_count(bytes, 0, true);
            if toks_valid(toks) {
                lemma_valid_tokens_build(bytes, toks, cfg);
            }
        },
    }
}

/// What compiling a command comes to: a syntax failure, a compile error,
/// or the finished tree with its optional checker.
#[derive(Debug)]
pub enum CommandStep {
    /// The input does not fit the grammar.
    Stuck,
    /// Compilation fails with this error.
    Fail(CompileError),
    /// The compiled command.
    Done {
        /// The expression tree.
        expr: AstTreeNode,
        /// The optional checker.
        checker: Option<Checker>,
    },
}

/// What compiling `bytes` under `cfg` comes to: tokenize, check the
/// grammar, build. `Stuck` is any syntax failure.
pub open spec fn spec_compile(bytes: Seq<u8>, cfg: Config) -> CommandStep {
    match spec_tokens(bytes, 0, true) {
        None => CommandStep::Stuck,
        Some(toks) => if !toks_valid(toks) {
            CommandStep::Stuck
        } else {
            sp_command(bytes, toks, cfg)
        },
    }
}

/// Parse one primary, mirroring [`sp_item`].
fn build_item(s: &[u8], toks: &Vec<Tok>, i: usize, limit: &mut Limit) -> (r: ParseStep)
    requires
        toks_wf(toks@, s@),
        i <= toks@.len(),
    ensures
        r == sp_item(
            s@,
            toks@,
            *old(limit).config,
            i as int,
            old(limit).item_count,
            old(limit).roll_times,
        ),
        final(limit).config == old(limit).config,
        match r {
            ParseStep::More { node, next, cnt, rt } => final(limit).item_count == cnt
                && final(limit).roll_times == rt && node_dice_ok(node) && i < next <= toks@.len(),
            _ => true,
        },
    decreases toks@.len() - i, 0int,
{
    if i >= toks.len() {
        return ParseStep::Stuck;
    }
    match toks[i] {
        Tok::Num { neg, lo, hi } => {
            if let Err(e) = limit.inc_item_count() {
                return ParseStep::Fail(e);
            }
            match parse_i64(s, neg, lo, hi) {
                None => ParseStep::Fail(
                    CompileError::ParseNumberError(LiteralSpan { neg, lo, hi }),
                ),
                Some(x) => {
                    if let Err(e) = limit.check_number_item(x) {
                        return ParseStep::Fail(e);
                    }
                    ParseStep::More {
                        node: BinaryTreeNode::Leaf(Item::Number(x)),
                        next: i + 1,
                        cnt: limit.item_count,
                        rt: limit.roll_times,
                    }
                },
            }
        },
        Tok::DiceTok { tneg, tlo, thi, sneg, slo, shi, pp } => {
            if let Err(e) = limit.inc_item_count() {
                return ParseStep::Fail(e);
            }
            match parse_i64(s, tneg, tlo, thi) {
                None => ParseStep::Fail(
                    CompileError::ParseNumberError(LiteralSpan { neg: tneg, lo: tlo, hi: thi }),
                ),
                Some(t) => match parse_i64(s, sneg, slo, shi) {
                    None => ParseStep::Fail(
                        CompileError::ParseNumberError(
                            LiteralSpan { neg: sneg, lo: slo, hi: shi },
                        ),
                    ),
                    Some(sd) => {
                        if let Err(e) = limit.check_dice(t, sd) {
                            return ParseStep::Fail(e);
                        }
                        if let Err(e) = limit.inc_roll_times(t as u64) {
                            return ParseStep::Fail(e);
                        }
                        ParseStep::More {
                            node: BinaryTreeNode::Leaf(
                                Item::Dice(Dice { times: t as u64, sided: sd as u64, pp }),
                            ),
                            next: i + 1,
                            cnt: limit.item_count,
                            rt: limit.roll_times,
                        }
                    },
                },
            }
        },
        Tok::LParen => {
            match build_expr(s, toks, i + 1, 1, limit) {
                ParseStep::Stuck => ParseStep::Stuck,
                ParseStep::Fail(e) => ParseStep::Fail(e),
                ParseStep::More { node, next, cnt, rt } => {
                    if next < toks.len() && matches!(toks[next], Tok::RParen) {
                        ParseStep::More {
                            node: BinaryTreeNode::Leaf(Item::Parentheses(Box::new(node))),
                            next: next + 1,
                            cnt,
                            rt,
                        }
                    } else {
                        ParseStep::Stuck
                    }
                },
            }
        },
        _ => ParseStep::Stuck,
    }
}

/// Parse an expression by precedence climbing, mirroring [`sp_expr`]: one
/// primary, then a climbing loop that folds in every operator binding at
/// least `min_bp`.
#[verifier::loop_isolation(false)]
fn build_expr(s: &[u8], toks: &Vec<Tok>, i: usize, min_bp: u8, limit: &mut Limit) -> (r:
    ParseStep)
    requires
        toks_wf(toks@, s@),
        i <= toks@.len(),
    ensures
        r == sp_expr(
            s@,
            toks@,
            *old(limit).config,
            i as int,
            min_bp as int,
            old(limit).item_count,
            old(limit).roll_times,
        ),
        final(limit).config == old(limit).config,
        match r {
            ParseStep::More { node, next, cnt, rt } => final(limit).item_count == cnt
                && final(limit).roll_times == rt && node_dice_ok(node) && i < next <= toks@.len(),
            _ => true,
        },
    decreases toks@.len() - i, 2int,
{
    if i >= toks.len() {
        return ParseStep::Stuck;
    }
    let first = build_item(s, toks, i, limit);
    let (mut acc, mut j) = match first {
        ParseStep::Stuck => {
            return ParseStep::Stuck;
        },
        ParseStep::Fail(e) => {
            return ParseStep::Fail(e);
        },
        ParseStep::More { node, next, .. } => (node, next),
    };
    loop
        invariant
            i < j <= toks@.len(),
            limit.config == old(limit).config,
            node_dice_ok(acc),
            sp_expr(
                s@,
                toks@,
                *old(limit).config,
                i as int,
                min_bp as int,
                old(limit).item_count,
                old(limit).roll_times,
            ) == sp_tail(
                s@,
                toks@,
                *old(limit).config,
                acc,
                j as int,
                min_bp as int,
                limit.item_count,
                limit.roll_times,
            ),
        decreases toks@.len() - j,
    {
        if j >= toks.len() {
            return ParseStep::More {
                node: acc,
                next: j,
                cnt: limit.item_count,
                rt: limit.roll_times,
            };
        }
        let op = match toks[j] {
            Tok::Add => Operator::Add,
            Tok::Sub => Operator::Minus,
            Tok::Mul => Operator::Multiply,
            _ => {
                return ParseStep::More {
                    node: acc,
                    next: j,
                    cnt: limit.item_count,
                    rt: limit.roll_times,
                };
            },
        };
        let op_bp: u8 = match op {
            Operator::Add => 1,
            Operator::Minus => 1,
            Operator::Multiply => 2,
        };
        if op_bp < min_bp {
            return ParseStep::More {
                node: acc,
                next: j,
                cnt: limit.item_count,
                rt: limit.roll_times,
            };
        }
        let ghost cnt_pre = limit.item_count;
        let ghost rt_pre = limit.roll_times;
        match build_expr(s, toks, j + 1, op_bp + 1, limit) {
            ParseStep::Stuck => {
                return ParseStep::Stuck;
            },
            ParseStep::Fail(e) => {
                return ParseStep::Fail(e);
            },
            ParseStep::More { node, next, .. } => {
                let newacc = BinaryTreeNode::Tree(
                    BinaryTree { left: Box::new(acc), mid: op, right: Box::new(node) },
                );
                proof {
                    let cfg = *old(limit).config;
                    assert(tok_op(toks@[j as int]) == Some(op));
                    assert(bp(op) == op_bp as int);
                    assert(step_to(next as int, j as int + 1, toks@.len() as int) == next as int);
                    assert(sp_tail(s@, toks@, cfg, acc, j as int, min_bp as int, cnt_pre, rt_pre)
                        == sp_tail(
                        s@,
                        toks@,
                        cfg,
                        newacc,
                        next as int,
                        min_bp as int,
                        limit.item_count,
                        limit.roll_times,
                    ));
                }
                acc = newacc;
                j = next;
            },
        }
    }
}

/// Build the whole command from checked tokens, mirroring [`sp_command`].
fn build_command(s: &[u8], toks: &Vec<Tok>, config: &Config) -> (r: CommandStep)
    requires
        toks_wf(toks@, s@),
    ensures
        r == sp_command(s@, toks@, *config),
        match r {
            CommandStep::Done { expr, .. } => node_dice_ok(expr),
            _ => true,
        },
{
    let mut limit = Limit::new(config);
    match build_expr(s, toks, 0, 1, &mut limit) {
        ParseStep::Stuck => CommandStep::Stuck,
        ParseStep::Fail(e) => CommandStep::Fail(e),
        ParseStep::More { node, next, .. } => {
            if next == toks.len() {
                return CommandStep::Done { expr: node, checker: None };
            }
            if toks.len() - next == 2 {
                if let (Tok::CmpTok { c }, Tok::Num { neg, lo, hi }) = (toks[next], toks[next
                    + 1]) {
                    return match parse_i64(s, neg, lo, hi) {
                        None => CommandStep::Fail(
                            CompileError::ParseNumberError(LiteralSpan { neg, lo, hi }),
                        ),
                        Some(t) => {
                            if let Err(e) = limit.check_number_item(t) {
                                return CommandStep::Fail(e);
                            }
                            CommandStep::Done {
                                expr: node,
                                checker: Some(Checker { compare: c, target: t }),
                            }
                        },
                    };
                }
            }
            CommandStep::Stuck
        },
    }
}

/// The invalid-syntax message compiling `bytes` produces: one fixed text
/// when the bytes do not scan into tokens, another when the tokens do not
/// fit the grammar.
pub open spec fn syntax_message(bytes: Seq<u8>) -> Seq<char> {
    if spec_tokens(bytes, 0, true) is None {
        "the command does not scan"@
    } else {
        "the command does not match the grammar"@
    }
}

/// Compile input bytes under a configuration: tokenize, check the grammar,
/// build. The result matches [`spec_compile`] exactly; on a syntax failure
/// the error carries [`syntax_message`].
pub(crate) fn compile_bytes(s: &[u8], config: &Config) -> (r: Result<
    (AstTreeNode, Option<Checker>),
    CompileError,
>)
    ensures
        match r {
            Ok((expr, checker)) => (spec_compile(s@, *config) matches CommandStep::Done {
                expr: e,
                checker: c,
            } && e == expr && c == checker) && node_dice_ok(expr),
            Err(e) => match spec_compile(s@, *config) {
                CommandStep::Stuck => e matches CompileError::InvalidSyntax(m) && m@
                    == syntax_message(s@),
                CommandStep::Fail(f) => e == f,
                CommandStep::Done { .. } => false,
            },
        },
{
    let toks = match tokenize(s) {
        None => {
            return Err(CompileError::InvalidSyntax("the command does not scan".to_owned()));
        },
        Some(toks) => toks,
    };
    if !validate(&toks) {
        return Err(
            CompileError::InvalidSyntax("the command does not match the grammar".to_owned()),
        );
    }
    match build_command(s, &toks, config) {
        CommandStep::Stuck => Err(
            CompileError::InvalidSyntax("the command does not match the grammar".to_owned()),
        ),
        CommandStep::Fail(e) => Err(e),
        CommandStep::Done { expr, checker } => Ok((expr, checker)),
    }
}

} // verus!

