use vstd::prelude::*;
use vstd::utf8::encode_utf8;
use crate::rime::{CandidateView, ContextView, RimeContext};

verus! {

/// The decimal digit for `d` (taken modulo ten).
pub open spec fn digit_char(d: int) -> char {
    let d = d % 10;
    if d == 0 {
        '0'
    } else if d == 1 {
        '1'
    } else if d == 2 {
        '2'
    } else if d == 3 {
        '3'
    } else if d == 4 {
        '4'
    } else if d == 5 {
        '5'
    } else if d == 6 {
        '6'
    } else if d == 7 {
        '7'
    } else if d == 8 {
        '8'
    } else {
        '9'
    }
}

/// The decimal notation of `n`, without leading zeros.
pub open spec fn decimal(n: nat) -> Seq<char>
    decreases n,
{
    if n < 10 {
        seq![digit_char(n as int)]
    } else {
        decimal(n / 10) + seq![digit_char((n % 10) as int)]
    }
}

/// How one candidate is shown after the composed text: ` [n. text]` when it is
/// highlighted, else ` n. text`, where `n` counts from one.
pub open spec fn candidate_label(number: nat, text: Seq<char>, highlighted: bool) -> Seq<char> {
    if highlighted {
        seq![' ', '['] + decimal(number) + seq!['.', ' '] + text + seq![']']
    } else {
        seq![' '] + decimal(number) + seq!['.', ' '] + text
    }
}

/// The labels of the candidates in order; the one whose index is `highlighted`
/// is shown highlighted.
pub open spec fn menu_text(candidates: Seq<CandidateView>, highlighted: i32) -> Seq<char>
    decreases candidates.len(),
{
    if candidates.len() == 0 {
        Seq::empty()
    } else {
        let i = candidates.len() - 1;
        menu_text(candidates.drop_last(), highlighted) + candidate_label(
            (i + 1) as nat,
            candidates.last().text,
            i == highlighted as int,
        )
    }
}

/// Whether the context has a non-empty composed text.
pub open spec fn composing(ctx: ContextView) -> bool {
    ctx.composition.preedit is Some && ctx.composition.preedit->0.len() > 0
}

/// The text shown in the client while composing: empty when nothing is being
/// composed, else the composed text followed by the candidate labels.
pub open spec fn preedit_text(ctx: ContextView) -> Seq<char> {
    if composing(ctx) {
        ctx.composition.preedit->0 + menu_text(
            ctx.menu.candidates,
            ctx.menu.highlighted_candidate_index,
        )
    } else {
        Seq::empty()
    }
}

/// Where the cursor stands in the shown text, in bytes: right behind the composed
/// text, or at zero when nothing is being composed.
pub open spec fn preedit_cursor(ctx: ContextView) -> int {
    if composing(ctx) {
        encode_utf8(ctx.composition.preedit->0).len() as int
    } else {
        0
    }
}

/// The composed text's byte length and every candidate's index fit an `i32`.
pub open spec fn preedit_fits(ctx: ContextView) -> bool {
    composing(ctx) ==> {
        &&& encode_utf8(ctx.composition.preedit->0).len() <= i32::MAX
        &&& ctx.menu.candidates.len() <= i32::MAX + 1
    }
}

/// The text to show in the client while composing, with the cursor range to set.
pub struct Preedit {
    pub text: String,
    pub cursor_begin: i32,
    pub cursor_end: i32,
}

fn digit_str(d: usize) -> (s: &'static str)
    requires
        d < 10,
    ensures
        s@ == seq![digit_char(d as int)],
{
    match d {
        0 => {
            proof {
                reveal_strlit("0");
            }
            "0"
        },
        1 => {
            proof {
                reveal_strlit("1");
            }
            "1"
        },
        2 => {
            proof {
                reveal_strlit("2");
            }
            "2"
        },
        3 => {
            proof {
                reveal_strlit("3");
            }
            "3"
        },
        4 => {
            proof {
                reveal_strlit("4");
            }
            "4"
        },
        5 => {
            proof {
                reveal_strlit("5");
            }
            "5"
        },
        6 => {
            proof {
                reveal_strlit("6");
            }
            "6"
        },
        7 => {
            proof {
                reveal_strlit("7");
            }
            "7"
        },
        8 => {
            proof {
                reveal_strlit("8");
            }
            "8"
        },
        _ => {
            proof {
                reveal_strlit("9");
            }
            "9"
        },
    }
}

/// Appends the decimal notation of `n`.
fn append_decimal(buf: &mut String, n: usize)
    ensures
        final(buf)@ == old(buf)@ + decimal(n as nat),
    decreases n,
{
    if n >= 10 {
        append_decimal(buf, n / 10);
    }
    buf.append(digit_str(n % 10));
    assert(buf@ =~= old(buf)@ + decimal(n as nat));
}

/// Appends the label of one candidate.
fn append_label(buf: &mut String, number: usize, text: &str, highlighted: bool)
    ensures
        final(buf)@ == old(buf)@ + candidate_label(number as nat, text@, highlighted),
{
    proof {
        reveal_strlit(" [");
        reveal_strlit(" ");
        reveal_strlit(". ");
        reveal_strlit("]");
    }
    if highlighted {
        buf.append(" [");
        append_decimal(buf, number);
        buf.append(". ");
        buf.append(text);
        buf.append("]");
    } else {
        buf.append(" ");
        append_decimal(buf, number);
        buf.append(". ");
        buf.append(text);
    }
    assert(buf@ =~= old(buf)@ + candidate_label(number as nat, text@, highlighted));
}

/// The text to show while composing: nothing (cursor at zero) when the context
/// has no composed text, else the composed text followed, for each candidate, by
/// its number and text, the highlighted one in brackets; the cursor stands right
/// behind the composed text.
pub fn render_preedit(ctx: &RimeContext) -> (p: Preedit)
    requires
        preedit_fits(ctx@),
    ensures
        p.text@ == preedit_text(ctx@),
        p.cursor_begin == preedit_cursor(ctx@),
        p.cursor_end == p.cursor_begin,
{
    let composition = ctx.composition();
    let preedit: &String = match &composition.preedit {
        None => {
            return Preedit { text: String::new(), cursor_begin: 0, cursor_end: 0 };
        },
        Some(s) => s,
    };
    if preedit.as_str().is_empty() {
        return Preedit { text: String::new(), cursor_begin: 0, cursor_end: 0 };
    }
    let mut buf = String::new();
    buf.append(preedit.as_str());
    let cursor = preedit.as_str().len() as i32;
    let menu = ctx.menu();
    let n = menu.len();
    let ghost candidates = menu@.candidates;
    let ghost highlighted = menu@.highlighted_candidate_index;
    let mut i: usize = 0;
    while i < n
        invariant
            n == candidates.len(),
            candidates == menu@.candidates,
            highlighted == menu@.highlighted_candidate_index,
            n <= i32::MAX + 1,
            i <= n,
            buf@ == preedit@ + menu_text(candidates.take(i as int), highlighted),
        decreases n - i,
    {
        let candidate = menu.candidate(i);
        let is_highlighted = (i as i32) == menu.highlighted();
        append_label(&mut buf, i + 1, candidate.text().as_str(), is_highlighted);
        assert(candidates.take(i + 1).drop_last() =~= candidates.take(i as int));
        assert(buf@ =~= preedit@ + menu_text(candidates.take(i + 1), highlighted));
        i += 1;
    }
    assert(candidates.take(n as int) =~= candidates);
    Preedit { text: buf, cursor_begin: cursor, cursor_end: cursor }
}

proof fn lemma_encode_utf8_concat(a: Seq<char>, b: Seq<char>)
    ensures
        encode_utf8(a + b) == encode_utf8(a) + encode_utf8(b),
    decreases a.len(),
{
    if a.len() == 0 {
        assert(a + b =~= b);
        assert(encode_utf8(a) + encode_utf8(b) =~= encode_utf8(b));
    } else {
        assert((a + b).drop_first() =~= a.drop_first() + b);
        assert((a + b)[0] == a[0]);
        lemma_encode_utf8_concat(a.drop_first(), b);
        assert(encode_utf8(a + b) =~= encode_utf8(a) + encode_utf8(b));
    }
}

/// While composing, the shown text starts with the composed text, and the cursor
/// stands right behind it: the first `cursor` bytes of the shown text's UTF-8
/// encoding are exactly the composed text's encoding.
pub proof fn lemma_cursor_behind_composed_text(ctx: ContextView)
    requires
        composing(ctx),
    ensures
        preedit_text(ctx).subrange(0, ctx.composition.preedit->0.len() as int)
            == ctx.composition.preedit->0,
        encode_utf8(preedit_text(ctx)).subrange(0, preedit_cursor(ctx)) == encode_utf8(
            ctx.composition.preedit->0,
        ),
{
    let p = ctx.composition.preedit->0;
    let rest = menu_text(ctx.menu.candidates, ctx.menu.highlighted_candidate_index);
    lemma_encode_utf8_concat(p, rest);
    assert(preedit_text(ctx).subrange(0, p.len() as int) =~= p);
    assert(encode_utf8(preedit_text(ctx)).subrange(0, preedit_cursor(ctx)) =~= encode_utf8(p));
}

proof fn lemma_menu_text_shape(candidates: Seq<CandidateView>, highlighted: i32)
    ensures
        menu_text(candidates, highlighted).len() == 0 <==> candidates.len() == 0,
        candidates.len() > 0 ==> menu_text(candidates, highlighted)[0] == ' ',
    decreases candidates.len(),
{
    if candidates.len() > 0 {
        lemma_menu_text_shape(candidates.drop_last(), highlighted);
        let i = candidates.len() - 1;
        let label = candidate_label((i + 1) as nat, candidates.last().text, i == highlighted as int);
        assert(label.len() > 0 && label[0] == ' ');
    }
}

/// A non-empty composed text is always shown, whatever the composition's length,
/// cursor and selection: the shown text starts with it, continues (after a space)
/// exactly when there are candidates, and the cursor stands at its byte length.
pub proof fn lemma_composed_text_is_shown(ctx: ContextView, p: Seq<char>)
    requires
        ctx.composition.preedit == Some(p),
        p.len() > 0,
    ensures
        preedit_text(ctx).subrange(0, p.len() as int) == p,
        preedit_text(ctx).len() > p.len() <==> ctx.menu.candidates.len() > 0,
        ctx.menu.candidates.len() > 0 ==> preedit_text(ctx)[p.len() as int] == ' ',
        preedit_cursor(ctx) == encode_utf8(p).len(),
{
    lemma_menu_text_shape(ctx.menu.candidates, ctx.menu.highlighted_candidate_index);
    assert(preedit_text(ctx).subrange(0, p.len() as int) =~= p);
}

/// Nothing is shown, with the cursor at the start, exactly when there is no
/// composed text or it is empty.
pub proof fn lemma_nothing_shown_without_composed_text(ctx: ContextView)
    ensures
        (preedit_text(ctx).len() == 0) <==> (ctx.composition.preedit is None
            || ctx.composition.preedit->0.len() == 0),
        (ctx.composition.preedit is None || ctx.composition.preedit->0.len() == 0)
            ==> preedit_cursor(ctx) == 0,
{
}

} // verus!
