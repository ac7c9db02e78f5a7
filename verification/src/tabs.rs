//! Tab expansion: how a row's characters map to display columns.

use vstd::prelude::*;

verus! {

/// Tab stops lie at every multiple of this many columns.
pub const TAB_STOP: usize = 8;

/// `n` spaces.
pub open spec fn spaces(n: nat) -> Seq<char> {
    Seq::new(n, |i: int| ' ')
}

/// The column reached from column `col` by displaying `c`: a tab moves to the
/// next tab stop, any other character moves one column on.
pub open spec fn advance(col: nat, c: char) -> nat {
    if c == '\t' {
        (col + TAB_STOP - col % (TAB_STOP as nat)) as nat
    } else {
        col + 1
    }
}

/// What displaying `c` at column `col` puts on the screen.
pub open spec fn glyphs(col: nat, c: char) -> Seq<char> {
    if c == '\t' {
        spaces((TAB_STOP - col % (TAB_STOP as nat)) as nat)
    } else {
        seq![c]
    }
}

/// The display form of `content`: every tab replaced by spaces up to the next
/// tab stop, every other character kept.
pub open spec fn expand(content: Seq<char>) -> Seq<char>
    decreases content.len(),
{
    if content.len() == 0 {
        Seq::empty()
    } else {
        let head = expand(content.drop_last());
        head + glyphs(head.len(), content.last())
    }
}

/// The display column of the character index `cx` in `content`: the width of
/// the display form of the first `cx` characters. An index past the end
/// counts as the end.
pub open spec fn render_col(content: Seq<char>, cx: nat) -> nat {
    expand(content.take(if cx <= content.len() { cx as int } else { content.len() as int })).len()
}

/// Displaying one more character appends its glyphs.
pub proof fn lemma_expand_push(content: Seq<char>, c: char)
    ensures
        expand(content.push(c)) == expand(content) + glyphs(expand(content).len(), c),
        expand(content.push(c)).len() == advance(expand(content).len(), c),
{
    assert(content.push(c).drop_last() == content);
    assert(content.push(c).last() == c);
}

/// The display form of a prefix is a prefix of the display form.
pub proof fn lemma_expand_prefix(content: Seq<char>, n: nat)
    requires
        n <= content.len(),
    ensures
        expand(content.take(n as int)).len() <= expand(content).len(),
        expand(content.take(n as int)) == expand(content).take(
            expand(content.take(n as int)).len() as int,
        ),
    decreases content.len(),
{
    if n == content.len() {
        assert(content.take(n as int) == content);
    } else {
        let shorter = content.drop_last();
        assert(shorter.take(n as int) == content.take(n as int));
        lemma_expand_prefix(shorter, n);
        let head = expand(shorter);
        assert(expand(content) == head + glyphs(head.len(), content.last()));
        let p = expand(content.take(n as int));
        assert(p == head.take(p.len() as int));
        assert(head.take(p.len() as int) == expand(content).take(p.len() as int));
    }
}

/// The display column never moves left as the character index grows.
pub proof fn lemma_render_col_monotonic(content: Seq<char>, a: nat, b: nat)
    requires
        a <= b,
    ensures
        render_col(content, a) <= render_col(content, b),
{
    let len = content.len();
    let a2 = if a <= len { a } else { len };
    let b2 = if b <= len { b } else { len };
    let upto_b = content.take(b2 as int);
    assert(upto_b.take(a2 as int) == content.take(a2 as int));
    lemma_expand_prefix(upto_b, a2);
}

/// One character further, the display column has moved to the next tab stop
/// if that character is a tab, and by exactly one column if it is not.
pub proof fn lemma_render_col_step(content: Seq<char>, cx: nat)
    requires
        cx < content.len(),
    ensures
        render_col(content, cx + 1) == advance(render_col(content, cx), content[cx as int]),
        content[cx as int] == '\t' ==> render_col(content, cx + 1) % (TAB_STOP as nat) == 0
            && render_col(content, cx) < render_col(content, cx + 1) <= render_col(content, cx)
            + TAB_STOP,
        content[cx as int] != '\t' ==> render_col(content, cx + 1) == render_col(content, cx) + 1,
{
    let upto = content.take(cx as int);
    assert(content.take(cx as int + 1) == upto.push(content[cx as int]));
    lemma_expand_push(upto, content[cx as int]);
}

/// No display column lies beyond the width of the whole display form.
pub proof fn lemma_render_col_bound(content: Seq<char>, cx: nat)
    ensures
        render_col(content, cx) <= expand(content).len(),
        cx >= content.len() ==> render_col(content, cx) == expand(content).len(),
{
    let n = if cx <= content.len() { cx } else { content.len() };
    lemma_expand_prefix(content, n);
    if cx >= content.len() {
        assert(content.take(content.len() as int) == content);
    }
}

} // verus!
