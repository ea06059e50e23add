//! SQL statement splitter.
//!
//! A script is split on `;` terminators, while quoted strings (`' " ``),
//! `--` line comments and `/* */` block comments protect inner semicolons.
//! Returned items keep comments but drop the terminator.
use vstd::prelude::*;

use crate::text::{chars_of, trimmed};

verus! {

/// Where a position of a script lies.
pub enum Mode {
    Plain,
    Quoted(char),
    LineComment,
    BlockComment,
}

/// A character that opens a quoted string.
pub open spec fn is_quote(c: char) -> bool {
    c == '\'' || c == '"' || c == '`'
}

/// Whether `c` stands at position `i`.
pub open spec fn char_at(s: Seq<char>, i: int, c: char) -> bool {
    0 <= i < s.len() && s[i] == c
}

/// The mode behind the token at position `i`, and the position behind it.
pub open spec fn step(s: Seq<char>, mode: Mode, i: int) -> (Mode, int) {
    match mode {
        Mode::LineComment => if s[i] == '\n' {
            (Mode::Plain, i + 1)
        } else {
            (mode, i + 1)
        },
        Mode::BlockComment => if s[i] == '*' && char_at(s, i + 1, '/') {
            (Mode::Plain, i + 2)
        } else {
            (mode, i + 1)
        },
        Mode::Quoted(q) => if s[i] == q {
            (Mode::Plain, i + 1)
        } else {
            (mode, i + 1)
        },
        Mode::Plain => if is_quote(s[i]) {
            (Mode::Quoted(s[i]), i + 1)
        } else if s[i] == '-' && char_at(s, i + 1, '-') {
            (Mode::LineComment, i + 2)
        } else if s[i] == '/' && char_at(s, i + 1, '*') {
            (Mode::BlockComment, i + 2)
        } else {
            (mode, i + 1)
        },
    }
}

/// A terminator: a semicolon outside strings and comments.
pub open spec fn is_terminator(s: Seq<char>, mode: Mode, i: int) -> bool {
    mode is Plain && s[i] == ';'
}

/// The stretches of `s` between terminators from position `i` on, where the
/// first stretch has begun with `cur`.
pub open spec fn pieces_from(s: Seq<char>, mode: Mode, cur: Seq<char>, i: int) -> Seq<Seq<char>>
    decreases s.len() - i,
{
    if i < 0 || i >= s.len() {
        seq![cur]
    } else if is_terminator(s, mode, i) {
        seq![cur] + pieces_from(s, Mode::Plain, Seq::empty(), i + 1)
    } else {
        let (next, j) = step(s, mode, i);
        pieces_from(s, next, cur + s.subrange(i, j), j)
    }
}

/// The stretches of `s` between terminators.
pub open spec fn pieces(s: Seq<char>) -> Seq<Seq<char>> {
    pieces_from(s, Mode::Plain, Seq::empty(), 0)
}

/// The trimmed texts, without those that are empty.
pub open spec fn kept(ps: Seq<Seq<char>>) -> Seq<Seq<char>>
    decreases ps.len(),
{
    if ps.len() == 0 {
        Seq::empty()
    } else {
        let first = crate::text::trim(ps[0]);
        let rest = kept(ps.drop_first());
        if first.len() > 0 {
            seq![first] + rest
        } else {
            rest
        }
    }
}

/// The statements of a script.
pub open spec fn statements(s: Seq<char>) -> Seq<Seq<char>> {
    kept(pieces(s))
}

// ---------------------------------------------------------------------------
// Laws
// ---------------------------------------------------------------------------

/// The first terminator from position `i` on, or the end of the text.
spec fn first_cut(s: Seq<char>, mode: Mode, i: int) -> int
    decreases s.len() - i,
{
    if i < 0 || i >= s.len() {
        s.len() as int
    } else if is_terminator(s, mode, i) {
        i
    } else {
        let (next, j) = step(s, mode, i);
        first_cut(s, next, j)
    }
}

proof fn lemma_first_cut_bounds(s: Seq<char>, mode: Mode, i: int)
    requires
        0 <= i <= s.len(),
    ensures
        i <= first_cut(s, mode, i) <= s.len(),
        first_cut(s, mode, i) < s.len() ==> s[first_cut(s, mode, i)] == ';',
    decreases s.len() - i,
{
    if i < s.len() && !is_terminator(s, mode, i) {
        let (next, j) = step(s, mode, i);
        lemma_first_cut_bounds(s, next, j);
    }
}

proof fn lemma_pieces_unfold(s: Seq<char>, mode: Mode, cur: Seq<char>, i: int)
    requires
        0 <= i <= s.len(),
    ensures
        ({
            let f = first_cut(s, mode, i);
            pieces_from(s, mode, cur, i) == if f == s.len() {
                seq![cur + s.subrange(i, f)]
            } else {
                seq![cur + s.subrange(i, f)] + pieces_from(s, Mode::Plain, Seq::empty(), f + 1)
            }
        }),
    decreases s.len() - i,
{
    lemma_first_cut_bounds(s, mode, i);
    if i >= s.len() {
        assert(cur + s.subrange(i, s.len() as int) =~= cur);
    } else if is_terminator(s, mode, i) {
        assert(cur + s.subrange(i, i) =~= cur);
    } else {
        let (next, j) = step(s, mode, i);
        lemma_pieces_unfold(s, next, cur + s.subrange(i, j), j);
        let f = first_cut(s, mode, i);
        lemma_first_cut_bounds(s, next, j);
        assert(cur + s.subrange(i, j) + s.subrange(j, f) =~= cur + s.subrange(i, f));
    }
}

/// Within a stretch that ends before a terminator or before whitespace, the
/// modes are those of the whole text, so the stretch has no terminator.
proof fn lemma_stretch(s: Seq<char>, a: int, b: int, mode: Mode, i: int)
    requires
        0 <= a <= i <= b <= s.len(),
        first_cut(s, mode, i) >= b,
        b < s.len() ==> s[b] != '-' && s[b] != '*' && s[b] != '/',
    ensures
        first_cut(s.subrange(a, b), mode, i - a) == b - a,
    decreases b - i,
{
    let t = s.subrange(a, b);
    if i < b {
        assert(t[i - a] == s[i]);
        if i + 1 < b {
            assert(t[i + 1 - a] == s[i + 1]);
        }
        let (next, j) = step(s, mode, i);
        assert(step(t, mode, i - a) == (next, j - a));
        lemma_stretch(s, a, b, next, j);
    }
}

proof fn lemma_skip_spaces(s: Seq<char>, x: int)
    requires
        0 <= x <= s.len(),
        forall|i: int| 0 <= i < x ==> crate::text::is_space(#[trigger] s[i]),
    ensures
        first_cut(s, Mode::Plain, 0) == first_cut(s, Mode::Plain, x),
    decreases x,
{
    if x > 0 {
        lemma_skip_spaces(s, x - 1);
        assert(crate::text::is_space(s[x - 1]));
        assert(step(s, Mode::Plain, x - 1) == (Mode::Plain, x));
    }
}

spec fn uncut(p: Seq<char>) -> bool {
    first_cut(p, Mode::Plain, 0) == p.len()
}

proof fn lemma_pieces_uncut(s: Seq<char>, a: int)
    requires
        0 <= a <= s.len(),
    ensures
        forall|k: int|
            0 <= k < pieces_from(s, Mode::Plain, Seq::empty(), a).len() ==> uncut(
                #[trigger] pieces_from(s, Mode::Plain, Seq::empty(), a)[k],
            ),
    decreases s.len() - a,
{
    let f = first_cut(s, Mode::Plain, a);
    let ps = pieces_from(s, Mode::Plain, Seq::empty(), a);
    lemma_first_cut_bounds(s, Mode::Plain, a);
    lemma_pieces_unfold(s, Mode::Plain, Seq::empty(), a);
    lemma_stretch(s, a, f, Mode::Plain, a);
    assert(Seq::<char>::empty() + s.subrange(a, f) =~= s.subrange(a, f));
    if f < s.len() {
        lemma_pieces_uncut(s, f + 1);
        let rest = pieces_from(s, Mode::Plain, Seq::empty(), f + 1);
        assert forall|k: int| 0 <= k < ps.len() implies uncut(#[trigger] ps[k]) by {
            if k > 0 {
                assert(ps[k] == rest[k - 1]);
            }
        }
    }
}

proof fn lemma_trim_uncut(p: Seq<char>)
    requires
        uncut(p),
    ensures
        uncut(crate::text::trim(p)),
{
    crate::text::law_trim(p);
    let (x, y) = choose|a: int, b: int|
        #![trigger p.subrange(a, b)]
        0 <= a <= b <= p.len() && crate::text::trim(p) == p.subrange(a, b) && (forall|i: int|
            0 <= i < p.len() && (i < a || b <= i) ==> crate::text::is_space(#[trigger] p[i]));
    lemma_skip_spaces(p, x);
    if y < p.len() {
        assert(crate::text::is_space(p[y]));
    }
    lemma_stretch(p, x, y, Mode::Plain, x);
}

proof fn lemma_kept_members(ps: Seq<Seq<char>>)
    requires
        forall|k: int| 0 <= k < ps.len() ==> uncut(#[trigger] ps[k]),
    ensures
        forall|k: int|
            0 <= k < kept(ps).len() ==> (#[trigger] kept(ps)[k]).len() > 0
                && crate::text::is_trimmed(kept(ps)[k]) && uncut(kept(ps)[k]),
    decreases ps.len(),
{
    if ps.len() > 0 {
        let rest = ps.drop_first();
        assert forall|k: int| 0 <= k < rest.len() implies uncut(#[trigger] rest[k]) by {
            assert(rest[k] == ps[k + 1]);
        }
        lemma_kept_members(rest);
        lemma_trim_uncut(ps[0]);
        crate::text::law_trim(ps[0]);
        let first = crate::text::trim(ps[0]);
        assert forall|k: int| 0 <= k < kept(ps).len() implies (#[trigger] kept(ps)[k]).len() > 0
            && crate::text::is_trimmed(kept(ps)[k]) && uncut(kept(ps)[k]) by {
            if first.len() > 0 {
                if k > 0 {
                    assert(kept(ps)[k] == kept(rest)[k - 1]);
                }
            } else {
                assert(kept(ps)[k] == kept(rest)[k]);
            }
        }
    }
}

/// What is kept is not empty and has no whitespace at its ends.
pub proof fn lemma_kept_trimmed(ps: Seq<Seq<char>>)
    ensures
        forall|k: int|
            0 <= k < kept(ps).len() ==> (#[trigger] kept(ps)[k]).len() > 0
                && crate::text::is_trimmed(kept(ps)[k]),
    decreases ps.len(),
{
    if ps.len() > 0 {
        let rest = ps.drop_first();
        lemma_kept_trimmed(rest);
        crate::text::law_trim(ps[0]);
        let first = crate::text::trim(ps[0]);
        assert forall|k: int| 0 <= k < kept(ps).len() implies (#[trigger] kept(ps)[k]).len() > 0
            && crate::text::is_trimmed(kept(ps)[k]) by {
            if first.len() > 0 {
                if k > 0 {
                    assert(kept(ps)[k] == kept(rest)[k - 1]);
                }
            } else {
                assert(kept(ps)[k] == kept(rest)[k]);
            }
        }
    }
}

/// No statement is empty, and none has whitespace at its ends.
pub proof fn law_statements_trimmed(s: Seq<char>)
    ensures
        forall|k: int|
            0 <= k < statements(s).len() ==> (#[trigger] statements(s)[k]).len() > 0
                && crate::text::is_trimmed(statements(s)[k]),
{
    lemma_pieces_uncut(s, 0);
    lemma_kept_members(pieces(s));
}

/// A statement holds no terminator: splitting it again gives it back alone.
pub proof fn law_statement_splits_to_itself(s: Seq<char>, k: int)
    requires
        0 <= k < statements(s).len(),
    ensures
        statements(statements(s)[k]) == seq![statements(s)[k]],
{
    lemma_pieces_uncut(s, 0);
    lemma_kept_members(pieces(s));
    let p = statements(s)[k];
    lemma_pieces_unfold(p, Mode::Plain, Seq::empty(), 0);
    assert(Seq::<char>::empty() + p.subrange(0, p.len() as int) =~= p);
    crate::text::law_trim_fixed(p);
    assert(pieces(p) =~= seq![p]);
    assert(pieces(p).drop_first() =~= Seq::empty());
    assert(kept(pieces(p).drop_first()) =~= Seq::empty());
    assert(statements(p) =~= seq![p]);
}

/// Splitting loses nothing but terminators: the stretches between them, joined
/// by semicolons, are the script.
pub proof fn law_pieces_join(s: Seq<char>)
    ensures
        crate::text::join(pieces(s), seq![';']) == s,
{
    lemma_pieces_join_from(s, 0);
    assert(s.skip(0) =~= s);
}

proof fn lemma_pieces_join_from(s: Seq<char>, a: int)
    requires
        0 <= a <= s.len(),
    ensures
        pieces_from(s, Mode::Plain, Seq::empty(), a).len() > 0,
        crate::text::join(pieces_from(s, Mode::Plain, Seq::empty(), a), seq![';']) == s.skip(a),
    decreases s.len() - a,
{
    let f = first_cut(s, Mode::Plain, a);
    let ps = pieces_from(s, Mode::Plain, Seq::empty(), a);
    lemma_first_cut_bounds(s, Mode::Plain, a);
    lemma_pieces_unfold(s, Mode::Plain, Seq::empty(), a);
    assert(Seq::<char>::empty() + s.subrange(a, f) =~= s.subrange(a, f));
    if f < s.len() {
        lemma_pieces_join_from(s, f + 1);
        assert(ps.drop_first() =~= pieces_from(s, Mode::Plain, Seq::empty(), f + 1));
        crate::text::lemma_join_first(ps, seq![';']);
        assert(s.subrange(a, f) + seq![';'] + s.skip(f + 1) =~= s.skip(a));
    } else {
        assert(s.subrange(a, f) =~= s.skip(a));
    }
}

/// A script without terminators is one statement, or none where it is blank.
pub proof fn law_no_semicolon(s: Seq<char>)
    requires
        !s.contains(';'),
    ensures
        statements(s) == if crate::text::trim(s).len() > 0 {
            seq![crate::text::trim(s)]
        } else {
            Seq::empty()
        },
{
    lemma_first_cut_bounds(s, Mode::Plain, 0);
    lemma_pieces_unfold(s, Mode::Plain, Seq::empty(), 0);
    let f = first_cut(s, Mode::Plain, 0);
    if f < s.len() {
        assert(s.contains(s[f]));
    }
    assert(Seq::<char>::empty() + s.subrange(0, f) =~= s);
    assert(pieces(s) =~= seq![s]);
    assert(pieces(s).drop_first() =~= Seq::empty());
    assert(kept(pieces(s).drop_first()) =~= Seq::empty());
    assert(statements(s) =~= if crate::text::trim(s).len() > 0 {
        seq![crate::text::trim(s)]
    } else {
        Seq::empty()
    });
}

/// The mode at the end of a text that is scanned from position `i` on.
pub open spec fn end_mode(s: Seq<char>, mode: Mode, i: int) -> Mode
    decreases s.len() - i,
{
    if i < 0 || i >= s.len() {
        mode
    } else {
        let (next, j) = step(s, mode, i);
        end_mode(s, next, j)
    }
}

/// Whether no string and no comment is open at the end of a text.
pub open spec fn is_closed(s: Seq<char>) -> bool {
    end_mode(s, Mode::Plain, 0) is Plain
}

proof fn lemma_behind(s: Seq<char>, n: int, b: Seq<char>, mode: Mode, cur: Seq<char>, k: int)
    requires
        0 <= n,
        0 <= k <= b.len(),
        s.len() == n + b.len(),
        s.skip(n) == b,
    ensures
        pieces_from(s, mode, cur, n + k) == pieces_from(b, mode, cur, k),
    decreases b.len() - k,
{
    if k < b.len() {
        assert(s[n + k] == s.skip(n)[k]);
        if k + 1 < b.len() {
            assert(s[n + k + 1] == s.skip(n)[k + 1]);
        }
        let (next, j) = step(b, mode, k);
        assert(step(s, mode, n + k) == (next, n + j));
        if is_terminator(b, mode, k) {
            lemma_behind(s, n, b, Mode::Plain, Seq::empty(), k + 1);
        } else {
            assert(s.subrange(n + k, n + j) =~= b.subrange(k, j));
            lemma_behind(s, n, b, next, cur + b.subrange(k, j), j);
        }
    }
}

proof fn lemma_pieces_append(a: Seq<char>, b: Seq<char>, mode: Mode, cur: Seq<char>, i: int)
    requires
        0 <= i <= a.len(),
        end_mode(a, mode, i) is Plain,
    ensures
        pieces_from(a + seq![';'] + b, mode, cur, i) == pieces_from(a, mode, cur, i) + pieces(b),
    decreases a.len() - i,
{
    let s = a + seq![';'] + b;
    let n = a.len() as int;
    if i == n {
        assert(s[i] == ';');
        assert(s.skip(n + 1) =~= b);
        lemma_behind(s, n + 1, b, Mode::Plain, Seq::empty(), 0);
    } else {
        assert(s[i] == a[i]);
        if i + 1 < n {
            assert(s[i + 1] == a[i + 1]);
        } else {
            assert(s[i + 1] == ';');
        }
        let (next, j) = step(a, mode, i);
        assert(step(s, mode, i) == (next, j));
        if is_terminator(a, mode, i) {
            lemma_pieces_append(a, b, Mode::Plain, Seq::empty(), i + 1);
            let rest = pieces_from(a, Mode::Plain, Seq::empty(), i + 1);
            assert(seq![cur] + (rest + pieces(b)) =~= (seq![cur] + rest) + pieces(b));
        } else {
            assert(s.subrange(i, j) =~= a.subrange(i, j));
            lemma_pieces_append(a, b, next, cur + a.subrange(i, j), j);
        }
    }
}

/// What is kept of a longer list is what is kept of its parts.
pub proof fn lemma_kept_append(a: Seq<Seq<char>>, b: Seq<Seq<char>>)
    ensures
        kept(a + b) == kept(a) + kept(b),
    decreases a.len(),
{
    if a.len() == 0 {
        assert(a + b =~= b);
        assert(kept(a) + kept(b) =~= kept(b));
    } else {
        lemma_kept_append(a.drop_first(), b);
        assert((a + b).drop_first() =~= a.drop_first() + b);
        assert(kept(a + b) =~= kept(a) + kept(b));
    }
}

/// Scripts can be put together: where no string and no comment is open at the
/// end of the first, the statements of both, with a semicolon in between, are
/// those of the first and those of the second.
pub proof fn law_append(a: Seq<char>, b: Seq<char>)
    requires
        is_closed(a),
    ensures
        statements(a + seq![';'] + b) == statements(a) + statements(b),
{
    lemma_pieces_append(a, b, Mode::Plain, Seq::empty(), 0);
    lemma_kept_append(pieces(a), pieces(b));
}

/// Where a stretch ends before a terminator, nothing is open at its end.
proof fn lemma_stretch_closed(s: Seq<char>, a: int, b: int, mode: Mode, i: int)
    requires
        0 <= a <= i <= b < s.len(),
        first_cut(s, mode, i) == b,
    ensures
        end_mode(s.subrange(a, b), mode, i - a) is Plain,
    decreases b - i,
{
    let t = s.subrange(a, b);
    lemma_first_cut_bounds(s, mode, i);
    if i < b {
        assert(t[i - a] == s[i]);
        if i + 1 < b {
            assert(t[i + 1 - a] == s[i + 1]);
        }
        let (next, j) = step(s, mode, i);
        assert(step(t, mode, i - a) == (next, j - a));
        lemma_first_cut_bounds(s, next, j);
        lemma_stretch_closed(s, a, b, next, j);
    } else if !is_terminator(s, mode, i) {
        let (next, j) = step(s, mode, i);
        lemma_first_cut_bounds(s, next, j);
    }
}

/// Every stretch but the last is closed.
proof fn lemma_pieces_closed(s: Seq<char>, a: int)
    requires
        0 <= a <= s.len(),
    ensures
        forall|k: int|
            0 <= k < pieces_from(s, Mode::Plain, Seq::empty(), a).len() - 1 ==> is_closed(
                #[trigger] pieces_from(s, Mode::Plain, Seq::empty(), a)[k],
            ),
    decreases s.len() - a,
{
    let f = first_cut(s, Mode::Plain, a);
    let ps = pieces_from(s, Mode::Plain, Seq::empty(), a);
    lemma_first_cut_bounds(s, Mode::Plain, a);
    lemma_pieces_unfold(s, Mode::Plain, Seq::empty(), a);
    assert(Seq::<char>::empty() + s.subrange(a, f) =~= s.subrange(a, f));
    if f < s.len() {
        lemma_stretch_closed(s, a, f, Mode::Plain, a);
        lemma_pieces_closed(s, f + 1);
        let rest = pieces_from(s, Mode::Plain, Seq::empty(), f + 1);
        assert forall|k: int| 0 <= k < ps.len() - 1 implies is_closed(#[trigger] ps[k]) by {
            if k > 0 {
                assert(ps[k] == rest[k - 1]);
            }
        }
    }
}

/// Whether a line break behind a text closes what is open at its end.
spec fn ends_with_line(s: Seq<char>) -> bool {
    end_mode(s, Mode::Plain, 0) is Plain || end_mode(s, Mode::Plain, 0) is LineComment
}

/// Whitespace closes line comments alone.
proof fn lemma_spaces_close(p: Seq<char>, mode: Mode, i: int)
    requires
        0 <= i <= p.len(),
        forall|k: int| i <= k < p.len() ==> crate::text::is_space(#[trigger] p[k]),
        mode is Quoted ==> is_quote(mode->0),
        end_mode(p, mode, i) is Plain,
    ensures
        mode is Plain || mode is LineComment,
    decreases p.len() - i,
{
    if i < p.len() {
        assert(crate::text::is_space(p[i]));
        let (next, j) = step(p, mode, i);
        lemma_spaces_close(p, next, j);
    }
}

/// The modes of a stretch that whitespace follows are those of the whole text.
proof fn lemma_stretch_mode(p: Seq<char>, a: int, b: int, mode: Mode, i: int)
    requires
        0 <= a <= i <= b <= p.len(),
        mode is Quoted ==> is_quote(mode->0),
        b < p.len() ==> crate::text::is_space(p[b]),
    ensures
        ({
            let m = end_mode(p.subrange(a, b), mode, i - a);
            end_mode(p, mode, i) == end_mode(p, m, b) && (m is Quoted ==> is_quote(m->0))
        }),
    decreases b - i,
{
    let t = p.subrange(a, b);
    if i < b {
        assert(t[i - a] == p[i]);
        if i + 1 < b {
            assert(t[i + 1 - a] == p[i + 1]);
        }
        let (next, j) = step(p, mode, i);
        assert(step(t, mode, i - a) == (next, j - a));
        lemma_stretch_mode(p, a, b, next, j);
    }
}

proof fn lemma_skip_spaces_mode(s: Seq<char>, x: int)
    requires
        0 <= x <= s.len(),
        forall|i: int| 0 <= i < x ==> crate::text::is_space(#[trigger] s[i]),
    ensures
        end_mode(s, Mode::Plain, 0) == end_mode(s, Mode::Plain, x),
    decreases x,
{
    if x > 0 {
        lemma_skip_spaces_mode(s, x - 1);
        assert(crate::text::is_space(s[x - 1]));
        assert(step(s, Mode::Plain, x - 1) == (Mode::Plain, x));
    }
}

proof fn lemma_trim_closed(p: Seq<char>)
    requires
        is_closed(p),
    ensures
        ends_with_line(crate::text::trim(p)),
{
    crate::text::law_trim(p);
    let (x, y) = choose|a: int, b: int|
        #![trigger p.subrange(a, b)]
        0 <= a <= b <= p.len() && crate::text::trim(p) == p.subrange(a, b) && (forall|i: int|
            0 <= i < p.len() && (i < a || b <= i) ==> crate::text::is_space(#[trigger] p[i]));
    lemma_skip_spaces_mode(p, x);
    if y < p.len() {
        assert(crate::text::is_space(p[y]));
    }
    lemma_stretch_mode(p, x, y, Mode::Plain, x);
    lemma_spaces_close(p, end_mode(p.subrange(x, y), Mode::Plain, 0), y);
}

/// Every statement but the last is closed by a line break.
proof fn lemma_kept_closed(ps: Seq<Seq<char>>)
    requires
        forall|k: int| 0 <= k < ps.len() - 1 ==> is_closed(#[trigger] ps[k]),
    ensures
        forall|k: int| 0 <= k < kept(ps).len() - 1 ==> ends_with_line(#[trigger] kept(ps)[k]),
    decreases ps.len(),
{
    if ps.len() > 0 {
        let rest = ps.drop_first();
        assert forall|k: int| 0 <= k < rest.len() - 1 implies is_closed(#[trigger] rest[k]) by {
            assert(rest[k] == ps[k + 1]);
        }
        lemma_kept_closed(rest);
        let first = crate::text::trim(ps[0]);
        assert forall|k: int| 0 <= k < kept(ps).len() - 1 implies ends_with_line(
            #[trigger] kept(ps)[k],
        ) by {
            if first.len() > 0 {
                if k > 0 {
                    assert(kept(ps)[k] == kept(rest)[k - 1]);
                } else {
                    assert(kept(ps).len() == kept(rest).len() + 1);
                    if rest.len() == 0 {
                        assert(kept(rest).len() == 0);
                    }
                    assert(kept(ps)[0] == first);
                    lemma_trim_closed(ps[0]);
                }
            } else {
                assert(kept(ps)[k] == kept(rest)[k]);
            }
        }
    }
}

/// A line break behind a text closes it, and is no terminator.
proof fn lemma_line_behind(p: Seq<char>, mode: Mode, i: int)
    requires
        0 <= i <= p.len(),
        first_cut(p, mode, i) == p.len(),
        mode is Quoted ==> is_quote(mode->0),
        end_mode(p, mode, i) is Plain || end_mode(p, mode, i) is LineComment,
    ensures
        end_mode(p.push('\n'), mode, i) is Plain,
        first_cut(p.push('\n'), mode, i) == p.len() + 1,
    decreases p.len() - i,
{
    let t = p.push('\n');
    if i < p.len() {
        assert(t[i] == p[i]);
        if i + 1 < p.len() {
            assert(t[i + 1] == p[i + 1]);
        }
        let (next, j) = step(p, mode, i);
        assert(step(t, mode, i) == (next, j));
        lemma_line_behind(p, next, j);
    } else {
        assert(t[i] == '\n');
        assert(first_cut(t, Mode::Plain, i + 1) == t.len());
        assert(end_mode(t, Mode::Plain, i + 1) is Plain);
    }
}

/// A statement with a line break behind it is that statement alone.
proof fn lemma_statement_line(p: Seq<char>)
    requires
        uncut(p),
        ends_with_line(p),
        p.len() > 0,
        crate::text::is_trimmed(p),
    ensures
        is_closed(p.push('\n')),
        statements(p.push('\n')) == seq![p],
{
    let t = p.push('\n');
    lemma_line_behind(p, Mode::Plain, 0);
    lemma_uncut(t);
    assert(crate::text::trim(t) == p) by {
        assert(t[0] == p[0]);
        assert(crate::text::trim_start(t) == t);
        assert(t.last() == '\n');
        assert(t.drop_last() =~= p);
        reveal_with_fuel(crate::text::trim_end, 2);
    }
    assert(seq![t].drop_first() =~= Seq::empty());
    assert(kept(seq![t].drop_first()) =~= Seq::empty());
    assert(statements(t) =~= seq![p]);
}

/// A line break in front of a script changes nothing.
proof fn lemma_line_before(r: Seq<char>)
    ensures
        statements(seq!['\n'] + r) == statements(r),
{
    let s = seq!['\n'] + r;
    let lead = seq!['\n'];
    assert(s[0] == '\n');
    assert(step(s, Mode::Plain, 0) == (Mode::Plain, 1int));
    assert(Seq::<char>::empty() + s.subrange(0, 1) =~= lead);
    assert(s.skip(1) =~= r);
    lemma_behind(s, 1, r, Mode::Plain, lead, 0);
    lemma_pieces_unfold(r, Mode::Plain, lead, 0);
    lemma_pieces_unfold(r, Mode::Plain, Seq::empty(), 0);
    lemma_first_cut_bounds(r, Mode::Plain, 0);
    let f = first_cut(r, Mode::Plain, 0);
    let first = r.subrange(0, f);
    let ps = pieces(s);
    let qs = pieces(r);
    assert(ps[0] == lead + first);
    assert(qs[0] =~= first);
    assert(ps.drop_first() =~= qs.drop_first());
    assert(crate::text::trim(lead + first) == crate::text::trim(first)) by {
        assert((lead + first)[0] == '\n');
        assert((lead + first).drop_first() =~= first);
    }
}

proof fn lemma_rejoin(items: Seq<Seq<char>>)
    requires
        forall|k: int|
            0 <= k < items.len() ==> (#[trigger] items[k]).len() > 0 && crate::text::is_trimmed(
                items[k],
            ) && uncut(items[k]),
        forall|k: int| 0 <= k < items.len() - 1 ==> ends_with_line(#[trigger] items[k]),
    ensures
        statements(crate::text::join(items, seq!['\n', ';', '\n'])) == items,
    decreases items.len(),
{
    let sep = seq!['\n', ';', '\n'];
    if items.len() == 0 {
        let none = Seq::<char>::empty();
        assert(pieces(none) =~= seq![none]);
        assert(crate::text::trim(none) == none);
        assert(pieces(none).drop_first() =~= Seq::empty());
        assert(kept(pieces(none).drop_first()) =~= Seq::empty());
        assert(statements(none) =~= items);
    } else if items.len() == 1 {
        let p = items[0];
        lemma_uncut(p);
        crate::text::law_trim_fixed(p);
        assert(seq![p].drop_first() =~= Seq::empty());
        assert(kept(seq![p].drop_first()) =~= Seq::empty());
        assert(statements(p) =~= items);
    } else {
        let p = items[0];
        let rest = items.drop_first();
        assert forall|k: int| 0 <= k < rest.len() implies (#[trigger] rest[k]).len() > 0
            && crate::text::is_trimmed(rest[k]) && uncut(rest[k]) by {
            assert(rest[k] == items[k + 1]);
        }
        assert forall|k: int| 0 <= k < rest.len() - 1 implies ends_with_line(
            #[trigger] rest[k],
        ) by {
            assert(rest[k] == items[k + 1]);
        }
        lemma_rejoin(rest);
        crate::text::lemma_join_first(items, sep);
        let tail = crate::text::join(rest, sep);
        assert(p + sep + tail =~= p.push('\n') + seq![';'] + (seq!['\n'] + tail));
        lemma_statement_line(p);
        law_append(p.push('\n'), seq!['\n'] + tail);
        lemma_line_before(tail);
        assert(seq![p] + rest =~= items);
    }
}

/// Splitting is undone by joining: the statements of a script, with a semicolon
/// on a line of its own between them, split into the same statements again.
pub proof fn law_rejoin(s: Seq<char>)
    ensures
        statements(crate::text::join(statements(s), "\n;\n"@)) == statements(s),
{
    reveal_strlit("\n;\n");
    assert("\n;\n"@ =~= seq!['\n', ';', '\n']);
    lemma_pieces_uncut(s, 0);
    lemma_kept_members(pieces(s));
    lemma_pieces_closed(s, 0);
    lemma_kept_closed(pieces(s));
    lemma_rejoin(statements(s));
}

/// A text that is scanned without meeting a terminator is one stretch.
proof fn lemma_uncut(s: Seq<char>)
    requires
        uncut(s),
    ensures
        pieces(s) == seq![s],
{
    lemma_pieces_unfold(s, Mode::Plain, Seq::empty(), 0);
    assert(Seq::<char>::empty() + s.subrange(0, s.len() as int) =~= s);
}

proof fn lemma_in_string(before: Seq<char>, t: Seq<char>, q: char)
    requires
        is_quote(q),
    ensures
        ({
            let s = before + crate::text::doubled(t, q) + seq![q];
            &&& first_cut(s, Mode::Quoted(q), before.len() as int) == s.len()
            &&& end_mode(s, Mode::Quoted(q), before.len() as int) is Plain
        }),
    decreases t.len(),
{
    let s = before + crate::text::doubled(t, q) + seq![q];
    let i = before.len() as int;
    if t.len() == 0 {
        assert(s[i] == q);
        assert(step(s, Mode::Quoted(q), i) == (Mode::Plain, i + 1));
        assert(end_mode(s, Mode::Plain, i + 1) is Plain);
        assert(first_cut(s, Mode::Plain, i + 1) == s.len());
    } else if t[0] == q {
        lemma_in_string(before + seq![q, q], t.skip(1), q);
        assert(before + seq![q, q] + crate::text::doubled(t.skip(1), q) + seq![q] =~= s);
        assert(s[i] == q && s[i + 1] == q);
        assert(step(s, Mode::Quoted(q), i) == (Mode::Plain, i + 1));
        assert(step(s, Mode::Plain, i + 1) == (Mode::Quoted(q), i + 2));
        assert(!is_terminator(s, Mode::Plain, i + 1));
        assert(first_cut(s, Mode::Plain, i + 1) == first_cut(s, Mode::Quoted(q), i + 2));
        assert(end_mode(s, Mode::Plain, i + 1) == end_mode(s, Mode::Quoted(q), i + 2));
    } else {
        lemma_in_string(before + seq![t[0]], t.skip(1), q);
        assert(before + seq![t[0]] + crate::text::doubled(t.skip(1), q) + seq![q] =~= s);
        assert(s[i] == t[0]);
        assert(step(s, Mode::Quoted(q), i) == (Mode::Quoted(q), i + 1));
    }
}

/// A string protects the semicolons in it: whatever text stands between the
/// quotes, with its own quotes doubled, is part of one statement.
pub proof fn law_string_protects(t: Seq<char>, q: char)
    requires
        is_quote(q),
    ensures
        is_closed(crate::text::quoted(t, q)),
        statements(crate::text::quoted(t, q)) == seq![crate::text::quoted(t, q)],
{
    let s = crate::text::quoted(t, q);
    lemma_in_string(seq![q], t, q);
    assert(s[0] == q);
    assert(step(s, Mode::Plain, 0) == (Mode::Quoted(q), 1int));
    assert(!is_terminator(s, Mode::Plain, 0));
    assert(uncut(s));
    lemma_uncut(s);
    crate::text::law_trim_fixed(s);
    assert(seq![s].drop_first() =~= Seq::empty());
    assert(kept(seq![s].drop_first()) =~= Seq::empty());
    assert(statements(s) =~= seq![s]);
}

proof fn lemma_in_line_comment(s: Seq<char>, i: int)
    requires
        2 <= i <= s.len(),
        forall|k: int| 2 <= k < s.len() ==> #[trigger] s[k] != '\n',
    ensures
        first_cut(s, Mode::LineComment, i) == s.len(),
    decreases s.len() - i,
{
    if i < s.len() {
        assert(step(s, Mode::LineComment, i) == (Mode::LineComment, i + 1));
        lemma_in_line_comment(s, i + 1);
    }
}

/// A line comment protects the semicolons in it.
pub proof fn law_line_comment_protects(t: Seq<char>)
    requires
        !t.contains('\n'),
    ensures
        pieces(seq!['-', '-'] + t) == seq![seq!['-', '-'] + t],
{
    let s = seq!['-', '-'] + t;
    assert forall|k: int| 2 <= k < s.len() implies #[trigger] s[k] != '\n' by {
        assert(t.contains(t[k - 2]));
    }
    lemma_in_line_comment(s, 2);
    assert(step(s, Mode::Plain, 0) == (Mode::LineComment, 2int));
    assert(uncut(s));
    lemma_uncut(s);
}

/// Whether a text holds no end of a block comment.
pub open spec fn no_comment_end(t: Seq<char>) -> bool {
    forall|k: int| 0 <= k < t.len() - 1 ==> !(#[trigger] t[k] == '*' && t[k + 1] == '/')
}

proof fn lemma_in_block_comment(t: Seq<char>, i: int)
    requires
        no_comment_end(t),
        0 <= i <= t.len(),
    ensures
        ({
            let s = seq!['/', '*'] + t + seq!['*', '/'];
            &&& first_cut(s, Mode::BlockComment, i + 2) == s.len()
            &&& end_mode(s, Mode::BlockComment, i + 2) is Plain
        }),
    decreases t.len() - i,
{
    let s = seq!['/', '*'] + t + seq!['*', '/'];
    if i == t.len() {
        assert(s[i + 2] == '*' && s[i + 3] == '/');
        assert(step(s, Mode::BlockComment, i + 2) == (Mode::Plain, i + 4));
        assert(end_mode(s, Mode::Plain, i + 4) is Plain);
        assert(first_cut(s, Mode::Plain, i + 4) == s.len());
    } else {
        assert(s[i + 2] == t[i]);
        if i + 1 < t.len() {
            assert(s[i + 3] == t[i + 1]);
        } else {
            assert(s[i + 3] == '*');
        }
        assert(step(s, Mode::BlockComment, i + 2) == (Mode::BlockComment, i + 3));
        lemma_in_block_comment(t, i + 1);
    }
}

/// A block comment protects the semicolons in it.
pub proof fn law_block_comment_protects(t: Seq<char>)
    requires
        no_comment_end(t),
    ensures
        is_closed(seq!['/', '*'] + t + seq!['*', '/']),
        pieces(seq!['/', '*'] + t + seq!['*', '/']) == seq![
            seq!['/', '*'] + t + seq!['*', '/'],
        ],
{
    let s = seq!['/', '*'] + t + seq!['*', '/'];
    lemma_in_block_comment(t, 0);
    assert(s[0] == '/' && s[1] == '*');
    assert(step(s, Mode::Plain, 0) == (Mode::BlockComment, 2int));
    assert(uncut(s));
    lemma_uncut(s);
}

/// Whether a text holds no quote and no beginning of a comment.
pub open spec fn is_bare(t: Seq<char>) -> bool {
    &&& forall|k: int|
        0 <= k < t.len() ==> #[trigger] t[k] != '\'' && t[k] != '"' && t[k] != '`'
    &&& forall|k: int| 0 <= k < t.len() - 1 ==> !(#[trigger] t[k] == '-' && t[k + 1] == '-')
    &&& forall|k: int| 0 <= k < t.len() - 1 ==> !(#[trigger] t[k] == '/' && t[k + 1] == '*')
}

proof fn lemma_bare_closed(t: Seq<char>, i: int)
    requires
        is_bare(t),
        0 <= i <= t.len(),
    ensures
        end_mode(t, Mode::Plain, i) is Plain,
    decreases t.len() - i,
{
    if i < t.len() {
        assert(t[i] != '\'');
        assert(step(t, Mode::Plain, i) == (Mode::Plain, i + 1));
        lemma_bare_closed(t, i + 1);
    }
}

proof fn lemma_bare_cut(t: Seq<char>, i: int, j: int)
    requires
        is_bare(t),
        0 <= i <= j <= t.len(),
        j < t.len() ==> t[j] == ';',
        forall|k: int| i <= k < j ==> #[trigger] t[k] != ';',
    ensures
        first_cut(t, Mode::Plain, i) == j,
    decreases j - i,
{
    if i < j {
        assert(t[i] != '\'' && t[i] != ';');
        assert(step(t, Mode::Plain, i) == (Mode::Plain, i + 1));
        assert(!is_terminator(t, Mode::Plain, i));
        lemma_bare_cut(t, i + 1, j);
    } else if i < t.len() {
        assert(is_terminator(t, Mode::Plain, i));
    }
}

/// Only strings and comments protect a semicolon: behind a text without quotes,
/// without `--` and without `/*` it ends a statement.
pub proof fn law_semicolon_ends(a: Seq<char>, b: Seq<char>)
    requires
        forall|k: int|
            0 <= k < a.len() ==> #[trigger] a[k] != '\'' && a[k] != '"' && a[k] != '`',
        forall|k: int| 0 <= k < a.len() - 1 ==> !(#[trigger] a[k] == '-' && a[k + 1] == '-'),
        forall|k: int| 0 <= k < a.len() - 1 ==> !(#[trigger] a[k] == '/' && a[k + 1] == '*'),
    ensures
        is_closed(a),
        statements(a + seq![';'] + b) == statements(a) + statements(b),
{
    lemma_bare_closed(a, 0);
    law_append(a, b);
}

/// In a text without quotes, without `--` and without `/*` every semicolon ends a
/// stretch: the stretches are the parts between semicolons.
pub proof fn law_bare_pieces(a: Seq<char>, b: Seq<char>)
    requires
        forall|k: int|
            0 <= k < a.len() ==> #[trigger] a[k] != '\'' && a[k] != '"' && a[k] != '`',
        forall|k: int| 0 <= k < a.len() - 1 ==> !(#[trigger] a[k] == '-' && a[k + 1] == '-'),
        forall|k: int| 0 <= k < a.len() - 1 ==> !(#[trigger] a[k] == '/' && a[k + 1] == '*'),
        forall|k: int| 0 <= k < a.len() ==> #[trigger] a[k] != ';',
    ensures
        pieces(a) == seq![a],
        pieces(a + seq![';'] + b) == seq![a] + pieces(b),
{
    lemma_bare_cut(a, 0, a.len() as int);
    lemma_uncut(a);
    lemma_bare_closed(a, 0);
    lemma_pieces_append(a, b, Mode::Plain, Seq::empty(), 0);
}

/// Whether what stands behind a text begins nothing together with its last
/// character.
pub open spec fn parts(a: Seq<char>, z: Seq<char>) -> bool {
    a.len() > 0 && z.len() > 0 ==> !(a.last() == '-' && z[0] == '-') && !(a.last() == '/'
        && z[0] == '*')
}

proof fn lemma_behind_mode(s: Seq<char>, n: int, b: Seq<char>, mode: Mode, k: int)
    requires
        0 <= n,
        0 <= k <= b.len(),
        s.len() == n + b.len(),
        s.skip(n) == b,
    ensures
        end_mode(s, mode, n + k) == end_mode(b, mode, k),
    decreases b.len() - k,
{
    if k < b.len() {
        assert(s[n + k] == s.skip(n)[k]);
        if k + 1 < b.len() {
            assert(s[n + k + 1] == s.skip(n)[k + 1]);
        }
        let (next, j) = step(b, mode, k);
        assert(step(s, mode, n + k) == (next, n + j));
        lemma_behind_mode(s, n, b, next, j);
    }
}

proof fn lemma_extended(a: Seq<char>, z: Seq<char>, mode: Mode, cur: Seq<char>, i: int)
    requires
        0 <= i <= a.len(),
        end_mode(a, mode, i) is Plain,
        parts(a, z),
        uncut(z),
    ensures
        ({
            let ps = pieces_from(a, mode, cur, i);
            &&& ps.len() > 0
            &&& pieces_from(a + z, mode, cur, i) == ps.drop_last().push(ps.last() + z)
            &&& end_mode(a + z, mode, i) == end_mode(z, Mode::Plain, 0)
        }),
    decreases a.len() - i,
{
    let s = a + z;
    let n = a.len() as int;
    let ps = pieces_from(a, mode, cur, i);
    if i == n {
        assert(s.skip(n) =~= z);
        lemma_behind(s, n, z, Mode::Plain, cur, 0);
        lemma_behind_mode(s, n, z, Mode::Plain, 0);
        lemma_pieces_unfold(z, Mode::Plain, cur, 0);
        assert(z.subrange(0, z.len() as int) =~= z);
        assert(ps =~= seq![cur]);
        assert(ps.drop_last().push(ps.last() + z) =~= seq![cur + z]);
    } else {
        assert(s[i] == a[i]);
        if i + 1 < n {
            assert(s[i + 1] == a[i + 1]);
        } else if z.len() > 0 {
            assert(s[i + 1] == z[0]);
        }
        let (next, j) = step(a, mode, i);
        if i + 1 == n {
            assert(end_mode(a, next, j) == next);
        }
        assert(step(s, mode, i) == (next, j));
        if is_terminator(a, mode, i) {
            lemma_extended(a, z, Mode::Plain, Seq::empty(), i + 1);
            let rest = pieces_from(a, Mode::Plain, Seq::empty(), i + 1);
            assert(ps == seq![cur] + rest);
            assert(ps.drop_last().push(ps.last() + z) =~= seq![cur] + rest.drop_last().push(
                rest.last() + z,
            ));
        } else {
            assert(s.subrange(i, j) =~= a.subrange(i, j));
            lemma_extended(a, z, next, cur + a.subrange(i, j), j);
        }
    }
}

/// Text without quotes, comments and semicolons belongs to the statement that it
/// stands in, wherever that is.
pub proof fn law_bare_text_continues(a: Seq<char>, t: Seq<char>)
    requires
        is_closed(a),
        a.len() > 0 && t.len() > 0 ==> !(a.last() == '-' && t[0] == '-') && !(a.last() == '/'
            && t[0] == '*'),
        forall|k: int|
            0 <= k < t.len() ==> #[trigger] t[k] != '\'' && t[k] != '"' && t[k] != '`' && t[k]
                != ';',
        forall|k: int| 0 <= k < t.len() - 1 ==> !(#[trigger] t[k] == '-' && t[k + 1] == '-'),
        forall|k: int| 0 <= k < t.len() - 1 ==> !(#[trigger] t[k] == '/' && t[k + 1] == '*'),
    ensures
        is_closed(a + t),
        pieces(a + t) == pieces(a).drop_last().push(pieces(a).last() + t),
{
    assert(is_bare(t));
    lemma_bare_closed(t, 0);
    lemma_bare_cut(t, 0, t.len() as int);
    lemma_extended(a, t, Mode::Plain, Seq::empty(), 0);
}

proof fn lemma_in_quotes(s: Seq<char>, q: char, i: int, n: int)
    requires
        0 <= i <= n <= s.len(),
        forall|k: int| i <= k < n ==> #[trigger] s[k] != q,
        n < s.len() ==> s[n] == q && n + 1 == s.len(),
    ensures
        first_cut(s, Mode::Quoted(q), i) == s.len(),
        n < s.len() ==> end_mode(s, Mode::Quoted(q), i) is Plain,
    decreases n - i,
{
    if i < n {
        assert(step(s, Mode::Quoted(q), i) == (Mode::Quoted(q), i + 1));
        lemma_in_quotes(s, q, i + 1, n);
    } else if n < s.len() {
        assert(step(s, Mode::Quoted(q), i) == (Mode::Plain, i + 1));
        assert(end_mode(s, Mode::Plain, i + 1) is Plain);
        assert(first_cut(s, Mode::Plain, i + 1) == s.len());
    }
}

/// What stands between two single quotes, double quotes or backticks belongs to the
/// statement that the string stands in, whatever it holds; behind the second quote
/// the string is over.
pub proof fn law_string_continues(a: Seq<char>, t: Seq<char>, q: char)
    requires
        is_closed(a),
        q == '\'' || q == '"' || q == '`',
        !t.contains(q),
    ensures
        is_closed(a + (seq![q] + t + seq![q])),
        pieces(a + (seq![q] + t + seq![q])) == pieces(a).drop_last().push(
            pieces(a).last() + (seq![q] + t + seq![q]),
        ),
{
    let z = seq![q] + t + seq![q];
    assert forall|k: int| 1 <= k < t.len() + 1 implies #[trigger] z[k] != q by {
        assert(t.contains(t[k - 1]));
    }
    lemma_in_quotes(z, q, 1, t.len() as int + 1);
    assert(z[0] == q);
    assert(step(z, Mode::Plain, 0) == (Mode::Quoted(q), 1int));
    assert(!is_terminator(z, Mode::Plain, 0));
    lemma_extended(a, z, Mode::Plain, Seq::empty(), 0);
}

/// A string that is not closed reaches to the end of the script.
pub proof fn law_open_string(a: Seq<char>, t: Seq<char>, q: char)
    requires
        is_closed(a),
        q == '\'' || q == '"' || q == '`',
        !t.contains(q),
    ensures
        pieces(a + (seq![q] + t)) == pieces(a).drop_last().push(pieces(a).last() + (seq![q] + t)),
{
    let z = seq![q] + t;
    assert forall|k: int| 1 <= k < z.len() implies #[trigger] z[k] != q by {
        assert(t.contains(t[k - 1]));
    }
    lemma_in_quotes(z, q, 1, z.len() as int);
    assert(z[0] == q);
    assert(step(z, Mode::Plain, 0) == (Mode::Quoted(q), 1int));
    assert(!is_terminator(z, Mode::Plain, 0));
    lemma_extended(a, z, Mode::Plain, Seq::empty(), 0);
}

proof fn lemma_in_line(s: Seq<char>, i: int, n: int)
    requires
        0 <= i <= n <= s.len(),
        forall|k: int| i <= k < n ==> #[trigger] s[k] != '\n',
        n < s.len() ==> s[n] == '\n' && n + 1 == s.len(),
    ensures
        first_cut(s, Mode::LineComment, i) == s.len(),
        n < s.len() ==> end_mode(s, Mode::LineComment, i) is Plain,
    decreases n - i,
{
    if i < n {
        assert(step(s, Mode::LineComment, i) == (Mode::LineComment, i + 1));
        lemma_in_line(s, i + 1, n);
    } else if n < s.len() {
        assert(step(s, Mode::LineComment, i) == (Mode::Plain, i + 1));
        assert(end_mode(s, Mode::Plain, i + 1) is Plain);
        assert(first_cut(s, Mode::Plain, i + 1) == s.len());
    }
}

/// What stands behind `--` belongs to the statement that the comment stands in, up
/// to the end of the line or of the script; the line break ends the comment.
pub proof fn law_line_comment_continues(a: Seq<char>, t: Seq<char>)
    requires
        is_closed(a),
        a.len() > 0 ==> a.last() != '-',
        !t.contains('\n'),
    ensures
        is_closed(a + (seq!['-', '-'] + t + seq!['\n'])),
        pieces(a + (seq!['-', '-'] + t + seq!['\n'])) == pieces(a).drop_last().push(
            pieces(a).last() + (seq!['-', '-'] + t + seq!['\n']),
        ),
        pieces(a + (seq!['-', '-'] + t)) == pieces(a).drop_last().push(
            pieces(a).last() + (seq!['-', '-'] + t),
        ),
{
    let z = seq!['-', '-'] + t + seq!['\n'];
    let y = seq!['-', '-'] + t;
    assert forall|k: int| 2 <= k < t.len() + 2 implies #[trigger] z[k] != '\n' by {
        assert(t.contains(t[k - 2]));
    }
    assert forall|k: int| 2 <= k < y.len() implies #[trigger] y[k] != '\n' by {
        assert(t.contains(t[k - 2]));
    }
    lemma_in_line(z, 2, t.len() as int + 2);
    lemma_in_line(y, 2, y.len() as int);
    assert(step(z, Mode::Plain, 0) == (Mode::LineComment, 2int));
    assert(step(y, Mode::Plain, 0) == (Mode::LineComment, 2int));
    assert(!is_terminator(z, Mode::Plain, 0) && !is_terminator(y, Mode::Plain, 0));
    lemma_extended(a, z, Mode::Plain, Seq::empty(), 0);
    lemma_extended(a, y, Mode::Plain, Seq::empty(), 0);
}

proof fn lemma_open_block(t: Seq<char>, i: int)
    requires
        no_comment_end(t),
        0 <= i <= t.len(),
    ensures
        first_cut(seq!['/', '*'] + t, Mode::BlockComment, i + 2) == t.len() + 2,
    decreases t.len() - i,
{
    let s = seq!['/', '*'] + t;
    if i < t.len() {
        assert(s[i + 2] == t[i]);
        if i + 1 < t.len() {
            assert(s[i + 3] == t[i + 1]);
        }
        assert(step(s, Mode::BlockComment, i + 2) == (Mode::BlockComment, i + 3));
        lemma_open_block(t, i + 1);
    }
}

/// What stands between `/*` and `*/`, or behind a `/*` that is not closed, belongs to
/// the statement that the comment stands in; behind `*/` the comment is over.
pub proof fn law_block_comment_continues(a: Seq<char>, t: Seq<char>)
    requires
        is_closed(a),
        forall|k: int| 0 <= k < t.len() - 1 ==> !(#[trigger] t[k] == '*' && t[k + 1] == '/'),
    ensures
        is_closed(a + (seq!['/', '*'] + t + seq!['*', '/'])),
        pieces(a + (seq!['/', '*'] + t + seq!['*', '/'])) == pieces(a).drop_last().push(
            pieces(a).last() + (seq!['/', '*'] + t + seq!['*', '/']),
        ),
        pieces(a + (seq!['/', '*'] + t)) == pieces(a).drop_last().push(
            pieces(a).last() + (seq!['/', '*'] + t),
        ),
{
    let z = seq!['/', '*'] + t + seq!['*', '/'];
    let y = seq!['/', '*'] + t;
    lemma_in_block_comment(t, 0);
    lemma_open_block(t, 0);
    assert(z[0] == '/' && z[1] == '*');
    assert(y[0] == '/' && y[1] == '*');
    assert(step(z, Mode::Plain, 0) == (Mode::BlockComment, 2int));
    assert(step(y, Mode::Plain, 0) == (Mode::BlockComment, 2int));
    assert(!is_terminator(z, Mode::Plain, 0) && !is_terminator(y, Mode::Plain, 0));
    lemma_extended(a, z, Mode::Plain, Seq::empty(), 0);
    lemma_extended(a, y, Mode::Plain, Seq::empty(), 0);
}

/// Each stretch gives one statement, itself without the whitespace around it, or
/// none where it is blank; the order stays.
pub proof fn law_statement_of_piece(before: Seq<Seq<char>>, p: Seq<char>)
    ensures
        kept(before.push(p)) == if forall|k: int|
            0 <= k < p.len() ==> crate::text::is_space(#[trigger] p[k]) {
            kept(before)
        } else {
            kept(before).push(crate::text::trim(p))
        },
{
    lemma_kept_append(before, seq![p]);
    assert(before + seq![p] =~= before.push(p));
    assert(seq![p].drop_first() =~= Seq::empty());
    assert(kept(seq![p].drop_first()) =~= Seq::empty());
    crate::text::law_trim(p);
    let t = crate::text::trim(p);
    if t.len() > 0 {
        let (x, y) = choose|a: int, b: int|
            #![trigger p.subrange(a, b)]
            0 <= a <= b <= p.len() && t == p.subrange(a, b) && (forall|i: int|
                0 <= i < p.len() && (i < a || b <= i) ==> crate::text::is_space(#[trigger] p[i]));
        assert(t[0] == p[x]);
        assert(kept(seq![p]) =~= seq![t]);
        assert(kept(before) + seq![t] =~= kept(before).push(t));
    } else {
        assert(kept(seq![p]) =~= Seq::empty());
        assert(kept(before) + Seq::empty() =~= kept(before));
    }
}

// ---------------------------------------------------------------------------
// The splitter
// ---------------------------------------------------------------------------

/// Splits a SQL script into statements: trailing semicolons are dropped from
/// items and empty statements skipped.
pub fn split_sql(sql: &str) -> (r: Vec<String>)
    ensures
        crate::text::texts(r@) == statements(sql@),
{
    split_sql_dialect(sql, '\'')
}

/// Appends a statement, trimmed, unless it is blank.
pub fn push_statement(out: &mut Vec<String>, current: &str)
    ensures
        crate::text::texts(final(out)@) == crate::text::texts(old(out)@) + kept(seq![current@]),
{
    let ghost one = seq![current@];
    assert(one.drop_first() =~= Seq::empty());
    assert(kept(one.drop_first()) =~= Seq::empty());
    let item = trimmed(current);
    if !item.as_str().is_empty() {
        proof {
            crate::text::lemma_texts_push(out@, item);
        }
        out.push(item);
        assert(crate::text::texts(out@) =~= crate::text::texts(old(out)@) + kept(one));
    } else {
        assert(crate::text::texts(out@) =~= crate::text::texts(old(out)@) + kept(one));
    }
}

/// The mode that the scanner's flags stand for.
spec fn mode_of(in_line_comment: bool, in_block_comment: bool, in_quote: Option<char>) -> Mode {
    if in_line_comment {
        Mode::LineComment
    } else if in_block_comment {
        Mode::BlockComment
    } else {
        match in_quote {
            Some(q) => Mode::Quoted(q),
            None => Mode::Plain,
        }
    }
}

/// Like [`split_sql`], with the dialect's quote-escape char parameterized.
/// A quote is escaped by doubling it (`''`), consumed in one step so the
/// escape never closes the string. The statements do not depend on the escape
/// char: a doubled quote that closes and reopens a string ends in the same
/// mode.
pub fn split_sql_dialect(sql: &str, string_escape_char: char) -> (r: Vec<String>)
    ensures
        crate::text::texts(r@) == statements(sql@),
{
    let mut out: Vec<String> = Vec::new();
    let mut current = String::new();
    let mut in_quote: Option<char> = None;
    let mut in_line_comment = false;
    let mut in_block_comment = false;
    let chars = chars_of(sql);
    let ghost s = sql@;
    let mut i: usize = 0;
    assert(crate::text::texts(out@) + statements(s) =~= statements(s));
    while i < chars.len()
        invariant
            i <= chars.len(),
            chars@ == s,
            s == sql@,
            in_line_comment ==> !in_block_comment && in_quote is None,
            in_block_comment ==> in_quote is None,
            in_quote matches Some(q) ==> is_quote(q),
            crate::text::texts(out@) + kept(
                pieces_from(
                    s,
                    mode_of(in_line_comment, in_block_comment, in_quote),
                    current@,
                    i as int,
                ),
            ) == statements(s),
        decreases chars.len() - i,
    {
        let c = chars[i];
        let next = if i + 1 < chars.len() {
            Some(chars[i + 1])
        } else {
            None
        };
        proof {
            assert(s.subrange(i as int, i + 1) =~= seq![c]);
            assert(current@ + seq![c] =~= current@.push(c));
            if i + 1 < s.len() {
                assert(s.subrange(i as int, i + 2) =~= seq![c, s[i + 1]]);
                assert(current@ + seq![c, s[i + 1]] =~= current@.push(c).push(s[i + 1]));
            }
        }
        if in_line_comment {
            if c == '\n' {
                in_line_comment = false;
            }
            current.push(c);
            i += 1;
        } else if in_block_comment {
            if c == '*' && next == Some('/') {
                in_block_comment = false;
                current.push(c);
                current.push('/');
                i += 2;
            } else {
                current.push(c);
                i += 1;
            }
        } else if let Some(q) = in_quote {
            if string_escape_char == q && c == q && next == Some(q) {
                proof {
                    assert(pieces_from(s, Mode::Quoted(q), current@, i as int) == pieces_from(
                        s,
                        Mode::Plain,
                        current@.push(c),
                        i + 1,
                    ));
                    assert(s.subrange(i + 1, i + 2) =~= seq![q]);
                    assert(current@.push(c) + seq![q] =~= current@.push(c).push(q));
                    assert(step(s, Mode::Plain, i + 1) == (Mode::Quoted(q), i + 2));
                }
                current.push(c);
                current.push(q);
                i += 2;
            } else {
                current.push(c);
                if c == q {
                    in_quote = None;
                }
                i += 1;
            }
        } else if c == '\'' || c == '"' || c == '`' {
            in_quote = Some(c);
            current.push(c);
            i += 1;
        } else if c == '-' && next == Some('-') {
            in_line_comment = true;
            current.push(c);
            current.push('-');
            i += 2;
        } else if c == '/' && next == Some('*') {
            in_block_comment = true;
            current.push(c);
            current.push('*');
            i += 2;
        } else if c == ';' {
            let ghost rest = pieces_from(s, Mode::Plain, Seq::empty(), i + 1);
            proof {
                lemma_kept_first(current@, rest);
                assert(crate::text::texts(out@) + (kept(seq![current@]) + kept(rest)) =~= (
                crate::text::texts(out@) + kept(seq![current@])) + kept(rest));
            }
            push_statement(&mut out, current.as_str());
            current = String::new();
            i += 1;
        } else {
            current.push(c);
            i += 1;
        }
    }
    push_statement(&mut out, current.as_str());
    out
}

pub proof fn lemma_kept_first(p: Seq<char>, rest: Seq<Seq<char>>)
    ensures
        kept(seq![p] + rest) == kept(seq![p]) + kept(rest),
{
    assert((seq![p] + rest).drop_first() =~= rest);
    assert(seq![p].drop_first() =~= Seq::empty());
    assert(kept(seq![p].drop_first()) =~= Seq::empty());
    assert(kept(seq![p] + rest) =~= kept(seq![p]) + kept(rest));
}

} // verus!
