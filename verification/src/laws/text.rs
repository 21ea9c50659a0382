//! How text is cut, trimmed and searched.

#[allow(unused_imports)]
use crate::text::{
    ends_with, has, is_whitespace, lemma_split_nonempty, lines, nonempty, split, stands_at, trim,
    trim_end, trim_start, without, without_cr, words, Delimiter,
};
use vstd::prelude::*;

verus! {

/// Whether a text is white space and nothing else.
pub open spec fn is_blank(s: Seq<char>) -> bool {
    forall|i: int| 0 <= i < s.len() ==> is_whitespace(#[trigger] s[i])
}

/// Whether a text is one word: it is not empty and holds no white space.
pub open spec fn is_word(s: Seq<char>) -> bool {
    s.len() > 0 && forall|i: int| 0 <= i < s.len() ==> !is_whitespace(#[trigger] s[i])
}

/// Whether a text neither begins nor ends with white space.
pub open spec fn is_bare(s: Seq<char>) -> bool {
    s.len() > 0 ==> !is_whitespace(s[0]) && !is_whitespace(s.last())
}

/// Text on both sides of a delimiter is cut apart there.
pub proof fn law_split_at_a_delimiter(a: Seq<char>, c: char, b: Seq<char>, d: Delimiter)
    requires
        d.cuts(c),
    ensures
        split(a.push(c) + b, d) == split(a, d) + split(b, d),
    decreases b.len(),
{
    let s = a.push(c) + b;
    if b.len() == 0 {
        assert(s =~= a.push(c));
        assert(s.drop_last() =~= a);
        assert(split(s, d) =~= split(a, d) + split(b, d));
    } else {
        let init = b.drop_last();
        law_split_at_a_delimiter(a, c, init, d);
        lemma_split_nonempty(init, d);
        assert(s.drop_last() =~= a.push(c) + init);
        assert(s.last() == b.last());
        let before = split(a, d) + split(init, d);
        assert(before.drop_last() =~= split(a, d) + split(init, d).drop_last());
        assert(before.last() == split(init, d).last());
        assert(split(s, d) =~= split(a, d) + split(b, d));
    }
}

/// Text without a delimiter is one piece.
pub proof fn law_text_without_delimiter_is_one_piece(s: Seq<char>, d: Delimiter)
    requires
        forall|i: int| 0 <= i < s.len() ==> !d.cuts(#[trigger] s[i]),
    ensures
        split(s, d) == seq![s],
    decreases s.len(),
{
    if s.len() == 0 {
        assert(s =~= Seq::<char>::empty());
    } else {
        let init = s.drop_last();
        assert forall|i: int| 0 <= i < init.len() implies !d.cuts(#[trigger] init[i]) by {
            assert(init[i] == s[i]);
        }
        law_text_without_delimiter_is_one_piece(init, d);
        assert(!d.cuts(s[s.len() - 1]));
        assert(init.push(s.last()) =~= s);
        assert(split(s, d) =~= seq![s]);
    }
}

/// The last piece is what stands behind the last delimiter.
pub proof fn law_last_piece(a: Seq<char>, d: char, b: Seq<char>)
    requires
        !b.contains(d),
    ensures
        split(a + seq![d] + b, Delimiter::Char(d)).last() == b,
{
    let dl = Delimiter::Char(d);
    assert forall|i: int| 0 <= i < b.len() implies !dl.cuts(#[trigger] b[i]) by {
        assert(b.contains(b[i]));
    }
    law_text_without_delimiter_is_one_piece(b, dl);
    law_split_at_a_delimiter(a, d, b, dl);
    assert(a + seq![d] + b =~= a.push(d) + b);
}

proof fn lemma_nonempty_concat(x: Seq<Seq<char>>, y: Seq<Seq<char>>)
    ensures
        nonempty(x + y) == nonempty(x) + nonempty(y),
    decreases y.len(),
{
    if y.len() == 0 {
        assert(x + y =~= x);
        assert(nonempty(x) + nonempty(y) =~= nonempty(x));
    } else {
        lemma_nonempty_concat(x, y.drop_last());
        assert((x + y).drop_last() =~= x + y.drop_last());
        assert((x + y).last() == y.last());
        assert(nonempty(x + y) =~= nonempty(x) + nonempty(y));
    }
}

proof fn lemma_words_at_white_space(a: Seq<char>, c: char, b: Seq<char>)
    requires
        is_whitespace(c),
    ensures
        words(a.push(c) + b) == words(a) + words(b),
{
    law_split_at_a_delimiter(a, c, b, Delimiter::Whitespace);
    lemma_nonempty_concat(split(a, Delimiter::Whitespace), split(b, Delimiter::Whitespace));
}

/// White space holds no word, and adds none to the text that it follows.
proof fn lemma_words_before_blank(a: Seq<char>, gap: Seq<char>)
    requires
        is_blank(gap),
    ensures
        words(a + gap) == words(a),
    decreases gap.len(),
{
    if gap.len() == 0 {
        assert(a + gap =~= a);
    } else {
        let init = gap.drop_last();
        assert forall|i: int| 0 <= i < init.len() implies is_whitespace(#[trigger] init[i]) by {
            assert(init[i] == gap[i]);
        }
        lemma_words_before_blank(a, init);
        let e = Seq::<char>::empty();
        assert(is_whitespace(gap[gap.len() - 1]));
        lemma_words_at_white_space(a + init, gap.last(), e);
        assert(a + gap =~= (a + init).push(gap.last()) + e);
        lemma_words_of_nothing();
        assert(words(a) + words(e) =~= words(a));
    }
}

proof fn lemma_words_of_nothing()
    ensures
        words(Seq::<char>::empty()) == Seq::<Seq<char>>::empty(),
{
    let e = Seq::<char>::empty();
    let ps = split(e, Delimiter::Whitespace);
    assert(ps =~= seq![e]);
    assert(ps.drop_last() =~= Seq::empty());
    assert(nonempty(ps.drop_last()) =~= Seq::empty());
}

/// White space between two texts parts their words, and belongs to none.
pub proof fn law_words_are_parted_by_white_space(a: Seq<char>, gap: Seq<char>, b: Seq<char>)
    requires
        is_blank(gap),
        gap.len() > 0,
    ensures
        words(a + gap + b) == words(a) + words(b),
{
    let init = gap.drop_last();
    assert forall|i: int| 0 <= i < init.len() implies is_whitespace(#[trigger] init[i]) by {
        assert(init[i] == gap[i]);
    }
    lemma_words_before_blank(a, init);
    assert(is_whitespace(gap[gap.len() - 1]));
    lemma_words_at_white_space(a + init, gap.last(), b);
    assert(a + gap + b =~= (a + init).push(gap.last()) + b);
}

/// A word is the one word that it holds, and white space holds none.
pub proof fn law_one_word(s: Seq<char>)
    ensures
        is_word(s) ==> words(s) == seq![s],
        is_blank(s) ==> words(s) == Seq::<Seq<char>>::empty(),
{
    let e = Seq::<char>::empty();
    lemma_words_of_nothing();
    if is_blank(s) {
        lemma_words_before_blank(e, s);
        assert(e + s =~= s);
    }
    if is_word(s) {
        law_text_without_delimiter_is_one_piece(s, Delimiter::Whitespace);
        let ps = seq![s];
        assert(ps.drop_last() =~= Seq::empty());
        assert(nonempty(ps.drop_last()) =~= Seq::empty());
        assert(nonempty(ps) =~= seq![s]);
    }
}

/// Words with white space before, between and behind them: `gaps[i]` comes before word `i`, and
/// the last gap behind all words.
pub open spec fn spaced(ws: Seq<Seq<char>>, gaps: Seq<Seq<char>>) -> Seq<char>
    decreases ws.len(),
{
    if ws.len() == 0 {
        gaps[0]
    } else {
        spaced(ws.drop_last(), gaps) + ws.last() + gaps[ws.len() as int]
    }
}

/// Words written with white space around them are read as those words, however wide the gaps are.
pub proof fn law_words_of_a_row(ws: Seq<Seq<char>>, gaps: Seq<Seq<char>>)
    requires
        gaps.len() == ws.len() + 1,
        forall|i: int| 0 <= i < ws.len() ==> is_word(#[trigger] ws[i]),
        forall|i: int| 0 <= i < gaps.len() ==> is_blank(#[trigger] gaps[i]),
        forall|i: int| 0 < i < ws.len() ==> (#[trigger] gaps[i]).len() > 0,
    ensures
        words(spaced(ws, gaps)) == ws,
    decreases ws.len(),
{
    if ws.len() == 0 {
        law_one_word(gaps[0]);
        assert(ws =~= Seq::empty());
    } else {
        let n = ws.len() - 1;
        let w = ws[n];
        assert(is_word(w));
        law_one_word(w);
        let e = Seq::<char>::empty();
        if n == 0 {
            let g = gaps[0];
            if g.len() == 0 {
                assert(ws.drop_last() =~= Seq::empty());
                assert(g + w =~= w);
            } else {
                law_words_are_parted_by_white_space(e, g, w);
                lemma_words_of_nothing();
                assert(e + g + w =~= g + w);
                assert(words(e) + words(w) =~= words(w));
            }
            assert(ws.drop_last() =~= Seq::empty());
            assert(spaced(ws.drop_last(), gaps) == g);
            lemma_words_before_blank(g + w, gaps[1]);
            assert(ws =~= seq![w]);
        } else {
            let init = ws.drop_last();
            assert forall|i: int| 0 <= i < init.len() implies is_word(#[trigger] init[i]) by {
                assert(init[i] == ws[i]);
            }
            let first = gaps.drop_last();
            assert forall|i: int| 0 <= i < first.len() implies is_blank(#[trigger] first[i]) by {
                assert(first[i] == gaps[i]);
            }
            assert forall|i: int| 0 < i < init.len() implies (#[trigger] first[i]).len() > 0 by {
                assert(first[i] == gaps[i]);
            }
            law_words_of_a_row(init, first);
            lemma_spaced_agrees(init, first, gaps);
            let g = gaps[n as int];
            assert(g.len() > 0);
            // The gap before the last word closes the row of the words before it.
            let shorter = spaced(init.drop_last(), gaps) + init.last();
            assert(spaced(init, gaps) =~= shorter + g);
            assert(is_blank(g));
            lemma_words_before_blank(shorter, g);
            law_words_are_parted_by_white_space(shorter, g, w);
            lemma_words_before_blank(shorter + g + w, gaps[n + 1]);
            assert(words(shorter) + words(w) =~= ws);
        }
    }
}

proof fn lemma_spaced_agrees(ws: Seq<Seq<char>>, a: Seq<Seq<char>>, b: Seq<Seq<char>>)
    requires
        a.len() == ws.len() + 1,
        b.len() >= a.len(),
        forall|i: int| 0 <= i < a.len() ==> a[i] == b[i],
    ensures
        spaced(ws, a) == spaced(ws, b),
    decreases ws.len(),
{
    if ws.len() > 0 {
        let c = a.drop_last();
        assert forall|i: int| 0 <= i < c.len() implies c[i] == b[i] by {
            assert(a[i] == b[i]);
        }
        lemma_spaced_agrees(ws.drop_last(), c, a);
        lemma_spaced_agrees(ws.drop_last(), c, b);
    }
}

/// A text of lines, each with a line feed behind it; a carriage return comes before that where
/// `crs` says so.
pub open spec fn written(rows: Seq<Seq<char>>, crs: Seq<bool>) -> Seq<char>
    decreases rows.len(),
{
    if rows.len() == 0 {
        Seq::empty()
    } else {
        written_line(rows[0], crs[0]) + written(rows.drop_first(), crs.drop_first())
    }
}

/// A line with its ending.
pub open spec fn written_line(row: Seq<char>, with_cr: bool) -> Seq<char> {
    if with_cr {
        row + seq!['\r', '\n']
    } else {
        row + seq!['\n']
    }
}

/// Lines are read as they were written, whichever of the two endings each has; what stands behind
/// the last ending is a line of its own.
pub proof fn law_lines_are_read_back(rows: Seq<Seq<char>>, crs: Seq<bool>, rest: Seq<char>)
    requires
        crs.len() == rows.len(),
        forall|i: int|
            0 <= i < rows.len() ==> !(#[trigger] rows[i]).contains('\n') && (rows[i].len() > 0
                && !crs[i] ==> rows[i].last() != '\r'),
        !rest.contains('\n'),
    ensures
        lines(written(rows, crs) + rest) == (if rest.len() > 0 {
            rows.push(rest)
        } else {
            rows
        }),
    decreases rows.len(),
{
    let d = Delimiter::Char('\n');
    if rows.len() == 0 {
        assert(written(rows, crs) + rest =~= rest);
        assert forall|i: int| 0 <= i < rest.len() implies !d.cuts(#[trigger] rest[i]) by {
            assert(rest.contains(rest[i]));
        }
        law_text_without_delimiter_is_one_piece(rest, d);
        let parts = seq![rest];
        assert(parts.drop_last().map_values(|p: Seq<char>| without_cr(p)) =~= Seq::empty());
        assert(rows =~= Seq::empty());
        assert(lines(rest) =~= if rest.len() > 0 {
            rows.push(rest)
        } else {
            rows
        });
    } else {
        let row = rows[0];
        let tail_rows = rows.drop_first();
        let tail_crs = crs.drop_first();
        assert forall|i: int| 0 <= i < tail_rows.len() implies !(
        #[trigger] tail_rows[i]).contains('\n') && (tail_rows[i].len() > 0 && !tail_crs[i]
            ==> tail_rows[i].last() != '\r') by {
            assert(tail_rows[i] == rows[i + 1]);
            assert(tail_crs[i] == crs[i + 1]);
        }
        law_lines_are_read_back(tail_rows, tail_crs, rest);
        let tail = written(tail_rows, tail_crs) + rest;
        let piece = if crs[0] {
            row.push('\r')
        } else {
            row
        };
        assert(!row.contains('\n'));
        assert forall|i: int| 0 <= i < piece.len() implies !d.cuts(#[trigger] piece[i]) by {
            if i < row.len() {
                assert(row.contains(row[i]));
            }
        }
        law_text_without_delimiter_is_one_piece(piece, d);
        law_split_at_a_delimiter(piece, '\n', tail, d);
        lemma_split_nonempty(tail, d);
        let text = written(rows, crs) + rest;
        assert(text =~= piece.push('\n') + tail);
        let parts = split(text, d);
        let tail_parts = split(tail, d);
        assert(parts =~= seq![piece] + tail_parts);
        assert(parts.last() == tail_parts.last());
        assert(without_cr(piece) =~= row);
        let f = |p: Seq<char>| without_cr(p);
        assert(parts.drop_last() =~= seq![piece] + tail_parts.drop_last());
        assert(parts.drop_last().map_values(f) =~= seq![row] + tail_parts.drop_last().map_values(
            f,
        ));
        assert(lines(text) =~= seq![row] + lines(tail));
        assert(rows =~= seq![row] + tail_rows);
        assert(lines(text) =~= if rest.len() > 0 {
            rows.push(rest)
        } else {
            rows
        });
    }
}

proof fn lemma_trim_end(core: Seq<char>, b: Seq<char>, d: Delimiter)
    requires
        forall|i: int| 0 <= i < b.len() ==> d.cuts(#[trigger] b[i]),
        core.len() > 0 ==> !d.cuts(core.last()),
    ensures
        trim_end(core + b, d) == core,
    decreases b.len(),
{
    if b.len() == 0 {
        assert(core + b =~= core);
    } else {
        let init = b.drop_last();
        assert forall|i: int| 0 <= i < init.len() implies d.cuts(#[trigger] init[i]) by {
            assert(init[i] == b[i]);
        }
        lemma_trim_end(core, init, d);
        assert(d.cuts(b[b.len() - 1]));
        assert((core + b).drop_last() =~= core + init);
    }
}

/// Characters of one kind at the end of a text are taken away, and nothing else.
pub proof fn law_trim_end(core: Seq<char>, c: char, n: nat)
    requires
        core.len() > 0 ==> core.last() != c,
    ensures
        trim_end(core + Seq::new(n, |i: int| c), Delimiter::Char(c)) == core,
{
    lemma_trim_end(core, Seq::new(n, |i: int| c), Delimiter::Char(c));
}

/// White space around a text is taken away, and nothing else.
pub proof fn law_trim(a: Seq<char>, core: Seq<char>, b: Seq<char>)
    requires
        is_blank(a),
        is_blank(b),
        is_bare(core),
    ensures
        trim(a + core + b) == core,
    decreases a.len(),
{
    let s = a + core + b;
    if a.len() > 0 {
        let rest = a.drop_first();
        assert forall|i: int| 0 <= i < rest.len() implies is_whitespace(#[trigger] rest[i]) by {
            assert(rest[i] == a[i + 1]);
        }
        law_trim(rest, core, b);
        assert(is_whitespace(a[0]));
        assert(s[0] == a[0]);
        assert(s.drop_first() =~= rest + core + b);
    } else if core.len() > 0 {
        assert(s =~= core + b);
        assert(s[0] == core[0]);
        lemma_trim_end(core, b, Delimiter::Whitespace);
    } else {
        assert(s =~= b);
        lemma_trim_blank(b);
        assert(core =~= Seq::empty());
    }
}

proof fn lemma_trim_blank(b: Seq<char>)
    requires
        is_blank(b),
    ensures
        trim(b) == Seq::<char>::empty(),
    decreases b.len(),
{
    if b.len() > 0 {
        let rest = b.drop_first();
        assert forall|i: int| 0 <= i < rest.len() implies is_whitespace(#[trigger] rest[i]) by {
            assert(rest[i] == b[i + 1]);
        }
        lemma_trim_blank(rest);
        assert(is_whitespace(b[0]));
    } else {
        assert(b =~= Seq::empty());
    }
}

/// A text holds whatever stands in its middle.
pub proof fn law_has(a: Seq<char>, needle: Seq<char>, b: Seq<char>)
    ensures
        has(a + needle + b, needle),
{
    let s = a + needle + b;
    assert(s.subrange(a.len() as int, a.len() as int + needle.len()) =~= needle);
    assert(stands_at(s, a.len() as int, needle));
}

/// A text that holds another has it somewhere with the rest around it.
pub proof fn law_what_a_text_has(s: Seq<char>, needle: Seq<char>)
    requires
        has(s, needle),
    ensures
        exists|i: int|
            0 <= i <= s.len() - needle.len() && s == s.take(i) + needle + #[trigger] s.skip(
                i + needle.len(),
            ),
{
    let i = choose|i: int| #[trigger] stands_at(s, i, needle);
    assert(s =~= s.take(i) + needle + s.skip(i + needle.len()));
}

/// Where a pattern does not occur nothing is taken out.
pub proof fn law_nothing_is_taken_out(s: Seq<char>, pattern: Seq<char>)
    requires
        !(has(s, pattern)),
    ensures
        without(s, pattern) == s,
    decreases s.len(),
{
    if s.len() > 0 && pattern.len() > 0 {
        assert(!stands_at(s, 0, pattern));
        let rest = s.drop_first();
        assert(!(has(rest, pattern))) by {
            if has(rest, pattern) {
                let i = choose|i: int| #[trigger] stands_at(rest, i, pattern);
                assert(s.subrange(i + 1, i + 1 + pattern.len()) =~= rest.subrange(
                    i,
                    i + pattern.len(),
                ));
                assert(stands_at(s, i + 1, pattern));
            }
        }
        law_nothing_is_taken_out(rest, pattern);
        assert(seq![s[0]] + rest =~= s);
    }
}

/// A pattern at the start of a text is taken out, and what stands behind it goes on as if it stood
/// alone.
pub proof fn law_the_pattern_is_taken_out(pattern: Seq<char>, rest: Seq<char>)
    requires
        pattern.len() > 0,
    ensures
        without(pattern + rest, pattern) == without(rest, pattern),
{
    let s = pattern + rest;
    assert(s.subrange(0, pattern.len() as int) =~= pattern);
    assert(stands_at(s, 0, pattern));
    assert(s.skip(pattern.len() as int) =~= rest);
}

/// Where the pattern does not stand at the start the first character stays, and the rest goes on
/// as if it stood alone.
pub proof fn law_the_first_character_stays(c: char, rest: Seq<char>, pattern: Seq<char>)
    requires
        pattern.len() > 0,
        !pattern.is_prefix_of(seq![c] + rest),
    ensures
        without(seq![c] + rest, pattern) == seq![c] + without(rest, pattern),
{
    let s = seq![c] + rest;
    assert(s.drop_first() =~= rest);
    assert(!stands_at(s, 0, pattern)) by {
        if stands_at(s, 0, pattern) {
            assert(s.subrange(0, pattern.len() as int) == pattern);
            assert(pattern.is_prefix_of(s));
        }
    }
}

/// A text ends with what it was ended with, and with nothing else of that length.
pub proof fn law_ends_with(a: Seq<char>, b: Seq<char>, c: Seq<char>)
    ensures
        ends_with(a + b, b),
        c.len() == b.len() && ends_with(a + b, c) ==> b == c,
{
    assert((a + b).subrange(a.len() as int, a.len() as int + b.len()) =~= b);
}

} // verus!
