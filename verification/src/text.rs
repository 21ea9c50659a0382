//! Text as sequences of characters: cutting it into pieces, lines and words, trimming it,
//! searching it and taking parts out of it.

use vstd::prelude::*;
use vstd::slice::slice_subrange;

verus! {

/// `String::push`: the given character is appended at the end.
pub assume_specification[ String::push ](s: &mut String, c: char)
    ensures
        final(s)@ == old(s)@.push(c),
;

/// The characters of a string, in order.
pub fn chars_of(s: &str) -> (r: Vec<char>)
    ensures
        r@ == s@,
{
    let mut r: Vec<char> = Vec::new();
    for c in it: s.chars()
        invariant
            it.seq() == s@,
            r@ == s@.take(it.index() as int),
    {
        r.push(c);
    }
    r
}

/// The string that holds the given characters.
pub fn string_of(cs: &[char]) -> (r: String)
    ensures
        r@ == cs@,
{
    let mut r: String = String::new();
    let mut i: usize = 0;
    while i < cs.len()
        invariant
            i <= cs.len(),
            r@ == cs@.take(i as int),
        decreases cs.len() - i,
    {
        r.push(cs[i]);
        i += 1;
    }
    r
}

/// Whether a string holds exactly these characters.
pub fn is_text(cs: &[char], s: &str) -> (r: bool)
    ensures
        r == (cs@ == s@),
{
    let t: Vec<char> = chars_of(s);
    same_chars(cs, t.as_slice())
}

/// Whether two runs of characters are the same.
pub fn same_chars(a: &[char], b: &[char]) -> (r: bool)
    ensures
        r == (a@ == b@),
{
    if a.len() != b.len() {
        return false;
    }
    let mut i: usize = 0;
    while i < a.len()
        invariant
            i <= a.len(),
            a.len() == b.len(),
            forall|j: int| 0 <= j < i ==> a@[j] == b@[j],
        decreases a.len() - i,
    {
        if a[i] != b[i] {
            return false;
        }
        i += 1;
    }
    assert(a@ =~= b@);
    true
}

/// Whether two strings hold the same characters.
pub fn same_text(a: &str, b: &str) -> (r: bool)
    ensures
        r == (a@ == b@),
{
    let t: Vec<char> = chars_of(a);
    is_text(t.as_slice(), b)
}

/// The pieces of a cut text, each as its characters.
pub open spec fn pieces(v: Seq<&[char]>) -> Seq<Seq<char>> {
    v.map_values(|p: &[char]| p@)
}

/// The strings of a list, each as its characters.
pub open spec fn texts(v: Seq<String>) -> Seq<Seq<char>> {
    v.map_values(|s: String| s@)
}

/// The characters with Unicode's `White_Space` property.
pub open spec fn is_whitespace(c: char) -> bool {
    let n = c as u32;
    ||| 0x9 <= n <= 0xd
    ||| n == 0x20
    ||| n == 0x85
    ||| n == 0xa0
    ||| n == 0x1680
    ||| 0x2000 <= n <= 0x200a
    ||| n == 0x2028
    ||| n == 0x2029
    ||| n == 0x202f
    ||| n == 0x205f
    ||| n == 0x3000
}

/// Whether a character is white space.
pub fn is_space(c: char) -> (r: bool)
    ensures
        r == is_whitespace(c),
{
    let n: u32 = c as u32;
    (0x9 <= n && n <= 0xd) || n == 0x20 || n == 0x85 || n == 0xa0 || n == 0x1680 || (0x2000 <= n
        && n <= 0x200a) || n == 0x2028 || n == 0x2029 || n == 0x202f || n == 0x205f || n == 0x3000
}

/// What a text is cut at.
#[derive(Clone, Copy)]
pub enum Delimiter {
    /// One given character.
    Char(char),
    /// Any white space.
    Whitespace,
}

impl Delimiter {
    /// Whether a text is cut at this character.
    pub open spec fn cuts(self, c: char) -> bool {
        match self {
            Delimiter::Char(d) => c == d,
            Delimiter::Whitespace => is_whitespace(c),
        }
    }

    /// Whether a text is cut at this character.
    pub fn matches(self, c: char) -> (r: bool)
        ensures
            r == self.cuts(c),
    {
        match self {
            Delimiter::Char(d) => c == d,
            Delimiter::Whitespace => is_space(c),
        }
    }
}

/// The pieces of `s` between the delimiters, empty ones included: one more than there are
/// delimiters in `s`.
pub open spec fn split(s: Seq<char>, d: Delimiter) -> Seq<Seq<char>>
    decreases s.len(),
{
    if s.len() == 0 {
        seq![Seq::<char>::empty()]
    } else {
        let before = split(s.drop_last(), d);
        if d.cuts(s.last()) {
            before.push(Seq::<char>::empty())
        } else {
            before.drop_last().push(before.last().push(s.last()))
        }
    }
}

/// Cuts a text at every delimiter.
pub fn split_chars<'a>(s: &'a [char], d: Delimiter) -> (r: Vec<&'a [char]>)
    ensures
        pieces(r@) == split(s@, d),
        r.len() > 0,
{
    let mut r: Vec<&'a [char]> = Vec::new();
    let mut start: usize = 0;
    let mut i: usize = 0;
    proof {
        assert(s@.take(0) =~= Seq::<char>::empty());
        assert(s@.subrange(0, 0) =~= Seq::<char>::empty());
        assert(pieces(r@).push(s@.subrange(0, 0)) =~= split(s@.take(0), d));
    }
    while i < s.len()
        invariant
            start <= i <= s.len(),
            split(s@.take(i as int), d) == pieces(r@).push(s@.subrange(start as int, i as int)),
        decreases s.len() - i,
    {
        let c: char = s[i];
        let ghost before = split(s@.take(i as int), d);
        proof {
            assert(s@.take(i + 1).drop_last() =~= s@.take(i as int));
            assert(before.drop_last() =~= pieces(r@));
            assert(s@.subrange(start as int, i + 1) =~= s@.subrange(start as int, i as int).push(c));
        }
        if d.matches(c) {
            let piece: &'a [char] = slice_subrange(s, start, i);
            let ghost old_r = r@;
            r.push(piece);
            assert(pieces(r@) =~= pieces(old_r).push(piece@));
            start = i + 1;
            assert(s@.subrange(start as int, i + 1) =~= Seq::<char>::empty());
        }
        i += 1;
    }
    let piece: &'a [char] = slice_subrange(s, start, i);
    let ghost old_r = r@;
    r.push(piece);
    proof {
        assert(s@.take(i as int) =~= s@);
        assert(pieces(r@) =~= pieces(old_r).push(piece@));
    }
    r
}

/// There is always at least one piece.
pub proof fn lemma_split_nonempty(s: Seq<char>, d: Delimiter)
    ensures
        split(s, d).len() > 0,
    decreases s.len(),
{
    if s.len() > 0 {
        lemma_split_nonempty(s.drop_last(), d);
    }
}

/// `s` without a carriage return at its end.
pub open spec fn without_cr(s: Seq<char>) -> Seq<char> {
    if s.len() > 0 && s.last() == '\r' {
        s.drop_last()
    } else {
        s
    }
}

/// The lines of a text. A line ends at a line feed, or at a carriage return and a line feed;
/// after the last line the line ending may be missing.
pub open spec fn lines(s: Seq<char>) -> Seq<Seq<char>> {
    let parts = split(s, Delimiter::Char('\n'));
    let ended = parts.drop_last().map_values(|p: Seq<char>| without_cr(p));
    if parts.last().len() == 0 {
        ended
    } else {
        ended.push(parts.last())
    }
}

/// Cuts a text into its lines.
pub fn lines_of<'a>(s: &'a [char]) -> (r: Vec<&'a [char]>)
    ensures
        pieces(r@) == lines(s@),
{
    let parts: Vec<&'a [char]> = split_chars(s, Delimiter::Char('\n'));
    let mut r: Vec<&'a [char]> = Vec::new();
    let ghost all = split(s@, Delimiter::Char('\n'));
    let ghost ended = all.drop_last().map_values(|p: Seq<char>| without_cr(p));
    let mut i: usize = 0;
    while i < parts.len() - 1
        invariant
            parts.len() > 0,
            i <= parts.len() - 1,
            all == pieces(parts@),
            ended == all.drop_last().map_values(|p: Seq<char>| without_cr(p)),
            pieces(r@) == ended.take(i as int),
        decreases parts.len() - i,
    {
        let p: &'a [char] = parts[i];
        let line: &'a [char] = if p.len() > 0 && p[p.len() - 1] == '\r' {
            slice_subrange(p, 0, p.len() - 1)
        } else {
            p
        };
        let ghost old_r = r@;
        r.push(line);
        proof {
            assert(all[i as int] == p@);
            assert(line@ =~= without_cr(p@));
            assert(pieces(r@) =~= pieces(old_r).push(line@));
            assert(ended.take(i + 1) =~= ended.take(i as int).push(ended[i as int]));
        }
        i += 1;
    }
    let last: &'a [char] = parts[parts.len() - 1];
    proof {
        assert(all.last() == last@);
        assert(ended.take(i as int) =~= ended);
    }
    if last.len() > 0 {
        let ghost old_r = r@;
        r.push(last);
        assert(pieces(r@) =~= pieces(old_r).push(last@));
    }
    r
}

/// The pieces that are not empty, in order.
pub open spec fn nonempty(ps: Seq<Seq<char>>) -> Seq<Seq<char>>
    decreases ps.len(),
{
    if ps.len() == 0 {
        ps
    } else if ps.last().len() > 0 {
        nonempty(ps.drop_last()).push(ps.last())
    } else {
        nonempty(ps.drop_last())
    }
}

/// The words of a text: its longest runs without white space.
pub open spec fn words(s: Seq<char>) -> Seq<Seq<char>> {
    nonempty(split(s, Delimiter::Whitespace))
}

/// Cuts a text into its words.
pub fn words_of<'a>(s: &'a [char]) -> (r: Vec<&'a [char]>)
    ensures
        pieces(r@) == words(s@),
{
    let parts: Vec<&'a [char]> = split_chars(s, Delimiter::Whitespace);
    let mut r: Vec<&'a [char]> = Vec::new();
    let ghost all = split(s@, Delimiter::Whitespace);
    let mut i: usize = 0;
    assert(pieces(r@) =~= nonempty(all.take(0)));
    while i < parts.len()
        invariant
            i <= parts.len(),
            all == pieces(parts@),
            pieces(r@) == nonempty(all.take(i as int)),
        decreases parts.len() - i,
    {
        let p: &'a [char] = parts[i];
        let ghost old_r = r@;
        proof {
            assert(all[i as int] == p@);
            assert(all.take(i + 1).drop_last() =~= all.take(i as int));
        }
        if p.len() > 0 {
            r.push(p);
            assert(pieces(r@) =~= pieces(old_r).push(p@));
        }
        i += 1;
    }
    assert(all.take(i as int) =~= all);
    r
}

/// `s` without the white space at its start.
pub open spec fn trim_start(s: Seq<char>) -> Seq<char>
    decreases s.len(),
{
    if s.len() > 0 && is_whitespace(s[0]) {
        trim_start(s.drop_first())
    } else {
        s
    }
}

/// `s` without the delimiters at its end.
pub open spec fn trim_end(s: Seq<char>, d: Delimiter) -> Seq<char>
    decreases s.len(),
{
    if s.len() > 0 && d.cuts(s.last()) {
        trim_end(s.drop_last(), d)
    } else {
        s
    }
}

/// `s` without the white space at its start and at its end.
pub open spec fn trim(s: Seq<char>) -> Seq<char> {
    trim_end(trim_start(s), Delimiter::Whitespace)
}

/// Takes the delimiters at the end of a text away.
pub fn trim_end_chars<'a>(s: &'a [char], d: Delimiter) -> (r: &'a [char])
    ensures
        r@ == trim_end(s@, d),
{
    let mut end: usize = s.len();
    assert(s@.take(end as int) =~= s@);
    while end > 0 && d.matches(s[end - 1])
        invariant
            end <= s.len(),
            trim_end(s@, d) == trim_end(s@.take(end as int), d),
        decreases end,
    {
        assert(s@.take(end as int).drop_last() =~= s@.take(end - 1));
        end -= 1;
    }
    slice_subrange(s, 0, end)
}

/// Takes the white space at both ends of a text away.
pub fn trim_chars<'a>(s: &'a [char]) -> (r: &'a [char])
    ensures
        r@ == trim(s@),
{
    let mut start: usize = 0;
    assert(s@.skip(0) =~= s@);
    while start < s.len() && is_space(s[start])
        invariant
            start <= s.len(),
            trim_start(s@) == trim_start(s@.skip(start as int)),
        decreases s.len() - start,
    {
        assert(s@.skip(start as int).drop_first() =~= s@.skip(start + 1));
        start += 1;
    }
    let rest: &'a [char] = slice_subrange(s, start, s.len());
    assert(rest@ =~= s@.skip(start as int));
    trim_end_chars(rest, Delimiter::Whitespace)
}

/// Whether `needle` stands in `hay` at position `i`.
pub open spec fn stands_at(hay: Seq<char>, i: int, needle: Seq<char>) -> bool {
    0 <= i && i + needle.len() <= hay.len() && hay.subrange(i, i + needle.len()) == needle
}

/// Whether `needle` stands somewhere in `hay`.
pub open spec fn has(hay: Seq<char>, needle: Seq<char>) -> bool {
    exists|i: int| #[trigger] stands_at(hay, i, needle)
}

/// Whether `hay` ends with `needle`.
pub open spec fn ends_with(hay: Seq<char>, needle: Seq<char>) -> bool {
    stands_at(hay, hay.len() - needle.len(), needle)
}

/// Whether one run of characters stands in another at the given position.
pub fn stands_at_chars(hay: &[char], i: usize, needle: &[char]) -> (r: bool)
    ensures
        r == stands_at(hay@, i as int, needle@),
{
    if i > hay.len() || needle.len() > hay.len() - i {
        return false;
    }
    let part: &[char] = slice_subrange(hay, i, i + needle.len());
    same_chars(part, needle)
}

/// Whether a text holds the given one.
pub fn has_text(hay: &[char], needle: &str) -> (r: bool)
    ensures
        r == has(hay@, needle@),
{
    let n: Vec<char> = chars_of(needle);
    let mut i: usize = 0;
    while i < hay.len()
        invariant
            i <= hay.len(),
            n@ == needle@,
            forall|j: int| 0 <= j < i ==> !#[trigger] stands_at(hay@, j, needle@),
        decreases hay.len() - i,
    {
        if stands_at_chars(hay, i, n.as_slice()) {
            return true;
        }
        i += 1;
    }
    stands_at_chars(hay, i, n.as_slice())
}

/// Whether a text ends with the given one.
pub fn ends_with_text(hay: &[char], needle: &str) -> (r: bool)
    ensures
        r == ends_with(hay@, needle@),
{
    let n: Vec<char> = chars_of(needle);
    if n.len() > hay.len() {
        return false;
    }
    stands_at_chars(hay, hay.len() - n.len(), n.as_slice())
}

/// `s` with every occurrence of `pattern` taken out, from left to right.
pub open spec fn without(s: Seq<char>, pattern: Seq<char>) -> Seq<char>
    decreases s.len(),
{
    if s.len() == 0 || pattern.len() == 0 {
        s
    } else if stands_at(s, 0, pattern) {
        without(s.skip(pattern.len() as int), pattern)
    } else {
        seq![s[0]] + without(s.drop_first(), pattern)
    }
}

/// Takes every occurrence of a text out of another.
pub fn without_text(s: &[char], pattern: &str) -> (r: Vec<char>)
    ensures
        r@ == without(s@, pattern@),
{
    let p: Vec<char> = chars_of(pattern);
    let mut r: Vec<char> = Vec::new();
    let mut i: usize = 0;
    assert(s@.skip(0) =~= s@);
    if p.len() == 0 {
        return vstd::slice::slice_to_vec(s);
    }
    while i < s.len()
        invariant
            i <= s.len(),
            p@ == pattern@,
            p.len() > 0,
            without(s@, pattern@) == r@ + without(s@.skip(i as int), pattern@),
        decreases s.len() - i,
    {
        let ghost rest = s@.skip(i as int);
        proof {
            if stands_at(s@, i as int, pattern@) {
                assert(s@.subrange(i as int, i + pattern@.len()) =~= rest.subrange(
                    0,
                    pattern@.len() as int,
                ));
            } else if i + pattern@.len() <= s@.len() {
                assert(s@.subrange(i as int, i + pattern@.len()) =~= rest.subrange(
                    0,
                    pattern@.len() as int,
                ));
            }
        }
        if stands_at_chars(s, i, p.as_slice()) {
            assert(rest.skip(pattern@.len() as int) =~= s@.skip(i + pattern@.len()));
            i += p.len();
        } else {
            let ghost old_r = r@;
            r.push(s[i]);
            proof {
                assert(rest.drop_first() =~= s@.skip(i + 1));
                assert(old_r + (seq![rest[0]] + without(s@.skip(i + 1), pattern@)) =~= r@
                    + without(s@.skip(i + 1), pattern@));
            }
            i += 1;
        }
    }
    assert(s@.skip(i as int) =~= Seq::<char>::empty());
    r
}

/// A word is never empty and holds no white space.
pub proof fn law_words(s: Seq<char>)
    ensures
        forall|i: int, k: int|
            0 <= i < words(s).len() && 0 <= k < words(s)[i].len() ==> !is_whitespace(
                #[trigger] words(s)[i][k],
            ),
        forall|i: int| 0 <= i < words(s).len() ==> (#[trigger] words(s)[i]).len() > 0,
{
    lemma_split_pieces_hold_no_delimiter(s, Delimiter::Whitespace);
    lemma_nonempty(split(s, Delimiter::Whitespace));
    assert forall|i: int, k: int|
        0 <= i < words(s).len() && 0 <= k < words(s)[i].len() implies !is_whitespace(
        #[trigger] words(s)[i][k],
    ) by {
        let ps = split(s, Delimiter::Whitespace);
        assert(ps.contains(words(s)[i]));
        let j = choose|j: int| 0 <= j < ps.len() && ps[j] == words(s)[i];
        assert(!Delimiter::Whitespace.cuts(ps[j][k]));
    }
}

proof fn lemma_nonempty(ps: Seq<Seq<char>>)
    ensures
        forall|i: int|
            0 <= i < nonempty(ps).len() ==> (#[trigger] nonempty(ps)[i]).len() > 0 && ps.contains(
                nonempty(ps)[i],
            ),
    decreases ps.len(),
{
    if ps.len() > 0 {
        lemma_nonempty(ps.drop_last());
        assert forall|i: int| 0 <= i < nonempty(ps).len() implies (
        #[trigger] nonempty(ps)[i]).len() > 0 && ps.contains(nonempty(ps)[i]) by {
            let before = nonempty(ps.drop_last());
            if i < before.len() {
                let j = choose|j: int|
                    0 <= j < ps.drop_last().len() && ps.drop_last()[j] == before[i];
                assert(ps[j] == nonempty(ps)[i]);
            } else {
                assert(ps[ps.len() - 1] == nonempty(ps)[i]);
            }
        }
    }
}

proof fn lemma_split_pieces_hold_no_delimiter(s: Seq<char>, d: Delimiter)
    ensures
        forall|i: int, k: int|
            0 <= i < split(s, d).len() && 0 <= k < split(s, d)[i].len() ==> !d.cuts(
                #[trigger] split(s, d)[i][k],
            ),
    decreases s.len(),
{
    if s.len() > 0 {
        lemma_split_pieces_hold_no_delimiter(s.drop_last(), d);
        lemma_split_nonempty(s.drop_last(), d);
        let before = split(s.drop_last(), d);
        let ps = split(s, d);
        assert forall|i: int, k: int| 0 <= i < ps.len() && 0 <= k < ps[i].len() implies !d.cuts(
            #[trigger] ps[i][k],
        ) by {
            if i < before.len() && k < before[i].len() {
                assert(ps[i][k] == before[i][k]);
            }
        }
    }
}

/// The pieces with the delimiter `d` put between them.
pub open spec fn join(ps: Seq<Seq<char>>, d: char) -> Seq<char>
    decreases ps.len(),
{
    if ps.len() == 0 {
        Seq::empty()
    } else if ps.len() == 1 {
        ps[0]
    } else {
        join(ps.drop_last(), d).push(d) + ps.last()
    }
}

/// Cutting a text at a character and joining the pieces with it again gives the text back, and
/// no piece holds that character.
pub proof fn law_split_join(s: Seq<char>, d: char)
    ensures
        join(split(s, Delimiter::Char(d)), d) == s,
        forall|i: int|
            0 <= i < split(s, Delimiter::Char(d)).len()
                ==> !(#[trigger] split(s, Delimiter::Char(d))[i]).contains(d),
    decreases s.len(),
{
    let d2 = Delimiter::Char(d);
    let ps = split(s, d2);
    if s.len() > 0 {
        let init = s.drop_last();
        let before = split(init, d2);
        law_split_join(init, d);
        lemma_split_nonempty(init, d2);
        assert(s =~= init.push(s.last()));
        if d2.cuts(s.last()) {
            assert(ps.drop_last() =~= before);
            assert(join(ps, d) =~= s);
        } else {
            assert(ps.drop_last() =~= before.drop_last());
            assert(join(ps, d) =~= join(before, d).push(s.last()));
            assert forall|i: int| 0 <= i < ps.len() implies !(#[trigger] ps[i]).contains(d) by {
                if i < ps.len() - 1 {
                    assert(ps[i] == before[i]);
                } else {
                    assert(ps[i] == before.last().push(s.last()));
                    assert(!before[before.len() - 1].contains(d));
                    if ps[i].contains(d) {
                        let k = choose|k: int| 0 <= k < ps[i].len() && ps[i][k] == d;
                        assert(before.last()[k] == d);
                    }
                }
            }
        }
    }
}

} // verus!
