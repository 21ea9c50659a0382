//! What is read of the wireless signal and the graphics card.

#[allow(unused_imports)]
use crate::encoding::decoded;
#[allow(unused_imports)]
use crate::hardware::{
    counter_text, get_gpu_name_fallback, get_gpu_usage_fallback, get_vram_total_fallback,
    get_wifi_signal, gpu_name, gpu_name_in, nvidia_in, nvidia_reading, signal_in, signal_in_line,
    vram_in, vram_total, wifi_signal, NvidiaReading, NvidiaView,
};
#[allow(unused_imports)]
use crate::laws::number::{law_decimal_is_numerals, law_number_is_read};
#[allow(unused_imports)]
use crate::laws::text::{
    is_bare, is_blank, law_has, law_last_piece, law_lines_are_read_back, law_split_at_a_delimiter,
    law_text_without_delimiter_is_one_piece, law_trim, law_trim_end, written,
};
#[allow(unused_imports)]
use crate::number::{decimal, is_digit, parsed};
#[allow(unused_imports)]
use crate::text::{has, is_whitespace, lines, split, trim, trim_end, Delimiter};
use vstd::prelude::*;

verus! {

/// Whether a line gives no signal strength: it does not speak of the signal, or what stands behind
/// its last colon is no number, even without white space and percent signs.
pub open spec fn gives_no_signal(line: Seq<char>) -> bool {
    !(has(line, "Signal"@)) || parsed(
        trim_end(trim(split(line, Delimiter::Char(':')).last()), Delimiter::Char('%')),
        4294967295,
    ) is None
}

/// A line that tells the signal strength: the word `Signal` somewhere before the last colon, and
/// behind that the number, with percent signs and white space around it.
pub open spec fn signal_line(
    a: Seq<char>,
    b: Seq<char>,
    gap: Seq<char>,
    n: nat,
    signs: nat,
    end: Seq<char>,
) -> Seq<char> {
    a + "Signal"@ + b + seq![':'] + (gap + (decimal(n) + Seq::new(signs, |i: int| '%')) + end)
}

proof fn lemma_signal_line(
    a: Seq<char>,
    b: Seq<char>,
    gap: Seq<char>,
    n: nat,
    signs: nat,
    end: Seq<char>,
)
    requires
        is_blank(gap),
        is_blank(end),
        n <= u32::MAX,
    ensures
        signal_in_line(signal_line(a, b, gap, n, signs, end)) == Some(n),
{
    let percents = Seq::new(signs, |i: int| '%');
    let core = decimal(n) + percents;
    let value = gap + core + end;
    let line = signal_line(a, b, gap, n, signs, end);
    law_has(a, "Signal"@, b + seq![':'] + value);
    assert(line =~= a + "Signal"@ + (b + seq![':'] + value));
    law_decimal_is_numerals(n);
    assert(is_digit(decimal(n)[0]));
    assert(is_digit(decimal(n)[decimal(n).len() - 1]));
    assert(core[0] == decimal(n)[0]);
    assert(!value.contains(':')) by {
        if value.contains(':') {
            let i = choose|i: int| 0 <= i < value.len() && value[i] == ':';
            if i < gap.len() {
                assert(is_whitespace(gap[i]));
            } else if i < gap.len() + core.len() {
                let j = i - gap.len();
                assert(value[i] == core[j]);
                if j < decimal(n).len() {
                    assert(is_digit(decimal(n)[j]));
                }
            } else {
                assert(is_whitespace(end[i - gap.len() - core.len()]));
            }
        }
    }
    law_last_piece(a + "Signal"@ + b, ':', value);
    law_trim(gap, core, end);
    law_trim_end(decimal(n), '%', signs);
    law_number_is_read(false, 0, n, u32::MAX as nat);
    assert(Seq::<char>::empty() + Seq::new(0, |i: int| '0') + decimal(n) =~= decimal(n));
}

proof fn lemma_first_signal(rows: Seq<Seq<char>>, k: int)
    requires
        0 <= k <= rows.len(),
        forall|i: int| 0 <= i < k ==> gives_no_signal(#[trigger] rows[i]),
    ensures
        signal_in(rows) == signal_in(rows.skip(k)),
    decreases k,
{
    if k > 0 {
        assert(gives_no_signal(rows[0]));
        let rest = rows.drop_first();
        assert forall|i: int| 0 <= i < k - 1 implies gives_no_signal(#[trigger] rest[i]) by {
            assert(rest[i] == rows[i + 1]);
        }
        lemma_first_signal(rest, k - 1);
        assert(rest.skip(k - 1) =~= rows.skip(k));
    } else {
        assert(rows.skip(0) =~= rows);
    }
}

/// The signal strength is the number in the first line that tells one, whatever its size.
pub proof fn law_signal_is_read(
    text: &str,
    r: u32,
    k: int,
    a: Seq<char>,
    b: Seq<char>,
    gap: Seq<char>,
    n: u32,
    signs: nat,
    end: Seq<char>,
)
    requires
        call_ensures(wifi_signal, (text,), r),
        0 <= k < lines(text@).len(),
        forall|i: int| 0 <= i < k ==> gives_no_signal(#[trigger] lines(text@)[i]),
        lines(text@)[k] == signal_line(a, b, gap, n as nat, signs, end),
        is_blank(gap),
        is_blank(end),
    ensures
        r == n,
{
    lemma_first_signal(lines(text@), k);
    lemma_signal_line(a, b, gap, n as nat, signs, end);
    assert(lines(text@).skip(k)[0] == lines(text@)[k]);
}

/// A text of the one line `Signal : n%` gives `n`.
pub proof fn law_signal_of_one_line(text: &str, r: u32, n: u32)
    requires
        call_ensures(wifi_signal, (text,), r),
        text@ == "Signal : "@ + decimal(n as nat) + "%"@,
    ensures
        r == n,
{
    let e = Seq::<char>::empty();
    let d = decimal(n as nat);
    reveal_strlit("Signal : ");
    reveal_strlit("Signal");
    reveal_strlit("%");
    assert("Signal : "@ =~= "Signal"@ + seq![' ', ':', ' ']);
    assert("%"@ =~= Seq::new(1, |i: int| '%'));
    let line = signal_line(e, seq![' '], seq![' '], n as nat, 1, e);
    assert(text@ =~= line);
    law_decimal_is_numerals(n as nat);
    assert(!text@.contains('\n')) by {
        if text@.contains('\n') {
            let i = choose|i: int| 0 <= i < text@.len() && text@[i] == '\n';
            if 9 <= i < 9 + d.len() {
                assert(text@[i] == d[i - 9]);
                assert(is_digit(d[i - 9]));
            } else if i < 9 {
                assert(text@[i] == "Signal : "@[i]);
            } else {
                assert(text@[i] == "%"@[i - 9 - d.len()]);
            }
        }
    }
    law_lines_are_read_back(Seq::empty(), Seq::empty(), text@);
    assert(written(Seq::empty(), Seq::empty()) + text@ =~= text@);
    assert(lines(text@) =~= seq![text@]);
    law_signal_is_read(text, r, 0, e, seq![' '], seq![' '], n, 1, e);
}

/// Without a line that tells a signal strength it is zero.
pub proof fn law_no_signal(text: &str, r: u32)
    requires
        call_ensures(wifi_signal, (text,), r),
        forall|i: int|
            0 <= i < lines(text@).len() ==> gives_no_signal(#[trigger] lines(text@)[i]),
    ensures
        r == 0,
{
    lemma_first_signal(lines(text@), lines(text@).len() as int);
}

/// Whether a line names no graphics card: it is blank, or the heading.
pub open spec fn names_no_card(line: Seq<char>) -> bool {
    trim(line) == Seq::<char>::empty() || trim(line) == "Name"@
}

proof fn lemma_first_card(rows: Seq<Seq<char>>, k: int)
    requires
        0 <= k <= rows.len(),
        forall|i: int| 0 <= i < k ==> names_no_card(#[trigger] rows[i]),
    ensures
        gpu_name_in(rows) == gpu_name_in(rows.skip(k)),
    decreases k,
{
    if k > 0 {
        assert(names_no_card(rows[0]));
        let rest = rows.drop_first();
        assert forall|i: int| 0 <= i < k - 1 implies names_no_card(#[trigger] rest[i]) by {
            assert(rest[i] == rows[i + 1]);
        }
        lemma_first_card(rest, k - 1);
        assert(rest.skip(k - 1) =~= rows.skip(k));
    } else {
        assert(rows.skip(0) =~= rows);
    }
}

/// The graphics card is the first line behind the heading that is not blank, without the white
/// space around it; where there is none it is `N/A`.
pub proof fn law_card_is_read(
    text: &str,
    r: String,
    k: int,
    a: Seq<char>,
    card: Seq<char>,
    b: Seq<char>,
)
    requires
        call_ensures(gpu_name, (text,), r),
        0 <= k <= lines(text@).len(),
        forall|i: int| 0 <= i < k ==> names_no_card(#[trigger] lines(text@)[i]),
        k < lines(text@).len() ==> lines(text@)[k] == a + card + b,
        is_blank(a),
        is_blank(b),
        is_bare(card),
        card.len() > 0,
        card != "Name"@,
    ensures
        r@ == (if k < lines(text@).len() {
            card
        } else {
            "N/A"@
        }),
{
    lemma_first_card(lines(text@), k);
    law_trim(a, card, b);
    if k < lines(text@).len() {
        assert(lines(text@).skip(k)[0] == lines(text@)[k]);
    }
}

/// Whether a line gives no size of the video memory: it is no number, even without the white space
/// around it.
pub open spec fn gives_no_size(line: Seq<char>) -> bool {
    parsed(trim(line), 18446744073709551615) is None
}

proof fn lemma_first_size(rows: Seq<Seq<char>>, k: int)
    requires
        0 <= k <= rows.len(),
        forall|i: int| 0 <= i < k ==> gives_no_size(#[trigger] rows[i]),
    ensures
        vram_in(rows) == vram_in(rows.skip(k)),
    decreases k,
{
    if k > 0 {
        assert(gives_no_size(rows[0]));
        let rest = rows.drop_first();
        assert forall|i: int| 0 <= i < k - 1 implies gives_no_size(#[trigger] rest[i]) by {
            assert(rest[i] == rows[i + 1]);
        }
        lemma_first_size(rest, k - 1);
        assert(rest.skip(k - 1) =~= rows.skip(k));
    } else {
        assert(rows.skip(0) =~= rows);
    }
}

/// The size of the video memory is the number in the first line that is a number, whatever its
/// size; where there is none it is zero.
pub proof fn law_video_memory_is_read(
    text: &str,
    r: u64,
    k: int,
    a: Seq<char>,
    n: u64,
    b: Seq<char>,
)
    requires
        call_ensures(vram_total, (text,), r),
        0 <= k <= lines(text@).len(),
        forall|i: int| 0 <= i < k ==> gives_no_size(#[trigger] lines(text@)[i]),
        k < lines(text@).len() ==> lines(text@)[k] == a + decimal(n as nat) + b,
        is_blank(a),
        is_blank(b),
    ensures
        r == (if k < lines(text@).len() {
            n
        } else {
            0
        }),
{
    lemma_first_size(lines(text@), k);
    let d = decimal(n as nat);
    law_decimal_is_numerals(n as nat);
    assert(is_digit(d[0]) && is_digit(d[d.len() - 1]));
    law_trim(a, d, b);
    law_number_is_read(false, 0, n as nat, u64::MAX as nat);
    assert(Seq::<char>::empty() + Seq::new(0, |i: int| '0') + d =~= d);
    if k < lines(text@).len() {
        assert(lines(text@).skip(k)[0] == lines(text@)[k]);
    }
}

/// The load of the graphics card is what stands before the first comma, and the video memory in
/// use is the number behind it, in mebibytes; more fields change nothing.
pub proof fn law_nvidia_is_read(
    text: &str,
    r: NvidiaReading,
    g0: Seq<char>,
    usage: Seq<char>,
    g1: Seq<char>,
    g2: Seq<char>,
    mebibytes: u64,
    g3: Seq<char>,
    more: Option<Seq<char>>,
)
    requires
        call_ensures(nvidia_reading, (text,), r),
        is_blank(g0),
        is_blank(g1),
        is_blank(g2),
        is_blank(g3),
        is_bare(usage),
        !usage.contains(','),
        text@ == (g0 + usage + g1).push(',') + (g2 + decimal(mebibytes as nat) + g3) + (match more {
            Some(s) => seq![','] + s,
            None => Seq::empty(),
        }),
    ensures
        mebibytes * 1048576 <= u64::MAX ==> (r matches NvidiaReading::Present { usage: u, vram }
            && u@ == usage && vram == mebibytes * 1048576),
        mebibytes * 1048576 > u64::MAX ==> r is OutOfRange,
{
    let d = Delimiter::Char(',');
    let first = g0 + usage + g1;
    let number = decimal(mebibytes as nat);
    let second = g2 + number + g3;
    law_decimal_is_numerals(mebibytes as nat);
    assert(is_digit(number[0]) && is_digit(number[number.len() - 1]));
    assert forall|i: int| 0 <= i < first.len() implies !d.cuts(#[trigger] first[i]) by {
        if i < g0.len() {
            assert(is_whitespace(g0[i]));
        } else if i < g0.len() + usage.len() {
            assert(usage.contains(usage[i - g0.len()]));
        } else {
            assert(is_whitespace(g1[i - g0.len() - usage.len()]));
        }
    }
    assert forall|i: int| 0 <= i < second.len() implies !d.cuts(#[trigger] second[i]) by {
        if i < g2.len() {
            assert(is_whitespace(g2[i]));
        } else if i < g2.len() + number.len() {
            assert(is_digit(number[i - g2.len()]));
        } else {
            assert(is_whitespace(g3[i - g2.len() - number.len()]));
        }
    }
    law_text_without_delimiter_is_one_piece(first, d);
    law_text_without_delimiter_is_one_piece(second, d);
    match more {
        Some(s) => {
            law_split_at_a_delimiter(second, ',', s, d);
            law_split_at_a_delimiter(first, ',', second.push(',') + s, d);
            assert(text@ =~= first.push(',') + (second.push(',') + s));
        },
        None => {
            law_split_at_a_delimiter(first, ',', second, d);
            assert(text@ =~= first.push(',') + second);
        },
    }
    let parts = split(text@, d);
    assert(parts.len() >= 2 && parts[0] == first && parts[1] == second);
    law_trim(g0, usage, g1);
    law_trim(g2, number, g3);
    law_number_is_read(false, 0, mebibytes as nat, u64::MAX as nat);
    assert(Seq::<char>::empty() + Seq::new(0, |i: int| '0') + number =~= number);
    assert(r@ == nvidia_in(text@));
}

/// Without a comma there is no reading, and a second field that is no number counts as no memory in
/// use.
pub proof fn law_other_nvidia_texts(
    text: &str,
    r: NvidiaReading,
    first: Seq<char>,
    second: Seq<char>,
)
    requires
        call_ensures(nvidia_reading, (text,), r),
    ensures
        !text@.contains(',') ==> r is Absent,
        text@ == first.push(',') + second && !first.contains(',') && !second.contains(',')
            && parsed(trim(second), 18446744073709551615) is None ==> (r matches NvidiaReading::Present { usage, vram }
            && usage@ == trim(first) && vram == 0),
{
    let d = Delimiter::Char(',');
    assert(r@ == nvidia_in(text@));
    if !text@.contains(',') {
        assert forall|i: int| 0 <= i < text@.len() implies !d.cuts(#[trigger] text@[i]) by {
            assert(text@.contains(text@[i]));
        }
        law_text_without_delimiter_is_one_piece(text@, d);
    }
    if text@ == first.push(',') + second && !first.contains(',') && !second.contains(',')
        && parsed(trim(second), 18446744073709551615) is None {
        assert forall|i: int| 0 <= i < first.len() implies !d.cuts(#[trigger] first[i]) by {
            assert(first.contains(first[i]));
        }
        assert forall|i: int| 0 <= i < second.len() implies !d.cuts(#[trigger] second[i]) by {
            assert(second.contains(second[i]));
        }
        law_text_without_delimiter_is_one_piece(first, d);
        law_text_without_delimiter_is_one_piece(second, d);
        law_split_at_a_delimiter(first, ',', second, d);
        let parts = split(text@, d);
        assert(parts =~= seq![first, second]);
    }
}

/// What a command printed is read as the text that it printed.
pub proof fn law_readings_of_bytes(
    bytes: &[u8],
    text: &str,
    signal: (u32, u32),
    card: (String, String),
    memory: (u64, u64),
    nvidia: (NvidiaReading, NvidiaReading),
)
    requires
        text@ == decoded(bytes@),
        call_ensures(get_wifi_signal, (Some(bytes),), signal.0),
        call_ensures(wifi_signal, (text,), signal.1),
        call_ensures(get_gpu_name_fallback, (Some(bytes),), card.0),
        call_ensures(gpu_name, (text,), card.1),
        call_ensures(get_vram_total_fallback, (Some(bytes),), memory.0),
        call_ensures(vram_total, (text,), memory.1),
        call_ensures(get_gpu_usage_fallback, (Some(bytes),), nvidia.0),
        call_ensures(nvidia_reading, (text,), nvidia.1),
    ensures
        signal.0 == signal.1,
        card.0@ == card.1@,
        memory.0 == memory.1,
        nvidia.0@ == nvidia.1@,
{
}

/// A command that did not run gives no reading.
pub proof fn law_readings_of_nothing(
    signal: u32,
    card: String,
    memory: u64,
    nvidia: NvidiaReading,
    counter: Option<String>,
)
    requires
        call_ensures(get_wifi_signal, (None,), signal),
        call_ensures(get_gpu_name_fallback, (None,), card),
        call_ensures(get_vram_total_fallback, (None,), memory),
        call_ensures(get_gpu_usage_fallback, (None,), nvidia),
        call_ensures(counter_text, (None,), counter),
    ensures
        signal == 0,
        card@ == "N/A"@,
        memory == 0,
        nvidia is Absent,
        counter is None,
{
    assert(nvidia@ is Absent);
}

/// A counter is the text that was printed, without the white space around it.
pub proof fn law_counter_is_read(
    bytes: &[u8],
    r: Option<String>,
    a: Seq<char>,
    number: Seq<char>,
    b: Seq<char>,
)
    requires
        call_ensures(counter_text, (Some(bytes),), r),
        decoded(bytes@) == a + number + b,
        is_blank(a),
        is_blank(b),
        is_bare(number),
    ensures
        r matches Some(s) && s@ == number,
{
    law_trim(a, number, b);
}

} // verus!
