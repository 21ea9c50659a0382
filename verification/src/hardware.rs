//! Readings of the wireless signal and the graphics card, taken from what system commands print.

use crate::encoding::decode;
#[allow(unused_imports)]
use crate::encoding::decoded;
#[allow(unused_imports)]
use crate::model::view_of;
#[allow(unused_imports)]
use crate::number::parsed;
use crate::number::{parse_number, parse_u32};
use crate::text::{
    chars_of, has_text, is_text, lines_of, split_chars, string_of, trim_chars, trim_end_chars,
    Delimiter,
};
#[allow(unused_imports)]
use crate::text::{has, lines, pieces, split, trim, trim_end};
use vstd::prelude::*;

verus! {

/// The signal strength that a line of `netsh wlan show interfaces` gives: the number behind its
/// last colon, without percent signs, where the line speaks of the signal.
pub open spec fn signal_in_line(line: Seq<char>) -> Option<nat> {
    if has(line, "Signal"@) {
        let value = split(line, Delimiter::Char(':')).last();
        parsed(
            trim_end(trim(value), Delimiter::Char('%')),
            u32::MAX as nat,
        )
    } else {
        None
    }
}

/// The signal strength that the first of these lines with one gives, or zero.
pub open spec fn signal_in(rows: Seq<Seq<char>>) -> nat
    decreases rows.len(),
{
    if rows.len() == 0 {
        0
    } else {
        match signal_in_line(rows[0]) {
            Some(n) => n,
            None => signal_in(rows.drop_first()),
        }
    }
}

/// The first of these lines, trimmed, that is neither empty nor the heading `Name`, or `N/A`.
pub open spec fn gpu_name_in(rows: Seq<Seq<char>>) -> Seq<char>
    decreases rows.len(),
{
    if rows.len() == 0 {
        "N/A"@
    } else {
        let line = trim(rows[0]);
        if line.len() > 0 && line != "Name"@ {
            line
        } else {
            gpu_name_in(rows.drop_first())
        }
    }
}

/// The first of these lines, trimmed, that is a number, or zero.
pub open spec fn vram_in(rows: Seq<Seq<char>>) -> nat
    decreases rows.len(),
{
    if rows.len() == 0 {
        0
    } else {
        let line = trim(rows[0]);
        match parsed(line, u64::MAX as nat) {
            Some(n) => n,
            None => vram_in(rows.drop_first()),
        }
    }
}

fn line_signal(line: &[char]) -> (r: Option<u32>)
    ensures
        signal_in_line(line@) == (match r {
            Some(n) => Some(n as nat),
            None => None::<nat>,
        }),
{
    if !has_text(line, "Signal") {
        return None;
    }
    let parts: Vec<&[char]> = split_chars(line, Delimiter::Char(':'));
    let value: &[char] = parts[parts.len() - 1];
    assert(pieces(parts@).last() == value@);
    parse_u32(trim_end_chars(trim_chars(value), Delimiter::Char('%')))
}

/// The wireless signal strength in percent that the text of `netsh wlan show interfaces` gives.
pub fn wifi_signal(text: &str) -> (r: u32)
    ensures
        r == signal_in(lines(text@)),
{
    let cs: Vec<char> = chars_of(text);
    let rows: Vec<&[char]> = lines_of(cs.as_slice());
    let ghost all = lines(text@);
    let mut i: usize = 0;
    assert(all.skip(0) =~= all);
    while i < rows.len()
        invariant
            i <= rows.len(),
            all == lines(text@),
            all == pieces(rows@),
            signal_in(all) == signal_in(all.skip(i as int)),
        decreases rows.len() - i,
    {
        assert(all.skip(i as int)[0] == rows@[i as int]@);
        assert(all.skip(i as int).drop_first() =~= all.skip(i + 1));
        if let Some(n) = line_signal(rows[i]) {
            return n;
        }
        i += 1;
    }
    0
}

/// The graphics card that the text of `wmic path win32_VideoController get name` names.
pub fn gpu_name(text: &str) -> (r: String)
    ensures
        r@ == gpu_name_in(lines(text@)),
{
    let cs: Vec<char> = chars_of(text);
    let rows: Vec<&[char]> = lines_of(cs.as_slice());
    let ghost all = lines(text@);
    let mut i: usize = 0;
    assert(all.skip(0) =~= all);
    while i < rows.len()
        invariant
            i <= rows.len(),
            all == lines(text@),
            all == pieces(rows@),
            gpu_name_in(all) == gpu_name_in(all.skip(i as int)),
        decreases rows.len() - i,
    {
        assert(all.skip(i as int)[0] == rows@[i as int]@);
        assert(all.skip(i as int).drop_first() =~= all.skip(i + 1));
        let line: &[char] = trim_chars(rows[i]);
        if line.len() > 0 && !is_text(line, "Name") {
            return string_of(line);
        }
        i += 1;
    }
    "N/A".to_string()
}

/// The bytes of video memory that the text of `wmic path win32_VideoController get AdapterRAM`
/// gives.
pub fn vram_total(text: &str) -> (r: u64)
    ensures
        r == vram_in(lines(text@)),
{
    let cs: Vec<char> = chars_of(text);
    let rows: Vec<&[char]> = lines_of(cs.as_slice());
    let ghost all = lines(text@);
    let mut i: usize = 0;
    assert(all.skip(0) =~= all);
    while i < rows.len()
        invariant
            i <= rows.len(),
            all == lines(text@),
            all == pieces(rows@),
            vram_in(all) == vram_in(all.skip(i as int)),
        decreases rows.len() - i,
    {
        assert(all.skip(i as int)[0] == rows@[i as int]@);
        assert(all.skip(i as int).drop_first() =~= all.skip(i + 1));
        if let Some(n) = parse_number(trim_chars(rows[i]), u64::MAX) {
            return n;
        }
        i += 1;
    }
    0
}

/// The wireless signal strength in what `netsh wlan show interfaces` printed; zero where the
/// command did not run.
pub fn get_wifi_signal(stdout: Option<&[u8]>) -> (r: u32)
    ensures
        r == (match stdout {
            Some(bytes) => signal_in(lines(decoded(bytes@))),
            None => 0,
        }),
{
    match stdout {
        Some(bytes) => wifi_signal(decode(bytes).as_str()),
        None => 0,
    }
}

/// The graphics card in what `wmic` printed; `N/A` where the command did not run.
pub fn get_gpu_name_fallback(stdout: Option<&[u8]>) -> (r: String)
    ensures
        r@ == (match stdout {
            Some(bytes) => gpu_name_in(lines(decoded(bytes@))),
            None => "N/A"@,
        }),
{
    match stdout {
        Some(bytes) => gpu_name(decode(bytes).as_str()),
        None => "N/A".to_string(),
    }
}

/// The bytes of video memory in what `wmic` printed; zero where the command did not run.
pub fn get_vram_total_fallback(stdout: Option<&[u8]>) -> (r: u64)
    ensures
        r == (match stdout {
            Some(bytes) => vram_in(lines(decoded(bytes@))),
            None => 0,
        }),
{
    match stdout {
        Some(bytes) => vram_total(decode(bytes).as_str()),
        None => 0,
    }
}

/// What `nvidia-smi` reports of a graphics card.
#[derive(Debug, PartialEq)]
pub enum NvidiaReading {
    /// No reading.
    Absent,
    /// The text of the load in percent, and the bytes of video memory in use.
    Present { usage: String, vram: u64 },
    /// A reading of more bytes of video memory than a `u64` counts.
    OutOfRange,
}

/// The contents of an [`NvidiaReading`].
pub enum NvidiaView {
    Absent,
    Present { usage: Seq<char>, vram: nat },
    OutOfRange,
}

impl View for NvidiaReading {
    type V = NvidiaView;

    open spec fn view(&self) -> NvidiaView {
        match *self {
            NvidiaReading::Absent => NvidiaView::Absent,
            NvidiaReading::Present { usage, vram } => NvidiaView::Present {
                usage: usage@,
                vram: vram as nat,
            },
            NvidiaReading::OutOfRange => NvidiaView::OutOfRange,
        }
    }
}

/// The reading in a text of comma-separated values: the load comes first, and then the video
/// memory in use in mebibytes, which counts as zero where it is no number.
pub open spec fn nvidia_in(text: Seq<char>) -> NvidiaView {
    let parts = split(text, Delimiter::Char(','));
    if parts.len() < 2 {
        NvidiaView::Absent
    } else {
        let mebibytes = match parsed(trim(parts[1]), u64::MAX as nat) {
            Some(n) => n,
            None => 0,
        };
        if mebibytes * 1024 * 1024 <= u64::MAX {
            NvidiaView::Present {
                usage: trim(parts[0]),
                vram: mebibytes * 1024 * 1024,
            }
        } else {
            NvidiaView::OutOfRange
        }
    }
}

/// Reads the text that `nvidia-smi` prints for the load and the video memory in use.
pub fn nvidia_reading(text: &str) -> (r: NvidiaReading)
    ensures
        r@ == nvidia_in(text@),
{
    let cs: Vec<char> = chars_of(text);
    let parts: Vec<&[char]> = split_chars(cs.as_slice(), Delimiter::Char(','));
    if parts.len() < 2 {
        return NvidiaReading::Absent;
    }
    proof {
        let ps = pieces(parts@);
        assert(ps[0] == parts@[0]@);
        assert(ps[1] == parts@[1]@);
    }
    let mebibytes: u64 = match parse_number(trim_chars(parts[1]), u64::MAX) {
        Some(n) => n,
        None => 0,
    };
    if mebibytes > u64::MAX / 1024 / 1024 {
        return NvidiaReading::OutOfRange;
    }
    NvidiaReading::Present {
        usage: string_of(trim_chars(parts[0])),
        vram: mebibytes * 1024 * 1024,
    }
}

/// The reading in what `nvidia-smi` printed; none where the command did not run.
pub fn get_gpu_usage_fallback(stdout: Option<&[u8]>) -> (r: NvidiaReading)
    ensures
        r@ == (match stdout {
            Some(bytes) => nvidia_in(decoded(bytes@)),
            None => NvidiaView::Absent,
        }),
{
    match stdout {
        Some(bytes) => nvidia_reading(decode(bytes).as_str()),
        None => NvidiaReading::Absent,
    }
}

/// The number that a performance counter printed, as text without white space around it; none
/// where the command did not run.
pub fn counter_text(stdout: Option<&[u8]>) -> (r: Option<String>)
    ensures
        view_of(r) == (match stdout {
            Some(bytes) => Some(trim(decoded(bytes@))),
            None => None,
        }),
{
    match stdout {
        Some(bytes) => {
            let cs: Vec<char> = chars_of(decode(bytes).as_str());
            Some(string_of(trim_chars(cs.as_slice())))
        },
        None => None,
    }
}

} // verus!
