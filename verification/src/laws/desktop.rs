//! What the window is told, and how exported files are read.

#[allow(unused_imports)]
use crate::desktop::{
    app_name, app_of, cleanup_gaming_memory, get_active_app, greet, is_program, kill_process,
    open_project_folder, power_plan_arguments, report_error, toggle_gaming_boost, ForegroundProbe,
};
#[allow(unused_imports)]
use crate::encoding::{ascii_lower, decode_utf16};
#[allow(unused_imports)]
use crate::export::{
    base64_char, base64_error, base64_text, export_bytes, law_export_keeps_the_bytes,
};
#[allow(unused_imports)]
use crate::text::texts;
use vstd::prelude::*;

verus! {

/// Whether four characters are a dot and the letters of `exe`, each large or small.
pub open spec fn is_exe(s: Seq<char>) -> bool {
    s.len() == 4 && s[0] == '.' && (s[1] == 'e' || s[1] == 'E') && (s[2] == 'x' || s[2] == 'X') && (
    s[3] == 'e' || s[3] == 'E')
}

/// A name that ends with `.exe`, large or small, loses those four characters, and any other name
/// stays as it is.
pub proof fn law_app_name(name: &str, r: String, stem: Seq<char>, extension: Seq<char>)
    requires
        call_ensures(app_name, (name,), r),
    ensures
        is_exe(extension) && name@ == stem + extension ==> r@ == stem,
        name@.len() < 4 || !is_exe(name@.skip(name@.len() - 4)) ==> r@ == name@,
{
    reveal_strlit(".exe");
    if is_exe(extension) && name@ == stem + extension {
        assert(name@.skip(name@.len() - 4) =~= extension);
        assert(extension.map_values(|c: char| ascii_lower(c)) =~= ".exe"@);
        assert(name@.take(name@.len() - 4) =~= stem);
    }
    if name@.len() >= 4 && is_program(name@) {
        let e = name@.skip(name@.len() - 4);
        let l = e.map_values(|c: char| ascii_lower(c));
        assert(l[0] == '.' && l[1] == 'e' && l[2] == 'x' && l[3] == 'e');
        assert(ascii_lower(e[0]) == '.' && ascii_lower(e[1]) == 'e' && ascii_lower(e[2]) == 'x'
            && ascii_lower(e[3]) == 'e');
    }
}

/// The application in front is the program of the window in front; without a window or a process
/// the system is idle, and without a name it is not known.
pub proof fn law_application_in_front(
    probe: &ForegroundProbe,
    r: String,
    units: Vec<u16>,
    slice: &[u16],
    name: String,
    text: &str,
    app: String,
)
    requires
        call_ensures(get_active_app, (probe,), r),
        slice@ == units@,
        call_ensures(decode_utf16, (slice,), name),
        text@ == name@,
        call_ensures(app_name, (text,), app),
    ensures
        *probe is NoWindow || *probe is NoProcess ==> r@ == "Idle / System"@,
        *probe is NoAccess ==> r@ == "Unknown / System"@,
        *probe == ForegroundProbe::Module(units) && units@.len() == 0 ==> r@
            == "Unknown / System"@,
        *probe == ForegroundProbe::Module(units) && units@.len() > 0 ==> r@ == app@,
{
}

/// The small answers of the window.
pub proof fn law_answers(
    name: &str,
    greeting: String,
    error: &str,
    report: String,
    killed: Option<bool>,
    kill: Result<(), String>,
    cwd: Option<String>,
    folder: Result<String, String>,
)
    requires
        call_ensures(greet, (name,), greeting),
        call_ensures(report_error, (error,), report),
        call_ensures(kill_process, (killed,), kill),
        call_ensures(open_project_folder, (cwd,), folder),
    ensures
        greeting@ == "Hello, "@ + name@ + "!"@,
        report@ == "[ZOH ERROR REPORT] "@ + error@,
        killed == Some(true) ==> kill is Ok,
        killed == Some(false) ==> (kill matches Err(m) && m@ == "Failed to kill process"@),
        killed is None ==> (kill matches Err(m) && m@ == "Process not found"@),
        cwd matches Some(c) ==> (folder matches Ok(f) && f@ == c@),
        cwd is None ==> (folder matches Err(m) && m@
            == "Could not find project folder for this process"@),
{
}

/// The gaming boost takes the plan for high performance, and leaving it the balanced plan; a
/// failure is told with its message, and other systems than Windows have neither of the two.
pub proof fn law_gaming(
    active: bool,
    arguments: Vec<String>,
    set: Option<Result<(), String>>,
    toggled: Result<String, String>,
    ran: Option<Result<(), String>>,
    cleaned: Result<String, String>,
)
    requires
        call_ensures(power_plan_arguments, (active,), arguments),
        call_ensures(toggle_gaming_boost, (active, set), toggled),
        call_ensures(cleanup_gaming_memory, (ran,), cleaned),
    ensures
        arguments@.len() == 2,
        arguments@[0]@ == "-setactive"@,
        active ==> arguments@[1]@ == "8c5e7fda-e8bf-4a96-9a85-a6e23a8c635c"@,
        !active ==> arguments@[1]@ == "381b4222-f694-41f0-9685-ff5bb260df2e"@,
        set is None ==> (toggled matches Ok(s) && s@ == "Feature only available on Windows"@),
        set matches Some(Ok(_)) ==> (toggled matches Ok(s) && (active ==> s@
            == "High Performance Mode Active"@) && (!active ==> s@ == "Balanced Mode Resumed"@)),
        set matches Some(Err(e)) ==> (toggled matches Err(m) && m@ == e@),
        ran is None ==> (cleaned matches Ok(s) && s@ == "Not implemented for this OS"@),
        ran matches Some(Ok(_)) ==> (cleaned matches Ok(s) && s@
            == "Memory working set optimization complete"@),
        ran matches Some(Err(e)) ==> (cleaned matches Err(m) && m@ == e@),
{
    let ts = texts(arguments@);
    assert(ts.len() == arguments@.len());
    assert(ts[0] == arguments@[0]@ && ts[1] == arguments@[1]@);
}

/// An exported file has the bytes whose base64 text was sent, and a text that is that of no bytes
/// is refused.
pub proof fn law_export(text: &str, r: Result<Vec<u8>, String>, bytes: Seq<u8>)
    requires
        call_ensures(export_bytes, (text,), r),
    ensures
        text@ == base64_text(bytes) ==> (r matches Ok(b) && b@ == bytes),
        (forall|b: Seq<u8>| #[trigger] base64_text(b) != text@) ==> r is Err,
        r matches Err(m) ==> m@ == "Decode error: "@ + base64_error(text@),
{
    if text@ == base64_text(bytes) {
        law_export_keeps_the_bytes(
            bytes,
            match r {
                Ok(b) => Some(b@),
                Err(_) => None,
            },
        );
    }
}

/// The characters of base64 are the capital letters, the small letters, the digits, the plus sign
/// and the slash, in this order.
pub proof fn law_base64_alphabet(n: int)
    requires
        0 <= n < 64,
    ensures
        base64_char(n)
            == "ABCDEFGHIJKLMNOPQRSTUVWXYZabcdefghijklmnopqrstuvwxyz0123456789+/"@[n],
{
    reveal_strlit("ABCDEFGHIJKLMNOPQRSTUVWXYZabcdefghijklmnopqrstuvwxyz0123456789+/");
}

/// Three bytes are four characters of six bits each, the highest bits first, and text that stands
/// for groups of three bytes is written one group behind the other.
pub proof fn law_base64_groups(a: u8, b: u8, c: u8, rest: Seq<u8>)
    ensures
        base64_text(Seq::empty()) == Seq::<char>::empty(),
        base64_text(seq![a, b, c] + rest) == base64_text(seq![a, b, c]) + base64_text(rest),
        ({
            let bits = a as int * 65536 + b as int * 256 + c as int;
            base64_text(seq![a, b, c]) == seq![
                base64_char(bits / 262144),
                base64_char(bits / 4096 % 64),
                base64_char(bits / 64 % 64),
                base64_char(bits % 64),
            ]
        }),
{
    let one = seq![a, b, c];
    let s = one + rest;
    assert(s.skip(3) =~= rest);
    assert(one.skip(3) =~= Seq::empty());
    assert(base64_text(one.skip(3)) =~= Seq::empty());
    assert(s[0] == a && s[1] == b && s[2] == c);
    let bits = a as int * 65536 + b as int * 256 + c as int;
    assert(bits / 262144 == (a / 4) as int);
    assert(bits / 4096 % 64 == a % 4 * 16 + b / 16);
    assert(bits / 64 % 64 == b % 16 * 4 + c / 64);
    assert(bits % 64 == (c % 64) as int);
    assert(base64_text(one) =~= seq![
        base64_char((a / 4) as int),
        base64_char(a % 4 * 16 + b / 16),
        base64_char(b % 16 * 4 + c / 64),
        base64_char((c % 64) as int),
    ]);
    assert(base64_text(s) =~= base64_text(one) + base64_text(rest));
}

/// One byte left is two characters and two signs of padding, and two bytes left are three and one.
pub proof fn law_base64_padding(a: u8, b: u8)
    ensures
        base64_text(seq![a]) == seq![
            base64_text(seq![a, 0u8, 0u8])[0],
            base64_text(seq![a, 0u8, 0u8])[1],
            '=',
            '=',
        ],
        base64_text(seq![a, b]) == seq![
            base64_text(seq![a, b, 0u8])[0],
            base64_text(seq![a, b, 0u8])[1],
            base64_text(seq![a, b, 0u8])[2],
            '=',
        ],
{
    law_base64_groups(a, 0, 0, Seq::empty());
    law_base64_groups(a, b, 0, Seq::empty());
    let x = a as int * 65536;
    assert(x / 262144 == (a / 4) as int);
    assert(x / 4096 % 64 == a % 4 * 16);
    let y = a as int * 65536 + b as int * 256;
    assert(y / 262144 == (a / 4) as int);
    assert(y / 4096 % 64 == a % 4 * 16 + b / 16);
    assert(y / 64 % 64 == b % 16 * 4);
}

} // verus!
