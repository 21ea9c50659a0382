//! The desktop: which application is in front, and what the small commands of the window answer.

use crate::encoding::decode_utf16;
#[allow(unused_imports)]
use crate::encoding::{ascii_lower, decoded_utf16};
#[allow(unused_imports)]
use crate::text::texts;
use crate::text::{chars_of, is_text, string_of};
use vstd::prelude::*;
use vstd::slice::slice_subrange;
use vstd::string::*;

verus! {

/// What the system tells of the window in front.
pub enum ForegroundProbe {
    /// There is no window in front.
    NoWindow,
    /// The window belongs to no process.
    NoProcess,
    /// The process could not be opened.
    NoAccess,
    /// The module name of the process, in UTF-16; empty where the system gave none.
    Module(Vec<u16>),
}

/// Whether a name ends with the extension `.exe`, in any mix of cases. No character beside the
/// ASCII letters has `e` or `x` as its lower case, so this is to ask whether the name in lower case
/// ends with it.
pub open spec fn is_program(name: Seq<char>) -> bool {
    name.len() >= 4 && name.skip(name.len() - 4).map_values(|c: char| ascii_lower(c)) == ".exe"@
}

/// The application with the given module name: the name without the extension `.exe`.
pub open spec fn app_of(name: Seq<char>) -> Seq<char> {
    if is_program(name) {
        name.take(name.len() - 4)
    } else {
        name
    }
}

fn lower_char(c: char) -> (r: char)
    ensures
        r == ascii_lower(c),
{
    if 'A' <= c && c <= 'Z' {
        (c as u8 + 32) as char
    } else {
        c
    }
}

/// The application with the given module name.
pub fn app_name(name: &str) -> (r: String)
    ensures
        r@ == app_of(name@),
{
    let cs: Vec<char> = chars_of(name);
    if cs.len() < 4 {
        return name.to_string();
    }
    let n: usize = cs.len() - 4;
    let mut extension: Vec<char> = Vec::new();
    extension.push(lower_char(cs[n]));
    extension.push(lower_char(cs[n + 1]));
    extension.push(lower_char(cs[n + 2]));
    extension.push(lower_char(cs[n + 3]));
    assert(extension@ =~= name@.skip(n as int).map_values(|c: char| ascii_lower(c)));
    if is_text(extension.as_slice(), ".exe") {
        let stem: &[char] = slice_subrange(cs.as_slice(), 0, n);
        assert(stem@ =~= name@.take(n as int));
        string_of(stem)
    } else {
        name.to_string()
    }
}

/// The application in front.
pub fn get_active_app(probe: &ForegroundProbe) -> (r: String)
    ensures
        r@ == (match *probe {
            ForegroundProbe::NoWindow => "Idle / System"@,
            ForegroundProbe::NoProcess => "Idle / System"@,
            ForegroundProbe::NoAccess => "Unknown / System"@,
            ForegroundProbe::Module(units) => if units@.len() == 0 {
                "Unknown / System"@
            } else {
                app_of(decoded_utf16(units@))
            },
        }),
{
    match probe {
        ForegroundProbe::NoWindow | ForegroundProbe::NoProcess => "Idle / System".to_string(),
        ForegroundProbe::NoAccess => "Unknown / System".to_string(),
        ForegroundProbe::Module(units) => {
            if units.len() == 0 {
                return "Unknown / System".to_string();
            }
            app_name(decode_utf16(units.as_slice()).as_str())
        },
    }
}

/// A program's name keeps all that stands before its extension, whatever characters it has and in
/// whatever case the extension is written.
pub proof fn law_program_loses_its_extension(stem: Seq<char>, extension: Seq<char>)
    requires
        extension.map_values(|c: char| ascii_lower(c)) == ".exe"@,
    ensures
        app_of(stem + extension) == stem,
{
    reveal_strlit(".exe");
    let name = stem + extension;
    assert(extension.len() == extension.map_values(|c: char| ascii_lower(c)).len());
    assert(name.skip(name.len() - 4) =~= extension);
    assert(name.take(name.len() - 4) =~= stem);
}

/// The answer to a greeting.
pub fn greet(name: &str) -> (r: String)
    ensures
        r@ == "Hello, "@ + name@ + "!"@,
{
    let mut r: String = "Hello, ".to_string();
    r.append(name);
    r.append("!");
    r
}

/// The line that reports an error.
pub fn report_error(error: &str) -> (r: String)
    ensures
        r@ == "[ZOH ERROR REPORT] "@ + error@,
{
    let mut r: String = "[ZOH ERROR REPORT] ".to_string();
    r.append(error);
    r
}

/// The outcome of killing a process: whether it could be killed, where there is one.
pub fn kill_process(killed: Option<bool>) -> (r: Result<(), String>)
    ensures
        match r {
            Ok(_) => killed == Some(true),
            Err(message) => {
                ||| killed == Some(false) && message@ == "Failed to kill process"@
                ||| killed is None && message@ == "Process not found"@
            },
        },
{
    match killed {
        Some(true) => Ok(()),
        Some(false) => Err("Failed to kill process".to_string()),
        None => Err("Process not found".to_string()),
    }
}

/// The folder to open for a process: the one in which it works, where that is known.
pub fn open_project_folder(cwd: Option<String>) -> (r: Result<String, String>)
    ensures
        match r {
            Ok(folder) => cwd matches Some(c) && folder@ == c@,
            Err(message) => cwd is None && message@
                == "Could not find project folder for this process"@,
        },
{
    match cwd {
        Some(folder) => Ok(folder),
        None => Err("Could not find project folder for this process".to_string()),
    }
}

/// The arguments with which `powercfg` sets the power plan for high performance, or the balanced
/// one.
pub fn power_plan_arguments(active: bool) -> (r: Vec<String>)
    ensures
        texts(r@) == seq![
            "-setactive"@,
            if active {
                "8c5e7fda-e8bf-4a96-9a85-a6e23a8c635c"@
            } else {
                "381b4222-f694-41f0-9685-ff5bb260df2e"@
            },
        ],
{
    let plan: &str = if active {
        "8c5e7fda-e8bf-4a96-9a85-a6e23a8c635c"
    } else {
        "381b4222-f694-41f0-9685-ff5bb260df2e"
    };
    let mut r: Vec<String> = Vec::new();
    r.push("-setactive".to_string());
    r.push(plan.to_string());
    assert(texts(r@) =~= seq!["-setactive"@, plan@]);
    r
}

/// The answer to switching the gaming boost: `set` says whether the power plan could be set, or
/// why not; it is missing on other systems than Windows.
pub fn toggle_gaming_boost(active: bool, set: Option<Result<(), String>>) -> (r: Result<
    String,
    String,
>)
    ensures
        match set {
            None => r matches Ok(s) && s@ == "Feature only available on Windows"@,
            Some(Ok(_)) => r matches Ok(s) && s@ == (if active {
                "High Performance Mode Active"@
            } else {
                "Balanced Mode Resumed"@
            }),
            Some(Err(e)) => r matches Err(m) && m@ == e@,
        },
{
    match set {
        None => Ok("Feature only available on Windows".to_string()),
        Some(Ok(_)) => if active {
            Ok("High Performance Mode Active".to_string())
        } else {
            Ok("Balanced Mode Resumed".to_string())
        },
        Some(Err(e)) => Err(e),
    }
}

/// The answer to cleaning up memory: `ran` says whether the script could be run, or why not; it is
/// missing on other systems than Windows.
pub fn cleanup_gaming_memory(ran: Option<Result<(), String>>) -> (r: Result<String, String>)
    ensures
        match ran {
            None => r matches Ok(s) && s@ == "Not implemented for this OS"@,
            Some(Ok(_)) => r matches Ok(s) && s@ == "Memory working set optimization complete"@,
            Some(Err(e)) => r matches Err(m) && m@ == e@,
        },
{
    match ran {
        None => Ok("Not implemented for this OS".to_string()),
        Some(Ok(_)) => Ok("Memory working set optimization complete".to_string()),
        Some(Err(e)) => Err(e),
    }
}

} // verus!
