//! The development environment: the versions of the tools that are installed, the system and the
//! shell.

use crate::encoding::decode;
#[allow(unused_imports)]
use crate::encoding::decoded;
use crate::text::{
    chars_of, lines_of, split_chars, string_of, trim_chars, without_text, words_of, Delimiter,
};
#[allow(unused_imports)]
use crate::text::{lines, pieces, split, trim, without, words};
use std::collections::HashMap;
use vstd::prelude::*;
use vstd::string::*;

verus! {

/// The development environment.
pub struct EnvironmentInfo {
    pub node_version: String,
    pub python_version: String,
    pub rust_version: String,
    pub git_version: String,
    pub java_version: String,
    pub go_version: String,
    pub dotnet_version: String,
    pub php_version: String,
    pub os_details: String,
    pub shell_type: String,
    pub env_vars: HashMap<String, String>,
}

/// What the tools printed when they were asked for their versions, each where it could be run.
pub struct ToolOutputs {
    pub node: Option<Vec<u8>>,
    pub python: Option<Vec<u8>>,
    /// What `python3` printed; of use where `python` could not be run.
    pub python3: Option<Vec<u8>>,
    pub rustc: Option<Vec<u8>>,
    pub git: Option<Vec<u8>>,
    /// What `java` printed on its error stream.
    pub java: Option<Vec<u8>>,
    pub go: Option<Vec<u8>>,
    pub dotnet: Option<Vec<u8>>,
    pub php: Option<Vec<u8>>,
}

/// The operating system's own account of itself, as far as it gives one.
pub struct OsNames {
    pub name: Option<String>,
    pub version: Option<String>,
    pub arch: String,
}

/// How the shell shows in the environment variables.
pub enum ShellProbe {
    /// On Windows: whether `PSModulePath` is set.
    Windows { ps_module_path: bool },
    /// Elsewhere: the value of `SHELL`.
    Unix { shell: Option<String> },
}

/// A text that may be missing, which then is empty.
pub open spec fn or_empty(s: Option<String>) -> Seq<char> {
    match s {
        Some(t) => t@,
        None => Seq::empty(),
    }
}

/// The word at place `n`, or `Unknown`.
pub open spec fn word_at(s: Seq<char>, n: int) -> Seq<char> {
    if n < words(s).len() {
        words(s)[n]
    } else {
        "Unknown"@
    }
}

/// A text of `git --version`, without the words that come before the version.
pub open spec fn git_version_in(s: Seq<char>) -> Seq<char> {
    trim(without(s, "git version"@))
}

/// The first line in a text of `java -version`, without the words that come before the version.
pub open spec fn java_version_in(s: Seq<char>) -> Seq<char> {
    if lines(s).len() > 0 {
        trim(without(without(lines(s)[0], "java version"@), "openjdk version"@))
    } else {
        "Not found"@
    }
}

/// The second word in the first line of a text of `php -v`.
pub open spec fn php_version_in(s: Seq<char>) -> Seq<char> {
    if lines(s).len() > 0 {
        word_at(lines(s)[0], 1)
    } else {
        "Not found"@
    }
}

/// How the version of a tool stands in what it prints.
pub enum VersionStyle {
    /// All of the text, trimmed.
    Whole,
    /// The word at a place, counted from zero.
    Word(usize),
    /// As `git --version` prints it.
    Git,
    /// As `java -version` prints it.
    Java,
    /// As `php -v` prints it.
    Php,
}

/// The version in what a tool prints.
pub open spec fn version_in(s: Seq<char>, style: VersionStyle) -> Seq<char> {
    match style {
        VersionStyle::Whole => trim(s),
        VersionStyle::Word(n) => word_at(s, n as int),
        VersionStyle::Git => git_version_in(s),
        VersionStyle::Java => java_version_in(s),
        VersionStyle::Php => php_version_in(s),
    }
}

/// The version in what a tool printed, or `Not found` where it could not be run.
pub open spec fn version_of(output: Option<Vec<u8>>, style: VersionStyle) -> Seq<char> {
    match output {
        Some(bytes) => version_in(decoded(bytes@), style),
        None => "Not found"@,
    }
}

/// The name of the shell.
pub open spec fn shell_of(probe: ShellProbe) -> Seq<char> {
    match probe {
        ShellProbe::Windows { ps_module_path } => if ps_module_path {
            "PowerShell"@
        } else {
            "CMD"@
        },
        ShellProbe::Unix { shell: Some(path) } => split(path@, Delimiter::Char('/')).last(),
        ShellProbe::Unix { shell: None } => "Unknown"@,
    }
}

/// The name, the version and the architecture of the system.
pub open spec fn os_details_of(os: OsNames) -> Seq<char> {
    or_empty(os.name) + " "@ + or_empty(os.version) + " ("@ + os.arch@ + ")"@
}

fn word_or_unknown(s: &[char], n: usize) -> (r: String)
    ensures
        r@ == word_at(s@, n as int),
{
    let ws: Vec<&[char]> = words_of(s);
    if n < ws.len() {
        assert(words(s@)[n as int] == ws@[n as int]@);
        string_of(ws[n])
    } else {
        "Unknown".to_string()
    }
}

/// The version in what a tool prints.
pub fn read_version(text: &str, style: VersionStyle) -> (r: String)
    ensures
        r@ == version_in(text@, style),
{
    let cs: Vec<char> = chars_of(text);
    let cs: &[char] = cs.as_slice();
    match style {
        VersionStyle::Whole => string_of(trim_chars(cs)),
        VersionStyle::Word(n) => word_or_unknown(cs, n),
        VersionStyle::Git => {
            let rest: Vec<char> = without_text(cs, "git version");
            string_of(trim_chars(rest.as_slice()))
        },
        VersionStyle::Java => {
            let all: Vec<&[char]> = lines_of(cs);
            if all.len() == 0 {
                return "Not found".to_string();
            }
            assert(lines(cs@)[0] == all@[0]@);
            let rest: Vec<char> = without_text(all[0], "java version");
            let rest: Vec<char> = without_text(rest.as_slice(), "openjdk version");
            string_of(trim_chars(rest.as_slice()))
        },
        VersionStyle::Php => {
            let all: Vec<&[char]> = lines_of(cs);
            if all.len() == 0 {
                return "Not found".to_string();
            }
            assert(lines(cs@)[0] == all@[0]@);
            word_or_unknown(all[0], 1)
        },
    }
}

fn output_version(output: &Option<Vec<u8>>, style: VersionStyle) -> (r: String)
    ensures
        r@ == version_of(*output, style),
{
    match output {
        Some(bytes) => read_version(decode(bytes.as_slice()).as_str(), style),
        None => "Not found".to_string(),
    }
}

/// The name of the shell.
pub fn shell_type(probe: &ShellProbe) -> (r: String)
    ensures
        r@ == shell_of(*probe),
{
    match probe {
        ShellProbe::Windows { ps_module_path } => if *ps_module_path {
            "PowerShell".to_string()
        } else {
            "CMD".to_string()
        },
        ShellProbe::Unix { shell: Some(path) } => {
            let cs: Vec<char> = chars_of(path.as_str());
            let parts: Vec<&[char]> = split_chars(cs.as_slice(), Delimiter::Char('/'));
            let last: &[char] = parts[parts.len() - 1];
            assert(pieces(parts@).last() == last@);
            string_of(last)
        },
        ShellProbe::Unix { shell: None } => "Unknown".to_string(),
    }
}

/// The name, the version and the architecture of the system.
pub fn os_details(os: &OsNames) -> (r: String)
    ensures
        r@ == os_details_of(*os),
{
    let mut r: String = String::new();
    if let Some(name) = &os.name {
        r.append(name.as_str());
    }
    assert(r@ =~= or_empty(os.name));
    r.append(" ");
    if let Some(version) = &os.version {
        r.append(version.as_str());
    }
    assert(r@ =~= or_empty(os.name) + " "@ + or_empty(os.version));
    r.append(" (");
    r.append(os.arch.as_str());
    r.append(")");
    r
}

/// The development environment, from what the tools printed, what the system says of itself and
/// the environment variables.
pub fn get_environment_info(
    tools: &ToolOutputs,
    os: &OsNames,
    probe: &ShellProbe,
    env_vars: HashMap<String, String>,
) -> (r: EnvironmentInfo)
    ensures
        r.node_version@ == version_of(tools.node, VersionStyle::Whole),
        r.python_version@ == version_of(
            if tools.python is Some {
                tools.python
            } else {
                tools.python3
            },
            VersionStyle::Whole,
        ),
        r.rust_version@ == version_of(tools.rustc, VersionStyle::Word(1)),
        r.git_version@ == version_of(tools.git, VersionStyle::Git),
        r.java_version@ == version_of(tools.java, VersionStyle::Java),
        r.go_version@ == version_of(tools.go, VersionStyle::Word(2)),
        r.dotnet_version@ == version_of(tools.dotnet, VersionStyle::Whole),
        r.php_version@ == version_of(tools.php, VersionStyle::Php),
        r.os_details@ == os_details_of(*os),
        r.shell_type@ == shell_of(*probe),
        r.env_vars == env_vars,
{
    let python_version: String = if tools.python.is_some() {
        output_version(&tools.python, VersionStyle::Whole)
    } else {
        output_version(&tools.python3, VersionStyle::Whole)
    };
    EnvironmentInfo {
        node_version: output_version(&tools.node, VersionStyle::Whole),
        python_version,
        rust_version: output_version(&tools.rustc, VersionStyle::Word(1)),
        git_version: output_version(&tools.git, VersionStyle::Git),
        java_version: output_version(&tools.java, VersionStyle::Java),
        go_version: output_version(&tools.go, VersionStyle::Word(2)),
        dotnet_version: output_version(&tools.dotnet, VersionStyle::Whole),
        php_version: output_version(&tools.php, VersionStyle::Php),
        os_details: os_details(os),
        shell_type: shell_type(probe),
        env_vars,
    }
}

} // verus!
