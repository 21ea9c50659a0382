//! What is told of the development environment.

#[allow(unused_imports)]
use crate::encoding::decoded;
#[allow(unused_imports)]
use crate::environment::{
    get_environment_info, git_version_in, java_version_in, os_details, php_version_in,
    read_version, shell_type, version_in, version_of, EnvironmentInfo, OsNames, ShellProbe,
    ToolOutputs, VersionStyle,
};
#[allow(unused_imports)]
use crate::laws::text::{
    is_bare, is_blank, law_last_piece, law_nothing_is_taken_out,
    law_text_without_delimiter_is_one_piece, law_the_pattern_is_taken_out, law_trim,
};
#[allow(unused_imports)]
use crate::text::{has, lines, split, trim, without, words, Delimiter};
use std::collections::HashMap;
use vstd::prelude::*;

verus! {

/// The text that a tool printed.
pub open spec fn printed(output: Option<Vec<u8>>) -> Seq<char> {
    decoded(output->0@)
}

/// Of a tool that could not be run it is said that it was not found. Python may be there under
/// either of its two names, and the plain one goes first.
pub proof fn law_missing_tools(
    tools: &ToolOutputs,
    os: &OsNames,
    probe: &ShellProbe,
    env_vars: HashMap<String, String>,
    r: EnvironmentInfo,
)
    requires
        call_ensures(get_environment_info, (tools, os, probe, env_vars), r),
    ensures
        tools.node is None ==> r.node_version@ == "Not found"@,
        tools.python is None && tools.python3 is None ==> r.python_version@ == "Not found"@,
        tools.rustc is None ==> r.rust_version@ == "Not found"@,
        tools.git is None ==> r.git_version@ == "Not found"@,
        tools.java is None ==> r.java_version@ == "Not found"@,
        tools.go is None ==> r.go_version@ == "Not found"@,
        tools.dotnet is None ==> r.dotnet_version@ == "Not found"@,
        tools.php is None ==> r.php_version@ == "Not found"@,
        r.env_vars == env_vars,
{
}

/// Node, Python and .NET print their version alone, and white space around it does not belong to
/// it.
pub proof fn law_versions_that_stand_alone(
    tools: &ToolOutputs,
    os: &OsNames,
    probe: &ShellProbe,
    env_vars: HashMap<String, String>,
    r: EnvironmentInfo,
    a: Seq<char>,
    version: Seq<char>,
    b: Seq<char>,
)
    requires
        call_ensures(get_environment_info, (tools, os, probe, env_vars), r),
        is_blank(a),
        is_blank(b),
        is_bare(version),
    ensures
        tools.node is Some && printed(tools.node) == a + version + b ==> r.node_version@ == version,
        tools.python is Some && printed(tools.python) == a + version + b ==> r.python_version@
            == version,
        tools.python is None && tools.python3 is Some && printed(tools.python3) == a + version + b
            ==> r.python_version@ == version,
        tools.dotnet is Some && printed(tools.dotnet) == a + version + b ==> r.dotnet_version@
            == version,
{
    law_trim(a, version, b);
}

/// The version of Rust is the second word that it prints, that of Go the third, and that of PHP
/// the second of the first line; where there is no such word it is unknown.
pub proof fn law_versions_among_words(
    tools: &ToolOutputs,
    os: &OsNames,
    probe: &ShellProbe,
    env_vars: HashMap<String, String>,
    r: EnvironmentInfo,
)
    requires
        call_ensures(get_environment_info, (tools, os, probe, env_vars), r),
    ensures
        tools.rustc is Some ==> {
            let ws = words(printed(tools.rustc));
            r.rust_version@ == (if ws.len() >= 2 {
                ws[1]
            } else {
                "Unknown"@
            })
        },
        tools.go is Some ==> {
            let ws = words(printed(tools.go));
            r.go_version@ == (if ws.len() >= 3 {
                ws[2]
            } else {
                "Unknown"@
            })
        },
        tools.php is Some && lines(printed(tools.php)).len() > 0 ==> {
            let ws = words(lines(printed(tools.php))[0]);
            r.php_version@ == (if ws.len() >= 2 {
                ws[1]
            } else {
                "Unknown"@
            })
        },
        tools.php is Some && lines(printed(tools.php)).len() == 0 ==> r.php_version@
            == "Not found"@,
{
}

/// Wherever the words before the version stand in what Git or Java prints, they are taken out, and
/// so is the white space around the rest.
pub proof fn law_words_before_a_version(
    tools: &ToolOutputs,
    os: &OsNames,
    probe: &ShellProbe,
    env_vars: HashMap<String, String>,
    r: EnvironmentInfo,
)
    requires
        call_ensures(get_environment_info, (tools, os, probe, env_vars), r),
    ensures
        tools.git is Some ==> r.git_version@ == trim(without(printed(tools.git), "git version"@)),
        tools.java is Some && lines(printed(tools.java)).len() > 0 ==> r.java_version@ == trim(
            without(
                without(lines(printed(tools.java))[0], "java version"@),
                "openjdk version"@,
            ),
        ),
{
}

/// The version of Git is what stands behind the words `git version`.
pub proof fn law_git_version(
    tools: &ToolOutputs,
    os: &OsNames,
    probe: &ShellProbe,
    env_vars: HashMap<String, String>,
    r: EnvironmentInfo,
    a: Seq<char>,
    version: Seq<char>,
    b: Seq<char>,
)
    requires
        call_ensures(get_environment_info, (tools, os, probe, env_vars), r),
        tools.git is Some,
        printed(tools.git) == "git version"@ + (a + version + b),
        is_blank(a),
        is_blank(b),
        is_bare(version),
        !(has(a + version + b, "git version"@)),
    ensures
        r.git_version@ == version,
{
    reveal_strlit("git version");
    law_the_pattern_is_taken_out("git version"@, a + version + b);
    law_nothing_is_taken_out(a + version + b, "git version"@);
    law_trim(a, version, b);
}

/// The version of Java is what stands behind the words `java version` or `openjdk version` in the
/// first line of its error stream.
pub proof fn law_java_version(
    tools: &ToolOutputs,
    os: &OsNames,
    probe: &ShellProbe,
    env_vars: HashMap<String, String>,
    r: EnvironmentInfo,
    openjdk: bool,
    a: Seq<char>,
    version: Seq<char>,
    b: Seq<char>,
)
    requires
        call_ensures(get_environment_info, (tools, os, probe, env_vars), r),
        tools.java is Some,
        is_blank(a),
        is_blank(b),
        is_bare(version),
        lines(printed(tools.java)).len() > 0 ==> lines(printed(tools.java))[0] == (if openjdk {
            "openjdk version"@
        } else {
            "java version"@
        }) + (a + version + b),
        !(has("openjdk version"@ + (a + version + b), "java version"@)),
        !(has(a + version + b, "java version"@)),
        !(has(a + version + b, "openjdk version"@)),
    ensures
        lines(printed(tools.java)).len() > 0 ==> r.java_version@ == version,
        lines(printed(tools.java)).len() == 0 ==> r.java_version@ == "Not found"@,
{
    let rest = a + version + b;
    reveal_strlit("java version");
    reveal_strlit("openjdk version");
    law_the_pattern_is_taken_out("java version"@, rest);
    law_the_pattern_is_taken_out("openjdk version"@, rest);
    law_nothing_is_taken_out(rest, "java version"@);
    law_nothing_is_taken_out(rest, "openjdk version"@);
    law_nothing_is_taken_out("openjdk version"@ + rest, "java version"@);
    law_trim(a, version, b);
}

/// The shell on Windows goes by whether PowerShell has left its mark, and elsewhere it is the last
/// part of the path in `SHELL`.
pub proof fn law_shell(
    probe: &ShellProbe,
    r: String,
    folder: Option<Seq<char>>,
    name: Seq<char>,
)
    requires
        call_ensures(shell_type, (probe,), r),
        !name.contains('/'),
    ensures
        *probe == (ShellProbe::Windows { ps_module_path: true }) ==> r@ == "PowerShell"@,
        *probe == (ShellProbe::Windows { ps_module_path: false }) ==> r@ == "CMD"@,
        *probe == (ShellProbe::Unix { shell: None }) ==> r@ == "Unknown"@,
        (*probe matches ShellProbe::Unix { shell: Some(path) } && path@ == (match folder {
            Some(f) => f + seq!['/'] + name,
            None => name,
        })) ==> r@ == name,
{
    let d = Delimiter::Char('/');
    assert forall|i: int| 0 <= i < name.len() implies !d.cuts(#[trigger] name[i]) by {
        assert(name.contains(name[i]));
    }
    law_text_without_delimiter_is_one_piece(name, d);
    if folder is Some {
        law_last_piece(folder->0, '/', name);
    }
}

/// The system is told with its name, its version and, in brackets, its architecture; what is not
/// known is left empty.
pub proof fn law_system_details(
    tools: &ToolOutputs,
    os: &OsNames,
    probe: &ShellProbe,
    env_vars: HashMap<String, String>,
    r: EnvironmentInfo,
    shell: String,
    name: Seq<char>,
    version: Seq<char>,
)
    requires
        call_ensures(get_environment_info, (tools, os, probe, env_vars), r),
        call_ensures(shell_type, (probe,), shell),
        match os.name {
            Some(s) => name == s@,
            None => name.len() == 0,
        },
        match os.version {
            Some(s) => version == s@,
            None => version.len() == 0,
        },
    ensures
        r.os_details@ == name + " "@ + version + " ("@ + os.arch@ + ")"@,
        r.shell_type@ == shell@,
{
    if os.name is None {
        assert(name =~= Seq::empty());
    }
    if os.version is None {
        assert(version =~= Seq::empty());
    }
}

} // verus!
