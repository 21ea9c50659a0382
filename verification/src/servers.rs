//! Development servers and database servers, found in what `netstat -ano` prints.

use crate::encoding::{decode, lower};
#[allow(unused_imports)]
use crate::encoding::{decoded, lowered};
#[allow(unused_imports)]
use crate::model::{lemma_views_push, views};
use crate::netstat::address_port;
#[allow(unused_imports)]
use crate::netstat::{
    first_with, has_port, lists_ports, port_in_row, port_of, ports_in, rows, PortView,
};
#[allow(unused_imports)]
use crate::number::{decimal, parsed};
use crate::number::{decimal_text, parse_u32};
use crate::process::{name_of, run_time_of, ProcessEntry};
#[allow(unused_imports)]
use crate::process::{process_name, process_run_time};
use crate::text::{chars_of, has_text, is_text, lines_of, same_text, words_of};
#[allow(unused_imports)]
use crate::text::{has, lines, pieces, words};
use vstd::prelude::*;
use vstd::string::*;

verus! {

/// A development server that listens on this machine.
#[derive(Debug, PartialEq)]
pub struct DevServerInfo {
    pub framework: String,
    pub url: String,
    pub port: u16,
    pub pid: u32,
    pub process_name: String,
    pub status: String,
}

/// The contents of a [`DevServerInfo`].
pub struct DevServerView {
    pub framework: Seq<char>,
    pub url: Seq<char>,
    pub port: u16,
    pub pid: u32,
    pub process_name: Seq<char>,
    pub status: Seq<char>,
}

impl View for DevServerInfo {
    type V = DevServerView;

    open spec fn view(&self) -> DevServerView {
        DevServerView {
            framework: self.framework@,
            url: self.url@,
            port: self.port,
            pid: self.pid,
            process_name: self.process_name@,
            status: self.status@,
        }
    }
}

/// A database server that listens on this machine.
#[derive(Debug, PartialEq)]
pub struct DbServerInfo {
    pub name: String,
    pub port: u16,
    pub status: String,
    pub pid: Option<u32>,
    pub uptime: u64,
}

/// The contents of a [`DbServerInfo`].
pub struct DbServerView {
    pub name: Seq<char>,
    pub port: u16,
    pub status: Seq<char>,
    pub pid: Option<u32>,
    pub uptime: u64,
}

impl View for DbServerInfo {
    type V = DbServerView;

    open spec fn view(&self) -> DbServerView {
        DbServerView {
            name: self.name@,
            port: self.port,
            status: self.status@,
            pid: self.pid,
            uptime: self.uptime,
        }
    }
}

/// What a server most likely runs, by the lower-case name of its process and its port.
pub open spec fn framework_of(name: Seq<char>, port: u16) -> Seq<char> {
    if has(name, "node"@) {
        if port == 5173 {
            "Vite / React / Vue"@
        } else if port == 3000 {
            "Next.js / Node / React"@
        } else if port == 8080 || port == 8000 {
            "Node.js Server"@
        } else {
            "Local Server"@
        }
    } else if has(name, "python"@) {
        if port == 5000 {
            "Flask / Python"@
        } else if port == 8000 {
            "Django / Python"@
        } else {
            "Local Server"@
        }
    } else if has(name, "php"@) {
        "PHP Server"@
    } else if has(name, "go"@) {
        "Golang Server"@
    } else {
        "Local Server"@
    }
}

/// The ports that development servers use by default.
pub open spec fn is_dev_port(port: u16) -> bool {
    port == 3000 || port == 3001 || port == 5173 || port == 5000 || port == 8000 || port == 8080
}

/// The server that runs as the given process on the given port, if it is one for development: a
/// known framework, or anything on a usual port.
pub open spec fn dev_server_of(port: u16, pid: u32, process: Seq<char>) -> Option<DevServerView> {
    let framework = framework_of(lowered(process), port);
    if framework != "Local Server"@ || is_dev_port(port) {
        Some(
            DevServerView {
                framework,
                url: "http://localhost:"@ + decimal(port as nat),
                port,
                pid,
                process_name: process,
                status: "Running"@,
            },
        )
    } else {
        None
    }
}

/// The development server that a row lists, if it does: a TCP row in the state `LISTENING` with a
/// process number.
pub open spec fn dev_server_in_row(row: Seq<char>, table: Seq<ProcessEntry>) -> Option<
    DevServerView,
> {
    let parts = words(row);
    if parts.len() < 5 || parts[0] != "TCP"@ || parts[3] != "LISTENING"@ {
        None
    } else {
        match (port_of(parts[1]), parsed(parts[4], u32::MAX as nat)) {
            (Some(port), Some(pid)) => dev_server_of(
                port as u16,
                pid as u32,
                process_name(table, pid as u32),
            ),
            _ => None,
        }
    }
}

/// The development servers that the rows list, in the order of the rows.
pub open spec fn dev_servers_in(rows: Seq<Seq<char>>, table: Seq<ProcessEntry>) -> Seq<
    DevServerView,
>
    decreases rows.len(),
{
    if rows.len() == 0 {
        Seq::empty()
    } else {
        let before = dev_servers_in(rows.drop_last(), table);
        match dev_server_in_row(rows.last(), table) {
            Some(s) => before.push(s),
            None => before,
        }
    }
}

/// A development server listens on one of the ports that are listed as active, whatever processes
/// were running when each of the two lists was made.
pub proof fn law_dev_servers_listen_on_active_ports(
    rows: Seq<Seq<char>>,
    port_table: Seq<ProcessEntry>,
    server_table: Seq<ProcessEntry>,
    ports: Seq<PortView>,
    i: int,
)
    requires
        lists_ports(ports, ports_in(rows, port_table)),
        0 <= i < dev_servers_in(rows, server_table).len(),
    ensures
        has_port(ports, dev_servers_in(rows, server_table)[i].port),
{
    lemma_dev_port_is_found(rows, port_table, server_table, i);
}

proof fn lemma_dev_port_is_found(
    rows: Seq<Seq<char>>,
    port_table: Seq<ProcessEntry>,
    server_table: Seq<ProcessEntry>,
    i: int,
)
    requires
        0 <= i < dev_servers_in(rows, server_table).len(),
    ensures
        first_with(
            ports_in(rows, port_table),
            dev_servers_in(rows, server_table)[i].port,
        ) is Some,
    decreases rows.len(),
{
    let before = dev_servers_in(rows.drop_last(), server_table);
    let found = ports_in(rows.drop_last(), port_table);
    let all = ports_in(rows, port_table);
    if port_in_row(rows.last(), port_table) is Some {
        assert(all.drop_last() =~= found);
    }
    if i < before.len() {
        lemma_dev_port_is_found(rows.drop_last(), port_table, server_table, i);
    } else {
        assert(dev_server_in_row(rows.last(), server_table) is Some);
        assert(port_in_row(rows.last(), port_table) is Some);
    }
}

/// What a server most likely runs, by the lower-case name of its process and its port.
pub fn framework(name: &str, port: u16) -> (r: String)
    ensures
        r@ == framework_of(name@, port),
{
    let cs: Vec<char> = chars_of(name);
    let cs: &[char] = cs.as_slice();
    let found: &str = if has_text(cs, "node") {
        if port == 5173 {
            "Vite / React / Vue"
        } else if port == 3000 {
            "Next.js / Node / React"
        } else if port == 8080 || port == 8000 {
            "Node.js Server"
        } else {
            "Local Server"
        }
    } else if has_text(cs, "python") {
        if port == 5000 {
            "Flask / Python"
        } else if port == 8000 {
            "Django / Python"
        } else {
            "Local Server"
        }
    } else if has_text(cs, "php") {
        "PHP Server"
    } else if has_text(cs, "go") {
        "Golang Server"
    } else {
        "Local Server"
    };
    found.to_string()
}

/// The server that runs as the given process on the given port, if it is one for development.
pub fn dev_server(port: u16, pid: u32, process: String) -> (r: Option<DevServerInfo>)
    ensures
        dev_server_of(port, pid, process@) == (match r {
            Some(s) => Some(s@),
            None => None,
        }),
{
    let found: String = framework(lower(process.as_str()).as_str(), port);
    let usual: bool = port == 3000 || port == 3001 || port == 5173 || port == 5000 || port == 8000
        || port == 8080;
    if same_text(found.as_str(), "Local Server") && !usual {
        return None;
    }
    let mut url: String = "http://localhost:".to_string();
    url.append(decimal_text(port as u64).as_str());
    Some(
        DevServerInfo {
            framework: found,
            url,
            port,
            pid,
            process_name: process,
            status: "Running".to_string(),
        },
    )
}

fn read_dev_server(row: &[char], table: &Vec<ProcessEntry>) -> (r: Option<DevServerInfo>)
    ensures
        dev_server_in_row(row@, table@) == (match r {
            Some(s) => Some(s@),
            None => None,
        }),
{
    let parts: Vec<&[char]> = words_of(row);
    let ghost ws = words(row@);
    assert(forall|i: int| 0 <= i < parts.len() ==> ws[i] == (#[trigger] parts@[i])@);
    if parts.len() < 5 || !is_text(parts[0], "TCP") || !is_text(parts[3], "LISTENING") {
        return None;
    }
    if let Some(port) = address_port(parts[1]) {
        if let Some(pid) = parse_u32(parts[4]) {
            return dev_server(port, pid, name_of(table, pid));
        }
    }
    None
}

/// The development servers in the text of `netstat -ano`.
pub fn dev_servers(text: &str, table: &Vec<ProcessEntry>) -> (r: Vec<DevServerInfo>)
    ensures
        views(r@) == dev_servers_in(rows(text@), table@),
{
    broadcast use lemma_views_push;

    let cs: Vec<char> = chars_of(text);
    let all: Vec<&[char]> = lines_of(cs.as_slice());
    let mut r: Vec<DevServerInfo> = Vec::new();
    let ghost listed = rows(text@);
    let mut i: usize = 4;
    proof {
        assert(views(r@) =~= Seq::empty());
        assert(listed.take(0) =~= Seq::empty());
    }
    while i < all.len()
        invariant
            4 <= i,
            i <= all.len() || i == 4,
            pieces(all@) == lines(text@),
            listed == rows(text@),
            all.len() <= 4 ==> listed.len() == 0,
            all.len() > 4 ==> listed.len() == all.len() - 4,
            i - 4 <= listed.len(),
            views(r@) == dev_servers_in(listed.take(i - 4), table@),
        decreases all.len() - i,
    {
        let ghost k = i - 4;
        proof {
            assert(listed[k] == pieces(all@)[i as int]);
            assert(listed.take(k + 1).drop_last() =~= listed.take(k));
        }
        if let Some(s) = read_dev_server(all[i], table) {
            r.push(s);
        }
        i += 1;
    }
    assert(listed.take(i - 4) =~= listed);
    r
}

/// The development servers in what `netstat -ano` printed. The output is missing where the system
/// has no such listing.
pub fn get_dev_servers(
    output: &Option<Result<Vec<u8>, String>>,
    table: &Vec<ProcessEntry>,
) -> (r: Result<Vec<DevServerInfo>, String>)
    ensures
        match *output {
            None => r matches Err(m) && m@ == "OS not supported"@,
            Some(Err(e)) => r matches Err(m) && m@ == e@,
            Some(Ok(bytes)) => r matches Ok(list) && views(list@) == dev_servers_in(
                rows(decoded(bytes@)),
                table@,
            ),
        },
{
    match output {
        None => Err("OS not supported".to_string()),
        Some(Err(e)) => Err(e.clone()),
        Some(Ok(bytes)) => {
            let text: String = decode(bytes.as_slice());
            Ok(dev_servers(text.as_str(), table))
        },
    }
}

/// The ports of the known database servers, with their names.
pub open spec fn databases() -> Seq<(u16, Seq<char>)> {
    seq![
        (3306u16, "MySQL"@),
        (5432u16, "PostgreSQL"@),
        (27017u16, "MongoDB"@),
        (6379u16, "Redis"@),
        (1433u16, "SQL Server"@),
        (28015u16, "RethinkDB"@),
    ]
}

/// Whether a line speaks of the given port and of the state `LISTENING`.
pub open spec fn listens_on(line: Seq<char>, port: u16) -> bool {
    has(line, ":"@ + decimal(port as nat)) && has(line, "LISTENING"@)
}

/// The first of the lines with something that listens on the given port.
pub open spec fn listening_line(lines: Seq<Seq<char>>, port: u16) -> Option<Seq<char>>
    decreases lines.len(),
{
    if lines.len() == 0 {
        None
    } else if listens_on(lines[0], port) {
        Some(lines[0])
    } else {
        listening_line(lines.drop_first(), port)
    }
}

/// The process number in a line: its fifth word, where that is a number.
pub open spec fn pid_in(line: Seq<char>) -> Option<u32> {
    if words(line).len() < 5 {
        None
    } else {
        match parsed(words(line)[4], u32::MAX as nat) {
            Some(n) => Some(n as u32),
            None => None,
        }
    }
}

/// The known database server at place `i`, if a line says that something listens on its port.
pub open spec fn db_server_at(lines: Seq<Seq<char>>, table: Seq<ProcessEntry>, i: int) -> Option<
    DbServerView,
> {
    let (port, name) = databases()[i];
    match listening_line(lines, port) {
        None => None,
        Some(line) => Some(
            DbServerView {
                name,
                port,
                status: "Running"@,
                pid: pid_in(line),
                uptime: match pid_in(line) {
                    Some(pid) => process_run_time(table, pid),
                    None => 0,
                },
            },
        ),
    }
}

/// The first `n` of the known database servers that listen, in the order in which they are known.
pub open spec fn db_servers_in(lines: Seq<Seq<char>>, table: Seq<ProcessEntry>, n: int) -> Seq<
    DbServerView,
>
    decreases n,
{
    if n <= 0 {
        Seq::empty()
    } else {
        let before = db_servers_in(lines, table, n - 1);
        match db_server_at(lines, table, n - 1) {
            Some(s) => before.push(s),
            None => before,
        }
    }
}

/// Each server in the list of the first `n` is one of them, and no two have the same port.
proof fn lemma_db_servers(lines: Seq<Seq<char>>, table: Seq<ProcessEntry>, n: int)
    requires
        0 <= n <= databases().len(),
    ensures
        forall|i: int|
            0 <= i < db_servers_in(lines, table, n).len() ==> exists|k: int|
                0 <= k < n && db_server_at(lines, table, k) == Some(
                    #[trigger] db_servers_in(lines, table, n)[i],
                ),
        forall|i: int, j: int|
            0 <= i < j < db_servers_in(lines, table, n).len() ==> (#[trigger] db_servers_in(
                lines,
                table,
                n,
            )[i]).port != (#[trigger] db_servers_in(lines, table, n)[j]).port,
    decreases n,
{
    if n > 0 {
        lemma_db_servers(lines, table, n - 1);
        let before = db_servers_in(lines, table, n - 1);
        let all = db_servers_in(lines, table, n);
        assert forall|i: int| 0 <= i < all.len() implies exists|k: int|
            0 <= k < n && db_server_at(lines, table, k) == Some(#[trigger] all[i]) by {
            if i < before.len() {
                assert(all[i] == before[i]);
                let k = choose|k: int|
                    0 <= k < n - 1 && db_server_at(lines, table, k) == Some(before[i]);
                assert(db_server_at(lines, table, k) == Some(all[i]));
            } else {
                assert(db_server_at(lines, table, n - 1) == Some(all[i]));
            }
        }
        assert forall|i: int, j: int| 0 <= i < j < all.len() implies (#[trigger] all[i]).port != (
        #[trigger] all[j]).port by {
            assert(all[i] == before[i]);
            if j < before.len() {
                assert(all[j] == before[j]);
            } else {
                let k = choose|k: int|
                    0 <= k < n - 1 && db_server_at(lines, table, k) == Some(before[i]);
                assert(databases()[k].0 != databases()[n - 1].0);
            }
        }
    }
}

/// A database server is listed once at most, and only where a line says that something listens on
/// its port.
pub proof fn law_database_servers_listen(lines: Seq<Seq<char>>, table: Seq<ProcessEntry>)
    ensures
        ({
            let servers = db_servers_in(lines, table, databases().len() as int);
            &&& forall|i: int|
                0 <= i < servers.len() ==> listening_line(
                    lines,
                    (#[trigger] servers[i]).port,
                ) is Some && databases().contains((servers[i].port, servers[i].name))
            &&& forall|i: int, j: int|
                0 <= i < j < servers.len() ==> (#[trigger] servers[i]).port != (
                #[trigger] servers[j]).port
        }),
{
    let n = databases().len() as int;
    let servers = db_servers_in(lines, table, n);
    lemma_db_servers(lines, table, n);
    assert forall|i: int| 0 <= i < servers.len() implies listening_line(
        lines,
        (#[trigger] servers[i]).port,
    ) is Some && databases().contains((servers[i].port, servers[i].name)) by {
        let k = choose|k: int| 0 <= k < n && db_server_at(lines, table, k) == Some(servers[i]);
        assert(databases()[k] == (servers[i].port, servers[i].name));
    }
}

fn database(i: usize) -> (r: (u16, &'static str))
    requires
        i < databases().len(),
    ensures
        (r.0, r.1@) == databases()[i as int],
{
    if i == 0 {
        (3306, "MySQL")
    } else if i == 1 {
        (5432, "PostgreSQL")
    } else if i == 2 {
        (27017, "MongoDB")
    } else if i == 3 {
        (6379, "Redis")
    } else if i == 4 {
        (1433, "SQL Server")
    } else {
        (28015, "RethinkDB")
    }
}

fn find_listening<'a>(all: &Vec<&'a [char]>, port: u16) -> (r: Option<&'a [char]>)
    ensures
        listening_line(pieces(all@), port) == (match r {
            Some(line) => Some(line@),
            None => None,
        }),
{
    let mut pattern: String = ":".to_string();
    pattern.append(decimal_text(port as u64).as_str());
    let ghost ls = pieces(all@);
    let mut i: usize = 0;
    assert(ls.skip(0) =~= ls);
    while i < all.len()
        invariant
            i <= all.len(),
            ls == pieces(all@),
            pattern@ == ":"@ + decimal(port as nat),
            listening_line(ls, port) == listening_line(ls.skip(i as int), port),
        decreases all.len() - i,
    {
        assert(ls.skip(i as int)[0] == all@[i as int]@);
        assert(ls.skip(i as int).drop_first() =~= ls.skip(i + 1));
        if has_text(all[i], pattern.as_str()) && has_text(all[i], "LISTENING") {
            return Some(all[i]);
        }
        i += 1;
    }
    None
}

fn line_pid(line: &[char]) -> (r: Option<u32>)
    ensures
        r == pid_in(line@),
{
    let parts: Vec<&[char]> = words_of(line);
    if parts.len() < 5 {
        return None;
    }
    assert(words(line@)[4] == parts@[4]@);
    parse_u32(parts[4])
}

/// The database servers in the text of `netstat -ano`.
pub fn db_servers(text: &str, table: &Vec<ProcessEntry>) -> (r: Vec<DbServerInfo>)
    ensures
        views(r@) == db_servers_in(lines(text@), table@, databases().len() as int),
{
    broadcast use lemma_views_push;

    let cs: Vec<char> = chars_of(text);
    let all: Vec<&[char]> = lines_of(cs.as_slice());
    let mut r: Vec<DbServerInfo> = Vec::new();
    let mut i: usize = 0;
    assert(views(r@) =~= Seq::empty());
    while i < 6
        invariant
            i <= 6,
            pieces(all@) == lines(text@),
            views(r@) == db_servers_in(lines(text@), table@, i as int),
        decreases 6 - i,
    {
        let (port, name) = database(i);
        if let Some(line) = find_listening(&all, port) {
            let pid: Option<u32> = line_pid(line);
            let uptime: u64 = match pid {
                Some(p) => run_time_of(table, p),
                None => 0,
            };
            r.push(
                DbServerInfo {
                    name: name.to_string(),
                    port,
                    status: "Running".to_string(),
                    pid,
                    uptime,
                },
            );
        }
        i += 1;
    }
    r
}

/// The database servers in what `netstat -ano` printed, or the message of why it could not be
/// run.
pub fn get_db_servers(output: &Result<Vec<u8>, String>, table: &Vec<ProcessEntry>) -> (r: Result<
    Vec<DbServerInfo>,
    String,
>)
    ensures
        match *output {
            Err(e) => r matches Err(m) && m@ == e@,
            Ok(bytes) => r matches Ok(list) && views(list@) == db_servers_in(
                lines(decoded(bytes@)),
                table@,
                databases().len() as int,
            ),
        },
{
    match output {
        Err(e) => Err(e.clone()),
        Ok(bytes) => {
            let text: String = decode(bytes.as_slice());
            Ok(db_servers(text.as_str(), table))
        },
    }
}

} // verus!
