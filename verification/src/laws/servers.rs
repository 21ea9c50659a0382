//! Which development servers and database servers are found.

#[allow(unused_imports)]
use crate::encoding::{decoded, lower, lowered};
#[allow(unused_imports)]
use crate::laws::netstat::{address, law_port_of_an_address, tcp_row};
#[allow(unused_imports)]
use crate::laws::number::law_number_is_read;
#[allow(unused_imports)]
use crate::model::views;
#[allow(unused_imports)]
use crate::netstat::{port_of, rows};
#[allow(unused_imports)]
use crate::number::{decimal, parsed};
#[allow(unused_imports)]
use crate::process::{process_name, process_run_time, ProcessEntry};
#[allow(unused_imports)]
use crate::servers::{
    databases, db_server_at, db_servers, db_servers_in, dev_server, dev_server_in_row,
    dev_server_of, dev_servers, dev_servers_in, framework, framework_of, get_db_servers,
    get_dev_servers, listening_line, listens_on, pid_in, DbServerInfo, DbServerView, DevServerInfo,
    DevServerView,
};
#[allow(unused_imports)]
use crate::text::{has, lines, split, words, Delimiter};
use vstd::prelude::*;

verus! {

/// The frameworks go by the name of the process first: `node` before `python` before `php` before
/// `go`. Only for the first two does the port matter, and on other ports they count as any local
/// server does.
pub proof fn law_framework(name: &str, port: u16, r: String)
    requires
        call_ensures(framework, (name, port), r),
    ensures
        has(name@, "node"@) && port == 5173 ==> r@ == "Vite / React / Vue"@,
        has(name@, "node"@) && port == 3000 ==> r@ == "Next.js / Node / React"@,
        has(name@, "node"@) && (port == 8000 || port == 8080) ==> r@ == "Node.js Server"@,
        has(name@, "node"@) && port != 5173 && port != 3000 && port != 8000 && port != 8080 ==> r@
            == "Local Server"@,
        !(has(name@, "node"@)) && has(name@, "python"@) && port == 5000 ==> r@
            == "Flask / Python"@,
        !(has(name@, "node"@)) && has(name@, "python"@) && port == 8000 ==> r@
            == "Django / Python"@,
        !(has(name@, "node"@)) && has(name@, "python"@) && port != 5000 && port != 8000 ==> r@
            == "Local Server"@,
        !(has(name@, "node"@)) && !(has(name@, "python"@)) && has(name@, "php"@) ==> r@
            == "PHP Server"@,
        !(has(name@, "node"@)) && !(has(name@, "python"@)) && !(has(name@, "php"@)) && has(
            name@,
            "go"@,
        ) ==> r@ == "Golang Server"@,
        !(has(name@, "node"@)) && !(has(name@, "python"@)) && !(has(name@, "php"@)) && !(has(
            name@,
            "go"@,
        )) ==> r@ == "Local Server"@,
{
}

/// A framework is named only where the name of the process holds the language.
pub proof fn law_framework_needs_its_language(name: &str, port: u16, r: String)
    requires
        call_ensures(framework, (name, port), r),
    ensures
        r@ == "Flask / Python"@ || r@ == "Django / Python"@ ==> has(name@, "python"@),
        r@ == "Vite / React / Vue"@ || r@ == "Next.js / Node / React"@ || r@ == "Node.js Server"@
            ==> has(name@, "node"@),
        r@ == "PHP Server"@ ==> has(name@, "php"@),
        r@ == "Golang Server"@ ==> has(name@, "go"@),
{
    law_framework(name, port, r);
    lemma_frameworks_differ();
}

/// The first two characters and the length tell the frameworks apart.
proof fn lemma_frameworks_differ()
    ensures
        "Vite / React / Vue"@.len() == 18,
        "Next.js / Node / React"@.len() == 22,
        "Node.js Server"@.len() == 14 && "Node.js Server"@[0] == 'N',
        "Flask / Python"@.len() == 14 && "Flask / Python"@[0] == 'F',
        "Django / Python"@.len() == 15,
        "PHP Server"@.len() == 10,
        "Golang Server"@.len() == 13,
        "Local Server"@.len() == 12,
{
    reveal_strlit("Vite / React / Vue");
    reveal_strlit("Next.js / Node / React");
    reveal_strlit("Node.js Server");
    reveal_strlit("Flask / Python");
    reveal_strlit("Django / Python");
    reveal_strlit("PHP Server");
    reveal_strlit("Golang Server");
    reveal_strlit("Local Server");
}

/// A server counts as one for development where its framework is known or its port is a usual one,
/// and it is shown with its address on this machine.
pub proof fn law_dev_server(
    port: u16,
    pid: u32,
    process: String,
    r: Option<DevServerInfo>,
    name: &str,
    lower_name: String,
    lower_text: &str,
    found: String,
)
    requires
        call_ensures(dev_server, (port, pid, process), r),
        name@ == process@,
        call_ensures(lower, (name,), lower_name),
        lower_text@ == lower_name@,
        call_ensures(framework, (lower_text, port), found),
    ensures
        r is Some <==> (found@ != "Local Server"@ || port == 3000 || port == 3001 || port == 5000
            || port == 5173 || port == 8000 || port == 8080),
        r matches Some(s) ==> s.framework@ == found@ && s.url@ == "http://localhost:"@ + decimal(
            port as nat,
        ) && s.port == port && s.pid == pid && s.process_name@ == process@ && s.status@
            == "Running"@,
{
}

proof fn lemma_dev_servers_concat(a: Seq<Seq<char>>, b: Seq<Seq<char>>, table: Seq<ProcessEntry>)
    ensures
        dev_servers_in(a + b, table) == dev_servers_in(a, table) + dev_servers_in(b, table),
    decreases b.len(),
{
    if b.len() == 0 {
        assert(a + b =~= a);
        assert(dev_servers_in(a, table) + dev_servers_in(b, table) =~= dev_servers_in(a, table));
    } else {
        lemma_dev_servers_concat(a, b.drop_last(), table);
        assert((a + b).drop_last() =~= a + b.drop_last());
        assert((a + b).last() == b.last());
        assert(dev_servers_in(a + b, table) =~= dev_servers_in(a, table) + dev_servers_in(
            b,
            table,
        ));
    }
}

/// The servers of two listings one behind the other are those of the first and then those of the
/// second.
pub proof fn law_dev_servers_of_joined_listings(
    texts: (&str, &str, &str),
    table: &Vec<ProcessEntry>,
    found: (Vec<DevServerInfo>, Vec<DevServerInfo>, Vec<DevServerInfo>),
)
    requires
        call_ensures(dev_servers, (texts.0, table), found.0),
        call_ensures(dev_servers, (texts.1, table), found.1),
        call_ensures(dev_servers, (texts.2, table), found.2),
        lines(texts.0@).len() >= 4,
        lines(texts.1@).len() >= 4,
        lines(texts.2@) == lines(texts.0@) + lines(texts.1@).skip(4),
    ensures
        views(found.2@) == views(found.0@) + views(found.1@),
{
    let a = lines(texts.0@).skip(4);
    let b = lines(texts.1@).skip(4);
    lemma_dev_servers_concat(a, b, table@);
    assert(rows(texts.0@) =~= a);
    assert(rows(texts.1@) =~= b);
    assert(rows(texts.2@) =~= a + b);
}

/// A listing with one row of a program that listens over TCP gives the server of that program, if
/// it counts as one for development, whatever its local host and its foreign address are.
pub proof fn law_row_of_a_dev_server(
    text: &str,
    table: &Vec<ProcessEntry>,
    r: Vec<DevServerInfo>,
    host: Seq<char>,
    port: u16,
    foreign: Seq<char>,
    pid: u32,
    process: String,
    server: Option<DevServerInfo>,
)
    requires
        call_ensures(dev_servers, (text, table), r),
        lines(text@).len() == 5,
        tcp_row(lines(text@)[4], host, port, foreign, pid),
        process@ == process_name(table@, pid),
        call_ensures(dev_server, (port, pid, process), server),
    ensures
        match server {
            Some(s) => r@.len() == 1 && r@[0]@ == s@,
            None => r@.len() == 0,
        },
{
    law_port_of_an_address(host, port);
    let d = decimal(pid as nat);
    law_number_is_read(false, 0, pid as nat, u32::MAX as nat);
    assert(Seq::<char>::empty() + Seq::new(0, |i: int| '0') + d =~= d);
    let row = lines(text@)[4];
    assert(rows(text@) =~= seq![row]);
    let one = seq![row];
    assert(one.drop_last() =~= Seq::empty());
    assert(dev_servers_in(one.drop_last(), table@) =~= Seq::empty());
    assert(dev_server_in_row(row, table@) == dev_server_of(port, pid, process@));
    assert(views(r@).len() == r@.len());
    if server is Some {
        assert(views(r@)[0] == r@[0]@);
    }
}

/// The heading gives no server, and neither does a row that is not one of a program that listens
/// over TCP with a port and the number of its process.
pub proof fn law_other_rows_are_no_dev_servers(
    text: &str,
    table: &Vec<ProcessEntry>,
    r: Vec<DevServerInfo>,
)
    requires
        call_ensures(dev_servers, (text, table), r),
        forall|k: int|
            4 <= k < lines(text@).len() ==> {
                let ws = words(#[trigger] lines(text@)[k]);
                ws.len() < 5 || ws[0] != "TCP"@ || ws[3] != "LISTENING"@ || parsed(
                    split(ws[1], Delimiter::Char(':')).last(),
                    65535,
                ) is None || parsed(ws[4], 4294967295) is None
            },
    ensures
        r@.len() == 0,
{
    let listed = rows(text@);
    assert forall|k: int| 0 <= k < listed.len() implies dev_server_in_row(
        #[trigger] listed[k],
        table@,
    ) is None by {
        assert(listed[k] == lines(text@)[k + 4]);
    }
    lemma_no_dev_servers(listed, table@);
    assert(views(r@).len() == r@.len());
}

proof fn lemma_no_dev_servers(listed: Seq<Seq<char>>, table: Seq<ProcessEntry>)
    requires
        forall|k: int|
            0 <= k < listed.len() ==> dev_server_in_row(#[trigger] listed[k], table) is None,
    ensures
        dev_servers_in(listed, table).len() == 0,
    decreases listed.len(),
{
    if listed.len() > 0 {
        let init = listed.drop_last();
        assert forall|k: int| 0 <= k < init.len() implies dev_server_in_row(
            #[trigger] init[k],
            table,
        ) is None by {
            assert(init[k] == listed[k]);
        }
        lemma_no_dev_servers(init, table);
        assert(dev_server_in_row(listed[listed.len() - 1], table) is None);
    }
}

/// What `netstat` printed is read as the text that it printed; a command that could not be run is
/// answered with its message, and a system without the command with a message that says so.
pub proof fn law_servers_of_bytes(
    bytes: Vec<u8>,
    message: String,
    dev_output: &Option<Result<Vec<u8>, String>>,
    db_output: &Result<Vec<u8>, String>,
    text: &str,
    table: &Vec<ProcessEntry>,
    dev: (Result<Vec<DevServerInfo>, String>, Vec<DevServerInfo>),
    db: (Result<Vec<DbServerInfo>, String>, Vec<DbServerInfo>),
)
    requires
        text@ == decoded(bytes@),
        call_ensures(get_dev_servers, (dev_output, table), dev.0),
        call_ensures(dev_servers, (text, table), dev.1),
        call_ensures(get_db_servers, (db_output, table), db.0),
        call_ensures(db_servers, (text, table), db.1),
    ensures
        *dev_output == Some::<Result<Vec<u8>, String>>(Ok(bytes)) ==> (dev.0 matches Ok(l)
            && views(l@) == views(dev.1@)),
        *dev_output == Some::<Result<Vec<u8>, String>>(Err(message)) ==> (dev.0 matches Err(m)
            && m@ == message@),
        *dev_output is None ==> (dev.0 matches Err(m) && m@ == "OS not supported"@),
        *db_output == Ok::<Vec<u8>, String>(bytes) ==> (db.0 matches Ok(l) && views(l@) == views(
            db.1@,
        )),
        *db_output == Err::<Vec<u8>, String>(message) ==> (db.0 matches Err(m) && m@ == message@),
{
}

/// Whether a line says that something listens on a port: it holds a colon with the number behind
/// it, and the word `LISTENING`.
pub open spec fn says_listening(line: Seq<char>, port: u16) -> bool {
    has(line, seq![':'] + decimal(port as nat)) && has(line, "LISTENING"@)
}

proof fn lemma_says_listening(line: Seq<char>, port: u16)
    ensures
        says_listening(line, port) == listens_on(line, port),
{
    reveal_strlit(":");
    assert(":"@ =~= seq![':']);
}

proof fn lemma_first_listening(all: Seq<Seq<char>>, port: u16, k: int)
    requires
        0 <= k <= all.len(),
        forall|i: int| 0 <= i < k ==> !says_listening(#[trigger] all[i], port),
        k < all.len() ==> says_listening(all[k], port),
    ensures
        listening_line(all, port) == (if k < all.len() {
            Some(all[k])
        } else {
            None
        }),
    decreases all.len(),
{
    if all.len() > 0 {
        lemma_says_listening(all[0], port);
        if k > 0 {
            assert(!says_listening(all[0], port));
            let rest = all.drop_first();
            assert forall|i: int| 0 <= i < k - 1 implies !says_listening(#[trigger] rest[i], port) by {
                assert(rest[i] == all[i + 1]);
            }
            if k < all.len() {
                assert(rest[k - 1] == all[k]);
            }
            lemma_first_listening(rest, port, k - 1);
        }
    }
}

proof fn lemma_known_server_is_listed(
    all: Seq<Seq<char>>,
    table: Seq<ProcessEntry>,
    n: int,
    k: int,
) -> (i: int)
    requires
        0 <= k < n,
        db_server_at(all, table, k) is Some,
    ensures
        0 <= i < db_servers_in(all, table, n).len(),
        db_servers_in(all, table, n)[i] == db_server_at(all, table, k)->0,
    decreases n,
{
    let before = db_servers_in(all, table, n - 1);
    if k == n - 1 {
        before.len() as int
    } else {
        lemma_known_server_is_listed(all, table, n - 1, k)
    }
}

/// Whether a database server is listed.
pub open spec fn is_listed(
    r: Seq<DbServerInfo>,
    port: u16,
    name: Seq<char>,
    pid: Option<u32>,
    uptime: u64,
) -> bool {
    exists|i: int|
        0 <= i < r.len() && (#[trigger] r[i]).port == port && r[i].name@ == name && r[i].status@
            == "Running"@ && r[i].pid == pid && r[i].uptime == uptime
}

/// Whether this is the port and the name of a database server that is looked for.
pub open spec fn is_database(port: u16, name: Seq<char>) -> bool {
    ||| port == 3306 && name == "MySQL"@
    ||| port == 5432 && name == "PostgreSQL"@
    ||| port == 27017 && name == "MongoDB"@
    ||| port == 6379 && name == "Redis"@
    ||| port == 1433 && name == "SQL Server"@
    ||| port == 28015 && name == "RethinkDB"@
}

/// The place of a database server among those that are looked for, by its port.
pub open spec fn place_of(port: u16) -> int {
    if port == 3306 {
        0
    } else if port == 5432 {
        1
    } else if port == 27017 {
        2
    } else if port == 6379 {
        3
    } else if port == 1433 {
        4
    } else {
        5
    }
}

/// Each of MySQL, PostgreSQL, MongoDB, Redis, SQL Server and RethinkDB is listed where a line says
/// that something listens on its port. The first such line gives the process, by its fifth word,
/// and the process gives the time for which the server has been running.
pub proof fn law_database_is_found(
    text: &str,
    table: &Vec<ProcessEntry>,
    r: Vec<DbServerInfo>,
    port: u16,
    name: Seq<char>,
    k: int,
    pid: Option<u32>,
)
    requires
        call_ensures(db_servers, (text, table), r),
        is_database(port, name),
        0 <= k < lines(text@).len(),
        forall|i: int| 0 <= i < k ==> !says_listening(#[trigger] lines(text@)[i], port),
        says_listening(lines(text@)[k], port),
        match pid {
            Some(n) => words(lines(text@)[k]).len() >= 5 && parsed(
                words(lines(text@)[k])[4],
                4294967295,
            ) == Some(n as nat),
            None => words(lines(text@)[k]).len() < 5 || parsed(
                words(lines(text@)[k])[4],
                4294967295,
            ) is None,
        },
    ensures
        is_listed(
            r@,
            port,
            name,
            pid,
            match pid {
                Some(n) => process_run_time(table@, n),
                None => 0,
            },
        ),
{
    let all = lines(text@);
    let place = place_of(port);
    lemma_first_listening(all, port, k);
    assert(databases().len() == 6);
    assert(databases()[place] == (port, name));
    assert(pid_in(all[k]) == pid);
    let i = lemma_known_server_is_listed(all, table@, 6, place);
    assert(views(r@)[i] == r@[i]@);
    assert(r@[i].port == port);
}

proof fn lemma_listed_servers(all: Seq<Seq<char>>, table: Seq<ProcessEntry>, n: int, i: int) -> (k: int)
    requires
        0 <= n <= 6,
        0 <= i < db_servers_in(all, table, n).len(),
    ensures
        0 <= k < n,
        db_server_at(all, table, k) == Some(db_servers_in(all, table, n)[i]),
        place_of(db_servers_in(all, table, n)[i].port) == k,
        is_database(db_servers_in(all, table, n)[i].port, db_servers_in(all, table, n)[i].name),
        forall|j: int|
            0 <= j < i ==> place_of((#[trigger] db_servers_in(all, table, n)[j]).port) < k,
    decreases n,
{
    let before = db_servers_in(all, table, n - 1);
    let now = db_servers_in(all, table, n);
    if i < before.len() {
        let k = lemma_listed_servers(all, table, n - 1, i);
        assert forall|j: int| 0 <= j < i implies place_of((#[trigger] now[j]).port) < k by {
            assert(now[j] == before[j]);
        }
        k
    } else {
        assert forall|j: int| 0 <= j < i implies place_of((#[trigger] now[j]).port) < n - 1 by {
            assert(now[j] == before[j]);
            let k = lemma_listed_servers(all, table, n - 1, j);
        }
        assert(databases()[n - 1].0 == now[i].port);
        n - 1
    }
}

/// Nothing but the six database servers is listed, each only where a line says that something
/// listens on its port, and in the order in which they are looked for.
pub proof fn law_only_databases_are_found(
    text: &str,
    table: &Vec<ProcessEntry>,
    r: Vec<DbServerInfo>,
    i: int,
    j: int,
)
    requires
        call_ensures(db_servers, (text, table), r),
        0 <= i < r@.len(),
    ensures
        is_database(r@[i].port, r@[i].name@),
        exists|k: int|
            0 <= k < lines(text@).len() && says_listening(#[trigger] lines(text@)[k], r@[i].port),
        0 <= j < i ==> place_of(r@[j].port) < place_of(r@[i].port),
{
    let all = lines(text@);
    let v = views(r@);
    assert(databases().len() == 6);
    assert(v[i] == r@[i]@);
    let at = lemma_listed_servers(all, table@, 6, i);
    if 0 <= j < i {
        assert(v[j] == r@[j]@);
    }
    if forall|k: int| 0 <= k < all.len() ==> !says_listening(#[trigger] all[k], r@[i].port) {
        lemma_first_listening(all, r@[i].port, all.len() as int);
        assert(databases()[at].0 == r@[i].port);
    }
}

} // verus!
