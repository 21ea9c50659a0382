//! Ports on which something listens, found in what `netstat -ano` prints.

use crate::encoding::decode;
#[allow(unused_imports)]
use crate::encoding::decoded;
#[allow(unused_imports)]
use crate::model::views;
#[allow(unused_imports)]
use crate::number::parsed;
use crate::number::{parse_u16, parse_u32};
#[allow(unused_imports)]
use crate::process::process_name;
use crate::process::{name_of, ProcessEntry};
use crate::text::{chars_of, is_text, lines_of, split_chars, string_of, words_of, Delimiter};
#[allow(unused_imports)]
use crate::text::{lines, pieces, split, words};
use vstd::prelude::*;

verus! {

/// A port on which something listens.
#[derive(Debug, PartialEq)]
pub struct PortInfo {
    pub port: u16,
    pub protocol: String,
    pub pid: u32,
    pub process_name: String,
    pub state: String,
}

/// The contents of a [`PortInfo`].
pub struct PortView {
    pub port: u16,
    pub protocol: Seq<char>,
    pub pid: u32,
    pub process_name: Seq<char>,
    pub state: Seq<char>,
}

impl View for PortInfo {
    type V = PortView;

    open spec fn view(&self) -> PortView {
        PortView {
            port: self.port,
            protocol: self.protocol@,
            pid: self.pid,
            process_name: self.process_name@,
            state: self.state@,
        }
    }
}

/// The connections that `netstat` lists: the lines behind the four of its heading.
pub open spec fn rows(text: Seq<char>) -> Seq<Seq<char>> {
    let all = lines(text);
    if all.len() <= 4 {
        Seq::empty()
    } else {
        all.skip(4)
    }
}

/// The port at the end of an address: the number behind its last colon.
pub open spec fn port_of(address: Seq<char>) -> Option<nat> {
    parsed(split(address, Delimiter::Char(':')).last(), u16::MAX as nat)
}

/// Whether a row can be read: a TCP row of four words or more has the process number as its
/// fifth.
pub open spec fn row_readable(row: Seq<char>) -> bool {
    words(row).len() == 4 ==> words(row)[0] != "TCP"@
}

/// Whether every row can be read.
pub open spec fn rows_readable(text: Seq<char>) -> bool {
    forall|i: int| 0 <= i < rows(text).len() ==> row_readable(#[trigger] rows(text)[i])
}

/// The port that a row lists, if it does: a TCP row in the state `LISTENING`, or any UDP row,
/// which is given the state `ACTIVE`.
pub open spec fn port_in_row(row: Seq<char>, table: Seq<ProcessEntry>) -> Option<PortView> {
    let parts = words(row);
    let is_tcp = parts[0] == "TCP"@;
    let state = if is_tcp {
        parts[3]
    } else {
        "ACTIVE"@
    };
    let pid_text = if is_tcp {
        parts[4]
    } else {
        parts[3]
    };
    if parts.len() < 4 || !(is_tcp || parts[0] == "UDP"@) || (is_tcp && state != "LISTENING"@) {
        None
    } else {
        match (port_of(parts[1]), parsed(pid_text, u32::MAX as nat)) {
            (Some(port), Some(pid)) => Some(
                PortView {
                    port: port as u16,
                    protocol: parts[0],
                    pid: pid as u32,
                    process_name: process_name(table, pid as u32),
                    state,
                },
            ),
            _ => None,
        }
    }
}

/// The ports that the rows list, in the order of the rows.
pub open spec fn ports_in(rows: Seq<Seq<char>>, table: Seq<ProcessEntry>) -> Seq<PortView>
    decreases rows.len(),
{
    if rows.len() == 0 {
        Seq::empty()
    } else {
        let before = ports_in(rows.drop_last(), table);
        match port_in_row(rows.last(), table) {
            Some(p) => before.push(p),
            None => before,
        }
    }
}

/// The first of the ports found that has the given number.
pub open spec fn first_with(found: Seq<PortView>, port: u16) -> Option<PortView>
    decreases found.len(),
{
    if found.len() == 0 {
        None
    } else {
        match first_with(found.drop_last(), port) {
            Some(p) => Some(p),
            None => if found.last().port == port {
                Some(found.last())
            } else {
                None
            },
        }
    }
}

/// Whether a list holds the given port.
pub open spec fn has_port(r: Seq<PortView>, port: u16) -> bool {
    exists|i: int| 0 <= i < r.len() && (#[trigger] r[i]).port == port
}

/// Whether the port numbers of a list rise from each entry to the next.
pub open spec fn ascending(r: Seq<PortView>) -> bool {
    forall|i: int, j: int| 0 <= i < j < r.len() ==> (#[trigger] r[i]).port < (#[trigger] r[j]).port
}

/// Whether `r` lists each port of `found` once, in ascending order, as it was found first.
pub open spec fn lists_ports(r: Seq<PortView>, found: Seq<PortView>) -> bool {
    &&& ascending(r)
    &&& forall|i: int| 0 <= i < r.len() ==> first_with(found, (#[trigger] r[i]).port) == Some(r[i])
    &&& forall|port: u16| (#[trigger] first_with(found, port)) is Some ==> has_port(r, port)
}

/// There is one list only with each port found, once, in ascending order.
pub proof fn law_port_list_is_unique(a: Seq<PortView>, b: Seq<PortView>, found: Seq<PortView>)
    requires
        lists_ports(a, found),
        lists_ports(b, found),
    ensures
        a == b,
{
    lemma_port_lists_agree(a, b, found, a.len() as int);
    lemma_port_lists_agree(b, a, found, b.len() as int);
    assert(a =~= b);
}

/// Two lists of the same ports agree on the first `n` entries of one of them.
proof fn lemma_port_lists_agree(a: Seq<PortView>, b: Seq<PortView>, found: Seq<PortView>, n: int)
    requires
        lists_ports(a, found),
        lists_ports(b, found),
        0 <= n <= a.len(),
    ensures
        n <= b.len(),
        forall|i: int| 0 <= i < n ==> a[i] == b[i],
    decreases n,
{
    if n > 0 {
        let m = n - 1;
        lemma_port_lists_agree(a, b, found, m);
        assert(first_with(found, a[m].port) == Some(a[m]));
        assert(has_port(b, a[m].port));
        let j = choose|j: int| 0 <= j < b.len() && (#[trigger] b[j]).port == a[m].port;
        assert(b[j] == a[m]);
        if j < m {
            assert(a[j] == b[j]);
            assert(a[j].port < a[m].port);
        }
        if m < j {
            assert(b[m].port < b[j].port);
            assert(first_with(found, b[m].port) == Some(b[m]));
            assert(has_port(a, b[m].port));
            let i = choose|i: int| 0 <= i < a.len() && (#[trigger] a[i]).port == b[m].port;
            if i < m {
                assert(a[i] == b[i]);
                assert(b[i].port < b[m].port);
            } else if m < i {
                assert(a[m].port < a[i].port);
            }
        }
    }
}

/// One more port found: where its number is listed already the list stands as it is, and else it
/// goes where the numbers say.
proof fn lemma_list_one_more(r: Seq<PortView>, found: Seq<PortView>, p: PortView, at: int)
    requires
        lists_ports(r, found),
        0 <= at <= r.len(),
        forall|i: int| 0 <= i < at ==> (#[trigger] r[i]).port < p.port,
        forall|i: int| at <= i < r.len() ==> (#[trigger] r[i]).port >= p.port,
    ensures
        at < r.len() && r[at].port == p.port ==> lists_ports(r, found.push(p)),
        !(at < r.len() && r[at].port == p.port) ==> lists_ports(r.insert(at, p), found.push(p)),
{
    let more = found.push(p);
    assert(more.drop_last() =~= found);
    if at < r.len() && r[at].port == p.port {
        assert forall|port: u16| (#[trigger] first_with(more, port)) is Some implies has_port(
            r,
            port,
        ) by {
            if first_with(found, port) is None {
                assert(r[at].port == port);
            }
        }
    } else {
        let s = r.insert(at, p);
        assert(!has_port(r, p.port)) by {
            if has_port(r, p.port) {
                let i = choose|i: int| 0 <= i < r.len() && (#[trigger] r[i]).port == p.port;
                if at < i {
                    assert(r[at].port < r[i].port);
                }
            }
        }
        assert(first_with(found, p.port) is None);
        assert(ascending(s)) by {
            assert forall|i: int, j: int| 0 <= i < j < s.len() implies (#[trigger] s[i]).port < (
            #[trigger] s[j]).port by {
                let rj = if j < at {
                    j
                } else {
                    j - 1
                };
                if i == at {
                    assert(s[j] == r[rj]);
                    assert(r[rj].port != p.port);
                } else if j == at {
                    assert(s[i] == r[i]);
                } else {
                    let ri = if i < at {
                        i
                    } else {
                        i - 1
                    };
                    assert(s[i] == r[ri]);
                    assert(s[j] == r[rj]);
                }
            }
        }
        assert forall|i: int| 0 <= i < s.len() implies first_with(more, (#[trigger] s[i]).port)
            == Some(s[i]) by {
            if i < at {
                assert(s[i] == r[i]);
            } else if i > at {
                assert(s[i] == r[i - 1]);
            }
        }
        assert forall|port: u16| (#[trigger] first_with(more, port)) is Some implies has_port(
            s,
            port,
        ) by {
            if first_with(found, port) is Some {
                assert(has_port(r, port));
                let i = choose|i: int| 0 <= i < r.len() && (#[trigger] r[i]).port == port;
                if i < at {
                    assert(s[i] == r[i]);
                } else {
                    assert(s[i + 1] == r[i]);
                }
            } else {
                assert(s[at].port == port);
            }
        }
    }
}

/// The port at the end of an address.
pub fn address_port(address: &[char]) -> (r: Option<u16>)
    ensures
        port_of(address@) == (match r {
            Some(n) => Some(n as nat),
            None => None::<nat>,
        }),
{
    let parts: Vec<&[char]> = split_chars(address, Delimiter::Char(':'));
    let last: &[char] = parts[parts.len() - 1];
    assert(pieces(parts@).last() == last@);
    parse_u16(last)
}

/// Reads the port that a row lists.
fn read_port(row: &[char], table: &Vec<ProcessEntry>) -> (r: Option<PortInfo>)
    requires
        row_readable(row@),
    ensures
        port_in_row(row@, table@) == (match r {
            Some(p) => Some(p@),
            None => None,
        }),
{
    let parts: Vec<&[char]> = words_of(row);
    let ghost ws = words(row@);
    assert(forall|i: int| 0 <= i < parts.len() ==> ws[i] == (#[trigger] parts@[i])@);
    if parts.len() < 4 {
        return None;
    }
    let is_tcp: bool = is_text(parts[0], "TCP");
    let is_udp: bool = is_text(parts[0], "UDP");
    if !is_tcp && !is_udp {
        return None;
    }
    if is_tcp && !is_text(parts[3], "LISTENING") {
        return None;
    }
    let pid_text: &[char] = if is_tcp {
        parts[4]
    } else {
        parts[3]
    };
    if let Some(port) = address_port(parts[1]) {
        if let Some(pid) = parse_u32(pid_text) {
            let state: String = if is_tcp {
                string_of(parts[3])
            } else {
                "ACTIVE".to_string()
            };
            return Some(
                PortInfo {
                    port,
                    protocol: string_of(parts[0]),
                    pid,
                    process_name: name_of(table, pid),
                    state,
                },
            );
        }
    }
    None
}

/// Puts a port into an ascending list, unless its number is there.
fn list_port(list: &mut Vec<PortInfo>, p: PortInfo, Ghost(found): Ghost<Seq<PortView>>)
    requires
        lists_ports(views(old(list)@), found),
    ensures
        lists_ports(views(final(list)@), found.push(p@)),
{
    let mut at: usize = 0;
    let ghost r = views(list@);
    while at < list.len() && list[at].port < p.port
        invariant
            at <= list.len(),
            r == views(list@),
            forall|i: int| 0 <= i < at ==> (#[trigger] r[i]).port < p.port,
        decreases list.len() - at,
    {
        assert(r[at as int] == list@[at as int]@);
        at += 1;
    }
    proof {
        assert forall|i: int| at <= i < r.len() implies (#[trigger] r[i]).port >= p.port by {
            assert(r[at as int] == list@[at as int]@);
            if at < i {
                assert(r[at as int].port < r[i].port);
            }
        }
        lemma_list_one_more(r, found, p@, at as int);
    }
    if at < list.len() && list[at].port == p.port {
        assert(r[at as int] == list@[at as int]@);
        return;
    }
    proof {
        if at < list.len() {
            assert(r[at as int] == list@[at as int]@);
        }
        assert(views(list@.insert(at as int, p)) =~= r.insert(at as int, p@));
    }
    list.insert(at, p);
}

/// The ports on which something listens, in the text of `netstat -ano`: each port once, in
/// ascending order, as the first row with it lists it.
pub fn active_ports(text: &str, table: &Vec<ProcessEntry>) -> (r: Vec<PortInfo>)
    requires
        rows_readable(text@),
    ensures
        lists_ports(views(r@), ports_in(rows(text@), table@)),
{
    let cs: Vec<char> = chars_of(text);
    let all: Vec<&[char]> = lines_of(cs.as_slice());
    let mut r: Vec<PortInfo> = Vec::new();
    let ghost listed = rows(text@);
    let mut i: usize = 4;
    proof {
        assert(views(r@) =~= Seq::empty());
        assert(listed.take(0) =~= Seq::empty());
    }
    while i < all.len()
        invariant
            4 <= i,
            i <= all.len() || i == 4,
            pieces(all@) == lines(text@),
            listed == rows(text@),
            rows_readable(text@),
            all.len() <= 4 ==> listed.len() == 0,
            all.len() > 4 ==> listed.len() == all.len() - 4,
            i - 4 <= listed.len(),
            lists_ports(views(r@), ports_in(listed.take(i - 4), table@)),
        decreases all.len() - i,
    {
        let ghost k = i - 4;
        proof {
            assert(listed[k] == pieces(all@)[i as int]);
            assert(listed.take(k + 1).drop_last() =~= listed.take(k));
            assert(row_readable(listed[k]));
        }
        if let Some(p) = read_port(all[i], table) {
            list_port(&mut r, p, Ghost(ports_in(listed.take(k), table@)));
        }
        i += 1;
    }
    assert(listed.take(i - 4) =~= listed);
    r
}

/// Whether every row in the text of `netstat -ano` can be read.
pub fn check_rows(text: &str) -> (r: bool)
    ensures
        r == rows_readable(text@),
{
    let cs: Vec<char> = chars_of(text);
    let all: Vec<&[char]> = lines_of(cs.as_slice());
    let ghost listed = rows(text@);
    let mut i: usize = 4;
    while i < all.len()
        invariant
            4 <= i,
            i <= all.len() || i == 4,
            pieces(all@) == lines(text@),
            listed == rows(text@),
            all.len() <= 4 ==> listed.len() == 0,
            all.len() > 4 ==> listed.len() == all.len() - 4,
            forall|k: int| 0 <= k < i - 4 && k < listed.len() ==> row_readable(#[trigger] listed[k]),
        decreases all.len() - i,
    {
        let parts: Vec<&[char]> = words_of(all[i]);
        proof {
            assert(listed[i - 4] == pieces(all@)[i as int]);
            assert(pieces(parts@) == words(listed[i - 4]));
            if parts.len() > 0 {
                assert(words(listed[i - 4])[0] == parts@[0]@);
            }
        }
        if parts.len() == 4 && is_text(parts[0], "TCP") {
            assert(!row_readable(listed[i - 4]));
            return false;
        }
        i += 1;
    }
    true
}

/// Why the ports could not be listed.
#[derive(Debug, PartialEq)]
pub enum PortsError {
    /// The command could not be run, with a message that says why.
    Command(String),
    /// A TCP row lacks the number of its process.
    MissingPid,
}

/// The ports in what `netstat -ano` printed. The output is missing where the system has no such
/// listing.
pub fn get_active_ports(
    output: &Option<Result<Vec<u8>, String>>,
    table: &Vec<ProcessEntry>,
) -> (r: Result<Vec<PortInfo>, PortsError>)
    ensures
        match *output {
            None => r matches Err(PortsError::Command(m)) && m@ == "OS not supported"@,
            Some(Err(e)) => r matches Err(PortsError::Command(m)) && m@ == e@,
            Some(Ok(bytes)) => match r {
                Ok(list) => rows_readable(decoded(bytes@)) && lists_ports(
                    views(list@),
                    ports_in(rows(decoded(bytes@)), table@),
                ),
                Err(e) => !rows_readable(decoded(bytes@)) && e is MissingPid,
            },
        },
{
    match output {
        None => Err(PortsError::Command("OS not supported".to_string())),
        Some(Err(e)) => Err(PortsError::Command(e.clone())),
        Some(Ok(bytes)) => {
            let text: String = decode(bytes.as_slice());
            if check_rows(text.as_str()) {
                Ok(active_ports(text.as_str(), table))
            } else {
                Err(PortsError::MissingPid)
            }
        },
    }
}

} // verus!
