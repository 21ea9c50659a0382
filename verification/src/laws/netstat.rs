//! Which ports are listed.

#[allow(unused_imports)]
use crate::encoding::decoded;
#[allow(unused_imports)]
use crate::laws::number::{law_decimal_is_numerals, law_number_is_read};
#[allow(unused_imports)]
use crate::laws::text::{is_blank, is_word, law_last_piece, law_words_of_a_row, spaced};
#[allow(unused_imports)]
use crate::model::views;
#[allow(unused_imports)]
use crate::netstat::{
    active_ports, check_rows, first_with, get_active_ports, has_port, law_port_list_is_unique,
    lists_ports, port_in_row, port_of, ports_in, row_readable, rows, rows_readable, PortInfo,
    PortView, PortsError,
};
#[allow(unused_imports)]
use crate::number::{decimal, is_digit, parsed};
#[allow(unused_imports)]
use crate::process::{process_name, ProcessEntry};
#[allow(unused_imports)]
use crate::text::{is_whitespace, lines, split, words, Delimiter};
use vstd::prelude::*;

verus! {

/// An address: a host, a colon and a port. The host may hold colons itself.
pub open spec fn address(host: Seq<char>, port: u16) -> Seq<char> {
    host + seq![':'] + decimal(port as nat)
}

/// The port of an address is the number behind its last colon, whatever the host is.
pub proof fn law_port_of_an_address(host: Seq<char>, port: u16)
    ensures
        port_of(address(host, port)) == Some(port as nat),
{
    let d = decimal(port as nat);
    law_decimal_is_numerals(port as nat);
    assert(!d.contains(':')) by {
        if d.contains(':') {
            let i = choose|i: int| 0 <= i < d.len() && d[i] == ':';
            assert(is_digit(d[i]));
        }
    }
    law_last_piece(host, ':', d);
    law_number_is_read(false, 0, port as nat, u16::MAX as nat);
    assert(Seq::<char>::empty() + Seq::new(0, |i: int| '0') + d =~= d);
}

proof fn lemma_pid_is_read(pid: u32)
    ensures
        parsed(decimal(pid as nat), u32::MAX as nat) == Some(pid as nat),
{
    let d = decimal(pid as nat);
    law_number_is_read(false, 0, pid as nat, u32::MAX as nat);
    assert(Seq::<char>::empty() + Seq::new(0, |i: int| '0') + d =~= d);
}

/// Whether a row is one of a program that listens over TCP: the words are `TCP`, the local
/// address, any foreign address, `LISTENING` and the number of the process.
pub open spec fn tcp_row(
    row: Seq<char>,
    host: Seq<char>,
    port: u16,
    foreign: Seq<char>,
    pid: u32,
) -> bool {
    let ws = words(row);
    &&& ws.len() >= 5
    &&& ws[0] == "TCP"@
    &&& ws[1] == address(host, port)
    &&& ws[2] == foreign
    &&& ws[3] == "LISTENING"@
    &&& ws[4] == decimal(pid as nat)
}

/// Whether a row is one of UDP: the words are `UDP`, the local address, any foreign address and
/// the number of the process.
pub open spec fn udp_row(
    row: Seq<char>,
    host: Seq<char>,
    port: u16,
    foreign: Seq<char>,
    pid: u32,
) -> bool {
    let ws = words(row);
    &&& ws.len() >= 4
    &&& ws[0] == "UDP"@
    &&& ws[1] == address(host, port)
    &&& ws[2] == foreign
    &&& ws[3] == decimal(pid as nat)
}

/// Whether a text holds no white space.
pub open spec fn no_space(s: Seq<char>) -> bool {
    forall|i: int| 0 <= i < s.len() ==> !is_whitespace(#[trigger] s[i])
}

proof fn lemma_row_words(host: Seq<char>, port: u16, pid: u32)
    requires
        no_space(host),
    ensures
        is_word(address(host, port)),
        is_word(decimal(pid as nat)),
        is_word("TCP"@),
        is_word("UDP"@),
        is_word("LISTENING"@),
{
    reveal_strlit("TCP");
    reveal_strlit("UDP");
    reveal_strlit("LISTENING");
    law_decimal_is_numerals(port as nat);
    law_decimal_is_numerals(pid as nat);
    let a = address(host, port);
    assert forall|i: int| 0 <= i < a.len() implies !is_whitespace(#[trigger] a[i]) by {
        if i < host.len() {
            assert(a[i] == host[i]);
        } else if i > host.len() {
            assert(a[i] == decimal(port as nat)[i - host.len() - 1]);
            assert(is_digit(decimal(port as nat)[i - host.len() - 1]));
        }
    }
    let d = decimal(pid as nat);
    assert forall|i: int| 0 <= i < d.len() implies !is_whitespace(#[trigger] d[i]) by {
        assert(is_digit(d[i]));
    }
}

/// Rows as `netstat` prints them, with gaps of any width, are rows of TCP and of UDP.
pub proof fn law_printed_rows(
    host: Seq<char>,
    port: u16,
    foreign: Seq<char>,
    pid: u32,
    gaps: Seq<Seq<char>>,
)
    requires
        no_space(host),
        is_word(foreign),
        forall|i: int| 0 <= i < gaps.len() ==> is_blank(#[trigger] gaps[i]),
        forall|i: int| 0 < i < gaps.len() - 1 ==> (#[trigger] gaps[i]).len() > 0,
    ensures
        gaps.len() == 6 ==> tcp_row(
            spaced(
                seq![
                    "TCP"@,
                    address(host, port),
                    foreign,
                    "LISTENING"@,
                    decimal(pid as nat),
                ],
                gaps,
            ),
            host,
            port,
            foreign,
            pid,
        ),
        gaps.len() == 5 ==> udp_row(
            spaced(seq!["UDP"@, address(host, port), foreign, decimal(pid as nat)], gaps),
            host,
            port,
            foreign,
            pid,
        ),
{
    lemma_row_words(host, port, pid);
    if gaps.len() == 6 {
        let ws = seq![
            "TCP"@,
            address(host, port),
            foreign,
            "LISTENING"@,
            decimal(pid as nat),
        ];
        law_words_of_a_row(ws, gaps);
    }
    if gaps.len() == 5 {
        let ws = seq!["UDP"@, address(host, port), foreign, decimal(pid as nat)];
        law_words_of_a_row(ws, gaps);
    }
}

/// Whether the second word of a row has another port than the given one behind its last colon, or
/// none.
pub open spec fn other_port(row: Seq<char>, port: u16) -> bool {
    words(row).len() >= 2 ==> parsed(split(words(row)[1], Delimiter::Char(':')).last(), 65535)
        != Some(port as nat)
}

proof fn lemma_row_is_found(
    listed: Seq<Seq<char>>,
    table: Seq<ProcessEntry>,
    k: int,
    p: PortView,
)
    requires
        0 <= k < listed.len(),
        port_in_row(listed[k], table) == Some(p),
    ensures
        first_with(ports_in(listed, table), p.port) is Some,
        (forall|j: int| 0 <= j < k ==> other_port(#[trigger] listed[j], p.port)) ==> first_with(
            ports_in(listed, table),
            p.port,
        ) == Some(p),
    decreases listed.len(),
{
    let init = listed.drop_last();
    let before = ports_in(init, table);
    let all = ports_in(listed, table);
    if port_in_row(listed.last(), table) is Some {
        assert(all.drop_last() =~= before);
    }
    if k < init.len() {
        assert(init[k] == listed[k]);
        lemma_row_is_found(init, table, k, p);
        if forall|j: int| 0 <= j < k ==> other_port(#[trigger] listed[j], p.port) {
            assert forall|j: int| 0 <= j < k implies other_port(#[trigger] init[j], p.port) by {
                assert(init[j] == listed[j]);
            }
        }
    } else if forall|j: int| 0 <= j < k ==> other_port(#[trigger] listed[j], p.port) {
        assert forall|j: int| 0 <= j < init.len() implies other_port(#[trigger] init[j], p.port) by {
            assert(init[j] == listed[j]);
        }
        lemma_port_is_not_found(init, table, p.port);
    }
}

proof fn lemma_port_is_not_found(listed: Seq<Seq<char>>, table: Seq<ProcessEntry>, port: u16)
    requires
        forall|j: int| 0 <= j < listed.len() ==> other_port(#[trigger] listed[j], port),
    ensures
        first_with(ports_in(listed, table), port) is None,
    decreases listed.len(),
{
    if listed.len() > 0 {
        let init = listed.drop_last();
        assert forall|j: int| 0 <= j < init.len() implies other_port(#[trigger] init[j], port) by {
            assert(init[j] == listed[j]);
        }
        lemma_port_is_not_found(init, table, port);
        assert(other_port(listed[listed.len() - 1], port));
        let all = ports_in(listed, table);
        if port_in_row(listed.last(), table) is Some {
            assert(all.drop_last() =~= ports_in(init, table));
        }
    }
}

/// Whether an entry is listed.
pub open spec fn is_listed(
    r: Seq<PortInfo>,
    port: u16,
    protocol: Seq<char>,
    pid: u32,
    process: Seq<char>,
    state: Seq<char>,
) -> bool {
    exists|i: int|
        0 <= i < r.len() && (#[trigger] r[i]).port == port && r[i].protocol@ == protocol && r[i].pid
            == pid && r[i].process_name@ == process && r[i].state@ == state
}

proof fn lemma_row_is_listed(
    text: &str,
    table: &Vec<ProcessEntry>,
    r: Vec<PortInfo>,
    k: int,
    p: PortView,
)
    requires
        lists_ports(views(r@), ports_in(rows(text@), table@)),
        4 <= k < lines(text@).len(),
        port_in_row(lines(text@)[k], table@) == Some(p),
    ensures
        exists|i: int| 0 <= i < r@.len() && (#[trigger] r@[i]).port == p.port,
        (forall|j: int| 4 <= j < k ==> other_port(#[trigger] lines(text@)[j], p.port))
            ==> is_listed(r@, p.port, p.protocol, p.pid, p.process_name, p.state),
{
    let listed = rows(text@);
    assert(listed[k - 4] == lines(text@)[k]);
    lemma_row_is_found(listed, table@, k - 4, p);
    assert(has_port(views(r@), p.port));
    let i = choose|i: int| 0 <= i < views(r@).len() && (#[trigger] views(r@)[i]).port == p.port;
    assert(views(r@)[i] == r@[i]@);
    assert(r@[i].port == p.port);
    if forall|j: int| 4 <= j < k ==> other_port(#[trigger] lines(text@)[j], p.port) {
        assert forall|j: int| 0 <= j < k - 4 implies other_port(#[trigger] listed[j], p.port) by {
            assert(listed[j] == lines(text@)[j + 4]);
        }
        assert(views(r@)[i] == p);
    }
}

/// Every program that listens over TCP puts its port into the list, whatever its local host and
/// its foreign address are. Where no row before has that port, the entry is the one of this row.
pub proof fn law_listening_tcp_row_is_listed(
    text: &str,
    table: &Vec<ProcessEntry>,
    r: Vec<PortInfo>,
    k: int,
    host: Seq<char>,
    port: u16,
    foreign: Seq<char>,
    pid: u32,
)
    requires
        call_ensures(active_ports, (text, table), r),
        4 <= k < lines(text@).len(),
        tcp_row(lines(text@)[k], host, port, foreign, pid),
    ensures
        exists|i: int| 0 <= i < r@.len() && (#[trigger] r@[i]).port == port,
        (forall|j: int| 4 <= j < k ==> other_port(#[trigger] lines(text@)[j], port)) ==> is_listed(
            r@,
            port,
            "TCP"@,
            pid,
            process_name(table@, pid),
            "LISTENING"@,
        ),
{
    law_port_of_an_address(host, port);
    lemma_pid_is_read(pid);
    let p = PortView {
        port,
        protocol: "TCP"@,
        pid,
        process_name: process_name(table@, pid),
        state: "LISTENING"@,
    };
    assert(port_in_row(lines(text@)[k], table@) == Some(p));
    lemma_row_is_listed(text, table, r, k, p);
}

/// Every row of UDP puts its port into the list, with the state `ACTIVE`.
pub proof fn law_udp_row_is_listed(
    text: &str,
    table: &Vec<ProcessEntry>,
    r: Vec<PortInfo>,
    k: int,
    host: Seq<char>,
    port: u16,
    foreign: Seq<char>,
    pid: u32,
)
    requires
        call_ensures(active_ports, (text, table), r),
        4 <= k < lines(text@).len(),
        udp_row(lines(text@)[k], host, port, foreign, pid),
    ensures
        exists|i: int| 0 <= i < r@.len() && (#[trigger] r@[i]).port == port,
        (forall|j: int| 4 <= j < k ==> other_port(#[trigger] lines(text@)[j], port)) ==> is_listed(
            r@,
            port,
            "UDP"@,
            pid,
            process_name(table@, pid),
            "ACTIVE"@,
        ),
{
    law_port_of_an_address(host, port);
    lemma_pid_is_read(pid);
    lemma_protocols_differ();
    let p = PortView {
        port,
        protocol: "UDP"@,
        pid,
        process_name: process_name(table@, pid),
        state: "ACTIVE"@,
    };
    assert(port_in_row(lines(text@)[k], table@) == Some(p));
    lemma_row_is_listed(text, table, r, k, p);
}

proof fn lemma_protocols_differ()
    ensures
        "TCP"@ != "UDP"@,
{
    reveal_strlit("TCP");
    reveal_strlit("UDP");
    assert("TCP"@[0] != "UDP"@[0]);
}

/// Whether a row behind the heading gives this entry: over TCP in the state `LISTENING` with the
/// number of the process as the fifth word, or over UDP with it as the fourth.
pub open spec fn row_gives(row: Seq<char>, p: PortInfo, table: Seq<ProcessEntry>) -> bool {
    let ws = words(row);
    &&& ws.len() >= 4
    &&& p.protocol@ == ws[0]
    &&& parsed(split(ws[1], Delimiter::Char(':')).last(), 65535) == Some(p.port as nat)
    &&& p.process_name@ == process_name(table, p.pid)
    &&& {
        ||| ws[0] == "TCP"@ && ws[3] == "LISTENING"@ && parsed(ws[4], 4294967295) == Some(
            p.pid as nat,
        ) && p.state@ == "LISTENING"@
        ||| ws[0] == "UDP"@ && parsed(ws[3], 4294967295) == Some(p.pid as nat) && p.state@
            == "ACTIVE"@
    }
}

proof fn lemma_found_has_a_row(
    listed: Seq<Seq<char>>,
    table: Seq<ProcessEntry>,
    port: u16,
) -> (k: int)
    requires
        first_with(ports_in(listed, table), port) is Some,
    ensures
        0 <= k < listed.len(),
        port_in_row(listed[k], table) == first_with(ports_in(listed, table), port),
        first_with(ports_in(listed, table), port)->0.port == port,
    decreases listed.len(),
{
    let init = listed.drop_last();
    let before = ports_in(init, table);
    let all = ports_in(listed, table);
    if port_in_row(listed.last(), table) is Some {
        assert(all.drop_last() =~= before);
    }
    if first_with(before, port) is Some {
        let k = lemma_found_has_a_row(init, table, port);
        assert(init[k] == listed[k]);
        k
    } else {
        listed.len() - 1
    }
}

/// Nothing is listed without a row behind the heading that gives it, and the ports rise from each
/// entry to the next, so that none is listed twice.
pub proof fn law_only_rows_are_listed(
    text: &str,
    table: &Vec<ProcessEntry>,
    r: Vec<PortInfo>,
    i: int,
    j: int,
)
    requires
        call_ensures(active_ports, (text, table), r),
        0 <= i < r@.len(),
    ensures
        exists|k: int|
            4 <= k < lines(text@).len() && row_gives(#[trigger] lines(text@)[k], r@[i], table@),
        i < j < r@.len() ==> r@[i].port < r@[j].port,
{
    let v = views(r@);
    let listed = rows(text@);
    assert(v[i] == r@[i]@);
    assert(first_with(ports_in(listed, table@), v[i].port) == Some(v[i]));
    let k = lemma_found_has_a_row(listed, table@, v[i].port);
    assert(listed[k] == lines(text@)[k + 4]);
    lemma_protocols_differ();
    assert(row_gives(lines(text@)[k + 4], r@[i], table@));
    if i < j < r@.len() {
        assert(v[j] == r@[j]@);
        assert(v[i].port < v[j].port);
    }
}

/// Whether a row lacks the number of its process: a TCP row of four words.
pub open spec fn lacks_pid(row: Seq<char>) -> bool {
    words(row).len() == 4 && words(row)[0] == "TCP"@
}

/// What `netstat` printed is read as the text that it printed; a TCP row behind the heading
/// without the number of its process is refused, and nothing else is.
pub proof fn law_ports_of_bytes(
    bytes: Vec<u8>,
    output: &Option<Result<Vec<u8>, String>>,
    text: &str,
    table: &Vec<ProcessEntry>,
    r: Result<Vec<PortInfo>, PortsError>,
    list: Vec<PortInfo>,
)
    requires
        *output == Some::<Result<Vec<u8>, String>>(Ok(bytes)),
        text@ == decoded(bytes@),
        call_ensures(get_active_ports, (output, table), r),
        call_ensures(active_ports, (text, table), list),
    ensures
        (exists|k: int| 4 <= k < lines(text@).len() && lacks_pid(#[trigger] lines(text@)[k])) <==> (
        r is Err),
        r matches Err(e) ==> e is MissingPid,
        r matches Ok(ports) ==> views(ports@) == views(list@),
{
    let listed = rows(text@);
    if exists|k: int| 4 <= k < lines(text@).len() && lacks_pid(#[trigger] lines(text@)[k]) {
        let k = choose|k: int| 4 <= k < lines(text@).len() && lacks_pid(#[trigger] lines(text@)[k]);
        assert(listed[k - 4] == lines(text@)[k]);
        assert(!row_readable(listed[k - 4]));
    } else {
        assert forall|i: int| 0 <= i < listed.len() implies row_readable(#[trigger] listed[i]) by {
            assert(listed[i] == lines(text@)[i + 4]);
        }
    }
    if r is Ok {
        law_port_list_is_unique(views(r->Ok_0@), views(list@), ports_in(listed, table@));
    }
}

/// A command that could not be run is answered with its message, and a system without the command
/// with a message that says so.
pub proof fn law_ports_of_a_failed_command(
    message: String,
    output: &Option<Result<Vec<u8>, String>>,
    table: &Vec<ProcessEntry>,
    r: Result<Vec<PortInfo>, PortsError>,
)
    requires
        call_ensures(get_active_ports, (output, table), r),
        *output is None || *output == Some::<Result<Vec<u8>, String>>(Err(message)),
    ensures
        r matches Err(PortsError::Command(m)) && m@ == (if *output is None {
            "OS not supported"@
        } else {
            message@
        }),
{
}

} // verus!
