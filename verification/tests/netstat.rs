use zoh_monitor::netstat::{
    active_ports, address_port, check_rows, get_active_ports, PortInfo, PortsError,
};
use zoh_monitor::process::{find_process, name_of, run_time_of, ProcessEntry};
use zoh_monitor::servers::{
    db_servers, dev_server, dev_servers, framework, get_db_servers, get_dev_servers, DbServerInfo,
    DevServerInfo,
};
use zoh_monitor::text::chars_of;

const NETSTAT: &str = "\r\nActive Connections\r\n\r\n  Proto  Local Address          Foreign Address        State           PID\r\n  TCP    0.0.0.0:5173           0.0.0.0:0              LISTENING       300\r\n  TCP    0.0.0.0:135            0.0.0.0:0              LISTENING       100\r\n  TCP    127.0.0.1:3306         0.0.0.0:0              LISTENING       200\r\n  TCP    10.0.0.2:50000         1.2.3.4:443            ESTABLISHED     300\r\n  TCP    [::]:135               [::]:0                 LISTENING       999\r\n  TCP    127.0.0.1:9000         0.0.0.0:0              LISTENING       400\r\n  UDP    0.0.0.0:5353           *:*                                    100\r\n  TCP    0.0.0.0:99999          0.0.0.0:0              LISTENING       100\r\n  TCP    0.0.0.0:77             0.0.0.0:0              LISTENING       many\r\n";

fn table() -> Vec<ProcessEntry> {
    let mut table = Vec::new();
    for (pid, name, run_time) in [
        (100u32, "svchost.exe", 10u64),
        (200, "mysqld.exe", 20),
        (300, "Node.exe", 30),
        (400, "caddy-GO", 40),
    ] {
        table.push(ProcessEntry { pid, name: name.to_string(), run_time });
    }
    table
}

fn port(port: u16, protocol: &str, pid: u32, process_name: &str, state: &str) -> PortInfo {
    PortInfo {
        port,
        protocol: protocol.to_string(),
        pid,
        process_name: process_name.to_string(),
        state: state.to_string(),
    }
}

#[test]
fn processes_are_looked_up() {
    let table = table();
    assert_eq!(find_process(&table, 200).map(|p| p.name.as_str()), Some("mysqld.exe"));
    assert!(find_process(&table, 201).is_none());
    assert_eq!(name_of(&table, 201), "Unknown");
    assert_eq!(run_time_of(&table, 300), 30);
    assert_eq!(run_time_of(&table, 301), 0);
}

#[test]
fn ports_are_listed_once_in_ascending_order_as_first_found() {
    assert_eq!(
        active_ports(NETSTAT, &table()),
        vec![
            port(135, "TCP", 100, "svchost.exe", "LISTENING"),
            port(3306, "TCP", 200, "mysqld.exe", "LISTENING"),
            port(5173, "TCP", 300, "Node.exe", "LISTENING"),
            port(5353, "UDP", 100, "svchost.exe", "ACTIVE"),
            port(9000, "TCP", 400, "caddy-GO", "LISTENING"),
        ]
    );
}

#[test]
fn the_heading_is_skipped() {
    let text = "  UDP 0.0.0.0:1 *:* 1\n  UDP 0.0.0.0:2 *:* 1\n  UDP 0.0.0.0:3 *:* 1\n  UDP 0.0.0.0:4 *:* 1\n  UDP 0.0.0.0:5 *:* 7\n";
    assert_eq!(active_ports(text, &table()), vec![port(5, "UDP", 7, "Unknown", "ACTIVE")]);
    assert_eq!(active_ports("UDP 0.0.0.0:1 *:* 1", &table()), vec![]);
}

#[test]
fn address_ports() {
    assert_eq!(address_port(&chars_of("[fe80::1%5]:49664")), Some(49664));
    assert_eq!(address_port(&chars_of("80")), Some(80));
    assert_eq!(address_port(&chars_of("0.0.0.0:")), None);
}

#[test]
fn a_tcp_row_without_a_process_is_refused() {
    let text = "\n\n\n\n TCP 0.0.0.0:1 0.0.0.0:0 ESTABLISHED\n";
    assert!(!check_rows(text));
    assert!(check_rows(NETSTAT));
    assert!(check_rows("\n\n\n\n TCP a b\n UDP a b c\n"));
    assert_eq!(
        get_active_ports(&Some(Ok(text.as_bytes().to_vec())), &table()),
        Err(PortsError::MissingPid)
    );
}

#[test]
fn ports_from_the_command() {
    let found = get_active_ports(&Some(Ok(NETSTAT.as_bytes().to_vec())), &table());
    assert_eq!(found.map(|list| list.len()), Ok(5));
    assert_eq!(
        get_active_ports(&None, &table()),
        Err(PortsError::Command("OS not supported".to_string()))
    );
    assert_eq!(
        get_active_ports(&Some(Err("gone".to_string())), &table()),
        Err(PortsError::Command("gone".to_string()))
    );
}

#[test]
fn frameworks_by_process_and_port() {
    for (name, port, expected) in [
        ("node.exe", 5173u16, "Vite / React / Vue"),
        ("node.exe", 3000, "Next.js / Node / React"),
        ("node.exe", 8080, "Node.js Server"),
        ("node.exe", 8000, "Node.js Server"),
        ("node.exe", 4000, "Local Server"),
        ("python3", 5000, "Flask / Python"),
        ("python3", 8000, "Django / Python"),
        ("python3", 3000, "Local Server"),
        ("php-cgi", 1, "PHP Server"),
        ("google", 1, "Golang Server"),
        ("nginx", 3000, "Local Server"),
    ] {
        assert_eq!(framework(name, port), expected);
    }
}

#[test]
fn usual_ports_count_as_development() {
    assert!(dev_server(3001, 1, "nginx".to_string()).is_some());
    assert!(dev_server(3002, 1, "nginx".to_string()).is_none());
    assert!(dev_server(3002, 1, "PHP".to_string()).is_some());
}

fn expected_dev_servers() -> Vec<DevServerInfo> {
    vec![
        DevServerInfo {
            framework: "Vite / React / Vue".to_string(),
            url: "http://localhost:5173".to_string(),
            port: 5173,
            pid: 300,
            process_name: "Node.exe".to_string(),
            status: "Running".to_string(),
        },
        DevServerInfo {
            framework: "Golang Server".to_string(),
            url: "http://localhost:9000".to_string(),
            port: 9000,
            pid: 400,
            process_name: "caddy-GO".to_string(),
            status: "Running".to_string(),
        },
    ]
}

#[test]
fn dev_servers_are_found() {
    assert_eq!(dev_servers(NETSTAT, &table()), expected_dev_servers());
    assert_eq!(
        get_dev_servers(&Some(Ok(NETSTAT.as_bytes().to_vec())), &table()),
        Ok(expected_dev_servers())
    );
    assert_eq!(get_dev_servers(&None, &table()), Err("OS not supported".to_string()));
    assert_eq!(
        get_dev_servers(&Some(Err("gone".to_string())), &table()),
        Err("gone".to_string())
    );
}

#[test]
fn dev_servers_listen_on_active_ports() {
    let ports: Vec<u16> = active_ports(NETSTAT, &table()).iter().map(|p| p.port).collect();
    assert!(dev_servers(NETSTAT, &table()).iter().all(|s| ports.contains(&s.port)));
    let servers = dev_servers(NETSTAT, &Vec::new());
    assert_eq!(servers.iter().map(|s| s.port).collect::<Vec<u16>>(), vec![5173]);
    assert!(servers.iter().all(|s| ports.contains(&s.port)));
}

#[test]
fn a_short_tcp_row_is_no_dev_server() {
    assert_eq!(dev_servers("\n\n\n\n TCP 0.0.0.0:3000 0.0.0.0:0 LISTENING\n", &table()), vec![]);
}

#[test]
fn database_servers_are_found() {
    let mysql = DbServerInfo {
        name: "MySQL".to_string(),
        port: 3306,
        status: "Running".to_string(),
        pid: Some(200),
        uptime: 20,
    };
    assert_eq!(db_servers(NETSTAT, &table()), vec![mysql]);
}

#[test]
fn database_servers_keep_the_known_order() {
    let text = "x :28015 LISTENING\n x y z w many :6379 LISTENING\n a :54321 LISTENING\n :1433 ESTABLISHED\n";
    let found: Vec<(String, Option<u32>, u64)> = db_servers(text, &table())
        .into_iter()
        .map(|s| (s.name, s.pid, s.uptime))
        .collect();
    assert_eq!(
        found,
        vec![
            ("PostgreSQL".to_string(), None, 0),
            ("Redis".to_string(), None, 0),
            ("RethinkDB".to_string(), None, 0),
        ]
    );
}

#[test]
fn database_servers_from_the_command() {
    assert_eq!(
        get_db_servers(&Ok(NETSTAT.as_bytes().to_vec()), &table()).map(|l| l.len()),
        Ok(1)
    );
    assert_eq!(get_db_servers(&Err("gone".to_string()), &table()), Err("gone".to_string()));
}

#[test]
fn the_list_does_not_depend_on_the_order_of_the_rows() {
    let rows = [
        "  TCP 0.0.0.0:80 0.0.0.0:0 LISTENING 100",
        "  TCP 0.0.0.0:22 0.0.0.0:0 LISTENING 200",
        "  UDP 0.0.0.0:53 *:* 300",
    ];
    let forth = format!("\n\n\n\n{}\n{}\n{}\n", rows[0], rows[1], rows[2]);
    let back = format!("\n\n\n\n{}\n{}\n{}\n", rows[2], rows[1], rows[0]);
    let list = active_ports(&forth, &table());
    assert_eq!(list.iter().map(|p| p.port).collect::<Vec<u16>>(), vec![22, 53, 80]);
    assert_eq!(list, active_ports(&back, &table()));
}

#[test]
fn a_database_server_is_listed_once() {
    let text = "TCP 0.0.0.0:3306 x LISTENING 200\nTCP [::]:3306 x LISTENING 300\n";
    let found: Vec<(u16, Option<u32>)> =
        db_servers(text, &table()).iter().map(|s| (s.port, s.pid)).collect();
    assert_eq!(found, vec![(3306, Some(200))]);
}
