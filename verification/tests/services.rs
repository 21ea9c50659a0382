use zoh_monitor::json::{parse_json, Json};
use zoh_monitor::services::{
    control_service, get_services, get_startup_apps, service_script, services_from_json,
    startups_from_json, ServiceInfo, StartupInfo,
};

fn service(name: &str, display_name: &str, status: &str) -> ServiceInfo {
    ServiceInfo {
        name: name.to_string(),
        display_name: display_name.to_string(),
        status: status.to_string(),
    }
}

fn startup(name: &str, command: &str, location: &str) -> StartupInfo {
    StartupInfo {
        name: name.to_string(),
        command: command.to_string(),
        location: location.to_string(),
    }
}

#[test]
fn json_is_read() {
    let text = "{\"b\": [null, true, 1, -2, 1.5, 18446744073709551615, \"x\\n\"], \"a\": {}}";
    assert_eq!(
        parse_json(text),
        Some(Json::Object(vec![
            ("a".to_string(), Json::Object(vec![])),
            (
                "b".to_string(),
                Json::Array(vec![
                    Json::Null,
                    Json::Bool(true),
                    Json::Number(Some(1)),
                    Json::Number(Some(-2)),
                    Json::Number(None),
                    Json::Number(None),
                    Json::Text("x\n".to_string()),
                ])
            ),
        ]))
    );
    assert_eq!(parse_json("{"), None);
    assert_eq!(parse_json(""), None);
}

#[test]
fn members_are_read() {
    let document = parse_json("{\"a\": 1, \"b\": \"x\", \"a\": 2}").unwrap();
    assert_eq!(document.integer_member("a"), Some(2));
    assert_eq!(document.integer_member("b"), None);
    assert_eq!(document.text_member("b"), "x");
    assert_eq!(document.text_member("c"), "");
    assert!(document.get("c").is_none());
    assert!(Json::Null.get("a").is_none());
}

#[test]
fn services_are_listed() {
    let text = "[{\"Name\":\"Spooler\",\"DisplayName\":\"Print Spooler\",\"Status\":4},{\"Name\":\"Fax\",\"DisplayName\":\"Fax\",\"Status\":1},{\"Name\":7},5]";
    let expected = vec![
        service("Spooler", "Print Spooler", "Running"),
        service("Fax", "Fax", "Stopped"),
        service("", "", "Unknown"),
        service("", "", "Unknown"),
    ];
    assert_eq!(services_from_json(&parse_json(text).unwrap()), expected);
    assert_eq!(get_services(Some(text.as_bytes())), expected);
}

#[test]
fn no_services_without_an_array() {
    assert_eq!(get_services(None), vec![]);
    assert_eq!(get_services(Some(b"nonsense")), vec![]);
    assert_eq!(get_services(Some(b"{\"Name\":\"Spooler\"}")), vec![]);
}

#[test]
fn startup_apps_are_listed() {
    let text = "[{\"Name\":\"A\",\"Command\":\"a.exe\",\"Location\":\"HKLM\"},{\"Name\":\"B\"}]";
    let expected = vec![startup("A", "a.exe", "HKLM"), startup("B", "", "")];
    assert_eq!(startups_from_json(&parse_json(text).unwrap()), expected);
    assert_eq!(get_startup_apps(Some(text.as_bytes())), Some(expected));
}

#[test]
fn a_single_startup_app_is_listed() {
    let text = "{\"Name\":\"A\",\"Command\":null,\"Location\":\"HKCU\"}";
    assert_eq!(get_startup_apps(Some(text.as_bytes())), Some(vec![startup("A", "", "HKCU")]));
}

#[test]
fn a_single_startup_app_without_a_member_is_refused() {
    assert_eq!(get_startup_apps(Some(b"{\"Name\":\"A\",\"Command\":\"a\"}")), None);
    assert_eq!(get_startup_apps(Some(b"{}")), None);
}

#[test]
fn no_startup_apps() {
    assert_eq!(get_startup_apps(None), Some(vec![]));
    assert_eq!(get_startup_apps(Some(b"")), Some(vec![]));
    assert_eq!(get_startup_apps(Some(b"3")), Some(vec![]));
}

#[test]
fn services_are_controlled_by_a_script() {
    assert_eq!(
        service_script("Spooler", "start"),
        "Start-Process powershell -ArgumentList '-Command Start-Service Spooler' -Verb RunAs"
    );
    assert_eq!(
        service_script("Spooler", "restart"),
        "Start-Process powershell -ArgumentList '-Command Stop-Service Spooler' -Verb RunAs"
    );
    assert_eq!(control_service(true), Ok(()));
    assert_eq!(control_service(false), Err("Failed to execute service control".to_string()));
}
