//! Windows services and the programs that start with the system.

use crate::encoding::decode;
#[allow(unused_imports)]
use crate::encoding::decoded;
#[allow(unused_imports)]
use crate::json::json_parsed;
use crate::json::{parse_json, Json, JsonModel};
#[allow(unused_imports)]
use crate::model::{lemma_views_push, views};
use crate::text::same_text;
use vstd::prelude::*;
use vstd::string::*;

verus! {

/// A Windows service.
#[derive(Debug, PartialEq)]
pub struct ServiceInfo {
    pub name: String,
    pub display_name: String,
    pub status: String,
}

/// The texts of a [`ServiceInfo`].
pub struct ServiceView {
    pub name: Seq<char>,
    pub display_name: Seq<char>,
    pub status: Seq<char>,
}

impl View for ServiceInfo {
    type V = ServiceView;

    open spec fn view(&self) -> ServiceView {
        ServiceView {
            name: self.name@,
            display_name: self.display_name@,
            status: self.status@,
        }
    }
}

/// A program that starts with the system.
#[derive(Debug, PartialEq)]
pub struct StartupInfo {
    pub name: String,
    pub command: String,
    pub location: String,
}

/// The texts of a [`StartupInfo`].
pub struct StartupView {
    pub name: Seq<char>,
    pub command: Seq<char>,
    pub location: Seq<char>,
}

impl View for StartupInfo {
    type V = StartupView;

    open spec fn view(&self) -> StartupView {
        StartupView { name: self.name@, command: self.command@, location: self.location@ }
    }
}

/// What a service's status number means: four is running, any other number stopped.
pub open spec fn status_text(status: Option<i64>) -> Seq<char> {
    match status {
        Some(n) => if n == 4 {
            "Running"@
        } else {
            "Stopped"@
        },
        None => "Unknown"@,
    }
}

/// The service that one JSON record describes.
pub open spec fn service_of(record: JsonModel) -> ServiceView {
    ServiceView {
        name: record.member("Name"@).text_or_empty(),
        display_name: record.member("DisplayName"@).text_or_empty(),
        status: status_text(record.member("Status"@).integer()),
    }
}

/// The services that a JSON document lists: one for each item of an array, in order.
pub open spec fn services_of(document: JsonModel) -> Seq<ServiceView> {
    match document {
        JsonModel::Array(items) => items.map_values(|item: JsonModel| service_of(item)),
        _ => Seq::empty(),
    }
}

/// The program that one JSON record describes.
pub open spec fn startup_of(record: JsonModel) -> StartupView {
    StartupView {
        name: record.member("Name"@).text_or_empty(),
        command: record.member("Command"@).text_or_empty(),
        location: record.member("Location"@).text_or_empty(),
    }
}

/// The programs that a JSON document lists: one for each item of an array, in order, or the one
/// that an object describes.
pub open spec fn startups_of(document: JsonModel) -> Seq<StartupView> {
    match document {
        JsonModel::Array(items) => items.map_values(|item: JsonModel| startup_of(item)),
        JsonModel::Object(_) => seq![startup_of(document)],
        _ => Seq::empty(),
    }
}

/// Whether a document that is an object has all the members that are read from it. The items of
/// an array may lack some.
pub open spec fn startup_record_complete(document: JsonModel) -> bool {
    document is Object ==> document.has_member("Name"@) && document.has_member("Command"@)
        && document.has_member("Location"@)
}

fn service(record: &Json) -> (r: ServiceInfo)
    ensures
        r@ == service_of(record.model()),
{
    let status: &str = match record.integer_member("Status") {
        Some(n) => if n == 4 {
            "Running"
        } else {
            "Stopped"
        },
        None => "Unknown",
    };
    ServiceInfo {
        name: record.text_member("Name"),
        display_name: record.text_member("DisplayName"),
        status: status.to_string(),
    }
}

fn startup(record: &Json) -> (r: StartupInfo)
    ensures
        r@ == startup_of(record.model()),
{
    StartupInfo {
        name: record.text_member("Name"),
        command: record.text_member("Command"),
        location: record.text_member("Location"),
    }
}

/// The services that a JSON document lists.
pub fn services_from_json(document: &Json) -> (r: Vec<ServiceInfo>)
    ensures
        views(r@) == services_of(document.model()),
{
    broadcast use lemma_views_push;

    let mut r: Vec<ServiceInfo> = Vec::new();
    let ghost listed = services_of(document.model());
    assert(views(r@) =~= listed.take(0));
    match document {
        Json::Array(items) => {
            let mut i: usize = 0;
            while i < items.len()
                invariant
                    i <= items.len(),
                    *document == Json::Array(*items),
                    listed == services_of(document.model()),
                    listed.len() == items.len(),
                    views(r@) == listed.take(i as int),
                decreases items.len() - i,
            {
                r.push(service(&items[i]));
                proof {
                    assert(listed[i as int] == service_of(items@[i as int].model()));
                    assert(listed.take(i + 1) =~= listed.take(i as int).push(listed[i as int]));
                }
                i += 1;
            }
            assert(listed.take(i as int) =~= listed);
        },
        _ => {
            assert(listed.take(0) =~= listed);
        },
    }
    r
}

/// The programs that a JSON document lists.
pub fn startups_from_json(document: &Json) -> (r: Vec<StartupInfo>)
    requires
        startup_record_complete(document.model()),
    ensures
        views(r@) == startups_of(document.model()),
{
    broadcast use lemma_views_push;

    let mut r: Vec<StartupInfo> = Vec::new();
    let ghost listed = startups_of(document.model());
    assert(views(r@) =~= listed.take(0));
    match document {
        Json::Array(items) => {
            let mut i: usize = 0;
            while i < items.len()
                invariant
                    i <= items.len(),
                    *document == Json::Array(*items),
                    listed == startups_of(document.model()),
                    listed.len() == items.len(),
                    views(r@) == listed.take(i as int),
                decreases items.len() - i,
            {
                r.push(startup(&items[i]));
                proof {
                    assert(listed[i as int] == startup_of(items@[i as int].model()));
                    assert(listed.take(i + 1) =~= listed.take(i as int).push(listed[i as int]));
                }
                i += 1;
            }
            assert(listed.take(i as int) =~= listed);
        },
        Json::Object(_) => {
            r.push(startup(document));
            assert(views(r@) =~= listed);
        },
        _ => {
            assert(listed.take(0) =~= listed);
        },
    }
    r
}

/// The services in what `Get-Service | ConvertTo-Json` printed; none where the command did not
/// run or did not print JSON.
pub fn get_services(stdout: Option<&[u8]>) -> (r: Vec<ServiceInfo>)
    ensures
        views(r@) == (match stdout {
            Some(bytes) => match json_parsed(decoded(bytes@)) {
                Some(document) => services_of(document),
                None => Seq::empty(),
            },
            None => Seq::empty(),
        }),
{
    if let Some(bytes) = stdout {
        let text: String = decode(bytes);
        if let Some(document) = parse_json(text.as_str()) {
            return services_from_json(&document);
        }
    }
    let r: Vec<ServiceInfo> = Vec::new();
    assert(views(r@) =~= Seq::empty());
    r
}

/// The programs in what the listing of `Win32_StartupCommand` as JSON printed; none where the
/// command did not run or did not print JSON. `None` where it printed a single record that lacks
/// a member.
pub fn get_startup_apps(stdout: Option<&[u8]>) -> (r: Option<Vec<StartupInfo>>)
    ensures
        match stdout {
            Some(bytes) => match json_parsed(decoded(bytes@)) {
                Some(document) => {
                    &&& r is Some <==> startup_record_complete(document)
                    &&& r is Some ==> views(r->0@) == startups_of(document)
                },
                None => r is Some && r->0@.len() == 0,
            },
            None => r is Some && r->0@.len() == 0,
        },
{
    if let Some(bytes) = stdout {
        let text: String = decode(bytes);
        if let Some(document) = parse_json(text.as_str()) {
            if let Json::Object(_) = &document {
                let complete: bool = document.get("Name").is_some() && document.get(
                    "Command",
                ).is_some() && document.get("Location").is_some();
                if !complete {
                    return None;
                }
            }
            return Some(startups_from_json(&document));
        }
    }
    Some(Vec::new())
}

/// The PowerShell command that starts or stops a service with administrator rights: any action
/// other than `start` stops it.
pub fn service_script(name: &str, action: &str) -> (r: String)
    ensures
        r@ == "Start-Process powershell -ArgumentList '-Command "@ + (if action@ == "start"@ {
            "Start-Service"@
        } else {
            "Stop-Service"@
        }) + " "@ + name@ + "' -Verb RunAs"@,
{
    let mut r: String = "Start-Process powershell -ArgumentList '-Command ".to_string();
    if same_text(action, "start") {
        r.append("Start-Service");
    } else {
        r.append("Stop-Service");
    }
    r.append(" ");
    r.append(name);
    r.append("' -Verb RunAs");
    r
}

/// The outcome of starting or stopping a service: success where the command could be run.
pub fn control_service(ran: bool) -> (r: Result<(), String>)
    ensures
        match r {
            Ok(_) => ran,
            Err(message) => !ran && message@ == "Failed to execute service control"@,
        },
{
    if ran {
        Ok(())
    } else {
        Err("Failed to execute service control".to_string())
    }
}

} // verus!
