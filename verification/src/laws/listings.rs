//! What is read from the listings of containers, services and programs that start with the system.

#[allow(unused_imports)]
use crate::docker::{
    container_in, containers_in, control_docker_container, docker_containers,
    get_docker_containers, is_container_action, ContainerView, DockerContainer,
};
#[allow(unused_imports)]
use crate::encoding::decoded;
#[allow(unused_imports)]
use crate::json::{json_parsed, member_of, Json, JsonModel};
#[allow(unused_imports)]
use crate::model::views;
#[allow(unused_imports)]
use crate::services::{
    control_service, get_services, get_startup_apps, service_of, service_script,
    services_from_json, services_of, startup_of, startups_from_json, startups_of, ServiceInfo,
    StartupInfo,
};
#[allow(unused_imports)]
use crate::text::{lines, split, Delimiter};
use vstd::prelude::*;

verus! {

proof fn lemma_containers_concat(a: Seq<Seq<char>>, b: Seq<Seq<char>>)
    ensures
        containers_in(a + b) == containers_in(a) + containers_in(b),
    decreases b.len(),
{
    if b.len() == 0 {
        assert(a + b =~= a);
        assert(containers_in(a) + containers_in(b) =~= containers_in(a));
    } else {
        lemma_containers_concat(a, b.drop_last());
        assert((a + b).drop_last() =~= a + b.drop_last());
        assert((a + b).last() == b.last());
        assert(containers_in(a + b) =~= containers_in(a) + containers_in(b));
    }
}

/// The containers of two listings one behind the other are those of the first and then those of
/// the second.
pub proof fn law_containers_of_joined_listings(
    texts: (&str, &str, &str),
    found: (Vec<DockerContainer>, Vec<DockerContainer>, Vec<DockerContainer>),
)
    requires
        call_ensures(docker_containers, (texts.0,), found.0),
        call_ensures(docker_containers, (texts.1,), found.1),
        call_ensures(docker_containers, (texts.2,), found.2),
        lines(texts.2@) == lines(texts.0@) + lines(texts.1@),
    ensures
        views(found.2@) == views(found.0@) + views(found.1@),
{
    lemma_containers_concat(lines(texts.0@), lines(texts.1@));
}

/// A line lists one container where bars cut it into six fields or more, by the first six of them
/// in order, and none where it has fewer. No line lists none.
pub proof fn law_line_of_a_container(text: &str, r: Vec<DockerContainer>, fields: Seq<Seq<char>>)
    requires
        call_ensures(docker_containers, (text,), r),
        lines(text@).len() <= 1,
        lines(text@).len() == 1 ==> fields == split(lines(text@)[0], Delimiter::Char('|')),
    ensures
        lines(text@).len() == 1 && fields.len() >= 6 ==> r@.len() == 1 && r@[0].id@ == fields[0]
            && r@[0].name@ == fields[1] && r@[0].image@ == fields[2] && r@[0].status@ == fields[3]
            && r@[0].state@ == fields[4] && r@[0].ports@ == fields[5],
        lines(text@).len() == 0 || fields.len() < 6 ==> r@.len() == 0,
{
    let all = lines(text@);
    assert(views(r@).len() == r@.len());
    if all.len() == 1 {
        assert(all.drop_last() =~= Seq::empty());
        assert(containers_in(all.drop_last()) =~= Seq::empty());
        if fields.len() >= 6 {
            assert(views(r@)[0] == r@[0]@);
        }
    }
}

/// What `docker` printed is read as the text that it printed, and a failure is told with its
/// message.
pub proof fn law_containers_of_bytes(
    bytes: Vec<u8>,
    message: String,
    output: &Result<Vec<u8>, String>,
    text: &str,
    r: Result<Vec<DockerContainer>, String>,
    list: Vec<DockerContainer>,
)
    requires
        text@ == decoded(bytes@),
        call_ensures(get_docker_containers, (output,), r),
        call_ensures(docker_containers, (text,), list),
    ensures
        *output == Ok::<Vec<u8>, String>(bytes) ==> (r matches Ok(l) && views(l@) == views(list@)),
        *output == Err::<Vec<u8>, String>(message) ==> (r matches Err(m) && m@
            == "Docker not found or error: "@ + message@),
{
}

/// A container can be started, stopped and restarted, by its own id, and nothing else can be done
/// to it.
pub proof fn law_container_actions(
    id: String,
    action: String,
    r: Result<Vec<String>, String>,
)
    requires
        call_ensures(control_docker_container, (id, action), r),
    ensures
        action@ == "start"@ || action@ == "stop"@ || action@ == "restart"@ ==> (r matches Ok(
            arguments,
        ) && arguments@.len() == 2 && arguments@[0]@ == action@ && arguments@[1]@ == id@),
        action@ != "start"@ && action@ != "stop"@ && action@ != "restart"@ ==> (r matches Err(m)
            && m@ == "Invalid action"@),
{
    if r is Ok {
        let arguments = r->Ok_0@;
        let ts = crate::text::texts(arguments);
        assert(ts.len() == arguments.len());
        assert(ts[0] == arguments[0]@ && ts[1] == arguments[1]@);
    }
}

/// A member of an object is the value behind its name, and a name that the object lacks gives
/// null. Other values have no members.
pub proof fn law_members(members: Seq<(Seq<char>, JsonModel)>, name: Seq<char>, k: int)
    requires
        0 <= k <= members.len(),
        forall|i: int| 0 <= i < k ==> (#[trigger] members[i]).0 != name,
        k < members.len() ==> members[k].0 == name,
    ensures
        JsonModel::Object(members).member(name) == (if k < members.len() {
            members[k].1
        } else {
            JsonModel::Null
        }),
        JsonModel::Object(members).has_member(name) == (k < members.len()),
        JsonModel::Null.member(name) == JsonModel::Null,
        JsonModel::Array(Seq::empty()).member(name) == JsonModel::Null,
    decreases members.len(),
{
    if members.len() > 0 && k > 0 {
        let rest = members.drop_first();
        assert(members[0].0 != name);
        assert forall|i: int| 0 <= i < k - 1 implies (#[trigger] rest[i]).0 != name by {
            assert(rest[i] == members[i + 1]);
        }
        if k < members.len() {
            assert(rest[k - 1] == members[k]);
        }
        law_members(rest, name, k - 1);
    }
}

/// The text of a member that may be missing, or no text: `s` is that text, or empty.
pub open spec fn is_text_of(s: Seq<char>, member: JsonModel) -> bool {
    match member {
        JsonModel::Text(t) => s == t,
        _ => s.len() == 0,
    }
}

/// Each item of an array is one service, in order, by its members `Name`, `DisplayName` and
/// `Status`: the number four means that it is running, any other integer that it is stopped, and
/// anything else that this is not known. A document that is no array lists no service.
pub proof fn law_services(document: &Json, r: Vec<ServiceInfo>, items: Seq<JsonModel>, i: int)
    requires
        call_ensures(services_from_json, (document,), r),
        document.model() is Array ==> document.model() == JsonModel::Array(items),
    ensures
        document.model() is Array ==> r@.len() == items.len(),
        !(document.model() is Array) ==> r@.len() == 0,
        document.model() is Array && 0 <= i < items.len() ==> {
            let status = items[i].member("Status"@);
            &&& is_text_of(r@[i].name@, items[i].member("Name"@))
            &&& is_text_of(r@[i].display_name@, items[i].member("DisplayName"@))
            &&& r@[i].status@ == (if status == JsonModel::Number(Some(4)) {
                "Running"@
            } else if status is Number && status != JsonModel::Number(None) {
                "Stopped"@
            } else {
                "Unknown"@
            })
        },
{
    assert(views(r@).len() == r@.len());
    if document.model() is Array && 0 <= i < items.len() {
        assert(views(r@)[i] == r@[i]@);
        assert(r@[i]@ == service_of(items[i]));
    }
}

/// Each item of an array is one program, in order, by its members `Name`, `Command` and
/// `Location`, and an object is one program by the same members. Any other document lists none.
pub proof fn law_startup_programs(
    document: &Json,
    r: Vec<StartupInfo>,
    records: Seq<JsonModel>,
    i: int,
)
    requires
        call_ensures(startups_from_json, (document,), r),
        match document.model() {
            JsonModel::Array(items) => records == items,
            JsonModel::Object(_) => records == seq![document.model()],
            _ => records.len() == 0,
        },
    ensures
        r@.len() == records.len(),
        0 <= i < records.len() ==> is_text_of(r@[i].name@, records[i].member("Name"@))
            && is_text_of(r@[i].command@, records[i].member("Command"@)) && is_text_of(
            r@[i].location@,
            records[i].member("Location"@),
        ),
{
    assert(views(r@).len() == r@.len());
    if 0 <= i < records.len() {
        assert(views(r@)[i] == r@[i]@);
        assert(r@[i]@ == startup_of(records[i]));
    }
}

/// What a command printed is read as the document in its text. Without a document nothing is
/// listed, and a single program is refused where it lacks one of its members.
pub proof fn law_listings_of_bytes(
    bytes: &[u8],
    document: &Json,
    found: (Vec<ServiceInfo>, Vec<ServiceInfo>),
    programs: (Option<Vec<StartupInfo>>, Vec<StartupInfo>),
)
    requires
        call_ensures(get_services, (Some(bytes),), found.0),
        call_ensures(services_from_json, (document,), found.1),
        call_ensures(get_startup_apps, (Some(bytes),), programs.0),
        call_ensures(startups_from_json, (document,), programs.1),
    ensures
        json_parsed(decoded(bytes@)) is None ==> found.0@.len() == 0 && (programs.0 matches Some(l)
            && l@.len() == 0),
        json_parsed(decoded(bytes@)) == Some(document.model()) ==> {
            let m = document.model();
            &&& views(found.0@) == views(found.1@)
            &&& programs.0 is None <==> m is Object && !(m.has_member("Name"@) && m.has_member(
                "Command"@,
            ) && m.has_member("Location"@))
            &&& programs.0 matches Some(l) ==> views(l@) == views(programs.1@)
        },
{
    assert(views(found.0@).len() == found.0@.len());
}

/// A command that did not run lists nothing.
pub proof fn law_listings_of_nothing(
    found: Vec<ServiceInfo>,
    programs: Option<Vec<StartupInfo>>,
)
    requires
        call_ensures(get_services, (None,), found),
        call_ensures(get_startup_apps, (None,), programs),
    ensures
        found@.len() == 0,
        programs matches Some(l) && l@.len() == 0,
{
    assert(views(found@).len() == found@.len());
}

/// The action `start` starts the service with the given name, and any other action stops it; it
/// succeeds where the command could be run.
pub proof fn law_service_control(
    name: &str,
    action: &str,
    script: String,
    ran: bool,
    outcome: Result<(), String>,
)
    requires
        call_ensures(service_script, (name, action), script),
        call_ensures(control_service, (ran,), outcome),
    ensures
        action@ == "start"@ ==> script@
            == "Start-Process powershell -ArgumentList '-Command "@ + "Start-Service"@ + " "@
            + name@ + "' -Verb RunAs"@,
        action@ != "start"@ ==> script@
            == "Start-Process powershell -ArgumentList '-Command "@ + "Stop-Service"@ + " "@ + name@
            + "' -Verb RunAs"@,
        ran ==> outcome is Ok,
        !ran ==> (outcome matches Err(m) && m@ == "Failed to execute service control"@),
{
}

} // verus!
