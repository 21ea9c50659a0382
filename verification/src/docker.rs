//! Docker containers: the listing of `docker ps` and the commands that control a container.

use crate::encoding::decode;
#[allow(unused_imports)]
use crate::encoding::decoded;
#[allow(unused_imports)]
use crate::model::{lemma_views_push, views};
use crate::text::{chars_of, lines_of, same_text, split_chars, string_of, Delimiter};
#[allow(unused_imports)]
use crate::text::{lines, pieces, split, texts};
use vstd::prelude::*;
use vstd::string::*;

verus! {

/// A Docker container.
#[derive(Debug, PartialEq)]
pub struct DockerContainer {
    pub id: String,
    pub name: String,
    pub image: String,
    pub status: String,
    pub state: String,
    pub ports: String,
}

/// The texts of a [`DockerContainer`].
pub struct ContainerView {
    pub id: Seq<char>,
    pub name: Seq<char>,
    pub image: Seq<char>,
    pub status: Seq<char>,
    pub state: Seq<char>,
    pub ports: Seq<char>,
}

impl View for DockerContainer {
    type V = ContainerView;

    open spec fn view(&self) -> ContainerView {
        ContainerView {
            id: self.id@,
            name: self.name@,
            image: self.image@,
            status: self.status@,
            state: self.state@,
            ports: self.ports@,
        }
    }
}

/// The container that a line lists: its first six fields, which bars part. A line with fewer
/// lists none.
pub open spec fn container_in(line: Seq<char>) -> Option<ContainerView> {
    let fields = split(line, Delimiter::Char('|'));
    if fields.len() >= 6 {
        Some(
            ContainerView {
                id: fields[0],
                name: fields[1],
                image: fields[2],
                status: fields[3],
                state: fields[4],
                ports: fields[5],
            },
        )
    } else {
        None
    }
}

/// The containers that the lines list, in the order of the lines.
pub open spec fn containers_in(lines: Seq<Seq<char>>) -> Seq<ContainerView>
    decreases lines.len(),
{
    if lines.len() == 0 {
        Seq::empty()
    } else {
        let before = containers_in(lines.drop_last());
        match container_in(lines.last()) {
            Some(c) => before.push(c),
            None => before,
        }
    }
}

/// The line that lists a container.
pub open spec fn container_line(c: ContainerView) -> Seq<char> {
    c.id.push('|') + c.name.push('|') + c.image.push('|') + c.status.push('|') + c.state.push('|')
        + c.ports
}

/// Whether none of a container's fields holds a bar.
pub open spec fn has_no_bar(c: ContainerView) -> bool {
    !c.id.contains('|') && !c.name.contains('|') && !c.image.contains('|') && !c.status.contains(
        '|',
    ) && !c.state.contains('|') && !c.ports.contains('|')
}

/// A container whose fields hold no bar is read back from the line that lists it.
pub proof fn law_container_line_reads_back(c: ContainerView)
    requires
        has_no_bar(c),
    ensures
        container_in(container_line(c)) == Some(c),
{
    let d = Delimiter::Char('|');
    let e = Seq::<char>::empty();
    assert(split(e, d) =~= seq![e]);
    lemma_split_append(e, c.id, '|');
    let s0 = e + c.id;
    assert(s0 =~= c.id);
    let s1 = s0.push('|') + c.name;
    lemma_split_field(s0, c.name, '|');
    let s2 = s1.push('|') + c.image;
    lemma_split_field(s1, c.image, '|');
    let s3 = s2.push('|') + c.status;
    lemma_split_field(s2, c.status, '|');
    let s4 = s3.push('|') + c.state;
    lemma_split_field(s3, c.state, '|');
    let s5 = s4.push('|') + c.ports;
    lemma_split_field(s4, c.ports, '|');
    assert(container_line(c) =~= s5);
    assert(split(s0, d) =~= seq![c.id]);
}

/// A field behind a delimiter is a piece of its own.
proof fn lemma_split_field(s: Seq<char>, field: Seq<char>, d: char)
    requires
        !field.contains(d),
    ensures
        split(s.push(d) + field, Delimiter::Char(d)) == split(s, Delimiter::Char(d)).push(field),
{
    let t = s.push(d);
    assert(t.drop_last() =~= s);
    lemma_split_append(t, field, d);
    let before = split(t, Delimiter::Char(d));
    assert(before == split(s, Delimiter::Char(d)).push(Seq::<char>::empty()));
    assert(before.last() + field =~= field);
    assert(before.drop_last() =~= split(s, Delimiter::Char(d)));
}

/// Text without the delimiter goes to the last piece.
proof fn lemma_split_append(s: Seq<char>, field: Seq<char>, d: char)
    requires
        !field.contains(d),
    ensures
        split(s + field, Delimiter::Char(d)) == split(s, Delimiter::Char(d)).drop_last().push(
            split(s, Delimiter::Char(d)).last() + field,
        ),
    decreases field.len(),
{
    let dl = Delimiter::Char(d);
    let before = split(s, dl);
    crate::text::lemma_split_nonempty(s, dl);
    if field.len() == 0 {
        assert(s + field =~= s);
        assert(before.last() + field =~= before.last());
        assert(before.drop_last().push(before.last()) =~= before);
    } else {
        let init = field.drop_last();
        assert forall|i: int| 0 <= i < init.len() implies init[i] != d by {
            assert(field[i] == init[i]);
            assert(field.contains(field[i]));
        }
        lemma_split_append(s, init, d);
        assert((s + field).drop_last() =~= s + init);
        assert((s + field).last() == field.last());
        assert(field.contains(field.last())) by {
            assert(field[field.len() - 1] == field.last());
        }
        let mid = split(s + init, dl);
        assert(mid.drop_last() =~= before.drop_last());
        assert(mid.last().push(field.last()) =~= before.last() + field);
    }
}

fn read_container(line: &[char]) -> (r: Option<DockerContainer>)
    ensures
        container_in(line@) == (match r {
            Some(c) => Some(c@),
            None => None,
        }),
{
    let fields: Vec<&[char]> = split_chars(line, Delimiter::Char('|'));
    let ghost fs = split(line@, Delimiter::Char('|'));
    assert(forall|i: int| 0 <= i < fields.len() ==> fs[i] == (#[trigger] fields@[i])@);
    if fields.len() < 6 {
        return None;
    }
    Some(
        DockerContainer {
            id: string_of(fields[0]),
            name: string_of(fields[1]),
            image: string_of(fields[2]),
            status: string_of(fields[3]),
            state: string_of(fields[4]),
            ports: string_of(fields[5]),
        },
    )
}

/// The containers in the text of `docker ps`.
pub fn docker_containers(text: &str) -> (r: Vec<DockerContainer>)
    ensures
        views(r@) == containers_in(lines(text@)),
{
    broadcast use lemma_views_push;

    let cs: Vec<char> = chars_of(text);
    let all: Vec<&[char]> = lines_of(cs.as_slice());
    let mut r: Vec<DockerContainer> = Vec::new();
    let ghost ls = lines(text@);
    let mut i: usize = 0;
    proof {
        assert(views(r@) =~= Seq::empty());
        assert(ls.take(0) =~= Seq::empty());
    }
    while i < all.len()
        invariant
            i <= all.len(),
            pieces(all@) == ls,
            views(r@) == containers_in(ls.take(i as int)),
        decreases all.len() - i,
    {
        proof {
            assert(ls[i as int] == all@[i as int]@);
            assert(ls.take(i + 1).drop_last() =~= ls.take(i as int));
        }
        if let Some(c) = read_container(all[i]) {
            r.push(c);
        }
        i += 1;
    }
    assert(ls.take(i as int) =~= ls);
    r
}

/// The containers in what `docker ps` printed, or a message that says why it could not be run.
pub fn get_docker_containers(output: &Result<Vec<u8>, String>) -> (r: Result<
    Vec<DockerContainer>,
    String,
>)
    ensures
        match *output {
            Err(e) => r matches Err(m) && m@ == "Docker not found or error: "@ + e@,
            Ok(bytes) => r matches Ok(list) && views(list@) == containers_in(
                lines(decoded(bytes@)),
            ),
        },
{
    match output {
        Err(e) => {
            let mut m: String = "Docker not found or error: ".to_string();
            m.append(e.as_str());
            Err(m)
        },
        Ok(bytes) => Ok(docker_containers(decode(bytes.as_slice()).as_str())),
    }
}

/// What can be done to a container.
pub open spec fn is_container_action(action: Seq<char>) -> bool {
    action == "start"@ || action == "stop"@ || action == "restart"@
}

/// The arguments with which `docker` is to be run for an action on a container. An action other
/// than `start`, `stop` and `restart` is refused, and nothing is to be run.
pub fn control_docker_container(id: String, action: String) -> (r: Result<Vec<String>, String>)
    ensures
        match r {
            Ok(arguments) => is_container_action(action@) && texts(arguments@) == seq![
                action@,
                id@,
            ],
            Err(message) => !is_container_action(action@) && message@ == "Invalid action"@,
        },
{
    let a: &str = action.as_str();
    if same_text(a, "start") || same_text(a, "stop") || same_text(a, "restart") {
        let mut arguments: Vec<String> = Vec::new();
        arguments.push(action);
        arguments.push(id);
        assert(texts(arguments@) =~= seq![action@, id@]);
        Ok(arguments)
    } else {
        Err("Invalid action".to_string())
    }
}

} // verus!
