use zoh_monitor::docker::{
    control_docker_container, docker_containers, get_docker_containers, DockerContainer,
};

fn container(fields: [&str; 6]) -> DockerContainer {
    DockerContainer {
        id: fields[0].to_string(),
        name: fields[1].to_string(),
        image: fields[2].to_string(),
        status: fields[3].to_string(),
        state: fields[4].to_string(),
        ports: fields[5].to_string(),
    }
}

#[test]
fn containers_are_listed() {
    let text = "1f|web|nginx:1.25|Up 2 hours|running|0.0.0.0:80->80/tcp\n2a|db|postgres|Exited (0)|exited|\nshort|line\n3b|x|y|z|s|p|more\n";
    let expected = vec![
        container(["1f", "web", "nginx:1.25", "Up 2 hours", "running", "0.0.0.0:80->80/tcp"]),
        container(["2a", "db", "postgres", "Exited (0)", "exited", ""]),
        container(["3b", "x", "y", "z", "s", "p"]),
    ];
    assert_eq!(docker_containers(text), expected);
    assert_eq!(get_docker_containers(&Ok(text.as_bytes().to_vec())), Ok(expected));
}

#[test]
fn a_listed_container_reads_back() {
    let fields = ["1", "2 3", "", "ä", "x:y", "last"];
    assert_eq!(docker_containers(&fields.join("|")), vec![container(fields)]);
}

#[test]
fn docker_that_cannot_be_run() {
    assert_eq!(
        get_docker_containers(&Err("program not found".to_string())),
        Err("Docker not found or error: program not found".to_string())
    );
}

#[test]
fn containers_are_controlled() {
    for action in ["start", "stop", "restart"] {
        assert_eq!(
            control_docker_container("1f".to_string(), action.to_string()),
            Ok(vec![action.to_string(), "1f".to_string()])
        );
    }
    assert_eq!(
        control_docker_container("1f".to_string(), "rm".to_string()),
        Err("Invalid action".to_string())
    );
    assert!(control_docker_container("1f".to_string(), "Start".to_string()).is_err());
}
