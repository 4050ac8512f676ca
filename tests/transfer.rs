use toast::{
    commit_container_invocation, copy_from_container, copy_into_container_invocation,
    copy_into_container_write_error, copy_out_invocation, create_container_invocation,
    delete_container_invocation, delete_image_invocation, image_exists_invocation, join,
    plan_transfer, pull_image_invocation, push_image_invocation, relocation,
    spawn_shell_invocation, start_container_invocation, stop_container_invocation, FsAction,
    Invocation, Outcome, Staged, StagedEntry,
};

fn args(i: &Invocation) -> Vec<&str> {
    i.args.iter().map(|s| s.as_str()).collect()
}

fn entry(relative: &str, is_dir: bool) -> StagedEntry {
    StagedEntry { relative: relative.to_owned(), is_dir }
}

fn describe(actions: &[FsAction]) -> Vec<String> {
    actions
        .iter()
        .map(|a| match a {
            FsAction::CreateDir { path } => format!("mkdir {}", path),
            FsAction::Move { from, to } => format!("mv {} {}", from, to),
        })
        .collect()
}

#[test]
fn join_paths() {
    assert_eq!(join("/bar", "foo"), "/bar/foo");
    assert_eq!(join("/bar/", "foo"), "/bar/foo");
    assert_eq!(join("/bar", "/abs"), "/abs");
    assert_eq!(join("", "foo"), "foo");
    assert_eq!(join("/bar", ""), "/bar/");
}

#[test]
fn plan_one_path() {
    let p = plan_transfer("out/a.txt", "/scratch", "/tmp/x1", "/home/me");
    assert_eq!(p.source, "/scratch/out/a.txt");
    assert_eq!(p.staging, "/tmp/x1/data");
    assert_eq!(p.destination, "/home/me/out/a.txt");
    let i = copy_out_invocation("c0ffee", &p);
    assert_eq!(args(&i), vec!["container", "cp", "c0ffee:/scratch/out/a.txt", "/tmp/x1/data"]);
    assert_eq!(i.spinner.as_deref(), Some("Copying files from the container..."));
}

#[test]
fn copy_out_failure_message() {
    let mut running = true;
    let r = copy_from_container(
        Outcome::Exited { code: Some(1), stdout: vec![], stderr: b"no such path".to_vec() },
        &mut running,
    );
    assert_eq!(r, Err("Unable to copy files from the container.\nDetails: no such path".to_owned()));
    let r = copy_from_container(
        Outcome::Exited { code: Some(0), stdout: vec![], stderr: vec![] },
        &mut running,
    );
    assert_eq!(r, Ok(()));
}

#[test]
fn staged_file_moves_onto_destination() {
    let p = plan_transfer("out/a.txt", "/scratch", "/tmp/x1", "/home/me");
    let acts = relocation(&p, &Staged::File);
    assert_eq!(
        describe(&acts),
        vec!["mkdir /home/me/out", "mv /tmp/x1/data /home/me/out/a.txt"]
    );
}

#[test]
fn staged_directory_is_not_nested() {
    // Container path `/foo` holding file `a`, copied to host `/bar`: `/bar/a`.
    for temp in ["/tmp/run1", "/tmp/run2"] {
        let p = plan_transfer("foo", "/", temp, "/bar");
        assert_eq!(p.destination, "/bar/foo");
        let p = toast::TransferPlan { destination: "/bar".to_owned(), ..p };
        let acts = relocation(&p, &Staged::Dir { entries: vec![entry("", true), entry("a", false)] });
        assert_eq!(
            describe(&acts),
            vec!["mkdir /bar/".to_owned(), format!("mv {}/data/a /bar/a", temp)]
        );
    }
}

#[test]
fn two_paths_file_and_nested_directory() {
    let staged_dir = Staged::Dir {
        entries: vec![
            entry("", true),
            entry("x", true),
            entry("x/y", true),
            entry("x/y/deep.txt", false),
            entry("top.txt", false),
        ],
    };
    let file_plan = plan_transfer("f.txt", "/src", "/tmp/t1", "/dst");
    let dir_plan = plan_transfer("d", "/src", "/tmp/t2", "/dst");
    let file_acts = relocation(&file_plan, &Staged::File);
    let dir_acts = relocation(&dir_plan, &staged_dir);
    assert_eq!(describe(&file_acts), vec!["mkdir /dst", "mv /tmp/t1/data /dst/f.txt"]);
    assert_eq!(
        describe(&dir_acts),
        vec![
            "mkdir /dst/d/",
            "mkdir /dst/d/x",
            "mkdir /dst/d/x/y",
            "mv /tmp/t2/data/x/y/deep.txt /dst/d/x/y/deep.txt",
            "mv /tmp/t2/data/top.txt /dst/d/top.txt",
        ]
    );
}

#[test]
fn rerun_places_same_tree() {
    let staged = Staged::Dir { entries: vec![entry("", true), entry("k/v", false)] };
    let first = relocation(&plan_transfer("p", "/", "/tmp/a", "/out"), &staged);
    let second = relocation(&plan_transfer("p", "/", "/tmp/b", "/out"), &staged);
    let targets = |v: &[FsAction]| -> Vec<String> {
        v.iter()
            .map(|a| match a {
                FsAction::CreateDir { path } => path.clone(),
                FsAction::Move { to, .. } => to.clone(),
            })
            .collect()
    };
    assert_eq!(targets(&first), targets(&second));
    assert_eq!(targets(&first), vec!["/out/p/", "/out/p/k/v"]);
}

#[test]
fn command_lines() {
    assert_eq!(args(&image_exists_invocation("alpine")), vec!["image", "inspect", "alpine"]);
    assert_eq!(args(&push_image_invocation("r/i:t")), vec!["image", "push", "r/i:t"]);
    assert_eq!(args(&pull_image_invocation("r/i:t")), vec!["image", "pull", "r/i:t"]);
    assert_eq!(args(&delete_image_invocation("i")), vec!["image", "rm", "--force", "i"]);
    assert_eq!(
        args(&create_container_invocation("i")),
        vec!["container", "create", "--init", "--interactive", "i", "/bin/sh"]
    );
    assert_eq!(args(&copy_into_container_invocation("c")), vec!["container", "cp", "-", "c:/"]);
    let start = start_container_invocation("c");
    assert_eq!(args(&start), vec!["container", "start", "--attach", "--interactive", "c"]);
    assert!(start.spinner.is_none());
    assert_eq!(args(&stop_container_invocation("c")), vec!["container", "stop", "c"]);
    assert_eq!(args(&commit_container_invocation("c", "i")), vec!["container", "commit", "c", "i"]);
    assert_eq!(args(&delete_container_invocation("c")), vec!["container", "rm", "--force", "c"]);
    let shell = spawn_shell_invocation("i");
    assert_eq!(
        args(&shell),
        vec!["container", "run", "--rm", "--interactive", "--tty", "--init", "i", "/bin/su"]
    );
    assert!(shell.spinner.is_none());
    assert_eq!(
        image_exists_invocation("x").spinner.as_deref(),
        Some("Checking existence of image...")
    );
}

#[test]
fn copy_into_write_error_text() {
    assert_eq!(
        copy_into_container_write_error("broken pipe"),
        "Unable to copy files into the container. Details: broken pipe"
    );
}
