use toast::{
    commit_container, create_container, delete_container, delete_image, image_exists,
    pull_image, push_image, random_tag, run_attach, run_quiet, spawn_shell, start_container,
    stop_container, tick_interval_ms, Outcome, SpinnerWorker, INTERRUPT_MESSAGE,
};

fn exited(code: i32, stdout: &[u8], stderr: &[u8]) -> Outcome {
    Outcome::Exited { code: Some(code), stdout: stdout.to_vec(), stderr: stderr.to_vec() }
}

fn killed() -> Outcome {
    Outcome::Exited { code: None, stdout: b"partial".to_vec(), stderr: b"noise".to_vec() }
}

fn failed(details: &str) -> Outcome {
    Outcome::Failed { details: details.to_owned() }
}

#[test]
fn random_impure() {
    assert_ne!(random_tag(), random_tag());
}

#[test]
fn random_tag_is_lower_hex_version_four() {
    let tag = random_tag();
    assert_eq!(tag.len(), 32);
    assert!(tag.chars().all(|c| c.is_ascii_digit() || ('a'..='f').contains(&c)));
    assert_eq!(tag.chars().nth(12), Some('4'));
    assert!(matches!(tag.chars().nth(16), Some('8' | '9' | 'a' | 'b')));
}

#[test]
fn quiet_success_returns_output() {
    let mut running = true;
    let r = run_quiet("E.", exited(0, b"hello\n", b"warn"), &mut running);
    assert_eq!(r, Ok("hello\n".to_owned()));
    assert!(running);
}

#[test]
fn quiet_success_decodes_lossily() {
    let mut running = true;
    let r = run_quiet("E.", exited(0, b"a\xffb", b""), &mut running);
    assert_eq!(r, Ok("a\u{FFFD}b".to_owned()));
}

#[test]
fn quiet_failure_embeds_stderr() {
    let mut running = true;
    let r = run_quiet("Unable to do it.", exited(3, b"out", b"boom"), &mut running);
    assert_eq!(r, Err("Unable to do it.\nDetails: boom".to_owned()));
    assert!(running);
}

#[test]
fn quiet_killed_is_interrupted() {
    let mut running = true;
    let r = run_quiet("Unable to do it.", killed(), &mut running);
    assert_eq!(r, Err(INTERRUPT_MESSAGE.to_owned()));
    assert_eq!(INTERRUPT_MESSAGE, "Interrupted.");
    assert!(!running);
}

#[test]
fn quiet_launch_failure_keeps_flag() {
    let mut running = true;
    let r = run_quiet("Unable to do it.", failed("No such file or directory"), &mut running);
    assert_eq!(r, Err("Unable to do it.\nDetails: No such file or directory".to_owned()));
    assert!(running);
}

#[test]
fn flag_never_rises_again() {
    let mut running = false;
    let r = run_quiet("E.", exited(0, b"x", b""), &mut running);
    assert_eq!(r, Ok("x".to_owned()));
    assert!(!running);
}

#[test]
fn attach_outcomes() {
    let mut running = true;
    assert_eq!(run_attach("Bad.", exited(0, b"", b""), &mut running), Ok(()));
    assert_eq!(run_attach("Bad.", exited(1, b"", b"ignored"), &mut running), Err("Bad.".to_owned()));
    assert_eq!(
        run_attach("Bad.", failed("denied"), &mut running),
        Err("Bad.\nDetails: denied".to_owned())
    );
    assert!(running);
    assert_eq!(run_attach("Bad.", killed(), &mut running), Err("Interrupted.".to_owned()));
    assert!(!running);
}

#[test]
fn image_missing_while_running_is_false() {
    let mut running = true;
    let r = image_exists(exited(1, b"", b"No such image"), &mut running);
    assert_eq!(r, Ok(false));
    assert!(running);
}

#[test]
fn image_check_after_cancellation_is_error() {
    let mut running = false;
    let r = image_exists(exited(1, b"", b"No such image"), &mut running);
    assert_eq!(r, Err("Interrupted.".to_owned()));
    assert!(!running);
}

#[test]
fn image_check_killed_is_interrupted() {
    let mut running = true;
    let r = image_exists(killed(), &mut running);
    assert_eq!(r, Err("Interrupted.".to_owned()));
    assert!(!running);
}

#[test]
fn image_present() {
    let mut running = true;
    assert_eq!(image_exists(exited(0, b"[{}]", b""), &mut running), Ok(true));
}

#[test]
fn create_container_trims_identifier() {
    let mut running = true;
    let r = create_container(exited(0, b"  4f2a9c\n", b""), &mut running);
    assert_eq!(r, Ok("4f2a9c".to_owned()));
    let r = create_container(exited(125, b"", b"no image"), &mut running);
    assert_eq!(r, Err("Unable to create container.\nDetails: no image".to_owned()));
}

#[test]
fn verb_error_messages() {
    let mut running = true;
    let e = |s: &str| Err(format!("{}\nDetails: x", s));
    assert_eq!(push_image(exited(1, b"", b"x"), &mut running), e("Unable to push image."));
    assert_eq!(pull_image(exited(1, b"", b"x"), &mut running), e("Unable to pull image."));
    assert_eq!(delete_image(exited(1, b"", b"x"), &mut running), e("Unable to delete image."));
    assert_eq!(stop_container(exited(1, b"", b"x"), &mut running), e("Unable to stop container."));
    assert_eq!(
        commit_container(exited(1, b"", b"x"), &mut running),
        e("Unable to commit container.")
    );
    assert_eq!(
        delete_container(exited(1, b"", b"x"), &mut running),
        e("Unable to delete container.")
    );
    assert_eq!(
        start_container(exited(1, b"", b""), &mut running),
        Err("Unable to start container.".to_owned())
    );
    assert_eq!(
        spawn_shell(exited(1, b"", b""), &mut running),
        Err("The shell exited with a failure.".to_owned())
    );
    assert_eq!(push_image(exited(0, b"done", b""), &mut running), Ok(()));
    assert!(running);
}

#[test]
fn tick_schedule() {
    assert_eq!(tick_interval_ms(0), 16);
    assert_eq!(tick_interval_ms(99), 16);
    assert_eq!(tick_interval_ms(100), 100);
    assert_eq!(tick_interval_ms(5000), 100);
}

#[test]
fn one_spinner_at_a_time() {
    let mut w = SpinnerWorker::new();
    assert!(!w.is_spinning());
    assert!(w.start());
    assert!(w.is_spinning());
    assert!(!w.start());
    assert!(w.clear());
    assert!(!w.is_spinning());
    assert!(!w.clear());
    assert!(w.start());
}
