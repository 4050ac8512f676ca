//! The operations on images and containers: for each, the engine command that
//! it runs and what it makes of how that command ended.
use vstd::prelude::*;

use crate::engine::{
    attach_spec, interrupt_message, interrupted, quiet_spec, run_attach, run_quiet, running_after,
    unit_result,
    without_output, Invocation, Outcome,
};
use crate::text::{concat, trim, trimmed};

verus! {

pub open spec fn is_lower_hex(c: char) -> bool {
    ('0' <= c && c <= '9') || ('a' <= c && c <= 'f')
}

/// A tag as `uuid` writes a random (version 4) identifier: 32 lower-case hex
/// digits, the thirteenth of which is the version and the seventeenth of which
/// carries the variant's two high bits, `10`.
pub open spec fn is_random_tag(t: Seq<char>) -> bool {
    &&& t.len() == 32
    &&& forall|i: int| 0 <= i < 32 ==> is_lower_hex(#[trigger] t[i])
    &&& t[12] == '4'
    &&& (t[16] == '8' || t[16] == '9' || t[16] == 'a' || t[16] == 'b')
}

/// Relies on `uuid::Uuid::new_v4` for a fresh random identifier, and on the
/// lower-case encoding of `Uuid::to_simple`, which writes its 16 bytes as 32
/// hex digits with the version, 4, in the thirteenth and the variant bits,
/// `10` (RFC 4122), atop the seventeenth. `new_v4` panics only
/// where the system's random source fails.
#[verifier::external_body]
fn new_v4_simple_lower() -> (r: String)
    ensures
        is_random_tag(r@),
{
    uuid::Uuid::new_v4().to_simple().encode_lower(&mut uuid::Uuid::encode_buffer()).to_owned()
}

/// A fresh random tag for an image.
pub fn random_tag() -> (r: String)
    ensures
        is_random_tag(r@),
{
    new_v4_simple_lower()
}

pub open spec fn arg_views(v: Seq<String>) -> Seq<Seq<char>> {
    v.map_values(|s: String| s@)
}

fn push_arg(args: &mut Vec<String>, a: &str)
    ensures
        arg_views(final(args)@) == arg_views(old(args)@).push(a@),
{
    args.push(a.to_owned());
    assert(arg_views(args@) =~= arg_views(old(args)@).push(a@));
}

fn quiet(message: &str, args: Vec<String>) -> (r: Invocation)
    ensures
        r.spinner matches Some(m) && m@ == message@,
        r.args == args,
{
    Invocation { spinner: Some(message.to_owned()), args }
}

/// The image reference `image` inspected.
pub fn image_exists_invocation(image: &str) -> (r: Invocation)
    ensures
        r.spinner matches Some(m) && m@ == "Checking existence of image..."@,
        arg_views(r.args@) == seq!["image"@, "inspect"@, image@],
{
    let mut args: Vec<String> = Vec::new();
    push_arg(&mut args, "image");
    push_arg(&mut args, "inspect");
    push_arg(&mut args, image);
    quiet("Checking existence of image...", args)
}

/// Whether the inspected image exists. A failed inspection means that it does
/// not, unless the run has been cancelled: then it is an interruption.
pub fn image_exists(outcome: Outcome, running: &mut bool) -> (r: Result<bool, String>)
    ensures
        *final(running) == running_after(*old(running), outcome),
        match quiet_spec("The image doesn't exist."@, outcome) {
            Ok(_) => r == Ok::<bool, String>(true),
            Err(_) => if *final(running) {
                r == Ok::<bool, String>(false)
            } else {
                r matches Err(m) && m@ == interrupt_message()
            },
        },
{
    match run_quiet("The image doesn't exist.", outcome, running) {
        Ok(_) => Ok(true),
        Err(_) => if *running {
            Ok(false)
        } else {
            Err(interrupted())
        },
    }
}

/// The image `image` pushed to its registry.
pub fn push_image_invocation(image: &str) -> (r: Invocation)
    ensures
        r.spinner matches Some(m) && m@ == "Pushing image..."@,
        arg_views(r.args@) == seq!["image"@, "push"@, image@],
{
    let mut args: Vec<String> = Vec::new();
    push_arg(&mut args, "image");
    push_arg(&mut args, "push");
    push_arg(&mut args, image);
    quiet("Pushing image...", args)
}

/// Decides a push.
pub fn push_image(outcome: Outcome, running: &mut bool) -> (r: Result<(), String>)
    ensures
        unit_result(r) == without_output(quiet_spec("Unable to push image."@, outcome)),
        *final(running) == running_after(*old(running), outcome),
{
    match run_quiet("Unable to push image.", outcome, running) {
        Ok(_) => Ok(()),
        Err(e) => Err(e),
    }
}

/// The image `image` pulled from its registry.
pub fn pull_image_invocation(image: &str) -> (r: Invocation)
    ensures
        r.spinner matches Some(m) && m@ == "Pulling image..."@,
        arg_views(r.args@) == seq!["image"@, "pull"@, image@],
{
    let mut args: Vec<String> = Vec::new();
    push_arg(&mut args, "image");
    push_arg(&mut args, "pull");
    push_arg(&mut args, image);
    quiet("Pulling image...", args)
}

/// Decides a pull.
pub fn pull_image(outcome: Outcome, running: &mut bool) -> (r: Result<(), String>)
    ensures
        unit_result(r) == without_output(quiet_spec("Unable to pull image."@, outcome)),
        *final(running) == running_after(*old(running), outcome),
{
    match run_quiet("Unable to pull image.", outcome, running) {
        Ok(_) => Ok(()),
        Err(e) => Err(e),
    }
}

/// The image `image` removed, even where containers use it.
pub fn delete_image_invocation(image: &str) -> (r: Invocation)
    ensures
        r.spinner matches Some(m) && m@ == "Deleting image..."@,
        arg_views(r.args@) == seq!["image"@, "rm"@, "--force"@, image@],
{
    let mut args: Vec<String> = Vec::new();
    push_arg(&mut args, "image");
    push_arg(&mut args, "rm");
    push_arg(&mut args, "--force");
    push_arg(&mut args, image);
    quiet("Deleting image...", args)
}

/// Decides a removal of an image.
pub fn delete_image(outcome: Outcome, running: &mut bool) -> (r: Result<(), String>)
    ensures
        unit_result(r) == without_output(quiet_spec("Unable to delete image."@, outcome)),
        *final(running) == running_after(*old(running), outcome),
{
    match run_quiet("Unable to delete image.", outcome, running) {
        Ok(_) => Ok(()),
        Err(e) => Err(e),
    }
}

/// A container created from `image`, running a shell under an init process
/// that reaps orphans and forwards signals.
pub fn create_container_invocation(image: &str) -> (r: Invocation)
    ensures
        r.spinner matches Some(m) && m@ == "Creating container..."@,
        arg_views(r.args@) == seq![
            "container"@,
            "create"@,
            "--init"@,
            "--interactive"@,
            image@,
            "/bin/sh"@,
        ],
{
    let mut args: Vec<String> = Vec::new();
    push_arg(&mut args, "container");
    push_arg(&mut args, "create");
    push_arg(&mut args, "--init");
    push_arg(&mut args, "--interactive");
    push_arg(&mut args, image);
    push_arg(&mut args, "/bin/sh");
    quiet("Creating container...", args)
}

/// The new container's identifier: the engine's output, trimmed.
pub fn create_container(outcome: Outcome, running: &mut bool) -> (r: Result<String, String>)
    ensures
        *final(running) == running_after(*old(running), outcome),
        match quiet_spec("Unable to create container."@, outcome) {
            Ok(out) => r matches Ok(id) && id@ == trimmed(out),
            Err(e) => r matches Err(m) && m@ == e,
        },
{
    match run_quiet("Unable to create container.", outcome, running) {
        Ok(out) => Ok(trim(out.as_str())),
        Err(e) => Err(e),
    }
}

/// An archive on standard input unpacked at the root of `container`.
pub fn copy_into_container_invocation(container: &str) -> (r: Invocation)
    ensures
        r.spinner matches Some(m) && m@ == "Copying files into container..."@,
        arg_views(r.args@) == seq!["container"@, "cp"@, "-"@, container@ + ":/"@],
{
    let mut args: Vec<String> = Vec::new();
    push_arg(&mut args, "container");
    push_arg(&mut args, "cp");
    push_arg(&mut args, "-");
    let target = concat(container, ":/");
    push_arg(&mut args, target.as_str());
    quiet("Copying files into container...", args)
}

/// The failure to send the archive to the engine, with the system's error text.
pub fn copy_into_container_write_error(details: &str) -> (r: String)
    ensures
        r@ == "Unable to copy files into the container. Details: "@ + details@,
{
    concat("Unable to copy files into the container. Details: ", details)
}

/// Decides a copy into a container.
pub fn copy_into_container(outcome: Outcome, running: &mut bool) -> (r: Result<(), String>)
    ensures
        unit_result(r) == without_output(
            quiet_spec("Unable to copy files into the container."@, outcome),
        ),
        *final(running) == running_after(*old(running), outcome),
{
    match run_quiet("Unable to copy files into the container.", outcome, running) {
        Ok(_) => Ok(()),
        Err(e) => Err(e),
    }
}

/// `container` started with the terminal attached; the command to run is
/// then written to its standard input.
pub fn start_container_invocation(container: &str) -> (r: Invocation)
    ensures
        r.spinner is None,
        arg_views(r.args@) == seq![
            "container"@,
            "start"@,
            "--attach"@,
            "--interactive"@,
            container@,
        ],
{
    let mut args: Vec<String> = Vec::new();
    push_arg(&mut args, "container");
    push_arg(&mut args, "start");
    push_arg(&mut args, "--attach");
    push_arg(&mut args, "--interactive");
    push_arg(&mut args, container);
    Invocation { spinner: None, args }
}

/// Decides a start of a container.
pub fn start_container(outcome: Outcome, running: &mut bool) -> (r: Result<(), String>)
    ensures
        unit_result(r) == attach_spec("Unable to start container."@, outcome),
        *final(running) == running_after(*old(running), outcome),
{
    run_attach("Unable to start container.", outcome, running)
}

/// `container` stopped.
pub fn stop_container_invocation(container: &str) -> (r: Invocation)
    ensures
        r.spinner matches Some(m) && m@ == "Stopping container..."@,
        arg_views(r.args@) == seq!["container"@, "stop"@, container@],
{
    let mut args: Vec<String> = Vec::new();
    push_arg(&mut args, "container");
    push_arg(&mut args, "stop");
    push_arg(&mut args, container);
    quiet("Stopping container...", args)
}

/// Decides a stop of a container.
pub fn stop_container(outcome: Outcome, running: &mut bool) -> (r: Result<(), String>)
    ensures
        unit_result(r) == without_output(quiet_spec("Unable to stop container."@, outcome)),
        *final(running) == running_after(*old(running), outcome),
{
    match run_quiet("Unable to stop container.", outcome, running) {
        Ok(_) => Ok(()),
        Err(e) => Err(e),
    }
}

/// `container` committed to the image `image`.
pub fn commit_container_invocation(container: &str, image: &str) -> (r: Invocation)
    ensures
        r.spinner matches Some(m) && m@ == "Committing container..."@,
        arg_views(r.args@) == seq!["container"@, "commit"@, container@, image@],
{
    let mut args: Vec<String> = Vec::new();
    push_arg(&mut args, "container");
    push_arg(&mut args, "commit");
    push_arg(&mut args, container);
    push_arg(&mut args, image);
    quiet("Committing container...", args)
}

/// Decides a commit of a container.
pub fn commit_container(outcome: Outcome, running: &mut bool) -> (r: Result<(), String>)
    ensures
        unit_result(r) == without_output(quiet_spec("Unable to commit container."@, outcome)),
        *final(running) == running_after(*old(running), outcome),
{
    match run_quiet("Unable to commit container.", outcome, running) {
        Ok(_) => Ok(()),
        Err(e) => Err(e),
    }
}

/// `container` removed, even while it runs.
pub fn delete_container_invocation(container: &str) -> (r: Invocation)
    ensures
        r.spinner matches Some(m) && m@ == "Deleting container..."@,
        arg_views(r.args@) == seq!["container"@, "rm"@, "--force"@, container@],
{
    let mut args: Vec<String> = Vec::new();
    push_arg(&mut args, "container");
    push_arg(&mut args, "rm");
    push_arg(&mut args, "--force");
    push_arg(&mut args, container);
    quiet("Deleting container...", args)
}

/// Decides a removal of a container.
pub fn delete_container(outcome: Outcome, running: &mut bool) -> (r: Result<(), String>)
    ensures
        unit_result(r) == without_output(quiet_spec("Unable to delete container."@, outcome)),
        *final(running) == running_after(*old(running), outcome),
{
    match run_quiet("Unable to delete container.", outcome, running) {
        Ok(_) => Ok(()),
        Err(e) => Err(e),
    }
}

/// An interactive root shell in a throwaway container of `image`, with the
/// terminal attached and an init process as in a created container.
pub fn spawn_shell_invocation(image: &str) -> (r: Invocation)
    ensures
        r.spinner is None,
        arg_views(r.args@) == seq![
            "container"@,
            "run"@,
            "--rm"@,
            "--interactive"@,
            "--tty"@,
            "--init"@,
            image@,
            "/bin/su"@,
        ],
{
    let mut args: Vec<String> = Vec::new();
    push_arg(&mut args, "container");
    push_arg(&mut args, "run");
    push_arg(&mut args, "--rm");
    push_arg(&mut args, "--interactive");
    push_arg(&mut args, "--tty");
    push_arg(&mut args, "--init");
    push_arg(&mut args, image);
    push_arg(&mut args, "/bin/su");
    Invocation { spinner: None, args }
}

/// Decides an interactive shell session.
pub fn spawn_shell(outcome: Outcome, running: &mut bool) -> (r: Result<(), String>)
    ensures
        unit_result(r) == attach_spec("The shell exited with a failure."@, outcome),
        *final(running) == running_after(*old(running), outcome),
{
    run_attach("The shell exited with a failure.", outcome, running)
}

} // verus!
