use henix::mux::{ExitInfo, MuxError};
use henix::outcome::{build_outcome, copy_outcome, exit_code_text, hash_outcome, link_outcome};

fn exit(code: i32) -> ExitInfo {
    ExitInfo { code: Some(code) }
}

#[test]
fn hash_outcome_trims_output() {
    let dir = "/srv/cfg".to_string();
    let r = hash_outcome(exit(0), &dir, &Some("  0abc1\n".to_string()), &String::new());
    assert_eq!(r, Ok("0abc1".to_string()));
    let r = hash_outcome(exit(0), &dir, &Some("\u{3000}h2\u{85}\t".to_string()), &String::new());
    assert_eq!(r, Ok("h2".to_string()));
}

#[test]
fn hash_outcome_failure_names_dir_and_stderr() {
    let r = hash_outcome(exit(1), &"/srv/cfg".to_string(), &Some(String::new()), &"no such dir".to_string());
    assert_eq!(
        r,
        Err("Could not execute `nix-hash /srv/cfg` command, with stderr:\nno such dir".to_string())
    );
    // A failed run reports its stderr even when its output was not UTF-8.
    let r = hash_outcome(exit(2), &"d".to_string(), &None, &"bad".to_string());
    assert_eq!(r, Err("Could not execute `nix-hash d` command, with stderr:\nbad".to_string()));
}

#[test]
fn hash_outcome_rejects_undecodable_output() {
    let r = hash_outcome(exit(0), &"d".to_string(), &None, &String::new());
    assert_eq!(r, Err("Could not decode nix-hash's output as UTF-8".to_string()));
}

#[test]
fn copy_outcome_by_exit_code() {
    let loc = "10.1.1.1".to_string();
    assert_eq!(copy_outcome(exit(0), &loc, &String::new()), Ok(String::new()));
    assert_eq!(
        copy_outcome(exit(23), &loc, &"denied".to_string()),
        Err("Could not rsync files to location `10.1.1.1` (rsync exited with 23), with stderr of:\ndenied"
            .to_string())
    );
    assert_eq!(
        copy_outcome(ExitInfo { code: None }, &loc, &String::new()),
        Err("Could not rsync files to location `10.1.1.1` (rsync exited with <unknown>), with stderr of:\n"
            .to_string())
    );
}

#[test]
fn exit_codes_in_decimal() {
    assert_eq!(exit_code_text(Some(0)), "0");
    assert_eq!(exit_code_text(Some(45)), "45");
    assert_eq!(exit_code_text(Some(-12)), "-12");
    assert_eq!(exit_code_text(Some(i32::MIN)), "-2147483648");
    assert_eq!(exit_code_text(None), "<unknown>");
}

#[test]
fn build_outcome_nonzero_and_errors() {
    assert_eq!(build_outcome(Ok(exit(0))), Ok(String::new()));
    assert_eq!(build_outcome(Ok(exit(1))), Err("Rebuild failed".to_string()));
    assert_eq!(build_outcome(Ok(ExitInfo { code: None })), Err("Rebuild failed".to_string()));
    assert_eq!(
        build_outcome(Err(MuxError::SpawnFailed("x".to_string()))),
        Err("Could not spawn process: x".to_string())
    );
    assert_eq!(
        build_outcome(Err(MuxError::WaitFailed("y".to_string()))),
        Err("Could not wait for child status: y".to_string())
    );
}

#[test]
fn link_outcome_by_status() {
    assert_eq!(link_outcome(Ok(exit(0))), Ok(String::new()));
    assert_eq!(link_outcome(Ok(exit(1))), Err("ln exited with 1".to_string()));
    assert_eq!(link_outcome(Err("lost".to_string())), Err("lost".to_string()));
}
