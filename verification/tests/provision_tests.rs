use toolchain_bootstrap::archive::ArchiveKind;
use toolchain_bootstrap::error::ErrorKind;
use toolchain_bootstrap::provision::{
    confirm_reply, first_step, move_reply, next_move, next_step, plan_for_file, plan_install,
    replay, tools_dir, MoveReply, MoveStep, Outcome, Reply, Step,
};
use toolchain_bootstrap::registry::{lookup, ToolSpec};

fn steps_of(kind: Option<ArchiveKind>, replies: &[Reply]) -> Vec<Step> {
    let mut step = first_step();
    let mut seen = vec![step];
    for reply in replies {
        step = next_step(kind, step, *reply);
        seen.push(step);
    }
    seen
}

fn tool(url: &str) -> ToolSpec {
    ToolSpec {
        name: "tool".to_string(),
        download_url: url.to_string(),
        install_subdir: "tooldir".to_string(),
    }
}

#[test]
fn tool_on_the_path_is_left_alone() {
    let seen = steps_of(Some(ArchiveKind::Zip), &[Reply::Yes]);
    assert_eq!(seen, vec![Step::Probe, Step::Finished(Outcome::AlreadyAvailable)]);
    assert!(seen.iter().all(|s| !s.has_effect()));
    assert!(Outcome::AlreadyAvailable.continues());
}

#[test]
fn declined_download_is_no_failure() {
    let seen = steps_of(None, &[Reply::No, Reply::No]);
    assert_eq!(seen, vec![Step::Probe, Step::Confirm, Step::Finished(Outcome::Skipped)]);
    assert!(seen.iter().all(|s| !s.has_effect()));
    assert!(Outcome::Skipped.continues());
}

#[test]
fn rar_archive_fails_before_anything_is_unpacked() {
    let plan = plan_install(&tool("https://example.com/dist/tool-1.0.rar")).unwrap();
    assert_eq!(plan.file_name, "tool-1.0.rar");
    assert_eq!(plan.kind, None);
    let seen = steps_of(plan.kind, &[Reply::No, Reply::Yes, Reply::Yes, Reply::No, Reply::Yes]);
    assert_eq!(
        seen,
        vec![
            Step::Probe,
            Step::Confirm,
            Step::Resolve,
            Step::CheckDownload,
            Step::Download,
            Step::Finished(Outcome::Failed(ErrorKind::Archive)),
        ]
    );
    assert!(!seen.contains(&Step::Extract));
    assert!(!seen.contains(&Step::RemoveInstallDir));
    assert_eq!(ErrorKind::Archive.message(), "unsupported archive format");
    assert!(!Outcome::Failed(ErrorKind::Archive).continues());
}

#[test]
fn unsupported_archive_in_cache_fails_at_once() {
    assert_eq!(
        next_step(None, Step::CheckDownload, Reply::Yes),
        Step::Finished(Outcome::Failed(ErrorKind::Archive))
    );
}

#[test]
fn zip_install_removes_stale_dir_and_moves_into_place() {
    let replies = [
        Reply::No,
        Reply::Yes,
        Reply::Yes,
        Reply::No,
        Reply::Yes,
        Reply::Yes,
        Reply::Yes,
        Reply::Yes,
        Reply::Yes,
        Reply::Yes,
        Reply::Yes,
    ];
    assert_eq!(
        steps_of(Some(ArchiveKind::Zip), &replies),
        vec![
            Step::Probe,
            Step::Confirm,
            Step::Resolve,
            Step::CheckDownload,
            Step::Download,
            Step::CheckInstallDir,
            Step::RemoveInstallDir,
            Step::Extract,
            Step::MoveIntoPlace,
            Step::CheckBinDir,
            Step::AddToPath,
            Step::Finished(Outcome::Installed),
        ]
    );
}

#[test]
fn seven_z_install_from_cache_into_fresh_dir() {
    let replies =
        [Reply::No, Reply::Yes, Reply::Yes, Reply::Yes, Reply::No, Reply::Yes, Reply::Yes, Reply::Yes];
    assert_eq!(
        steps_of(Some(ArchiveKind::SevenZ), &replies),
        vec![
            Step::Probe,
            Step::Confirm,
            Step::Resolve,
            Step::CheckDownload,
            Step::CheckInstallDir,
            Step::Extract,
            Step::CheckBinDir,
            Step::AddToPath,
            Step::Finished(Outcome::Installed),
        ]
    );
}

#[test]
fn failed_probe_leads_to_the_prompt() {
    assert_eq!(next_step(None, Step::Probe, Reply::No), Step::Confirm);
    assert_eq!(next_step(None, Step::Probe, Reply::Failed(ErrorKind::ToolNotFound)), Step::Confirm);
}

#[test]
fn failures_end_provisioning_with_their_kind() {
    let zip = Some(ArchiveKind::Zip);
    assert_eq!(
        next_step(zip, Step::Download, Reply::Failed(ErrorKind::Network)),
        Step::Finished(Outcome::Failed(ErrorKind::Network))
    );
    assert_eq!(
        next_step(zip, Step::Resolve, Reply::No),
        Step::Finished(Outcome::Failed(ErrorKind::Input))
    );
    assert_eq!(
        next_step(zip, Step::Download, Reply::No),
        Step::Finished(Outcome::Failed(ErrorKind::Network))
    );
    assert_eq!(
        next_step(zip, Step::Extract, Reply::No),
        Step::Finished(Outcome::Failed(ErrorKind::Archive))
    );
    assert_eq!(
        next_step(zip, Step::RemoveInstallDir, Reply::No),
        Step::Finished(Outcome::Failed(ErrorKind::Filesystem))
    );
    assert_eq!(
        next_step(zip, Step::MoveIntoPlace, Reply::No),
        Step::Finished(Outcome::Failed(ErrorKind::Filesystem))
    );
    assert_eq!(
        next_step(zip, Step::CheckBinDir, Reply::No),
        Step::Finished(Outcome::Failed(ErrorKind::Filesystem))
    );
    assert_eq!(
        next_step(zip, Step::AddToPath, Reply::No),
        Step::Finished(Outcome::Failed(ErrorKind::Filesystem))
    );
    assert_eq!(
        next_step(zip, Step::Confirm, Reply::Failed(ErrorKind::Input)),
        Step::Finished(Outcome::Failed(ErrorKind::Input))
    );
}

#[test]
fn finished_stays_finished() {
    let done = Step::Finished(Outcome::Installed);
    assert_eq!(next_step(None, done, Reply::Yes), done);
    assert_eq!(next_step(None, done, Reply::No), done);
    assert_eq!(next_step(None, done, Reply::Failed(ErrorKind::Network)), done);
}

#[test]
fn steps_with_effects() {
    assert!(Step::Download.has_effect());
    assert!(Step::RemoveInstallDir.has_effect());
    assert!(Step::Extract.has_effect());
    assert!(Step::MoveIntoPlace.has_effect());
    assert!(Step::AddToPath.has_effect());
    assert!(!Step::Probe.has_effect());
    assert!(!Step::Confirm.has_effect());
    assert!(!Step::Resolve.has_effect());
    assert!(!Step::CheckDownload.has_effect());
    assert!(!Step::CheckInstallDir.has_effect());
    assert!(!Step::CheckBinDir.has_effect());
    assert!(!Step::Finished(Outcome::Installed).has_effect());
}

#[test]
fn plan_for_cmake() {
    let plan = plan_install(&lookup("cmake").unwrap()).unwrap();
    assert_eq!(plan.file_name, "cmake-3.31.6-windows-x86_64.zip");
    assert_eq!(plan.download_path, "downloads/cmake-3.31.6-windows-x86_64.zip");
    assert_eq!(plan.kind, Some(ArchiveKind::Zip));
    assert_eq!(plan.install_dir, "tools/cmake");
    assert_eq!(plan.unpacked_dir, Some("tools/cmake-3.31.6-windows-x86_64".to_string()));
    assert_eq!(plan.bin_dir, "tools/cmake/bin");
    assert_eq!(tools_dir(), "tools");
}

#[test]
fn plan_for_mingw64() {
    let plan = plan_install(&lookup("x86_64-w64-mingw32-gcc").unwrap()).unwrap();
    assert_eq!(plan.file_name, "x86_64-14.2.0-release-posix-seh-ucrt-rt_v12-rev1.7z");
    assert_eq!(
        plan.download_path,
        "downloads/x86_64-14.2.0-release-posix-seh-ucrt-rt_v12-rev1.7z"
    );
    assert_eq!(plan.kind, Some(ArchiveKind::SevenZ));
    assert_eq!(plan.install_dir, "tools/mingw64");
    assert_eq!(plan.unpacked_dir, None);
    assert_eq!(plan.bin_dir, "tools/mingw64/bin");
}

#[test]
fn plan_needs_a_file_name() {
    assert_eq!(plan_install(&tool("https://example.com/")), Err(ErrorKind::Input));
    assert_eq!(plan_install(&tool("no url at all")), Err(ErrorKind::Input));
}

#[test]
fn plan_for_given_file() {
    let plan = plan_for_file(&tool("ignored"), "pkg.zip".to_string());
    assert_eq!(plan.file_name, "pkg.zip");
    assert_eq!(plan.download_path, "downloads/pkg.zip");
    assert_eq!(plan.install_dir, "tools/tooldir");
    assert_eq!(plan.unpacked_dir, Some("tools/pkg".to_string()));
    assert_eq!(plan.bin_dir, "tools/tooldir/bin");
}

#[test]
fn answers_that_decline() {
    for answer in ["n", "n\n", "  n\r\n", "N\n", "no\n", "No", "NO\n", "n\u{c}", "n\u{a0}\n"] {
        assert_eq!(confirm_reply(answer), Reply::No, "{:?}", answer);
    }
}

#[test]
fn answers_that_accept() {
    for answer in ["y", "y\n", " Y \r\n", "yes\n", "Yes", "YES\n", "\ty"] {
        assert_eq!(confirm_reply(answer), Reply::Yes, "{:?}", answer);
    }
}

#[test]
fn other_answers_are_bad_input() {
    for answer in ["maybe", "", "\n", "   ", "n n\n", "yess", "ye", "nope", "yN", "0", "y.", "nO", "yEs"] {
        assert_eq!(confirm_reply(answer), Reply::Failed(ErrorKind::Input), "{:?}", answer);
    }
}

#[test]
fn invalid_answer_starts_no_download() {
    let reply = confirm_reply("maybe\n");
    let step = next_step(Some(ArchiveKind::Zip), Step::Confirm, reply);
    assert_eq!(step, Step::Finished(Outcome::Failed(ErrorKind::Input)));
    let seen = steps_of(Some(ArchiveKind::Zip), &[Reply::No, reply, Reply::Yes, Reply::Yes]);
    assert!(seen.iter().all(|s| !s.has_effect()));
    assert!(!seen.contains(&Step::Resolve));
    assert_eq!(seen[seen.len() - 1], Step::Finished(Outcome::Failed(ErrorKind::Input)));
}

#[test]
fn move_succeeds_at_once() {
    assert_eq!(next_move(MoveStep::Rename, MoveReply::Done), MoveStep::Moved);
    assert_eq!(move_reply(MoveStep::Moved), Some(Reply::Yes));
}

#[test]
fn move_retries_once_after_removing_the_target() {
    let s = next_move(MoveStep::Rename, MoveReply::TargetExists);
    assert_eq!(s, MoveStep::RemoveTarget);
    let s = next_move(s, MoveReply::Done);
    assert_eq!(s, MoveStep::RenameAgain);
    assert_eq!(next_move(s, MoveReply::Done), MoveStep::Moved);
    assert_eq!(next_move(s, MoveReply::TargetExists), MoveStep::GaveUp);
    assert_eq!(next_move(s, MoveReply::Error), MoveStep::GaveUp);
}

#[test]
fn move_gives_up_on_other_errors() {
    assert_eq!(next_move(MoveStep::Rename, MoveReply::Error), MoveStep::GaveUp);
    assert_eq!(next_move(MoveStep::RemoveTarget, MoveReply::Error), MoveStep::GaveUp);
    assert_eq!(next_move(MoveStep::RemoveTarget, MoveReply::TargetExists), MoveStep::GaveUp);
    assert_eq!(next_move(MoveStep::GaveUp, MoveReply::Done), MoveStep::GaveUp);
    assert_eq!(next_move(MoveStep::Moved, MoveReply::Error), MoveStep::Moved);
    assert_eq!(move_reply(MoveStep::GaveUp), Some(Reply::Failed(ErrorKind::Filesystem)));
    assert_eq!(move_reply(MoveStep::Rename), None);
    assert_eq!(move_reply(MoveStep::RemoveTarget), None);
    assert_eq!(move_reply(MoveStep::RenameAgain), None);
}

#[test]
fn replay_follows_each_reply() {
    let replies = vec![
        Reply::No,
        Reply::Yes,
        Reply::Yes,
        Reply::Yes,
        Reply::No,
        Reply::Yes,
        Reply::Yes,
        Reply::Yes,
    ];
    assert_eq!(
        replay(Some(ArchiveKind::SevenZ), first_step(), &replies),
        Step::Finished(Outcome::Installed)
    );
    assert_eq!(replay(None, Step::Probe, &Vec::new()), Step::Probe);
    assert_eq!(replay(None, Step::Confirm, &vec![Reply::Yes]), Step::Resolve);
}

#[test]
fn replay_after_successful_probe_never_leaves_finished() {
    let replies = vec![Reply::Yes, Reply::No, Reply::Failed(ErrorKind::Network), Reply::Yes];
    assert_eq!(
        replay(Some(ArchiveKind::Zip), Step::Probe, &replies),
        Step::Finished(Outcome::AlreadyAvailable)
    );
}

#[test]
fn replay_with_unsupported_archive_never_unpacks() {
    let replies = vec![Reply::No, Reply::Yes, Reply::Yes, Reply::Yes, Reply::Yes, Reply::Yes];
    assert_eq!(
        replay(None, Step::Probe, &replies),
        Step::Finished(Outcome::Failed(ErrorKind::Archive))
    );
}
