use bolt_gives::updates::{
    check_error_message, check_for_updates, install_after_probe, on_update_choice, poll_step,
    show_update_dialog, update_prompt, updater_error_message, updates_active, BuildMode,
    CommandStep, DialogReply, InstallAction, PollAction, PollEvent, PollState, UpdateProbe,
    UpdatePrompt, UPDATE_INTERVAL_SECS,
};

fn available(v: &str) -> UpdateProbe {
    UpdateProbe::Available(v.to_string())
}

#[test]
fn interval_is_four_hours() {
    assert_eq!(UPDATE_INTERVAL_SECS, 14400);
}

#[test]
fn only_release_builds_check() {
    assert!(updates_active(BuildMode::Release));
    assert!(!updates_active(BuildMode::Development));
}

#[test]
fn development_check_is_false_without_probe() {
    assert_eq!(check_for_updates(BuildMode::Development, None), CommandStep::Done(Ok(false)));
    assert_eq!(
        check_for_updates(BuildMode::Development, Some(available("9.9.9"))),
        CommandStep::Done(Ok(false))
    );
    assert_eq!(
        check_for_updates(BuildMode::Development, Some(UpdateProbe::CheckFailed("x".to_string()))),
        CommandStep::Done(Ok(false))
    );
}

#[test]
fn development_dialog_succeeds_without_dialog() {
    let expected = CommandStep::Done(DialogReply { result: Ok(()), prompt: None });
    assert_eq!(show_update_dialog(BuildMode::Development, None), expected);
    assert_eq!(show_update_dialog(BuildMode::Development, Some(available("2.0.0"))), expected);
}

#[test]
fn release_check_asks_first() {
    assert_eq!(check_for_updates(BuildMode::Release, None), CommandStep::RunProbe);
    assert_eq!(show_update_dialog(BuildMode::Release, None), CommandStep::RunProbe);
}

#[test]
fn release_check_reports_available_and_up_to_date() {
    assert_eq!(
        check_for_updates(BuildMode::Release, Some(available("1.2.3"))),
        CommandStep::Done(Ok(true))
    );
    assert_eq!(
        check_for_updates(BuildMode::Release, Some(UpdateProbe::UpToDate)),
        CommandStep::Done(Ok(false))
    );
}

#[test]
fn release_check_failure_carries_detail() {
    assert_eq!(
        check_for_updates(BuildMode::Release, Some(UpdateProbe::CheckFailed("network down".to_string()))),
        CommandStep::Done(Err("Update check failed: network down".to_string()))
    );
    assert_eq!(
        check_for_updates(
            BuildMode::Release,
            Some(UpdateProbe::UpdaterUnavailable("no endpoints".to_string()))
        ),
        CommandStep::Done(Err("Failed to get updater: no endpoints".to_string()))
    );
}

#[test]
fn error_messages_prefix_the_detail() {
    assert_eq!(check_error_message("timeout"), "Update check failed: timeout");
    assert_eq!(updater_error_message(""), "Failed to get updater: ");
}

#[test]
fn prompt_names_the_version() {
    let p = update_prompt("0.4.1");
    assert_eq!(
        p,
        UpdatePrompt {
            title: "Application Update".to_string(),
            message: "Version 0.4.1 is available. Would you like to update now?".to_string(),
            accept_label: "Update".to_string(),
            decline_label: "Later".to_string(),
        }
    );
}

#[test]
fn release_dialog_offers_available_version() {
    let r = show_update_dialog(BuildMode::Release, Some(available("3.0.0")));
    assert_eq!(
        r,
        CommandStep::Done(DialogReply { result: Ok(()), prompt: Some(update_prompt("3.0.0")) })
    );
}

#[test]
fn release_dialog_quiet_when_up_to_date() {
    let r = show_update_dialog(BuildMode::Release, Some(UpdateProbe::UpToDate));
    assert_eq!(r, CommandStep::Done(DialogReply { result: Ok(()), prompt: None }));
}

#[test]
fn release_dialog_failures_are_errors() {
    let r = show_update_dialog(BuildMode::Release, Some(UpdateProbe::CheckFailed("bad signature".to_string())));
    assert_eq!(
        r,
        CommandStep::Done(DialogReply {
            result: Err("Update check failed: bad signature".to_string()),
            prompt: None
        })
    );
    let r = show_update_dialog(BuildMode::Release, Some(UpdateProbe::UpdaterUnavailable("e".to_string())));
    assert_eq!(
        r,
        CommandStep::Done(DialogReply { result: Err("Failed to get updater: e".to_string()), prompt: None })
    );
}

#[test]
fn poller_tick_starts_check() {
    assert_eq!(poll_step(PollState::Idle, PollEvent::Tick), (PollState::Checking, PollAction::RunProbe));
}

#[test]
fn poller_offers_available_version() {
    let r = poll_step(PollState::Checking, PollEvent::Probed(available("5.1.0")));
    assert_eq!(r, (PollState::Idle, PollAction::ShowPrompt(update_prompt("5.1.0"))));
}

#[test]
fn poller_absorbs_failures_and_no_update() {
    for p in [
        UpdateProbe::UpToDate,
        UpdateProbe::CheckFailed("dns".to_string()),
        UpdateProbe::UpdaterUnavailable("config".to_string()),
    ] {
        assert_eq!(poll_step(PollState::Checking, PollEvent::Probed(p)), (PollState::Idle, PollAction::Wait));
    }
}

#[test]
fn poller_ignores_out_of_turn_events() {
    assert_eq!(poll_step(PollState::Checking, PollEvent::Tick), (PollState::Checking, PollAction::Wait));
    assert_eq!(
        poll_step(PollState::Idle, PollEvent::Probed(available("1.0.0"))),
        (PollState::Idle, PollAction::Wait)
    );
}

#[test]
fn declining_starts_nothing() {
    assert_eq!(on_update_choice(false), InstallAction::Nothing);
    assert_eq!(on_update_choice(true), InstallAction::StartInstall);
}

#[test]
fn install_only_when_still_available() {
    assert!(install_after_probe(&available("2.0.0")));
    assert!(!install_after_probe(&UpdateProbe::UpToDate));
    assert!(!install_after_probe(&UpdateProbe::CheckFailed("x".to_string())));
    assert!(!install_after_probe(&UpdateProbe::UpdaterUnavailable("y".to_string())));
}
