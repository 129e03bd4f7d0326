use vstd::prelude::*;

verus! {

/// Seconds between two background update checks: four hours.
pub const UPDATE_INTERVAL_SECS: u64 = 4 * 60 * 60;

/// Title of the update confirmation dialog.
pub const PROMPT_TITLE: &'static str = "Application Update";

/// Label of the button that accepts an update.
pub const ACCEPT_LABEL: &'static str = "Update";

/// Label of the button that postpones an update.
pub const DECLINE_LABEL: &'static str = "Later";

/// How the application was built. Update checks run in release builds only.
#[derive(Clone, Copy, Debug, PartialEq, Eq, Structural)]
pub enum BuildMode {
    Development,
    Release,
}

/// What one attempt to ask the update service produced.
#[derive(Debug, PartialEq, Eq)]
pub enum UpdateProbe {
    /// The updater could not be obtained; the text describes why.
    UpdaterUnavailable(String),
    /// The updater was obtained but the check failed; the text describes why.
    CheckFailed(String),
    /// The running version is the newest one.
    UpToDate,
    /// A newer version, with this version string, can be installed.
    Available(String),
}

/// The confirmation dialog that offers an update.
#[derive(Debug, PartialEq, Eq)]
pub struct UpdatePrompt {
    pub title: String,
    pub message: String,
    pub accept_label: String,
    pub decline_label: String,
}

/// Whether update checks are performed in a build of this mode.
pub open spec fn updates_enabled(mode: BuildMode) -> bool {
    mode is Release
}

/// Error text of an on-demand command when no updater could be obtained.
pub open spec fn updater_error_text(detail: Seq<char>) -> Seq<char> {
    "Failed to get updater: "@ + detail
}

/// Error text of an on-demand command when the update check failed.
pub open spec fn check_error_text(detail: Seq<char>) -> Seq<char> {
    "Update check failed: "@ + detail
}

/// Body text of the dialog that offers `version`.
pub open spec fn prompt_text(version: Seq<char>) -> Seq<char> {
    "Version "@ + version + " is available. Would you like to update now?"@
}

/// `p` is the dialog that offers `version`.
pub open spec fn is_prompt_for(p: UpdatePrompt, version: Seq<char>) -> bool {
    &&& p.title@ == PROMPT_TITLE@
    &&& p.message@ == prompt_text(version)
    &&& p.accept_label@ == ACCEPT_LABEL@
    &&& p.decline_label@ == DECLINE_LABEL@
}

fn joined(head: &str, tail: &str) -> (r: String)
    ensures
        r@ == head@ + tail@,
{
    String::from_str(head).concat(tail)
}

/// The error text reported when no updater could be obtained.
pub fn updater_error_message(detail: &str) -> (r: String)
    ensures
        r@ == updater_error_text(detail@),
{
    joined("Failed to get updater: ", detail)
}

/// The error text reported when an update check failed.
pub fn check_error_message(detail: &str) -> (r: String)
    ensures
        r@ == check_error_text(detail@),
{
    joined("Update check failed: ", detail)
}

/// Builds the dialog that offers `version`.
pub fn update_prompt(version: &str) -> (r: UpdatePrompt)
    ensures
        is_prompt_for(r, version@),
{
    let lead = joined("Version ", version);
    let message = lead.concat(" is available. Would you like to update now?");
    UpdatePrompt {
        title: String::from_str(PROMPT_TITLE),
        message,
        accept_label: String::from_str(ACCEPT_LABEL),
        decline_label: String::from_str(DECLINE_LABEL),
    }
}

/// The next move of an on-demand command: ask the update service, or answer.
#[derive(Debug, PartialEq, Eq)]
pub enum CommandStep<T> {
    RunProbe,
    Done(T),
}

/// The answer of the on-demand dialog command: its result, and the dialog to
/// show, if any.
#[derive(Debug, PartialEq, Eq)]
pub struct DialogReply {
    pub result: Result<(), String>,
    pub prompt: Option<UpdatePrompt>,
}

/// `r` is the answer of the on-demand check to the outcome `probe`.
pub open spec fn check_reply_for(probe: UpdateProbe, r: Result<bool, String>) -> bool {
    match probe {
        UpdateProbe::UpdaterUnavailable(d) => r matches Err(m) && m@ == updater_error_text(d@),
        UpdateProbe::CheckFailed(d) => r matches Err(m) && m@ == check_error_text(d@),
        UpdateProbe::UpToDate => r == Ok::<bool, String>(false),
        UpdateProbe::Available(_) => r == Ok::<bool, String>(true),
    }
}

/// `r` is the answer of the on-demand dialog command to the outcome `probe`.
pub open spec fn dialog_reply_for(probe: UpdateProbe, r: DialogReply) -> bool {
    match probe {
        UpdateProbe::UpdaterUnavailable(d) => {
            &&& r.prompt is None
            &&& r.result matches Err(m) && m@ == updater_error_text(d@)
        },
        UpdateProbe::CheckFailed(d) => {
            &&& r.prompt is None
            &&& r.result matches Err(m) && m@ == check_error_text(d@)
        },
        UpdateProbe::UpToDate => r.prompt is None && r.result is Ok,
        UpdateProbe::Available(v) => {
            &&& r.result is Ok
            &&& r.prompt matches Some(p) && is_prompt_for(p, v@)
        },
    }
}

/// What the on-demand check answers in a build of `mode`, given the outcome of
/// the probe if one was made.
pub open spec fn check_step_for(
    mode: BuildMode,
    probe: Option<UpdateProbe>,
    r: CommandStep<Result<bool, String>>,
) -> bool {
    if !updates_enabled(mode) {
        r == CommandStep::Done(Ok::<bool, String>(false))
    } else {
        match probe {
            None => r is RunProbe,
            Some(p) => r matches CommandStep::Done(res) && check_reply_for(p, res),
        }
    }
}

/// What the on-demand dialog command does in a build of `mode`, given the
/// outcome of the probe if one was made.
pub open spec fn dialog_step_for(
    mode: BuildMode,
    probe: Option<UpdateProbe>,
    r: CommandStep<DialogReply>,
) -> bool {
    if !updates_enabled(mode) {
        r matches CommandStep::Done(d) && d.result is Ok && d.prompt is None
    } else {
        match probe {
            None => r is RunProbe,
            Some(p) => r matches CommandStep::Done(d) && dialog_reply_for(p, d),
        }
    }
}

/// Whether the update service should be asked at all in a build of `mode`.
pub fn updates_active(mode: BuildMode) -> (r: bool)
    ensures
        r == updates_enabled(mode),
{
    match mode {
        BuildMode::Development => false,
        BuildMode::Release => true,
    }
}

/// Answers the on-demand question "is an update available?".
///
/// Called first with no probe; where it asks for one, called again with the
/// outcome. A development build answers `false` without asking.
pub fn check_for_updates(mode: BuildMode, probe: Option<UpdateProbe>) -> (r: CommandStep<
    Result<bool, String>,
>)
    ensures
        check_step_for(mode, probe, r),
{
    if !updates_active(mode) {
        return CommandStep::Done(Ok(false));
    }
    match probe {
        None => CommandStep::RunProbe,
        Some(UpdateProbe::UpdaterUnavailable(d)) => CommandStep::Done(
            Err(updater_error_message(d.as_str())),
        ),
        Some(UpdateProbe::CheckFailed(d)) => CommandStep::Done(
            Err(check_error_message(d.as_str())),
        ),
        Some(UpdateProbe::UpToDate) => CommandStep::Done(Ok(false)),
        Some(UpdateProbe::Available(_)) => CommandStep::Done(Ok(true)),
    }
}

/// Runs the on-demand "offer an update" command.
///
/// Called first with no probe; where it asks for one, called again with the
/// outcome. Where a version is available the reply carries the dialog to
/// show. A development build succeeds at once and shows nothing.
pub fn show_update_dialog(mode: BuildMode, probe: Option<UpdateProbe>) -> (r: CommandStep<
    DialogReply,
>)
    ensures
        dialog_step_for(mode, probe, r),
{
    if !updates_active(mode) {
        return CommandStep::Done(DialogReply { result: Ok(()), prompt: None });
    }
    match probe {
        None => CommandStep::RunProbe,
        Some(UpdateProbe::UpdaterUnavailable(d)) => CommandStep::Done(
            DialogReply { result: Err(updater_error_message(d.as_str())), prompt: None },
        ),
        Some(UpdateProbe::CheckFailed(d)) => CommandStep::Done(
            DialogReply { result: Err(check_error_message(d.as_str())), prompt: None },
        ),
        Some(UpdateProbe::UpToDate) => CommandStep::Done(DialogReply { result: Ok(()), prompt: None }),
        Some(UpdateProbe::Available(v)) => CommandStep::Done(
            DialogReply { result: Ok(()), prompt: Some(update_prompt(v.as_str())) },
        ),
    }
}

/// State of the background update poller.
#[derive(Clone, Copy, Debug, PartialEq, Eq, Structural)]
pub enum PollState {
    /// Waiting for the next tick.
    Idle,
    /// A check is in flight.
    Checking,
}

/// What happened to the background update poller.
#[derive(Debug, PartialEq, Eq)]
pub enum PollEvent {
    /// The interval timer fired.
    Tick,
    /// The check that was in flight finished with this outcome.
    Probed(UpdateProbe),
}

/// What the caller does after a step of the background update poller.
#[derive(Debug, PartialEq, Eq)]
pub enum PollAction {
    /// Nothing; wait for the next event.
    Wait,
    /// Ask the update service, then report the outcome as `Probed`.
    RunProbe,
    /// Show this dialog without waiting for the user's answer.
    ShowPrompt(UpdatePrompt),
}

/// `next` and `action` are the poller's answer to `event` in `state`.
///
/// A tick while idle starts a check. A finished check returns to idle and
/// offers the available version; a failed check is absorbed silently. Any
/// other event changes nothing.
pub open spec fn poll_step_for(
    state: PollState,
    event: PollEvent,
    next: PollState,
    action: PollAction,
) -> bool {
    match (state, event) {
        (PollState::Idle, PollEvent::Tick) => next == PollState::Checking && action is RunProbe,
        (PollState::Checking, PollEvent::Probed(p)) => {
            &&& next == PollState::Idle
            &&& match p {
                UpdateProbe::Available(v) => action matches PollAction::ShowPrompt(d) && is_prompt_for(
                    d,
                    v@,
                ),
                _ => action is Wait,
            }
        },
        _ => next == state && action is Wait,
    }
}

/// One step of the background update poller, which runs for the life of
/// the process in release builds.
pub fn poll_step(state: PollState, event: PollEvent) -> (r: (PollState, PollAction))
    ensures
        poll_step_for(state, event, r.0, r.1),
{
    match (state, event) {
        (PollState::Idle, PollEvent::Tick) => (PollState::Checking, PollAction::RunProbe),
        (PollState::Checking, PollEvent::Probed(p)) => match p {
            UpdateProbe::Available(v) => (
                PollState::Idle,
                PollAction::ShowPrompt(update_prompt(v.as_str())),
            ),
            _ => (PollState::Idle, PollAction::Wait),
        },
        (s, _) => (s, PollAction::Wait),
    }
}

/// What follows the user's answer to the update dialog.
#[derive(Clone, Copy, Debug, PartialEq, Eq, Structural)]
pub enum InstallAction {
    /// Nothing happens.
    Nothing,
    /// A detached task checks again and installs what it finds.
    StartInstall,
}

/// The action that follows the user's answer: install on "Update", nothing on
/// "Later".
pub open spec fn choice_action(accepted: bool) -> InstallAction {
    if accepted {
        InstallAction::StartInstall
    } else {
        InstallAction::Nothing
    }
}

/// Handles the user's answer to the update dialog.
pub fn on_update_choice(accepted: bool) -> (r: InstallAction)
    ensures
        r == choice_action(accepted),
        !accepted ==> r == InstallAction::Nothing,
{
    if accepted {
        InstallAction::StartInstall
    } else {
        InstallAction::Nothing
    }
}

/// Whether the install task, having checked again, downloads and installs:
/// only where a version is available. Any failure ends the task quietly.
pub fn install_after_probe(probe: &UpdateProbe) -> (r: bool)
    ensures
        r == (probe is Available),
{
    match probe {
        UpdateProbe::Available(_) => true,
        _ => false,
    }
}

/// In a development build the on-demand commands never consult the update
/// service: whatever probe outcome is supplied, the check answers `false`
/// and the dialog command succeeds without a dialog.
pub proof fn development_build_is_inert(
    probe: Option<UpdateProbe>,
    check: CommandStep<Result<bool, String>>,
    dialog: CommandStep<DialogReply>,
)
    requires
        check_step_for(BuildMode::Development, probe, check),
        dialog_step_for(BuildMode::Development, probe, dialog),
    ensures
        check == CommandStep::Done(Ok::<bool, String>(false)),
        dialog matches CommandStep::Done(d) && d.result is Ok && d.prompt is None,
{
}

/// In a release build the on-demand check answers `true` when a version is
/// available and `false` when none is, and on a failure answers with an
/// error text that contains the failure's own description.
pub proof fn release_check_reports_outcome(p: UpdateProbe, r: CommandStep<Result<bool, String>>)
    requires
        check_step_for(BuildMode::Release, Some(p), r),
    ensures
        p is Available ==> r == CommandStep::Done(Ok::<bool, String>(true)),
        p is UpToDate ==> r == CommandStep::Done(Ok::<bool, String>(false)),
        p matches UpdateProbe::UpdaterUnavailable(d) ==> r matches CommandStep::Done(Err(m)) && exists|i: int|
            0 <= i && i + d@.len() <= m@.len() && #[trigger] m@.subrange(i, i + d@.len()) == d@,
        p matches UpdateProbe::CheckFailed(d) ==> r matches CommandStep::Done(Err(m)) && exists|i: int|
            0 <= i && i + d@.len() <= m@.len() && #[trigger] m@.subrange(i, i + d@.len()) == d@,
{
    match p {
        UpdateProbe::UpdaterUnavailable(d) => {
            let m = r->Done_0->Err_0;
            let k: int = "Failed to get updater: "@.len() as int;
            assert(m@.subrange(k, k + d@.len()) =~= d@);
        },
        UpdateProbe::CheckFailed(d) => {
            let m = r->Done_0->Err_0;
            let k: int = "Update check failed: "@.len() as int;
            assert(m@.subrange(k, k + d@.len()) =~= d@);
        },
        _ => {},
    }
}

} // verus!
