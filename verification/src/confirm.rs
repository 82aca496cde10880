//! Input in the F11 confirmation and in the F2 overlay.

use vstd::prelude::*;

use crate::actions::{cancel_execution, confirm_execution};
use crate::app::{App, AppModel, CommanderModel, Effect, EffectModel};
use crate::browser::page_step;
use crate::keys::{KeyCode, KeyEvent};
use crate::moments::plan_stamp;
use crate::path::{FilePath, PathView};
use crate::state::{ConfirmScroll, ConfirmTab, Overlay, ScriptModel};

verus! {

// ---------------------------------------------------------------------------------------------
// The confirmation.
// ---------------------------------------------------------------------------------------------
/// The other tab of the confirmation.
pub open spec fn other_tab(tab: ConfirmTab) -> ConfirmTab {
    match tab {
        ConfirmTab::Summary => ConfirmTab::Commands,
        ConfirmTab::Commands => ConfirmTab::Summary,
    }
}

/// `Tab` in the F11 confirmation: switches the Summary ↔ Commands tab.
pub fn toggle_confirm_tab(app: &mut App)
    ensures
        final(app)@ == (match old(app)@.commander.overlay {
            Overlay::Confirm { tab } => old(app)@.with_overlay(
                Overlay::Confirm { tab: other_tab(tab) },
            ),
            _ => old(app)@,
        }),
{
    if let Overlay::Confirm { tab } = app.commander.overlay {
        let other = match tab {
            ConfirmTab::Summary => ConfirmTab::Commands,
            ConfirmTab::Commands => ConfirmTab::Summary,
        };
        app.commander.overlay = Overlay::Confirm { tab: other };
    }
}

/// The script scrolled by a key.
pub open spec fn script_scrolled(scroll: ConfirmScroll, code: KeyCode) -> ConfirmScroll {
    let page = crate::browser::page_rows(scroll.rows);
    match code {
        KeyCode::Up => scroll.clamped(scroll.offset - 1),
        KeyCode::Down => scroll.clamped(scroll.offset + 1),
        KeyCode::PageUp => scroll.clamped(scroll.offset - page),
        KeyCode::PageDown => scroll.clamped(scroll.offset + page),
        KeyCode::Home => ConfirmScroll { offset: 0, ..scroll },
        KeyCode::End => ConfirmScroll { offset: scroll.spec_max_offset() as usize, ..scroll },
        _ => scroll,
    }
}

fn scroll_script(scroll: &mut ConfirmScroll, code: KeyCode)
    ensures
        *final(scroll) == script_scrolled(*old(scroll), code),
{
    let page: i32 = page_step(scroll.rows, 1);
    match code {
        KeyCode::Up => scroll.scroll_by(-1),
        KeyCode::Down => scroll.scroll_by(1),
        KeyCode::PageUp => scroll.scroll_by(-page),
        KeyCode::PageDown => scroll.scroll_by(page),
        KeyCode::Home => {
            scroll.offset = 0;
        },
        KeyCode::End => {
            scroll.offset = scroll.max_offset();
        },
        _ => {},
    }
}

/// The application with its confirmation's script scrolled by a key.
pub open spec fn commands_scrolled(a: AppModel, code: KeyCode) -> AppModel {
    AppModel {
        commander: CommanderModel {
            confirm_scroll: script_scrolled(a.commander.confirm_scroll, code),
            ..a.commander
        },
        ..a
    }
}

/// Scrolling the Commands tab of the F11 confirmation.
pub fn scroll_confirm_commands(app: &mut App, code: KeyCode)
    ensures
        final(app)@ == commands_scrolled(old(app)@, code),
{
    scroll_script(&mut app.commander.confirm_scroll, code);
}

/// The name of the directory that scripts are saved in: `plans`.
pub open spec fn plans_name() -> Seq<u8> {
    seq![112u8, 108u8, 97u8, 110u8, 115u8]
}

/// Where scripts are saved: beside the checkpoint database.
pub open spec fn plans_dir(db_path: PathView) -> PathView {
    match db_path.parent() {
        Some(parent) => parent.child(plans_name()),
        None => PathView { text: plans_name(), absolute: false, parts: seq![plans_name()] },
    }
}

fn plans_path(db_path: &FilePath) -> (r: FilePath)
    ensures
        r@ == plans_dir(db_path@),
{
    let name: Vec<u8> = vec![112u8, 108, 97, 110, 115];
    assert(name@ =~= plans_name());
    match db_path.parent() {
        Some(parent) => parent.child(&name),
        None => {
            let base = FilePath { text: Vec::new(), absolute: false, parts: Vec::new() };
            let r = base.child(&name);
            assert(r@ =~= plans_dir(db_path@));
            r
        },
    }
}

/// `S`: the script on its way to disk under a name that is `stamp`; a script that may no longer be
/// executed is not saved, and that is said; without a script nothing happens.
pub open spec fn script_sent(a: AppModel, stamp: Seq<char>) -> AppModel {
    match a.commander.confirm_script {
        ScriptModel::Ready(script) => a.send(
            EffectModel::SaveScript {
                dir: plans_dir(a.db_path),
                name: stamp + ".sh"@,
                script,
            },
        ),
        ScriptModel::Invalidated(reason) => a.say(
            "The script was not saved — the confirmation is no longer valid: "@ + reason,
        ),
        ScriptModel::Absent => a,
    }
}

/// `S` in the F11 confirmation under the name `stamp`: only a seat that may still be executed may
/// be saved, because the script of an invalidated plan describes a batch nobody may run.
pub fn save_script_as(app: &mut App, stamp: String)
    ensures
        final(app)@ == script_sent(old(app)@, stamp@),
{
    let script = match app.commander.confirm_script.ready() {
        Some(script) => Some(script.to_string()),
        None => None,
    };
    match script {
        Some(script) => {
            let dir = plans_path(&app.db_path);
            let mut name = stamp;
            name.push_str(".sh");
            app.send(Effect::SaveScript { dir, name, script });
        },
        None => {
            let refusal = match app.commander.confirm_script.invalidated() {
                Some(reason) => {
                    let mut text =
                        "The script was not saved — the confirmation is no longer valid: ".to_string();
                    text.push_str(reason);
                    Some(text)
                },
                None => None,
            };
            if let Some(text) = refusal {
                app.say(text);
            }
        },
    }
}

/// The confirmation's script on its way to disk, named by the clock.
pub open spec fn script_saving(a: AppModel, b: AppModel) -> bool {
    exists|stamp: Seq<char>|
        crate::moments::numeric_date(stamp) && b == #[trigger] script_sent(a, stamp)
}

/// `S` in the F11 confirmation: saves the plan's shell script to `<state_dir>/plans/<ts>.sh`.
pub fn save_confirm_script(app: &mut App)
    ensures
        script_saving(old(app)@, final(app)@),
{
    save_script_as(app, plan_stamp());
}

/// Says where the script was saved.
pub fn script_saved(app: &mut App, path: &FilePath)
    ensures
        final(app)@ == old(app)@.say("Script saved: "@ + path@.shown_safely()),
{
    let mut text = "Script saved: ".to_string();
    text.push_str(path.display_safely().as_str());
    app.say(text);
}

/// Says why the script was not saved.
pub fn script_not_saved(app: &mut App, error: &str)
    ensures
        final(app)@ == old(app)@.say("Failed to save script: "@ + error@),
{
    let mut text = "Failed to save script: ".to_string();
    text.push_str(error);
    app.say(text);
}

/// What a key asks of the confirmation.
#[derive(Debug, Clone, Copy, PartialEq, Eq, Structural)]
pub enum ConfirmCommand {
    Execute,
    Cancel,
    SwitchTab,
    Save,
    Scroll,
    Nothing,
}

/// What a key asks of the confirmation. Only Y executes: Enter is the key people press to dismiss
/// a dialog they have not read. Movement belongs to the Commands tab.
pub open spec fn confirm_command(code: KeyCode, tab: ConfirmTab) -> ConfirmCommand {
    if code == KeyCode::Char('y') || code == KeyCode::Char('Y') {
        ConfirmCommand::Execute
    } else if code == KeyCode::Char('n') || code == KeyCode::Char('N') || code == KeyCode::Esc {
        ConfirmCommand::Cancel
    } else if code == KeyCode::Tab {
        ConfirmCommand::SwitchTab
    } else if code == KeyCode::Char('s') || code == KeyCode::Char('S') {
        ConfirmCommand::Save
    } else if tab == ConfirmTab::Commands {
        ConfirmCommand::Scroll
    } else {
        ConfirmCommand::Nothing
    }
}

fn confirm_command_of(code: KeyCode, tab: ConfirmTab) -> (r: ConfirmCommand)
    ensures
        r == confirm_command(code, tab),
{
    match code {
        KeyCode::Char('y') => ConfirmCommand::Execute,
        KeyCode::Char('Y') => ConfirmCommand::Execute,
        KeyCode::Char('n') => ConfirmCommand::Cancel,
        KeyCode::Char('N') => ConfirmCommand::Cancel,
        KeyCode::Esc => ConfirmCommand::Cancel,
        KeyCode::Tab => ConfirmCommand::SwitchTab,
        KeyCode::Char('s') => ConfirmCommand::Save,
        KeyCode::Char('S') => ConfirmCommand::Save,
        _ => match tab {
            ConfirmTab::Commands => ConfirmCommand::Scroll,
            ConfirmTab::Summary => ConfirmCommand::Nothing,
        },
    }
}

/// What a key does in the confirmation.
pub open spec fn confirm_key(a: AppModel, key: KeyEvent, b: AppModel) -> bool {
    match a.commander.overlay {
        Overlay::Confirm { tab } => match confirm_command(key.code, tab) {
            ConfirmCommand::Execute => b == crate::actions::execution_confirmed(a),
            ConfirmCommand::Cancel => b == crate::actions::without_plan(a).with_overlay(
                Overlay::Closed,
            ),
            ConfirmCommand::SwitchTab => b == a.with_overlay(
                Overlay::Confirm { tab: other_tab(tab) },
            ),
            ConfirmCommand::Save => script_saving(a, b),
            ConfirmCommand::Scroll => b == commands_scrolled(a, key.code),
            ConfirmCommand::Nothing => b == a,
        },
        _ => b == a,
    }
}

/// Input in the F11 confirmation overlay.
pub fn on_key_confirm(app: &mut App, key: KeyEvent)
    ensures
        confirm_key(old(app)@, key, final(app)@),
{
    if let Overlay::Confirm { tab } = app.commander.overlay {
        match confirm_command_of(key.code, tab) {
            ConfirmCommand::Execute => confirm_execution(app),
            ConfirmCommand::Cancel => cancel_execution(app),
            ConfirmCommand::SwitchTab => toggle_confirm_tab(app),
            ConfirmCommand::Save => save_confirm_script(app),
            ConfirmCommand::Scroll => scroll_confirm_commands(app, key.code),
            ConfirmCommand::Nothing => {},
        }
    }
}

/// Nothing but Y starts a batch: every other key in the confirmation hands over no plan to be
/// applied.
pub proof fn law_only_y_executes(a: AppModel, key: KeyEvent, b: AppModel)
    requires
        a.commander.overlay is Confirm,
        confirm_key(a, key, b),
        key.code != KeyCode::Char('y') && key.code != KeyCode::Char('Y'),
    ensures
        b.outbox == a.outbox || (b.outbox.len() == a.outbox.len() + 1 && b.outbox.drop_last()
            == a.outbox && b.outbox.last() is SaveScript),
        b.mode == a.mode,
{
    if let Overlay::Confirm { tab } = a.commander.overlay {
        if confirm_command(key.code, tab) == ConfirmCommand::Save {
            let stamp = choose|stamp: Seq<char>| b == #[trigger] script_sent(a, stamp);
            if b.outbox != a.outbox {
                assert(b.outbox.drop_last() =~= a.outbox);
            }
        }
    }
}

// ---------------------------------------------------------------------------------------------
// The F2 overlay.
// ---------------------------------------------------------------------------------------------
/// The F2 overlay closed and its data gone; the roots stay.
pub open spec fn resume_reset(a: AppModel) -> AppModel {
    AppModel {
        commander: CommanderModel {
            overlay: Overlay::Closed,
            resume_unfinished: None,
            resume_complete: None,
            ..a.commander
        },
        ..a
    }
}

/// Closes the F2 overlay and resets its data.
pub fn reset_resume_overlay(app: &mut App)
    ensures
        final(app)@ == resume_reset(old(app)@),
{
    app.commander.overlay = Overlay::Closed;
    app.commander.resume_unfinished = None;
    app.commander.resume_complete = None;
}

/// The F2 overlay closed and everything it waited for gone.
pub open spec fn resume_over(a: AppModel) -> AppModel {
    let b = resume_reset(a);
    AppModel { commander: CommanderModel { pending_scan_roots: Seq::empty(), ..b.commander }, ..b }
}

fn end_resume(app: &mut App)
    ensures
        final(app)@ == resume_over(old(app)@),
{
    reset_resume_overlay(app);
    app.commander.pending_scan_roots = Vec::new();
    assert(app@.commander.pending_scan_roots =~= Seq::empty());
}

/// An unfinished scan resumed.
pub open spec fn scan_resumed(a: AppModel, id: i64) -> AppModel {
    resume_over(a).send(EffectModel::Resume(id))
}

/// A completed scan opened: its list of results is shown, and leaving it returns to the commander.
pub open spec fn completed_opened(a: AppModel, id: i64) -> AppModel {
    let b = resume_over(a);
    AppModel {
        commander: CommanderModel { return_to_commander: true, ..b.commander },
        results_from_sessions: false,
        ..b
    }.send(EffectModel::OpenCompleted(id))
}

fn resume_scan(app: &mut App, id: i64)
    ensures
        final(app)@ == scan_resumed(old(app)@, id),
{
    end_resume(app);
    app.send(Effect::Resume(id));
}

fn open_completed(app: &mut App, id: i64)
    ensures
        final(app)@ == completed_opened(old(app)@, id),
{
    end_resume(app);
    app.commander.return_to_commander = true;
    app.results_from_sessions = false;
    app.send(Effect::OpenCompleted(id));
}

/// A new scan of the roots that were waiting.
pub open spec fn scanned_anew(a: AppModel) -> AppModel {
    resume_over(a).send(EffectModel::ScanNew(a.commander.pending_scan_roots))
}

fn scan_anew(app: &mut App)
    ensures
        final(app)@ == scanned_anew(old(app)@),
{
    let mut roots: Vec<FilePath> = Vec::new();
    let ghost waiting = app@.commander.pending_scan_roots;
    std::mem::swap(&mut roots, &mut app.commander.pending_scan_roots);
    assert(crate::model::paths_model(roots@) == waiting);
    end_resume(app);
    app.send(Effect::ScanNew(roots));
}

/// What a key asks of the F2 overlay.
#[derive(Debug, Clone, Copy, PartialEq, Eq, Structural)]
pub enum ResumeCommand {
    Resume(i64),
    Open(i64),
    Anew,
    Cancel,
    Nothing,
}

/// What a key asks of the F2 overlay: R resumes the unfinished scan and O opens the completed one,
/// where there is one; Enter does the former if it can and otherwise the latter.
pub open spec fn resume_command(
    code: KeyCode,
    unfinished: Option<i64>,
    complete: Option<i64>,
) -> ResumeCommand {
    let resume = match unfinished {
        Some(id) => ResumeCommand::Resume(id),
        None => ResumeCommand::Nothing,
    };
    let open = match complete {
        Some(id) => ResumeCommand::Open(id),
        None => ResumeCommand::Nothing,
    };
    if code == KeyCode::Char('r') || code == KeyCode::Char('R') {
        resume
    } else if code == KeyCode::Char('o') || code == KeyCode::Char('O') {
        open
    } else if code == KeyCode::Enter {
        if unfinished is Some {
            resume
        } else {
            open
        }
    } else if code == KeyCode::Char('n') || code == KeyCode::Char('N') {
        ResumeCommand::Anew
    } else if code == KeyCode::Esc {
        ResumeCommand::Cancel
    } else {
        ResumeCommand::Nothing
    }
}

fn resume_command_of(code: KeyCode, unfinished: Option<i64>, complete: Option<i64>) -> (r:
    ResumeCommand)
    ensures
        r == resume_command(code, unfinished, complete),
{
    let resume = match unfinished {
        Some(id) => ResumeCommand::Resume(id),
        None => ResumeCommand::Nothing,
    };
    let open = match complete {
        Some(id) => ResumeCommand::Open(id),
        None => ResumeCommand::Nothing,
    };
    match code {
        KeyCode::Char('r') => resume,
        KeyCode::Char('R') => resume,
        KeyCode::Char('o') => open,
        KeyCode::Char('O') => open,
        KeyCode::Enter => {
            if unfinished.is_some() {
                resume
            } else {
                open
            }
        },
        KeyCode::Char('n') => ResumeCommand::Anew,
        KeyCode::Char('N') => ResumeCommand::Anew,
        KeyCode::Esc => ResumeCommand::Cancel,
        _ => ResumeCommand::Nothing,
    }
}

/// What the F2 overlay offers: the scan to resume and the one to open.
pub open spec fn offered(info: Option<crate::model::ResumeInfo>) -> Option<i64> {
    match info {
        Some(info) => Some(info.scan_id),
        None => None,
    }
}

/// What a key does in the F2 overlay.
pub open spec fn resume_key(a: AppModel, key: KeyEvent) -> AppModel {
    match resume_command(
        key.code,
        offered(a.commander.resume_unfinished),
        offered(a.commander.resume_complete),
    ) {
        ResumeCommand::Resume(id) => scan_resumed(a, id),
        ResumeCommand::Open(id) => completed_opened(a, id),
        ResumeCommand::Anew => scanned_anew(a),
        ResumeCommand::Cancel => resume_over(a).say("Scan cancelled"@),
        ResumeCommand::Nothing => a,
    }
}

/// Input in the F2 "resume session?" overlay: R/Enter — resume, O — open, N — new scan, Esc —
/// cancel.
pub fn on_key_resume_scan(app: &mut App, key: KeyEvent)
    ensures
        final(app)@ == resume_key(old(app)@, key),
{
    let unfinished: Option<i64> = match &app.commander.resume_unfinished {
        Some(info) => Some(info.scan_id),
        None => None,
    };
    let complete: Option<i64> = match &app.commander.resume_complete {
        Some(info) => Some(info.scan_id),
        None => None,
    };
    match resume_command_of(key.code, unfinished, complete) {
        ResumeCommand::Resume(id) => resume_scan(app, id),
        ResumeCommand::Open(id) => open_completed(app, id),
        ResumeCommand::Anew => scan_anew(app),
        ResumeCommand::Cancel => {
            end_resume(app);
            app.say_str("Scan cancelled");
        },
        ResumeCommand::Nothing => {},
    }
}

} // verus!
