//! The F9 menu and the second layer of F-keys.

use vstd::prelude::*;

use crate::actions::prepare_execution;
use crate::app::{App, AppModel, Effect, EffectModel, Screen, MENU_ITEMS};
use crate::board::toggle;
use crate::compare::{change_panel_root, compare_panels, sync_panels};
use crate::keys::{KeyCode, KeyEvent};
use crate::navigate::{cycle_view, reload_panel};
use crate::panels::PanelModel;
use crate::scans::{reload_dedup, scan_active_panel};
use crate::sizes::recompute_dir_size;
use crate::state::{LoadTarget, Overlay};
use crate::text::push_usize;

verus! {

// ---------------------------------------------------------------------------------------------
// The second layer.
// ---------------------------------------------------------------------------------------------
/// A number of panels, with words before it.
pub open spec fn total_words(words: Seq<char>, total: nat) -> Seq<char> {
    words + crate::text::decimal(total)
}

fn say_total(app: &mut App, words: &str)
    ensures
        final(app)@ == old(app)@.say(
            total_words(words@, old(app)@.commander.panels.len()),
        ),
{
    let mut text = words.to_string();
    assert(app@.commander.panels.len() == app.commander.panels@.len());
    push_usize(&mut text, app.commander.panels.len());
    app.say(text);
}

/// One more panel, and its directory asked for; or the reason for none.
pub open spec fn panel_added_to(a: AppModel) -> AppModel {
    match crate::app::panel_addition(a.commander) {
        Some(message) => a.say(message),
        None => {
            let more = AppModel { commander: crate::app::panel_added(a.commander), ..a };
            crate::navigate::reloaded(
                more.say(total_words("Panel added · total "@, more.commander.panels.len())),
                LoadTarget::Commander(a.commander.panels.len() as usize),
                None,
            )
        },
    }
}

/// One panel fewer, or the reason for none.
pub open spec fn panel_removed_from(a: AppModel) -> AppModel {
    if a.commander.panels.len() > 2 {
        let less = AppModel { commander: crate::app::panel_removed(a.commander), ..a };
        less.say(total_words("Panel removed · total "@, less.commander.panels.len()))
    } else {
        a.say("Minimum of 2 panels"@)
    }
}

fn add_a_panel(app: &mut App)
    requires
        old(app)@.valid(),
    ensures
        final(app)@ == panel_added_to(old(app)@),
{
    match app.commander.add_panel() {
        Ok(index) => {
            say_total(app, "Panel added · total ");
            reload_panel(app, index);
        },
        Err(message) => app.say(message),
    }
}

fn remove_a_panel(app: &mut App)
    requires
        old(app)@.valid(),
    ensures
        final(app)@ == panel_removed_from(old(app)@),
{
    match app.commander.remove_panel() {
        Ok(_) => say_total(app, "Panel removed · total "),
        Err(message) => app.say(message),
    }
}

/// What a second-layer F-key does; a key without an assignment does nothing.
#[verifier::opaque]
pub open spec fn shifted(a: AppModel, n: u8) -> AppModel {
    if n == 1 {
        crate::compare::synced(a)
    } else if n == 2 {
        crate::compare::compared(a)
    } else if n == 3 {
        panel_added_to(a)
    } else if n == 4 {
        panel_removed_from(a)
    } else if n == 5 {
        crate::compare::root_changed(a)
    } else if n == 6 {
        crate::sizes::size_requested(a)
    } else if n == 9 {
        a.send(EffectModel::OpenWizard(Screen::ScanConfig))
    } else if n == 12 {
        crate::board::board_toggled(a)
    } else {
        a
    }
}

/// Handling of Shift+F-keys — the second layer of commander commands.
pub fn on_shift_fkey(app: &mut App, n: u8)
    requires
        old(app)@.valid(),
    ensures
        final(app)@ == shifted(old(app)@, n),
{
    reveal(shifted);
    match n {
        1 => sync_panels(app),
        2 => compare_panels(app),
        3 => add_a_panel(app),
        4 => remove_a_panel(app),
        5 => change_panel_root(app),
        6 => recompute_dir_size(app),
        9 => app.send(Effect::OpenWizard(Screen::ScanConfig)),
        12 => toggle(app),
        _ => {},
    }
}

/// A second-layer key without an assignment changes nothing.
pub proof fn law_unassigned_keys_do_nothing(a: AppModel, n: u8)
    requires
        !crate::keys::dispatched(n),
    ensures
        shifted(a, n) == a,
{
    reveal(shifted);
}

// ---------------------------------------------------------------------------------------------
// The menu.
// ---------------------------------------------------------------------------------------------
/// Action of an F9 menu item.
#[derive(Debug, Clone, Copy, PartialEq, Eq, Structural)]
pub enum MenuAction {
    ScanActivePanel,
    WizardScanConfig,
    WizardResume,
    Execute,
    ClearMarks,
    ReloadDedup,
    CycleView,
    Help,
    /// A second-layer command: accessible without Shift if the terminal does not pass modified
    /// F-keys.
    ShiftLayer(u8),
}

/// The label of a menu item.
pub open spec fn menu_label(index: int) -> Seq<char> {
    if index == 0 {
        "Scan the active panel's directory"@
    } else if index == 1 {
        "Configure and start a scan…"@
    } else if index == 2 {
        "Sessions and scan results…"@
    } else if index == 3 {
        "Execute marked actions (F11 or x)"@
    } else if index == 4 {
        "Clear all marks of the active panel"@
    } else if index == 5 {
        "Reload scan data"@
    } else if index == 6 {
        "Change panel mode (v)"@
    } else if index == 7 {
        "Synchronize panels (Shift+F1)"@
    } else if index == 8 {
        "Compare panels (Shift+F2)"@
    } else if index == 9 {
        "Add a panel (Shift+F3)"@
    } else if index == 10 {
        "Remove a panel (Shift+F4)"@
    } else if index == 11 {
        "Change panel root (Shift+F5)"@
    } else if index == 12 {
        "Recompute directory size (Shift+F6)"@
    } else {
        "Keyboard help"@
    }
}

/// The action of a menu item.
pub open spec fn menu_action(index: int) -> MenuAction {
    if index == 0 {
        MenuAction::ScanActivePanel
    } else if index == 1 {
        MenuAction::WizardScanConfig
    } else if index == 2 {
        MenuAction::WizardResume
    } else if index == 3 {
        MenuAction::Execute
    } else if index == 4 {
        MenuAction::ClearMarks
    } else if index == 5 {
        MenuAction::ReloadDedup
    } else if index == 6 {
        MenuAction::CycleView
    } else if 7 <= index <= 12 {
        MenuAction::ShiftLayer((index - 6) as u8)
    } else {
        MenuAction::Help
    }
}

/// Items of the F9 dropdown menu.
pub fn menu() -> (r: [(&'static str, MenuAction); 14])
    ensures
        forall|i: int|
            0 <= i < 14 ==> (#[trigger] r@[i]).0@ == menu_label(i) && r@[i].1 == menu_action(i),
{
    [
        ("Scan the active panel's directory", MenuAction::ScanActivePanel),
        ("Configure and start a scan…", MenuAction::WizardScanConfig),
        ("Sessions and scan results…", MenuAction::WizardResume),
        ("Execute marked actions (F11 or x)", MenuAction::Execute),
        ("Clear all marks of the active panel", MenuAction::ClearMarks),
        ("Reload scan data", MenuAction::ReloadDedup),
        ("Change panel mode (v)", MenuAction::CycleView),
        ("Synchronize panels (Shift+F1)", MenuAction::ShiftLayer(1)),
        ("Compare panels (Shift+F2)", MenuAction::ShiftLayer(2)),
        ("Add a panel (Shift+F3)", MenuAction::ShiftLayer(3)),
        ("Remove a panel (Shift+F4)", MenuAction::ShiftLayer(4)),
        ("Change panel root (Shift+F5)", MenuAction::ShiftLayer(5)),
        ("Recompute directory size (Shift+F6)", MenuAction::ShiftLayer(6)),
        ("Keyboard help", MenuAction::Help),
    ]
}

/// The labels of the menu.
pub open spec fn menu_labels() -> Seq<Seq<char>> {
    Seq::new(14, |i: int| menu_label(i))
}

/// No mark left on the active panel.
pub open spec fn marks_cleared(a: AppModel) -> AppModel {
    a.with_panel(
        a.commander.active as int,
        PanelModel { marks: Map::empty(), ..a.commander.active_panel() },
    ).say("Active panel marks cleared"@)
}

fn clear_marks(app: &mut App)
    requires
        old(app)@.valid(),
    ensures
        final(app)@ == marks_cleared(old(app)@),
{
    let at: usize = app.commander.active;
    app.panel_mut(at).marks.clear();
    app.say_str("Active panel marks cleared");
}

/// What a menu item does.
#[verifier::opaque]
pub open spec fn action_done(a: AppModel, action: MenuAction, b: AppModel) -> bool {
    match action {
        MenuAction::ScanActivePanel => b == crate::scans::scan_started(a),
        MenuAction::WizardScanConfig => b == a.send(EffectModel::OpenWizard(Screen::ScanConfig)),
        MenuAction::WizardResume => b == a.send(EffectModel::OpenWizard(Screen::Resume)),
        MenuAction::Execute => crate::actions::execution_prepared(a, b),
        MenuAction::ClearMarks => b == marks_cleared(a),
        MenuAction::ReloadDedup => b == crate::scans::dedup_reloaded(a),
        MenuAction::CycleView => b == crate::navigate::view_cycled(a),
        MenuAction::Help => b == (AppModel { show_help: true, ..a }),
        MenuAction::ShiftLayer(n) => b == shifted(a, n),
    }
}

/// Runs the selected menu item.
pub fn run_menu_action(app: &mut App, action: MenuAction)
    requires
        old(app)@.valid(),
    ensures
        action_done(old(app)@, action, final(app)@),
{
    reveal(action_done);
    match action {
        MenuAction::ScanActivePanel => scan_active_panel(app),
        MenuAction::WizardScanConfig => app.send(Effect::OpenWizard(Screen::ScanConfig)),
        MenuAction::WizardResume => app.send(Effect::OpenWizard(Screen::Resume)),
        MenuAction::Execute => prepare_execution(app),
        MenuAction::ClearMarks => clear_marks(app),
        MenuAction::ReloadDedup => reload_dedup(app),
        MenuAction::CycleView => cycle_view(app),
        MenuAction::Help => {
            app.show_help = true;
        },
        MenuAction::ShiftLayer(n) => on_shift_fkey(app, n),
    }
}

/// The menu's cursor after a key.
pub open spec fn menu_cursor(code: KeyCode, cursor: usize) -> Option<usize> {
    match code {
        KeyCode::Up => Some(menu_up(cursor)),
        KeyCode::Down => Some(menu_down(cursor)),
        KeyCode::Char(c) => if c == 'k' {
            Some(menu_up(cursor))
        } else if c == 'j' {
            Some(menu_down(cursor))
        } else {
            None
        },
        _ => None,
    }
}

/// One item up, round and round.
pub open spec fn menu_up(cursor: usize) -> usize {
    if cursor == 0 {
        13
    } else {
        (cursor - 1) as usize
    }
}

/// One item down, round and round.
pub open spec fn menu_down(cursor: usize) -> usize {
    ((cursor + 1) % 14) as usize
}

/// What a key does in the menu: Esc and F9 close it, Enter closes it and runs the item.
pub open spec fn menu_key(a: AppModel, key: KeyEvent, cursor: usize, b: AppModel) -> bool {
    match key.code {
        KeyCode::Esc => b == a.with_overlay(Overlay::Closed),
        KeyCode::F(n) => b == (if n == 9 {
            a.with_overlay(Overlay::Closed)
        } else {
            a
        }),
        KeyCode::Enter => action_done(
            a.with_overlay(Overlay::Closed),
            menu_action(cursor as int),
            b,
        ),
        code => b == (match menu_cursor(code, cursor) {
            Some(next) => a.with_overlay(Overlay::Menu { cursor: next }),
            None => a,
        }),
    }
}

/// Sets the overlay.
pub fn set_overlay(app: &mut App, overlay: Overlay)
    ensures
        final(app)@ == old(app)@.with_overlay(overlay),
{
    app.commander.overlay = overlay;
}

fn next_cursor(code: KeyCode, cursor: usize) -> (r: Option<usize>)
    requires
        cursor < 14,
    ensures
        r == menu_cursor(code, cursor),
{
    let up: usize = if cursor == 0 {
        13
    } else {
        cursor - 1
    };
    let down: usize = if cursor + 1 < 14 {
        cursor + 1
    } else {
        0
    };
    match code {
        KeyCode::Up => Some(up),
        KeyCode::Down => Some(down),
        KeyCode::Char('k') => Some(up),
        KeyCode::Char('j') => Some(down),
        _ => None,
    }
}

/// Input in the F9 dropdown menu.
pub fn on_key_menu(app: &mut App, key: KeyEvent, cursor: usize)
    requires
        old(app)@.valid(),
        cursor < 14,
    ensures
        menu_key(old(app)@, key, cursor, final(app)@),
{
    match key.code {
        KeyCode::Esc => set_overlay(app, Overlay::Closed),
        KeyCode::F(n) => {
            if n == 9 {
                set_overlay(app, Overlay::Closed);
            }
        },
        KeyCode::Enter => {
            let items = menu();
            let action = items[cursor].1;
            set_overlay(app, Overlay::Closed);
            run_menu_action(app, action);
        },
        code => {
            if let Some(next) = next_cursor(code, cursor) {
                set_overlay(app, Overlay::Menu { cursor: next });
            }
        },
    }
}

/// The menu's cursor goes up and down and round, and never leaves the menu.
pub proof fn law_the_menu_cursor_goes_round(cursor: usize)
    requires
        cursor < MENU_ITEMS,
    ensures
        menu_up(menu_down(cursor)) == cursor,
        menu_down(menu_up(cursor)) == cursor,
        menu_up(cursor) < MENU_ITEMS,
        menu_down(cursor) < MENU_ITEMS,
{
}

/// Executing marked actions is reachable without any F-key: the menu offers it, and its item does
/// exactly what F11 does.
pub proof fn law_the_menu_offers_execute(a: AppModel, b: AppModel)
    ensures
        exists|i: int| 0 <= i < 14 && #[trigger] menu_action(i) == MenuAction::Execute,
        action_done(a, MenuAction::Execute, b) <==> crate::actions::execution_prepared(a, b),
{
    reveal(action_done);
    assert(menu_action(3) == MenuAction::Execute);
}

} // verus!
