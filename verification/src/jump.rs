//! The `o` key: from a file of a group to its directory in the panel on the right.

use vstd::prelude::*;

use crate::app::{App, AppModel, CommanderModel, CommanderState};
use crate::entries::PanelView;
use crate::navigate::navigate_panel_with_cursor;
use crate::path::{FilePath, PathView};
use crate::state::{JumpModel, PendingJump};
use crate::text::{decode_lossy, terminal};

verus! {

/// The file of the group shown in a panel at a row.
pub open spec fn watched_file(c: CommanderModel, panel: int, row: int) -> Option<PathView> {
    if panel < c.watch_cache.len() {
        match c.watch_cache[panel].file_group() {
            Some(group) => if row < group.files@.len() {
                Some(group.files@[row].path@)
            } else {
                None
            },
            None => None,
        }
    } else {
        None
    }
}

/// Where the jump leads: the file under the cursor and its directory, or why it leads nowhere.
pub open spec fn jump_target(c: CommanderModel) -> Result<(PathView, PathView), Seq<char>> {
    let p = c.active_panel();
    if p.view != PanelView::GroupFiles && p.view != PanelView::DuplicatesOfCursor {
        Err("The «o» key works in the «group files» and «duplicates» modes"@)
    } else {
        match p.list.selected {
            None => Err("No file under the cursor"@),
            Some(row) => match watched_file(c, c.active as int, row as int) {
                None => Err("No file under the cursor"@),
                Some(file) => match file.parent() {
                    None => Err("The file has no parent directory"@),
                    Some(parent) => Ok((file, parent)),
                },
            },
        }
    }
}

fn file_at(commander: &CommanderState, panel: usize, row: usize) -> (r: Option<FilePath>)
    ensures
        crate::panels::path_model(r) == watched_file(commander@, panel as int, row as int),
{
    if panel < commander.watch_cache.len() {
        match commander.watch_cache[panel].as_file_group() {
            Some(group) => {
                if row < group.files.len() {
                    Some(group.files[row].path.copy())
                } else {
                    None
                }
            },
            None => None,
        }
    } else {
        None
    }
}

fn find_jump(commander: &CommanderState) -> (r: Result<(FilePath, FilePath), &'static str>)
    requires
        commander@.valid(),
    ensures
        match r {
            Ok((file, parent)) => jump_target(commander@) == Ok::<
                (PathView, PathView),
                Seq<char>,
            >((file@, parent@)),
            Err(message) => jump_target(commander@) == Err::<(PathView, PathView), Seq<char>>(
                message@,
            ),
        },
{
    let src: usize = commander.active;
    match commander.panels[src].view {
        PanelView::GroupFiles => {},
        PanelView::DuplicatesOfCursor => {},
        _ => {
            return Err("The «o» key works in the «group files» and «duplicates» modes");
        },
    }
    let file = match commander.panels[src].list.selected {
        Some(row) => file_at(commander, src, row),
        None => None,
    };
    let file = match file {
        Some(file) => file,
        None => {
            return Err("No file under the cursor");
        },
    };
    match file.parent() {
        Some(parent) => Ok((file, parent)),
        None => Err("The file has no parent directory"),
    }
}

/// The pure part of the «o» jump: determines the file and its parent for the jump, or sets the
/// status and returns `None`. Nothing but the status changes.
pub fn jump_source(commander: &mut CommanderState) -> (r: Option<(FilePath, FilePath)>)
    requires
        old(commander)@.valid(),
    ensures
        match jump_target(old(commander)@) {
            Ok((file, parent)) => r matches Some(found) && found.0@ == file && found.1@ == parent
                && final(commander)@ == old(commander)@,
            Err(message) => r is None && final(commander)@ == old(commander)@.say(message),
        },
{
    match find_jump(commander) {
        Ok(found) => Some(found),
        Err(message) => {
            commander.status = message.to_string();
            None
        },
    }
}

/// The name a file is spoken of by.
pub open spec fn spoken_name(file: PathView) -> Seq<char> {
    match file.file_name() {
        Some(name) => crate::text::escaped(crate::text::lossy_text(name)),
        None => file.shown_safely(),
    }
}

/// Says the name a file is spoken of by.
pub fn name_of(file: &FilePath) -> (r: String)
    ensures
        r@ == spoken_name(file@),
{
    match file.file_name() {
        Some(name) => terminal(decode_lossy(&name).as_str()),
        None => file.display_safely(),
    }
}

/// The cursor of a panel lies on a file.
pub open spec fn landed(c: CommanderModel, panel: int, file: PathView) -> bool {
    panel < c.panels.len() && {
        let p = c.panels[panel];
        p.cursor() < p.entries.len() && p.entries[p.cursor()].path.key() == file.key()
    }
}

/// The answer to the jump's navigation arrived: where the cursor did not land on the file, that
/// is said; an answer to a later navigation ends the wait in silence.
pub open spec fn jump_checked(c: CommanderModel, panel: usize, generation: u64) -> CommanderModel {
    match c.pending_jump {
        None => c,
        Some(jump) => if jump.panel == panel && jump.generation == generation {
            let done = CommanderModel { pending_jump: None, ..c };
            if landed(c, panel as int, jump.file) {
                done
            } else {
                done.say(
                    "File «"@ + spoken_name(jump.file)
                        + "» not found in the directory — it may have been moved or deleted"@,
                )
            }
        } else if jump.panel == panel && jump.generation < generation {
            CommanderModel { pending_jump: None, ..c }
        } else {
            c
        },
    }
}

fn has_landed(commander: &CommanderState, panel: usize, file: &FilePath) -> (r: bool)
    ensures
        r == landed(commander@, panel as int, file@),
{
    if panel >= commander.panels.len() {
        return false;
    }
    let p = &commander.panels[panel];
    let at: usize = p.cursor();
    assert(commander@.panels[panel as int] == p@);
    at < p.entries.len() && p.entries[at].path.same(file)
}

/// Post-load check of the «o» jump, called when the directory of commander panel `panel_idx` has
/// been read.
pub fn check_jump_landed(commander: &mut CommanderState, panel_idx: usize, generation: u64)
    ensures
        final(commander)@ == jump_checked(old(commander)@, panel_idx, generation),
{
    let (panel, number, file) = match &commander.pending_jump {
        Some(jump) => (jump.panel, jump.generation, jump.file.copy()),
        None => {
            return;
        },
    };
    if panel != panel_idx {
        return;
    }
    if number == generation {
        let ok = has_landed(commander, panel_idx, &file);
        commander.pending_jump = None;
        if !ok {
            let mut status = "File «".to_string();
            status.push_str(name_of(&file).as_str());
            status.push_str("» not found in the directory — it may have been moved or deleted");
            commander.status = status;
        }
    } else if number < generation {
        commander.pending_jump = None;
    }
}

/// An answer for another panel, or one older than the jump, changes nothing; whatever answer ends
/// the wait, only a missing file is spoken of.
pub proof fn law_a_jump_waits_for_its_own_answer(c: CommanderModel, panel: usize, generation: u64)
    ensures
        c.pending_jump matches Some(jump) && (jump.panel != panel || generation < jump.generation)
            ==> jump_checked(c, panel, generation) == c,
        jump_checked(c, panel, generation).status != c.status ==> (c.pending_jump matches Some(jump)
            && jump.panel == panel && jump.generation == generation && !landed(
            c,
            panel as int,
            jump.file,
        )),
{
}

/// Why a jump finds no panel to open the directory in, if it finds none.
pub open spec fn jump_refusal(c: CommanderModel) -> Option<Seq<char>> {
    if c.active + 1 < c.panels.len() {
        None
    } else {
        crate::app::panel_addition(c)
    }
}

/// The panel a jump opens the directory in: the one on the right, or a new one.
pub open spec fn jump_dest(c: CommanderModel) -> int {
    c.active + 1
}

/// The commander with a panel to jump to.
pub open spec fn jump_prepared(c: CommanderModel) -> CommanderModel {
    if c.active + 1 < c.panels.len() {
        c
    } else {
        crate::app::panel_added(c)
    }
}

/// A panel in «files» mode.
pub open spec fn showing_files(a: AppModel, dest: int) -> AppModel {
    a.with_panel(
        dest,
        crate::panels::PanelModel { view: PanelView::Files, ..a.commander.panels[dest] },
    )
}

/// A wait for a jump to land.
pub open spec fn jump_awaited(a: AppModel, dest: int, file: PathView) -> AppModel {
    AppModel {
        commander: CommanderModel {
            pending_jump: Some(
                JumpModel {
                    panel: dest as usize,
                    generation: a.commander.panels[dest].generation,
                    file,
                },
            ),
            ..a.commander
        },
        ..a
    }
}

/// A file's directory opened in a panel in «files» mode, the cursor to land on the file.
pub open spec fn jump_opened(a: AppModel, dest: int, file: PathView, parent: PathView) -> AppModel {
    jump_awaited(
        crate::navigate::navigated(showing_files(a, dest), dest, parent, file),
        dest,
        file,
    )
}

/// The jump: the file's directory opened on the right.
pub open spec fn jumped(a: AppModel) -> AppModel {
    match jump_target(a.commander) {
        Err(message) => a.say(message),
        Ok((file, parent)) => match jump_refusal(a.commander) {
            Some(message) => a.say(message),
            None => jump_opened(
                AppModel { commander: jump_prepared(a.commander), ..a },
                jump_dest(a.commander),
                file,
                parent,
            ),
        },
    }
}

fn prepare_jump(commander: &mut CommanderState) -> (r: Result<usize, String>)
    requires
        old(commander)@.valid(),
    ensures
        match r {
            Ok(dest) => jump_refusal(old(commander)@) is None && dest == jump_dest(old(commander)@)
                && final(commander)@ == jump_prepared(old(commander)@)
                && dest < final(commander)@.panels.len(),
            Err(message) => jump_refusal(old(commander)@) == Some(message@) && final(commander)@
                == old(commander)@,
        },
{
    let src: usize = commander.active;
    if src + 1 < commander.panels.len() {
        return Ok(src + 1);
    }
    commander.add_panel()
}

fn show_files(app: &mut App, dest: usize)
    requires
        dest < old(app)@.commander.panels.len(),
    ensures
        final(app)@ == showing_files(old(app)@, dest as int),
{
    let panel = app.commander.panel_mut(dest);
    panel.view = PanelView::Files;
}

fn await_jump(app: &mut App, dest: usize, file: FilePath)
    requires
        dest < old(app)@.commander.panels.len(),
    ensures
        final(app)@ == jump_awaited(old(app)@, dest as int, file@),
{
    let generation: u64 = app.commander.panels[dest].generation;
    app.commander.pending_jump = Some(PendingJump { panel: dest, generation, file });
}

fn open_for_jump(app: &mut App, dest: usize, file: FilePath, parent: FilePath)
    requires
        dest < old(app)@.commander.panels.len(),
    ensures
        final(app)@ == jump_opened(old(app)@, dest as int, file@, parent@),
{
    show_files(app, dest);
    navigate_panel_with_cursor(app, dest, parent, file.copy());
    await_jump(app, dest, file);
}

/// Key `o`: from a file row of a group opens that file's parent directory in the adjacent panel
/// on the right (in «files» mode), the cursor on the file. Without a right panel one is added;
/// where none can be, the reason goes to the status.
pub fn jump_to_cursor_dir(app: &mut App)
    requires
        old(app)@.valid(),
    ensures
        final(app)@ == jumped(old(app)@),
{
    match find_jump(&app.commander) {
        Ok((file, parent)) => match prepare_jump(&mut app.commander) {
            Ok(dest) => open_for_jump(app, dest, file, parent),
            Err(message) => app.say(message),
        },
        Err(message) => app.say_str(message),
    }
}

} // verus!
