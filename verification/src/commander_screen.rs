//! The commander on screen: header, panels, status line, F-keys and overlays.

use vstd::prelude::*;

use crate::app::{App, AppModel, CommanderModel, CommanderState};
use crate::assoc::Assoc;
use crate::canvas::{
    centered, no_lines, push_line, Canvas, Color, Frame, Line, LineModel, Rect, Style, WidgetModel,
};
use crate::commander::visible_panel_count;
use crate::compare::{build_compare_peer, cross_panel_keys};
use crate::keys::{render_fkeys, second_layer};
use crate::layout::{panel_rects, regions, Regions};
use crate::menu::menu;
use crate::moments::humanize_ago;
use crate::overlay::{render_confirm, render_info, render_menu, render_resume_scan};
use crate::panel::{render_panel, ComparePeer, MatchKey, MatchKeyModel, Scene, SceneModel};
use crate::panels::{Panel, PanelModel};
use crate::scans::maybe_auto_switch_scan;
use crate::state::{CompareMode, ConfirmScript, Overlay, ScriptModel, TriagePending};
use crate::text::{decode_lossy, pad_right, push_i64, push_u64, push_usize, terminal};
use crate::watch::resolve_watch_groups;

verus! {

// ---------------------------------------------------------------------------------------------
// The header.
// ---------------------------------------------------------------------------------------------
/// What the header says of the pool.
pub open spec fn pool_words(datasets: nat, warnings: nat) -> Seq<char> {
    if warnings == 0 {
        "ZFS: datasets "@ + crate::text::decimal(datasets)
    } else {
        "ZFS: datasets "@ + crate::text::decimal(datasets) + " · warnings "@
            + crate::text::decimal(warnings)
    }
}

/// What the header says of the scan; `when` is its age in words.
pub open spec fn scan_words(c: CommanderModel, when: Seq<char>) -> Seq<char> {
    let cwd = c.active_panel().cwd;
    match c.dedup_scan_id {
        None => "no scan for "@ + cwd.shown_safely() + " · F12 — select"@,
        Some(id) => if c.dedup.pending.dom().contains(cwd.key()) {
            "scan #"@ + crate::text::signed_decimal(id as int) + " · "@ + when + " (loading…)"@
        } else {
            "scan #"@ + crate::text::signed_decimal(id as int) + " · "@ + when
        },
    }
}

/// The brand strip: the program and its version.
pub open spec fn brand_line(version: Seq<char>) -> LineModel {
    crate::canvas::styled_line(
        " DedupCommando v"@ + version + " "@,
        Style {
            fg: Some(Color::White),
            bg: Some(Color::Blue),
            bold: true,
            dim: false,
            reversed: false,
        },
    )
}

/// The header.
pub open spec fn header(a: AppModel, area: Rect, version: Seq<char>, when: Seq<char>) -> WidgetModel {
    crate::canvas::framed_text(
        area,
        seq![
            crate::canvas::text_line(
                " Multi-panel mode     "@ + pool_words(a.datasets.len(), a.zfs_warnings as nat)
                    + "     "@ + scan_words(a.commander, when) + " "@,
            ),
        ],
        crate::canvas::FrameModel {
            title: brand_line(version),
            border: crate::canvas::plain_style(),
        },
    )
}

/// The brand strip.
pub fn brand(version: &str) -> (r: Line)
    ensures
        r@ == brand_line(version@),
{
    let mut text = " DedupCommando v".to_string();
    text.push_str(version);
    text.push_str(" ");
    Line::styled(text, Style::color(Color::White).on(Color::Blue).bold())
}

fn pool_text(datasets: usize, warnings: usize) -> (r: String)
    ensures
        r@ == pool_words(datasets as nat, warnings as nat),
{
    let mut text = "ZFS: datasets ".to_string();
    push_usize(&mut text, datasets);
    if warnings > 0 {
        text.push_str(" · warnings ");
        push_usize(&mut text, warnings);
    }
    text
}

fn scan_text(commander: &CommanderState, when: &str) -> (r: String)
    requires
        commander@.valid(),
    ensures
        r@ == scan_words(commander@, when@),
{
    let cwd = &commander.active_panel().cwd;
    match commander.dedup_scan_id {
        None => {
            let mut text = "no scan for ".to_string();
            text.push_str(cwd.display_safely().as_str());
            text.push_str(" · F12 — select");
            text
        },
        Some(id) => {
            let mut text = "scan #".to_string();
            push_i64(&mut text, id);
            text.push_str(" · ");
            text.push_str(when);
            if commander.dedup.is_pending(cwd) {
                text.push_str(" (loading…)");
            }
            text
        },
    }
}

/// Draws the header; `when` is the age of the active scan.
pub fn render_header_at(canvas: &mut Canvas, area: Rect, app: &App, version: &str, when: &str)
    requires
        app@.valid(),
    ensures
        final(canvas).area == old(canvas).area,
        final(canvas)@ == old(canvas)@.push(header(app@, area, version@, when@)),
{
    let mut text = " Multi-panel mode     ".to_string();
    text.push_str(pool_text(app.datasets.len(), app.zfs_warnings).as_str());
    text.push_str("     ");
    text.push_str(scan_text(&app.commander, when).as_str());
    text.push_str(" ");
    let ghost said = text@;
    let mut lines = no_lines();
    push_line(&mut lines, Line::text(text));
    assert(crate::canvas::lines_model(lines@) =~= seq![crate::canvas::text_line(said)]);
    canvas.text(area, lines, Frame { title: brand(version), border: Style::new() });
}

/// The age of a scan as it may be shown: nothing is known of the clock; a scan whose moment was
/// not recorded has none.
pub open spec fn shown_age(created_at: Option<String>, when: Seq<char>) -> bool {
    match created_at {
        Some(moment) => exists|now: crate::moments::Moment|
            when == #[trigger] crate::moments::age_at(moment@, now),
        None => when == "—"@,
    }
}

fn age_of_scan(commander: &CommanderState) -> (r: String)
    ensures
        shown_age(commander@.scan_created_at, r@),
{
    match &commander.scan_created_at {
        Some(moment) => humanize_ago(moment.as_str()),
        None => "—".to_string(),
    }
}

// ---------------------------------------------------------------------------------------------
// The status line.
// ---------------------------------------------------------------------------------------------
/// What a move would take, in words.
pub open spec fn batch_words(sources: Seq<crate::path::PathView>) -> Seq<char> {
    if sources.len() == 1 {
        match sources[0].file_name() {
            Some(name) => "«"@ + crate::text::escaped(crate::text::lossy_text(name)) + "»"@,
            None => "file"@,
        }
    } else {
        crate::text::decimal(sources.len()) + " files"@
    }
}

/// What stands in the status line; `visible` panels are shown.
pub open spec fn status_words(c: CommanderModel, visible: nat) -> Seq<char> {
    match c.triage {
        Some(pending) => " Move "@ + batch_words(pending.sources) + " → panel 1-"@
            + crate::text::decimal(c.panels.len()) + " · Esc — cancel "@,
        None => if c.second_layer {
            " Layer 2: choose an F-key · Esc — cancel "@
        } else {
            let base = if c.status.len() == 0 {
                " Panel "@ + crate::text::decimal((c.active + 1) as nat) + "/"@
                    + crate::text::decimal(c.panels.len()) + " · "@ + crate::text::decimal(
                    c.active_panel().entries.len(),
                )
                    + " entries · m+1-4 triage · Insert select · u undo · =dup ≈similar ⚠cross · `layer2 "@
            } else {
                " "@ + c.status + " "@
            };
            if c.panels.len() > visible {
                base + "· panels hidden: "@ + crate::text::decimal(
                    (c.panels.len() - visible) as nat,
                ) + " — widen the window "@
            } else {
                base
            }
        },
    }
}

fn batch_text(pending: &TriagePending) -> (r: String)
    ensures
        r@ == batch_words(pending@.sources),
{
    assert(pending@.sources.len() == pending.sources@.len());
    if pending.sources.len() == 1 {
        assert(pending@.sources[0] == pending.sources@[0]@);
        match pending.sources[0].file_name() {
            Some(name) => {
                let mut text = "«".to_string();
                text.push_str(terminal(decode_lossy(&name).as_str()).as_str());
                text.push_str("»");
                text
            },
            None => "file".to_string(),
        }
    } else {
        let mut text = String::new();
        push_usize(&mut text, pending.sources.len());
        text.push_str(" files");
        assert(text@ =~= batch_words(pending@.sources));
        text
    }
}

fn base_text(commander: &CommanderState) -> (r: String)
    requires
        commander@.valid(),
    ensures
        r@ == (if commander@.status.len() == 0 {
            " Panel "@ + crate::text::decimal((commander@.active + 1) as nat) + "/"@
                + crate::text::decimal(commander@.panels.len()) + " · "@ + crate::text::decimal(
                commander@.active_panel().entries.len(),
            )
                + " entries · m+1-4 triage · Insert select · u undo · =dup ≈similar ⚠cross · `layer2 "@
        } else {
            " "@ + commander@.status + " "@
        }),
{
    assert(commander@.panels.len() == commander.panels@.len());
    if crate::text::char_count(commander.status.as_str()) == 0 {
        let panel = commander.active_panel();
        assert(panel@.entries.len() == panel.entries@.len());
        let mut text = " Panel ".to_string();
        push_usize(&mut text, commander.active + 1);
        text.push_str("/");
        push_usize(&mut text, commander.panels.len());
        text.push_str(" · ");
        push_usize(&mut text, panel.entries.len());
        text.push_str(
            " entries · m+1-4 triage · Insert select · u undo · =dup ≈similar ⚠cross · `layer2 ",
        );
        text
    } else {
        let mut text = " ".to_string();
        text.push_str(commander.status.as_str());
        text.push_str(" ");
        text
    }
}

/// The status line's text; `visible` panels are shown.
pub fn status_text(commander: &CommanderState, visible: usize) -> (r: String)
    requires
        commander@.valid(),
    ensures
        r@ == status_words(commander@, visible as nat),
{
    assert(commander@.panels.len() == commander.panels@.len());
    let total: usize = commander.panels.len();
    if let Some(pending) = &commander.triage {
        let mut text = " Move ".to_string();
        text.push_str(batch_text(pending).as_str());
        text.push_str(" → panel 1-");
        push_usize(&mut text, total);
        text.push_str(" · Esc — cancel ");
        return text;
    }
    if commander.second_layer {
        return " Layer 2: choose an F-key · Esc — cancel ".to_string();
    }
    let mut text = base_text(commander);
    if total > visible {
        text.push_str("· panels hidden: ");
        push_usize(&mut text, total - visible);
        text.push_str(" — widen the window ");
    }
    text
}

/// One plain line of text.
pub open spec fn plain_text(area: Rect, text: Seq<char>) -> WidgetModel {
    crate::canvas::bare_text(area, seq![crate::canvas::text_line(text)])
}

/// Draws the status line.
pub fn render_status(canvas: &mut Canvas, area: Rect, commander: &CommanderState, visible: usize)
    requires
        commander@.valid(),
    ensures
        final(canvas).area == old(canvas).area,
        final(canvas)@ == old(canvas)@.push(
            plain_text(area, status_words(commander@, visible as nat)),
        ),
{
    let text = status_text(commander, visible);
    let ghost said = text@;
    let mut lines = no_lines();
    push_line(&mut lines, Line::text(text));
    assert(crate::canvas::lines_model(lines@) =~= seq![crate::canvas::text_line(said)]);
    canvas.bare(area, lines);
}

// ---------------------------------------------------------------------------------------------
// The panels.
// ---------------------------------------------------------------------------------------------
/// Why a panel's dedup data could not be read.
pub open spec fn panel_error(c: CommanderModel, p: PanelModel) -> Option<Seq<char>> {
    if c.dedup.by_cwd.dom().contains(p.cwd.key()) {
        match c.dedup.by_cwd[p.cwd.key()] {
            Ok(_) => None,
            Err(message) => Some(message@),
        }
    } else {
        None
    }
}

/// How a panel of the commander is drawn.
pub open spec fn panel_scene(
    c: CommanderModel,
    p: PanelModel,
    index: int,
    cross: Seq<MatchKeyModel>,
    peer: Option<Map<Seq<char>, ComparePeer>>,
) -> SceneModel {
    SceneModel {
        dedup: crate::compare::panel_dedup(c, p),
        dedup_error: panel_error(c, p),
        cross,
        dir_sizes: c.dir_size_cache,
        group_summaries: c.group_summaries,
        dir_groups: c.dir_group_summaries,
        dir_groups_error: match c.dir_groups_error {
            Some(error) => Some(error@),
            None => None,
        },
        source: if index < c.watch_cache.len() {
            Some(c.watch_cache[index])
        } else {
            None
        },
        source_dir_group: if index < c.watch_dir_cache.len() {
            c.watch_dir_cache[index]
        } else {
            None
        },
        compare_peer: peer,
        scan_id: c.dedup_scan_id,
        index: index as usize,
        focused: c.active == index,
        label: None,
    }
}

/// The files that a panel is compared with side by side: those of the next one.
pub open spec fn peer_of(c: CommanderModel, index: int) -> Option<Map<Seq<char>, ComparePeer>> {
    if c.compare_mode == CompareMode::SideBySide {
        let next = if index + 1 < c.panels.len() {
            c.panels[index + 1]
        } else {
            c.panels[0]
        };
        Some(
            crate::compare::peer_files(next.entries, crate::compare::panel_dedup(c, next)),
        )
    } else {
        None
    }
}

/// The pictures of the first shown panels.
pub open spec fn panels_pictured(
    c: CommanderModel,
    rects: Seq<Rect>,
    start: int,
    cross: Seq<MatchKeyModel>,
    dates: Seq<Seq<Seq<char>>>,
    count: int,
) -> Seq<WidgetModel>
    decreases count,
{
    if count <= 0 {
        Seq::empty()
    } else {
        let index = start + count - 1;
        panels_pictured(c, rects, start, cross, dates, count - 1) + crate::panel::panel_widgets(
            rects[count - 1],
            c.panels[index],
            panel_scene(c, c.panels[index], index, cross, peer_of(c, index)),
            dates[count - 1],
        )
    }
}

/// The panels after the first shown ones were drawn: their windows follow their cursors.
pub open spec fn panels_after(
    c: CommanderModel,
    rects: Seq<Rect>,
    start: int,
    cross: Seq<MatchKeyModel>,
    count: int,
) -> Seq<PanelModel>
    decreases count,
{
    if count <= 0 {
        c.panels
    } else {
        let index = start + count - 1;
        panels_after(c, rects, start, cross, count - 1).update(
            index,
            crate::panel::panel_drawn(
                rects[count - 1],
                c.panels[index],
                panel_scene(c, c.panels[index], index, cross, peer_of(c, index)),
            ),
        )
    }
}

proof fn lemma_panels_after(
    c: CommanderModel,
    rects: Seq<Rect>,
    start: int,
    cross: Seq<MatchKeyModel>,
    count: int,
    at: int,
)
    requires
        0 <= start,
        start + count <= c.panels.len(),
        start + count <= at < c.panels.len(),
        0 <= count,
    ensures
        panels_after(c, rects, start, cross, count).len() == c.panels.len(),
        panels_after(c, rects, start, cross, count)[at] == c.panels[at],
    decreases count,
{
    if count > 0 {
        lemma_panels_after(c, rects, start, cross, count - 1, at);
    }
}

proof fn lemma_dates(
    c: CommanderModel,
    rects: Seq<Rect>,
    start: int,
    cross: Seq<MatchKeyModel>,
    one: Seq<Seq<Seq<char>>>,
    other: Seq<Seq<Seq<char>>>,
    count: int,
)
    requires
        forall|i: int| 0 <= i < count ==> one[i] == other[i],
    ensures
        panels_pictured(c, rects, start, cross, one, count) == panels_pictured(
            c,
            rects,
            start,
            cross,
            other,
            count,
        ),
    decreases count,
{
    if count > 0 {
        lemma_dates(c, rects, start, cross, one, other, count - 1);
    }
}

/// Files to compare with, if any.
pub open spec fn peer_model(peer: Option<Assoc<String, ComparePeer>>) -> Option<
    Map<Seq<char>, ComparePeer>,
> {
    match peer {
        Some(files) => Some(files@),
        None => None,
    }
}

/// Comparison partners of every panel.
pub open spec fn peers_model(peers: Seq<Option<Assoc<String, ComparePeer>>>) -> Seq<
    Option<Map<Seq<char>, ComparePeer>>,
> {
    peers.map_values(|p: Option<Assoc<String, ComparePeer>>| peer_model(p))
}

fn collect_peers(app: &App) -> (r: Vec<Option<Assoc<String, ComparePeer>>>)
    requires
        app@.valid(),
    ensures
        r@.len() == app@.commander.panels.len(),
        forall|i: int|
            0 <= i < r@.len() ==> #[trigger] peers_model(r@)[i] == peer_of(app@.commander, i),
{
    assert(app@.commander.panels.len() == app.commander.panels@.len());
    let total: usize = app.commander.panels.len();
    let side = matches!(app.commander.compare_mode, CompareMode::SideBySide);
    let mut peers: Vec<Option<Assoc<String, ComparePeer>>> = Vec::new();
    let mut i: usize = 0;
    while i < total
        invariant
            i <= total,
            app@.valid(),
            total == app@.commander.panels.len(),
            side == (app@.commander.compare_mode == CompareMode::SideBySide),
            peers@.len() == i,
            forall|k: int|
                0 <= k < i ==> #[trigger] peers_model(peers@)[k] == peer_of(app@.commander, k),
        decreases total - i,
    {
        let ghost before = peers@;
        if side {
            let next: usize = if i + 1 < total {
                i + 1
            } else {
                0
            };
            peers.push(Some(build_compare_peer(app, next)));
        } else {
            peers.push(None);
        }
        assert forall|k: int| 0 <= k < i + 1 implies #[trigger] peers_model(peers@)[k] == peer_of(
            app@.commander,
            k,
        ) by {
            if k < i {
                assert(peers_model(before)[k] == peer_of(app@.commander, k));
                assert(peers@[k] == before[k]);
            }
        }
        i = i + 1;
    }
    peers
}

fn draw_panel(
    canvas: &mut Canvas,
    area: Rect,
    panel: &mut Panel,
    commander: &CommanderState,
    index: usize,
    cross: &Vec<MatchKey>,
    peer: &Option<Assoc<String, ComparePeer>>,
)
    requires
        crate::layout::bounded(area),
        index < usize::MAX,
    ensures
        final(canvas).area == old(canvas).area,
        exists|dates: Seq<Seq<char>>|
            crate::panel::window_dated(area, old(panel)@, dates) && final(canvas)@ == old(canvas)@
                + #[trigger] crate::panel::panel_widgets(
                area,
                old(panel)@,
                panel_scene(
                    commander@,
                    old(panel)@,
                    index as int,
                    crate::panel::keys_model(cross@),
                    peer_model(*peer),
                ),
                dates,
            ),
        final(panel)@ == crate::panel::panel_drawn(
            area,
            old(panel)@,
            panel_scene(
                commander@,
                old(panel)@,
                index as int,
                crate::panel::keys_model(cross@),
                peer_model(*peer),
            ),
        ),
{
    let cwd = panel.cwd.copy();
    assert(commander@.watch_cache.len() == commander.watch_cache@.len());
    let source = if index < commander.watch_cache.len() {
        assert(commander@.watch_cache[index as int] == commander.watch_cache@[index as int]@);
        Some(&commander.watch_cache[index])
    } else {
        None
    };
    let source_dir_group = if index < commander.watch_dir_cache.len() {
        match &commander.watch_dir_cache[index] {
            Some(group) => Some(group),
            None => None,
        }
    } else {
        None
    };
    let dir_groups_error = match &commander.dir_groups_error {
        Some(error) => Some(error.as_str()),
        None => None,
    };
    let compare_peer = match peer {
        Some(files) => Some(files),
        None => None,
    };
    let scene = Scene {
        dedup: commander.dedup.dir(&cwd),
        dedup_error: commander.dedup.error(&cwd),
        cross,
        dir_sizes: &commander.dir_size_cache,
        group_summaries: &commander.group_summaries,
        dir_groups: &commander.dir_group_summaries,
        dir_groups_error,
        source,
        source_dir_group,
        compare_peer,
        scan_id: commander.dedup_scan_id,
        index,
        focused: commander.active == index,
        label: None,
    };
    proof {
        let want = panel_scene(
            commander@,
            panel@,
            index as int,
            crate::panel::keys_model(cross@),
            peer_model(*peer),
        );
        assert(scene@.dedup == want.dedup);
        assert(scene@.dedup_error == want.dedup_error);
        assert(scene@.source == want.source);
        assert(scene@.source_dir_group == want.source_dir_group);
        assert(scene@ =~= want);
    }
    render_panel(canvas, area, panel, &scene);
}

/// The dates that the shown panels are drawn with, each of its own panel's entries.
#[verifier::opaque]
pub open spec fn panels_dated(
    panels: Seq<PanelModel>,
    rects: Seq<Rect>,
    start: int,
    dates: Seq<Seq<Seq<char>>>,
) -> bool {
    forall|i: int|
        0 <= i < dates.len() ==> crate::panel::window_dated(
            rects[i],
            panels[start + i],
            #[trigger] dates[i],
        )
}

proof fn lemma_panels_dated(
    panels: Seq<PanelModel>,
    rects: Seq<Rect>,
    start: int,
    dates: Seq<Seq<Seq<char>>>,
    more: Seq<Seq<char>>,
)
    requires
        panels_dated(panels, rects, start, dates),
        crate::panel::window_dated(rects[dates.len() as int], panels[start + dates.len()], more),
    ensures
        panels_dated(panels, rects, start, dates.push(more)),
{
    reveal(panels_dated);
    assert forall|i: int| 0 <= i < dates.push(more).len() implies crate::panel::window_dated(
        rects[i],
        panels[start + i],
        #[trigger] dates.push(more)[i],
    ) by {
        if i < dates.len() {
            assert(dates.push(more)[i] == dates[i]);
        }
    }
}

/// The panel's pictures do not depend on the list of panels itself.
proof fn lemma_scene_without_panels(
    c: CommanderModel,
    p: PanelModel,
    index: int,
    cross: Seq<MatchKeyModel>,
    peer: Option<Map<Seq<char>, ComparePeer>>,
)
    ensures
        panel_scene(CommanderModel { panels: Seq::empty(), ..c }, p, index, cross, peer)
            == panel_scene(c, p, index, cross, peer),
{
}

fn panel_in(panels: &mut Vec<Panel>, index: usize) -> (r: &mut Panel)
    requires
        index < old(panels)@.len(),
    ensures
        r@ == crate::state::panels_model(old(panels)@)[index as int],
        crate::state::panels_model(final(panels)@) == crate::state::panels_model(
            old(panels)@,
        ).update(index as int, final(r)@),
{
    proof {
        crate::app::lemma_one_panel_replaced(panels@, index as int);
    }
    &mut panels[index]
}

#[verifier::spinoff_prover]
#[verifier::rlimit(40)]
fn draw_panels(
    canvas: &mut Canvas,
    commander: &CommanderState,
    panels: &mut Vec<Panel>,
    rects: &Vec<Rect>,
    start: usize,
    cross: &Vec<MatchKey>,
    peers: &Vec<Option<Assoc<String, ComparePeer>>>,
    Ghost(c): Ghost<CommanderModel>,
)
    requires
        c.panels == crate::state::panels_model(old(panels)@),
        commander@ == (CommanderModel { panels: Seq::empty(), ..c }),
        peers@.len() == c.panels.len(),
        forall|i: int| 0 <= i < peers@.len() ==> #[trigger] peers_model(peers@)[i] == peer_of(c, i),
        forall|i: int| 0 <= i < rects@.len() ==> crate::layout::bounded(#[trigger] rects@[i]),
        start + rects@.len() <= c.panels.len() <= 4,
    ensures
        final(canvas).area == old(canvas).area,
        crate::state::panels_model(final(panels)@) == panels_after(
            c,
            rects@,
            start as int,
            crate::panel::keys_model(cross@),
            rects@.len() as int,
        ),
        exists|dates: Seq<Seq<Seq<char>>>|
            dates.len() == rects@.len() && panels_dated(c.panels, rects@, start as int, dates)
                && final(canvas)@ == old(canvas)@ + #[trigger] panels_pictured(
                c,
                rects@,
                start as int,
                crate::panel::keys_model(cross@),
                dates,
                rects@.len() as int,
            ),
{
    let ghost keys = crate::panel::keys_model(cross@);
    let ghost before = canvas@;
    let ghost mut dates: Seq<Seq<Seq<char>>> = Seq::empty();
    let mut slot: usize = 0;
    assert(canvas@ =~= before + panels_pictured(c, rects@, start as int, keys, dates, 0));
    assert(panels_dated(c.panels, rects@, start as int, dates)) by {
        reveal(panels_dated);
    }
    while slot < rects.len()
        invariant
            slot <= rects@.len(),
            keys == crate::panel::keys_model(cross@),
            commander@ == (CommanderModel { panels: Seq::empty(), ..c }),
            peers@.len() == c.panels.len(),
            forall|i: int|
                0 <= i < peers@.len() ==> #[trigger] peers_model(peers@)[i] == peer_of(c, i),
            forall|i: int| 0 <= i < rects@.len() ==> crate::layout::bounded(#[trigger] rects@[i]),
            start + rects@.len() <= c.panels.len() <= 4,
            canvas.area == old(canvas).area,
            dates.len() == slot,
            panels_dated(c.panels, rects@, start as int, dates),
            crate::state::panels_model(panels@) == panels_after(
                c,
                rects@,
                start as int,
                keys,
                slot as int,
            ),
            panels@.len() == c.panels.len(),
            canvas@ == before + panels_pictured(c, rects@, start as int, keys, dates, slot as int),
        decreases rects@.len() - slot,
    {
        let index: usize = start + slot;
        let ghost mid = canvas@;
        proof {
            lemma_panels_after(c, rects@, start as int, keys, slot as int, index as int);
            lemma_scene_without_panels(
                c,
                c.panels[index as int],
                index as int,
                keys,
                peer_of(c, index as int),
            );
            assert(peers_model(peers@)[index as int] == peer_of(c, index as int));
        }
        draw_panel(
            canvas,
            rects[slot],
            panel_in(panels, index),
            commander,
            index,
            cross,
            &peers[index],
        );
        proof {
            let scene = panel_scene(
                c,
                c.panels[index as int],
                index as int,
                keys,
                peer_of(c, index as int),
            );
            let shown = choose|d: Seq<Seq<char>>|
                crate::panel::window_dated(rects@[slot as int], c.panels[index as int], d)
                    && canvas@ == mid + #[trigger] crate::panel::panel_widgets(
                    rects@[slot as int],
                    c.panels[index as int],
                    scene,
                    d,
                );
            let more = dates.push(shown);
            lemma_panels_dated(c.panels, rects@, start as int, dates, shown);
            lemma_dates(c, rects@, start as int, keys, dates, more, slot as int);
            assert(before + panels_pictured(
                c,
                rects@,
                start as int,
                keys,
                more,
                slot as int + 1,
            ) =~= (before + panels_pictured(c, rects@, start as int, keys, more, slot as int))
                + crate::panel::panel_widgets(
                rects@[slot as int],
                c.panels[index as int],
                scene,
                shown,
            ));
            dates = more;
            assert(crate::state::panels_model(panels@).len() == panels@.len());
        }
        slot = slot + 1;
    }
}

// ---------------------------------------------------------------------------------------------
// Overlays.
// ---------------------------------------------------------------------------------------------
/// What the confirmation shows as its script.
pub open spec fn script_shown(script: ScriptModel) -> Seq<char> {
    match script {
        ScriptModel::Ready(text) => text,
        ScriptModel::Invalidated(reason) => reason,
        ScriptModel::Absent => ""@,
    }
}

/// The first root that a scan waits for.
pub open spec fn root_shown(c: CommanderModel) -> Seq<char> {
    if c.pending_scan_roots.len() > 0 {
        c.pending_scan_roots[0].shown_safely()
    } else {
        ""@
    }
}

/// A reference to a value that may be absent.
pub open spec fn borrowed<T>(value: &Option<T>) -> Option<&T> {
    match value {
        Some(v) => Some(v),
        None => None,
    }
}

/// The overlay that is open.
pub open spec fn overlay_pictured(screen: Rect, c: CommanderModel) -> Seq<WidgetModel> {
    match c.overlay {
        Overlay::Menu { cursor } => crate::overlay::menu_widgets(
            screen,
            cursor,
            crate::menu::menu_labels(),
        ),
        Overlay::Confirm { tab } => crate::overlay::confirm_widgets(
            screen,
            (c.confirm_digest.samples.len() + c.confirm_digest.hidden) as usize,
            c.confirm_digest.reclaim,
            tab,
            script_shown(c.confirm_script),
            c.confirm_digest,
            c.confirm_scroll,
        ),
        Overlay::FileInfo => crate::overlay::info_widgets(screen, c.info_lines),
        Overlay::ResumeScan => crate::overlay::resume_widgets(
            screen,
            root_shown(c),
            borrowed(&c.resume_unfinished),
            borrowed(&c.resume_complete),
        ),
        Overlay::Closed => Seq::empty(),
    }
}

/// The commander after its overlay was drawn: the confirmation's scroll knows its window.
pub open spec fn overlay_after(screen: Rect, c: CommanderModel) -> CommanderModel {
    match c.overlay {
        Overlay::Confirm { tab } => CommanderModel {
            confirm_scroll: crate::overlay::confirm_scrolled(screen, tab, c.confirm_scroll),
            ..c
        },
        _ => c,
    }
}

/// What drawing an overlay needs: room for the properties of a file, and a digest whose targets
/// can be counted.
pub open spec fn drawable(screen: Rect, c: CommanderModel) -> bool {
    &&& crate::layout::bounded(screen)
    &&& (c.overlay is FileInfo ==> screen.height >= 5 && c.info_lines.len() + 2 <= u16::MAX)
    &&& c.confirm_digest.hidden + c.confirm_digest.samples.len() <= usize::MAX
}

proof fn lemma_menu_labels()
    ensures
        crate::overlay::longest_or(crate::menu::menu_labels(), 20) + 6 <= u16::MAX,
{
    reveal_strlit("Scan the active panel's directory");
    reveal_strlit("Configure and start a scan…");
    reveal_strlit("Sessions and scan results…");
    reveal_strlit("Execute marked actions (F11 or x)");
    reveal_strlit("Clear all marks of the active panel");
    reveal_strlit("Reload scan data");
    reveal_strlit("Change panel mode (v)");
    reveal_strlit("Synchronize panels (Shift+F1)");
    reveal_strlit("Compare panels (Shift+F2)");
    reveal_strlit("Add a panel (Shift+F3)");
    reveal_strlit("Remove a panel (Shift+F4)");
    reveal_strlit("Change panel root (Shift+F5)");
    reveal_strlit("Recompute directory size (Shift+F6)");
    reveal_strlit("Keyboard help");
    let labels = crate::menu::menu_labels();
    assert forall|i: int| 0 <= i < labels.len() implies (#[trigger] labels[i]).len() <= 40 by {
    }
    lemma_longest(labels, 40);
}

proof fn lemma_longest(labels: Seq<Seq<char>>, bound: nat)
    requires
        forall|i: int| 0 <= i < labels.len() ==> (#[trigger] labels[i]).len() <= bound,
    ensures
        crate::overlay::longest(labels) matches Some(n) ==> n <= bound,
    decreases labels.len(),
{
    if labels.len() > 0 {
        let front = labels.drop_last();
        assert forall|i: int| 0 <= i < front.len() implies (#[trigger] front[i]).len() <= bound by {
            assert(front[i] == labels[i]);
        }
        lemma_longest(front, bound);
        assert(labels[labels.len() - 1].len() <= bound);
    }
}

fn draw_menu(canvas: &mut Canvas, cursor: usize)
    requires
        crate::layout::bounded(old(canvas).area),
    ensures
        final(canvas).area == old(canvas).area,
        final(canvas)@ == old(canvas)@ + crate::overlay::menu_widgets(
            old(canvas).area,
            cursor,
            crate::menu::menu_labels(),
        ),
{
    let items = menu();
    let mut labels: Vec<&str> = Vec::new();
    let mut i: usize = 0;
    while i < 14
        invariant
            i <= 14,
            labels@.len() == i,
            forall|k: int|
                0 <= k < 14 ==> (#[trigger] items@[k]).0@ == crate::menu::menu_label(k),
            forall|k: int| 0 <= k < i ==> (#[trigger] labels@[k])@ == crate::menu::menu_label(k),
        decreases 14 - i,
    {
        labels.push(items[i].0);
        i = i + 1;
    }
    proof {
        lemma_menu_labels();
        assert(crate::overlay::labels_model(labels@) =~= crate::menu::menu_labels());
    }
    render_menu(canvas, cursor, labels.as_slice());
}

fn draw_confirm(canvas: &mut Canvas, app: &mut App, tab: crate::state::ConfirmTab)
    requires
        crate::layout::bounded(old(canvas).area),
        old(app)@.commander.confirm_digest.hidden
            + old(app)@.commander.confirm_digest.samples.len() <= usize::MAX,
    ensures
        final(canvas).area == old(canvas).area,
        final(app)@ == (AppModel {
            commander: CommanderModel {
                confirm_scroll: crate::overlay::confirm_scrolled(
                    old(canvas).area,
                    tab,
                    old(app)@.commander.confirm_scroll,
                ),
                ..old(app)@.commander
            },
            ..old(app)@
        }),
        final(canvas)@ == old(canvas)@ + crate::overlay::confirm_widgets(
            old(canvas).area,
            (old(app)@.commander.confirm_digest.samples.len()
                + old(app)@.commander.confirm_digest.hidden) as usize,
            old(app)@.commander.confirm_digest.reclaim,
            tab,
            script_shown(old(app)@.commander.confirm_script),
            old(app)@.commander.confirm_digest,
            old(app)@.commander.confirm_scroll,
        ),
{
    let mut scroll = app.commander.confirm_scroll;
    assert(app@.commander.confirm_digest.samples.len() == app.commander.confirm_digest.samples@.len());
    let files: usize = app.commander.confirm_digest.samples.len()
        + app.commander.confirm_digest.hidden;
    let script: &str = match &app.commander.confirm_script {
        ConfirmScript::Ready(text) => text.as_str(),
        ConfirmScript::Invalidated(reason) => reason.as_str(),
        ConfirmScript::Absent => "",
    };
    render_confirm(
        canvas,
        files,
        app.commander.confirm_digest.reclaim,
        tab,
        script,
        &app.commander.confirm_digest,
        &mut scroll,
    );
    app.commander.confirm_scroll = scroll;
}

fn root_text(commander: &CommanderState) -> (r: String)
    ensures
        r@ == root_shown(commander@),
{
    assert(commander@.pending_scan_roots.len() == commander.pending_scan_roots@.len());
    if commander.pending_scan_roots.len() > 0 {
        commander.pending_scan_roots[0].display_safely()
    } else {
        "".to_string()
    }
}

fn draw_overlay(canvas: &mut Canvas, app: &mut App)
    requires
        drawable(old(canvas).area, old(app)@.commander),
    ensures
        final(canvas).area == old(canvas).area,
        final(app)@ == (AppModel {
            commander: overlay_after(old(canvas).area, old(app)@.commander),
            ..old(app)@
        }),
        final(canvas)@ == old(canvas)@ + overlay_pictured(old(canvas).area, old(app)@.commander),
{
    match app.commander.overlay {
        Overlay::Menu { cursor } => draw_menu(canvas, cursor),
        Overlay::Confirm { tab } => draw_confirm(canvas, app, tab),
        Overlay::FileInfo => {
            assert(app@.commander.info_lines.len() == app.commander.info_lines@.len());
            render_info(canvas, &app.commander.info_lines)
        },
        Overlay::ResumeScan => {
            let root = root_text(&app.commander);
            let unfinished = match &app.commander.resume_unfinished {
                Some(info) => Some(info),
                None => None,
            };
            let complete = match &app.commander.resume_complete {
                Some(info) => Some(info),
                None => None,
            };
            render_resume_scan(canvas, root.as_str(), unfinished, complete)
        },
        Overlay::Closed => {
            assert(canvas@ + Seq::<WidgetModel>::empty() =~= canvas@);
        },
    }
}

// ---------------------------------------------------------------------------------------------
// The screen as a whole.
// ---------------------------------------------------------------------------------------------
/// The commander after the shown panels were drawn.
pub open spec fn panels_drawn(
    a: AppModel,
    rects: Seq<Rect>,
    start: int,
    cross: Seq<MatchKeyModel>,
) -> AppModel {
    AppModel {
        commander: CommanderModel {
            panels: panels_after(a.commander, rects, start, cross, rects.len() as int),
            ..a.commander
        },
        ..a
    }
}

fn draw_shown(
    canvas: &mut Canvas,
    app: &mut App,
    rects: &Vec<Rect>,
    start: usize,
    cross: &Vec<MatchKey>,
)
    requires
        old(app)@.valid(),
        forall|i: int| 0 <= i < rects@.len() ==> crate::layout::bounded(#[trigger] rects@[i]),
        start + rects@.len() <= old(app)@.commander.panels.len(),
    ensures
        final(canvas).area == old(canvas).area,
        final(app)@ == panels_drawn(
            old(app)@,
            rects@,
            start as int,
            crate::panel::keys_model(cross@),
        ),
        exists|dates: Seq<Seq<Seq<char>>>|
            dates.len() == rects@.len() && panels_dated(
                old(app)@.commander.panels,
                rects@,
                start as int,
                dates,
            ) && final(canvas)@ == old(canvas)@ + #[trigger] panels_pictured(
                old(app)@.commander,
                rects@,
                start as int,
                crate::panel::keys_model(cross@),
                dates,
                rects@.len() as int,
            ),
{
    let peers = collect_peers(app);
    let ghost c = app@.commander;
    let mut panels: Vec<Panel> = Vec::new();
    std::mem::swap(&mut panels, &mut app.commander.panels);
    assert(app@.commander.panels =~= Seq::empty());
    draw_panels(canvas, &app.commander, &mut panels, rects, start, cross, &peers, Ghost(c));
    app.commander.panels = panels;
}

proof fn lemma_drawn_valid(a: AppModel, rects: Seq<Rect>, start: int, cross: Seq<MatchKeyModel>, count: int)
    requires
        0 <= start,
        0 <= count,
        start + count <= a.commander.panels.len(),
    ensures
        panels_after(a.commander, rects, start, cross, count).len() == a.commander.panels.len(),
    decreases count,
{
    if count > 0 {
        lemma_drawn_valid(a, rects, start, cross, count - 1);
    }
}

/// The keys that light up in two or more panels.
pub open spec fn crossing(c: CommanderModel, cross: Seq<MatchKeyModel>) -> bool {
    forall|key: MatchKeyModel|
        #[trigger] cross.contains(key) <==> crate::compare::crosses(c, key)
}

/// The application as a frame begins: it knows its screen.
pub open spec fn on_screen(a: AppModel, area: Rect) -> AppModel {
    AppModel {
        commander: CommanderModel {
            term_width: area.width,
            term_height: area.height,
            ..a.commander
        },
        ..a
    }
}

/// The application as its panels are drawn: the scan follows the active panel's directory, and
/// what the watching panels point at has been asked for.
#[verifier::opaque]
pub open spec fn followed(a: AppModel) -> AppModel {
    crate::watch::resolved(crate::scans::auto_switched(a))
}

/// What is drawn below the panels: the status line, the F-keys and the open overlay.
#[verifier::opaque]
pub open spec fn foot_pictured(c: CommanderModel, screen: Rect, at: Regions, visible: nat) -> Seq<
    WidgetModel,
> {
    seq![
        plain_text(at.status, status_words(c, visible)),
        crate::keys::fkeys(at.fkeys, c.second_layer),
    ] + overlay_pictured(screen, c)
}

/// The screen as it is drawn: header, shown panels, status line, F-keys and the open overlay.
pub open spec fn screen_pictured(
    a: AppModel,
    screen: Rect,
    at: Regions,
    rects: Seq<Rect>,
    cross: Seq<MatchKeyModel>,
    version: Seq<char>,
    when: Seq<char>,
    dates: Seq<Seq<Seq<char>>>,
) -> Seq<WidgetModel> {
    let visible = crate::commander::panels_shown(a.commander, at.panels.width);
    let start = crate::commander::first_shown(a.commander, visible);
    let f = followed(a);
    seq![header(a, at.header, version, when)] + panels_pictured(
        f.commander,
        rects,
        start,
        cross,
        dates,
        rects.len() as int,
    ) + foot_pictured(
        panels_drawn(f, rects, start, cross).commander,
        screen,
        at,
        visible as nat,
    )
}

/// The dates that the screen is drawn with: those of the entries that its panels show.
pub open spec fn screen_dated(
    a: AppModel,
    at: Regions,
    rects: Seq<Rect>,
    dates: Seq<Seq<Seq<char>>>,
) -> bool {
    let visible = crate::commander::panels_shown(a.commander, at.panels.width);
    let start = crate::commander::first_shown(a.commander, visible);
    dates.len() == rects.len() && panels_dated(followed(a).commander.panels, rects, start, dates)
}

/// The application after the screen was drawn.
pub open spec fn screen_after(
    a: AppModel,
    screen: Rect,
    at: Regions,
    rects: Seq<Rect>,
    cross: Seq<MatchKeyModel>,
) -> AppModel {
    let visible = crate::commander::panels_shown(a.commander, at.panels.width);
    let start = crate::commander::first_shown(a.commander, visible);
    let drawn = panels_drawn(followed(a), rects, start, cross);
    AppModel { commander: overlay_after(screen, drawn.commander), ..drawn }
}

/// The scene of a frame: how the screen is split, what lights up and how old the scan is.
pub open spec fn framed(
    a: AppModel,
    screen: Rect,
    at: Regions,
    rects: Seq<Rect>,
    cross: Seq<MatchKeyModel>,
    when: Seq<char>,
) -> bool {
    &&& crate::commander::regions_of(at, screen)
    &&& crate::commander::panels_in(
        rects,
        at.panels,
        crate::commander::panels_shown(a.commander, at.panels.width),
    )
    &&& crossing(a.commander, cross)
    &&& shown_age(a.commander.scan_created_at, when)
}

fn follow(app: &mut App)
    requires
        old(app)@.valid(),
    ensures
        final(app)@ == followed(old(app)@),
        final(app)@.valid(),
        final(app)@.commander.panels.len() == old(app)@.commander.panels.len(),
        final(app)@.commander.overlay == old(app)@.commander.overlay,
        final(app)@.commander.info_lines == old(app)@.commander.info_lines,
        final(app)@.commander.confirm_digest == old(app)@.commander.confirm_digest,
{
    maybe_auto_switch_scan(app);
    let ghost mid = app@;
    proof {
        lemma_switched(old(app)@);
        crate::watch::lemma_resolved_keeps(mid);
    }
    resolve_watch_groups(app);
    reveal(followed);
}

proof fn lemma_switched(a: AppModel)
    requires
        a.valid(),
    ensures
        ({
            let b = crate::scans::auto_switched(a);
            &&& b.valid()
            &&& b.commander.panels == a.commander.panels
            &&& b.commander.overlay == a.commander.overlay
            &&& b.commander.info_lines == a.commander.info_lines
            &&& b.commander.confirm_digest == a.commander.confirm_digest
        }),
{
}

fn draw_foot(canvas: &mut Canvas, app: &mut App, at: &Regions, visible: usize)
    requires
        old(app)@.valid(),
        drawable(old(canvas).area, old(app)@.commander),
    ensures
        final(canvas).area == old(canvas).area,
        final(app)@ == (AppModel {
            commander: overlay_after(old(canvas).area, old(app)@.commander),
            ..old(app)@
        }),
        final(canvas)@ == old(canvas)@ + foot_pictured(
            old(app)@.commander,
            old(canvas).area,
            *at,
            visible as nat,
        ),
{
    let ghost before = canvas@;
    let ghost c = app@.commander;
    render_status(canvas, at.status, &app.commander, visible);
    render_fkeys(canvas, at.fkeys, app.commander.second_layer);
    draw_overlay(canvas, app);
    reveal(foot_pictured);
    assert(canvas@ =~= before + foot_pictured(c, old(canvas).area, *at, visible as nat));
}

proof fn lemma_drawn_keeps(
    f: AppModel,
    rects: Seq<Rect>,
    start: int,
    cross: Seq<MatchKeyModel>,
)
    requires
        f.valid(),
        0 <= start,
        start + rects.len() <= f.commander.panels.len(),
    ensures
        panels_drawn(f, rects, start, cross).valid(),
{
    lemma_drawn_valid(f, rects, start, cross, rects.len() as int);
}

/// The panels and what is below them.
#[verifier::opaque]
pub open spec fn body_drawn(
    f: AppModel,
    screen: Rect,
    at: Regions,
    rects: Seq<Rect>,
    start: int,
    visible: nat,
    cross: Seq<MatchKeyModel>,
    before: Seq<WidgetModel>,
    after: Seq<WidgetModel>,
) -> bool {
    exists|dates: Seq<Seq<Seq<char>>>|
        dates.len() == rects.len() && panels_dated(f.commander.panels, rects, start, dates) && after
            == before + #[trigger] panels_pictured(
            f.commander,
            rects,
            start,
            cross,
            dates,
            rects.len() as int,
        ) + foot_pictured(panels_drawn(f, rects, start, cross).commander, screen, at, visible)
}

fn draw_body(
    canvas: &mut Canvas,
    app: &mut App,
    at: &Regions,
    rects: &Vec<Rect>,
    start: usize,
    visible: usize,
    cross: &Vec<MatchKey>,
)
    requires
        old(app)@.valid(),
        drawable(old(canvas).area, old(app)@.commander),
        forall|i: int| 0 <= i < rects@.len() ==> crate::layout::bounded(#[trigger] rects@[i]),
        start + rects@.len() <= old(app)@.commander.panels.len(),
    ensures
        final(canvas).area == old(canvas).area,
        final(app)@ == ({
            let drawn = panels_drawn(
                old(app)@,
                rects@,
                start as int,
                crate::panel::keys_model(cross@),
            );
            AppModel { commander: overlay_after(old(canvas).area, drawn.commander), ..drawn }
        }),
        body_drawn(
            old(app)@,
            old(canvas).area,
            *at,
            rects@,
            start as int,
            visible as nat,
            crate::panel::keys_model(cross@),
            old(canvas)@,
            final(canvas)@,
        ),
{
    let ghost f = app@;
    let ghost before = canvas@;
    let ghost keys = crate::panel::keys_model(cross@);
    draw_shown(canvas, app, rects, start, cross);
    let ghost dates = choose|dates: Seq<Seq<Seq<char>>>|
        dates.len() == rects@.len() && panels_dated(
            f.commander.panels,
            rects@,
            start as int,
            dates,
        ) && canvas@ == before + #[trigger] panels_pictured(
            f.commander,
            rects@,
            start as int,
            keys,
            dates,
            rects@.len() as int,
        );
    proof {
        lemma_drawn_keeps(f, rects@, start as int, keys);
    }
    draw_foot(canvas, app, at, visible);
    reveal(body_drawn);
    assert(canvas@ == before + panels_pictured(
        f.commander,
        rects@,
        start as int,
        keys,
        dates,
        rects@.len() as int,
    ) + foot_pictured(
        panels_drawn(f, rects@, start as int, keys).commander,
        old(canvas).area,
        *at,
        visible as nat,
    ));
}

proof fn lemma_layers(
    before: Seq<WidgetModel>,
    a: AppModel,
    screen: Rect,
    at: Regions,
    rects: Seq<Rect>,
    cross: Seq<MatchKeyModel>,
    version: Seq<char>,
    when: Seq<char>,
    dates: Seq<Seq<Seq<char>>>,
)
    ensures
        ({
            let visible = crate::commander::panels_shown(a.commander, at.panels.width);
            let start = crate::commander::first_shown(a.commander, visible);
            let f = followed(a);
            before.push(header(a, at.header, version, when)) + panels_pictured(
                f.commander,
                rects,
                start,
                cross,
                dates,
                rects.len() as int,
            ) + foot_pictured(
                panels_drawn(f, rects, start, cross).commander,
                screen,
                at,
                visible as nat,
            )
        }) == before + screen_pictured(a, screen, at, rects, cross, version, when, dates),
{
    let visible = crate::commander::panels_shown(a.commander, at.panels.width);
    let start = crate::commander::first_shown(a.commander, visible);
    let f = followed(a);
    let head = header(a, at.header, version, when);
    let body = panels_pictured(f.commander, rects, start, cross, dates, rects.len() as int);
    let foot = foot_pictured(
        panels_drawn(f, rects, start, cross).commander,
        screen,
        at,
        visible as nat,
    );
    assert(before.push(head) + body + foot =~= before + (seq![head] + body + foot));
}

proof fn lemma_screen(
    before: Seq<WidgetModel>,
    a: AppModel,
    screen: Rect,
    at: Regions,
    rects: Seq<Rect>,
    cross: Seq<MatchKeyModel>,
    version: Seq<char>,
    when: Seq<char>,
    after: Seq<WidgetModel>,
)
    requires
        ({
            let visible = crate::commander::panels_shown(a.commander, at.panels.width);
            body_drawn(
                followed(a),
                screen,
                at,
                rects,
                crate::commander::first_shown(a.commander, visible),
                visible as nat,
                cross,
                before.push(header(a, at.header, version, when)),
                after,
            )
        }),
    ensures
        exists|dates: Seq<Seq<Seq<char>>>|
            screen_dated(a, at, rects, dates) && after == before + #[trigger] screen_pictured(
                a,
                screen,
                at,
                rects,
                cross,
                version,
                when,
                dates,
            ),
{
    reveal(body_drawn);
    let visible = crate::commander::panels_shown(a.commander, at.panels.width);
    let start = crate::commander::first_shown(a.commander, visible);
    let f = followed(a);
    let headed = before.push(header(a, at.header, version, when));
    let dates = choose|dates: Seq<Seq<Seq<char>>>|
        dates.len() == rects.len() && panels_dated(f.commander.panels, rects, start, dates) && after
            == headed + #[trigger] panels_pictured(
            f.commander,
            rects,
            start,
            cross,
            dates,
            rects.len() as int,
        ) + foot_pictured(
            panels_drawn(f, rects, start, cross).commander,
            screen,
            at,
            visible as nat,
        );
    lemma_layers(before, a, screen, at, rects, cross, version, when, dates);
    assert(screen_dated(a, at, rects, dates));
}

/// Draws the commander on a screen split into `at`, where the shown panels take `rects`.
#[verifier::spinoff_prover]
#[verifier::rlimit(30)]
pub fn render_at(
    canvas: &mut Canvas,
    app: &mut App,
    at: &Regions,
    rects: &Vec<Rect>,
    cross: &Vec<MatchKey>,
    version: &str,
    when: &str,
)
    requires
        old(app)@.valid(),
        drawable(old(canvas).area, old(app)@.commander),
        crate::commander::panels_in(
            rects@,
            at.panels,
            crate::commander::panels_shown(old(app)@.commander, at.panels.width),
        ),
        crate::layout::bounded(at.panels),
    ensures
        final(canvas).area == old(canvas).area,
        final(app)@ == screen_after(
            old(app)@,
            old(canvas).area,
            *at,
            rects@,
            crate::panel::keys_model(cross@),
        ),
        exists|dates: Seq<Seq<Seq<char>>>|
            screen_dated(old(app)@, *at, rects@, dates) && final(canvas)@ == old(canvas)@
                + #[trigger] screen_pictured(
                old(app)@,
                old(canvas).area,
                *at,
                rects@,
                crate::panel::keys_model(cross@),
                version@,
                when@,
                dates,
            ),
{
    let ghost a = app@;
    let ghost before = canvas@;
    let ghost keys = crate::panel::keys_model(cross@);
    render_header_at(canvas, at.header, app, version, when);
    let ghost headed = canvas@;
    let visible: usize = visible_panel_count(&app.commander, at.panels.width);
    let start: usize = if app.commander.active < visible {
        0
    } else {
        app.commander.active + 1 - visible
    };
    follow(app);
    let ghost f = app@;
    assert forall|i: int| 0 <= i < rects@.len() implies crate::layout::bounded(#[trigger] rects@[i]) by {
        assert(rects@[i].within(at.panels));
    }
    draw_body(canvas, app, at, rects, start, visible, cross);
    proof {
        lemma_screen(
            before,
            a,
            old(canvas).area,
            *at,
            rects@,
            keys,
            version@,
            when@,
            canvas@,
        );
    }
}

/// What drawing the commander comes to.
pub open spec fn commander_drawn(
    a: AppModel,
    screen: Rect,
    version: Seq<char>,
    before: Seq<WidgetModel>,
    b: AppModel,
    after: Seq<WidgetModel>,
) -> bool {
    exists|
        at: Regions,
        rects: Seq<Rect>,
        cross: Seq<MatchKeyModel>,
        when: Seq<char>,
        dates: Seq<Seq<Seq<char>>>,
    |
        framed(on_screen(a, screen), screen, at, rects, cross, when) && b == screen_after(
            on_screen(a, screen),
            screen,
            at,
            rects,
            cross,
        ) && screen_dated(on_screen(a, screen), at, rects, dates) && after == before
            + #[trigger] screen_pictured(
            on_screen(a, screen),
            screen,
            at,
            rects,
            cross,
            version,
            when,
            dates,
        )
}

fn set_screen(app: &mut App, area: Rect)
    ensures
        final(app)@ == on_screen(old(app)@, area),
        old(app)@.valid() ==> final(app)@.valid(),
{
    app.commander.term_width = area.width;
    app.commander.term_height = area.height;
}

fn draw_commander(canvas: &mut Canvas, app: &mut App, version: &str)
    requires
        old(app)@.valid(),
        drawable(old(canvas).area, old(app)@.commander),
    ensures
        final(canvas).area == old(canvas).area,
        commander_drawn(
            old(app)@,
            old(canvas).area,
            version@,
            old(canvas)@,
            final(app)@,
            final(canvas)@,
        ),
{
    let area = canvas.area;
    let at = regions(area);
    set_screen(app, area);
    let ghost a = app@;
    let visible: usize = visible_panel_count(&app.commander, at.panels.width);
    let rects = panel_rects(at.panels, visible);
    let cross = cross_panel_keys(app);
    let when = age_of_scan(&app.commander);
    proof {
        assert(at.panels.within(area));
        assert(crate::layout::bounded(at.panels));
        assert(crate::commander::panels_in(rects@, at.panels, visible as int));
        assert(framed(
            a,
            area,
            at,
            rects@,
            crate::panel::keys_model(cross@),
            when@,
        ));
    }
    render_at(canvas, app, &at, &rects, &cross, version, when.as_str());
}

/// What a frame in commander mode comes to: the Board while it is shown, otherwise the commander.
pub open spec fn frame_drawn(
    a: AppModel,
    screen: Rect,
    version: Seq<char>,
    before: Seq<WidgetModel>,
    b: AppModel,
    after: Seq<WidgetModel>,
) -> bool {
    if a.commander.board_active {
        exists|rows: crate::layout::ThreeRows, slots: crate::layout::BoardRegions|
            crate::board_screen::rows_within(rows, screen)
                && #[trigger] crate::board_screen::slots_within(slots, rows.top) && b
                == crate::board_screen::board_drawn(a, screen, slots)
                && crate::board_screen::pictured(a.commander, rows, slots, before, after)
    } else {
        commander_drawn(a, screen, version, before, b, after)
    }
}

/// Renders the commander screen.
pub fn render(canvas: &mut Canvas, app: &mut App, version: &str)
    requires
        old(app)@.valid(),
        drawable(old(canvas).area, old(app)@.commander),
    ensures
        final(canvas).area == old(canvas).area,
        frame_drawn(
            old(app)@,
            old(canvas).area,
            version@,
            old(canvas)@,
            final(app)@,
            final(canvas)@,
        ),
{
    if app.commander.board_active {
        crate::board_screen::render(canvas, app);
        return;
    }
    draw_commander(canvas, app, version);
}

// ---------------------------------------------------------------------------------------------
// Help.
// ---------------------------------------------------------------------------------------------
/// The look of a heading.
pub open spec fn bold_style() -> Style {
    Style { bold: true, ..crate::canvas::plain_style() }
}

/// The look of a hint.
pub open spec fn dim_style() -> Style {
    Style { dim: true, ..crate::canvas::plain_style() }
}

/// Lines with a plain one added.
pub open spec fn plain(lines: Seq<LineModel>, text: Seq<char>) -> Seq<LineModel> {
    lines.push(crate::canvas::text_line(text))
}

/// Lines with a heading added.
pub open spec fn heading(lines: Seq<LineModel>, text: Seq<char>) -> Seq<LineModel> {
    lines.push(crate::canvas::styled_line(text, bold_style()))
}

/// Adds a plain line.
pub fn add_plain(lines: &mut Vec<Line>, text: &str)
    ensures
        crate::canvas::lines_model(final(lines)@) == plain(
            crate::canvas::lines_model(old(lines)@),
            text@,
        ),
{
    push_line(lines, Line::fixed(text));
}

/// Adds a heading.
pub fn add_heading(lines: &mut Vec<Line>, text: &str)
    ensures
        crate::canvas::lines_model(final(lines)@) == heading(
            crate::canvas::lines_model(old(lines)@),
            text@,
        ),
{
    push_line(lines, Line::styled(text.to_string(), Style::new().bold()));
}

/// Adds a hint.
pub fn add_hint(lines: &mut Vec<Line>, text: &str)
    ensures
        crate::canvas::lines_model(final(lines)@) == crate::canvas::lines_model(old(lines)@).push(
            crate::canvas::styled_line(text@, dim_style()),
        ),
{
    push_line(lines, Line::styled(text.to_string(), Style::new().dim()));
}

/// Help on moving about.
pub open spec fn navigation_help(lines: Seq<LineModel>) -> Seq<LineModel> {
    let l = heading(plain(lines, ""@), "  Multi-panel mode (commander)"@);
    let l = heading(plain(l, ""@), "  Navigation and panel view"@);
    let l = plain(l, "    ↑↓ / j k        cursor in the panel"@);
    let l = plain(l, "    Tab / ← →       switch the active panel"@);
    let l = plain(l, "    Enter           enter a directory"@);
    let l = plain(l, "    Backspace       up a level"@);
    let l = plain(l, "    PgUp PgDn Home End   fast movement"@);
    let l = plain(l, "    Mouse           click — cursor/focus · 2×click — open · wheel"@);
    let l = plain(l, "    s               sort: name / size / type / date"@);
    let l = plain(l, "    v               mode: files / directories / groups / duplicates"@);
    plain(l, "    o               file's directory in the adjacent panel (in group modes)"@)
}

/// Help on triage and the F-keys.
pub open spec fn keys_help(lines: Seq<LineModel>) -> Seq<LineModel> {
    let l = heading(plain(lines, ""@), "  Manual triage across directories"@);
    let l = plain(l, "    Insert          select a file into the batch"@);
    let l = plain(l, "    m + 1-4         move the selection/file into panel #'s directory"@);
    let l = plain(l, "    u               undo the last move"@);
    let l = heading(plain(l, ""@), "  Function keys"@);
    let l = plain(l, "    F1 Help     F2 Scan     F3 File     F4 Hash"@);
    let l = plain(l, "    F5 Hardlink F6 Reflink  F7 Keeper   F8 Delete"@);
    let l = plain(l, "    F9 Menu     F10 Exit    F11 Execute  F12 Sessions"@);
    let l = heading(plain(l, ""@), "  When the terminal eats an F-key"@);
    let l = plain(l, "    x           Execute marked actions (same as F11)"@);
    let l = plain(l, "    ` then 1-9  F1-F9;  ` 0 → F10,  ` - → F11,  ` = → F12"@);
    let l = plain(l, "    F9 menu     Execute is available there too"@);
    let l = heading(plain(l, ""@), "  Second layer of F-keys"@);
    plain(l, "    `           prefix: layer 2 for a single F-key press"@)
}

/// Help on the second layer: a line for each of its keys that does something.
pub open spec fn layer_help(lines: Seq<LineModel>, count: int) -> Seq<LineModel>
    decreases count,
{
    if count <= 0 {
        lines
    } else {
        let before = layer_help(lines, count - 1);
        let long = crate::keys::second_words(count - 1);
        if long.len() > 0 {
            plain(
                before,
                "    ` F"@ + crate::text::padded_right(crate::text::decimal(count as nat), 2)
                    + "       "@ + long,
            )
        } else {
            before
        }
    }
}

/// The help of the commander.
pub open spec fn help_lines(host: Seq<char>, version: Seq<char>) -> Seq<LineModel> {
    let l = layer_help(keys_help(navigation_help(Seq::empty())), 12);
    let l = plain(plain(l, "    (Shift+F also works, if the terminal passes it)"@), ""@);
    let l = heading(l, "  Host (in full — in the log)"@);
    let l = plain(plain(l, "    "@ + host), ""@);
    let l = plain(l, "  DedupCommando "@ + version);
    l.push(crate::canvas::styled_line("  [F1] or [Esc] — close"@, dim_style()))
}

/// A box of lines on top of a screen.
pub open spec fn boxed(screen: Rect, width: u16, height: u16, lines: Seq<LineModel>, title: Seq<char>) -> Seq<
    WidgetModel,
> {
    let area = crate::canvas::centered_rect(screen, width, height);
    seq![
        WidgetModel::Clear { area },
        crate::canvas::framed_text(area, lines, crate::canvas::plain_frame(title)),
    ]
}

/// Puts a box of lines on top of the screen.
pub fn put_box(canvas: &mut Canvas, width: u16, height: u16, lines: Vec<Line>, title: &str)
    requires
        crate::layout::bounded(old(canvas).area),
    ensures
        final(canvas).area == old(canvas).area,
        final(canvas)@ == old(canvas)@ + boxed(
            old(canvas).area,
            width,
            height,
            crate::canvas::lines_model(lines@),
            title@,
        ),
{
    let ghost before = canvas@;
    let ghost text = crate::canvas::lines_model(lines@);
    let area = centered(canvas.area, width, height);
    canvas.clear(area);
    canvas.text(area, lines, Frame::fixed(title));
    assert(canvas@ =~= before + boxed(canvas.area, width, height, text, title@));
}

fn add_navigation_help(lines: &mut Vec<Line>)
    ensures
        crate::canvas::lines_model(final(lines)@) == navigation_help(
            crate::canvas::lines_model(old(lines)@),
        ),
{
    add_plain(lines, "");
    add_heading(lines, "  Multi-panel mode (commander)");
    add_plain(lines, "");
    add_heading(lines, "  Navigation and panel view");
    add_plain(lines, "    ↑↓ / j k        cursor in the panel");
    add_plain(lines, "    Tab / ← →       switch the active panel");
    add_plain(lines, "    Enter           enter a directory");
    add_plain(lines, "    Backspace       up a level");
    add_plain(lines, "    PgUp PgDn Home End   fast movement");
    add_plain(lines, "    Mouse           click — cursor/focus · 2×click — open · wheel");
    add_plain(lines, "    s               sort: name / size / type / date");
    add_plain(lines, "    v               mode: files / directories / groups / duplicates");
    add_plain(lines, "    o               file's directory in the adjacent panel (in group modes)");
}

fn add_keys_help(lines: &mut Vec<Line>)
    ensures
        crate::canvas::lines_model(final(lines)@) == keys_help(
            crate::canvas::lines_model(old(lines)@),
        ),
{
    add_plain(lines, "");
    add_heading(lines, "  Manual triage across directories");
    add_plain(lines, "    Insert          select a file into the batch");
    add_plain(lines, "    m + 1-4         move the selection/file into panel #'s directory");
    add_plain(lines, "    u               undo the last move");
    add_plain(lines, "");
    add_heading(lines, "  Function keys");
    add_plain(lines, "    F1 Help     F2 Scan     F3 File     F4 Hash");
    add_plain(lines, "    F5 Hardlink F6 Reflink  F7 Keeper   F8 Delete");
    add_plain(lines, "    F9 Menu     F10 Exit    F11 Execute  F12 Sessions");
    add_plain(lines, "");
    add_heading(lines, "  When the terminal eats an F-key");
    add_plain(lines, "    x           Execute marked actions (same as F11)");
    add_plain(lines, "    ` then 1-9  F1-F9;  ` 0 → F10,  ` - → F11,  ` = → F12");
    add_plain(lines, "    F9 menu     Execute is available there too");
    add_plain(lines, "");
    add_heading(lines, "  Second layer of F-keys");
    add_plain(lines, "    `           prefix: layer 2 for a single F-key press");
}

fn add_layer_help(lines: &mut Vec<Line>)
    ensures
        crate::canvas::lines_model(final(lines)@) == layer_help(
            crate::canvas::lines_model(old(lines)@),
            12,
        ),
{
    let ghost before = crate::canvas::lines_model(lines@);
    let hints = second_layer();
    let ghost all = hints@;
    assert forall|k: int| 0 <= k < 12 implies (#[trigger] all[k]).fkey == k + 1 && all[k].long@
        == crate::keys::second_words(k) by {
        assert(hints@[k].fkey == k + 1);
    }
    let mut i: usize = 0;
    while i < 12
        invariant
            i <= 12,
            forall|k: int|
                0 <= k < 12 ==> (#[trigger] all[k]).fkey == k + 1 && all[k].long@
                    == crate::keys::second_words(k),
            all == hints@,
            crate::canvas::lines_model(lines@) == layer_help(before, i as int),
        decreases 12 - i,
    {
        let hint = hints[i];
        assert(all[i as int] == hint);
        if crate::text::char_count(hint.long) > 0 {
            let mut number = String::new();
            push_u64(&mut number, hint.fkey as u64);
            assert(number@ =~= crate::text::decimal((i + 1) as nat));
            let mut text = "    ` F".to_string();
            text.push_str(pad_right(number.as_str(), 2).as_str());
            text.push_str("       ");
            text.push_str(hint.long);
            push_line(lines, Line::text(text));
        }
        i = i + 1;
    }
}

/// The commander's help overlay; `host` says what it runs on.
pub fn render_help(canvas: &mut Canvas, host: &str, version: &str)
    requires
        crate::layout::bounded(old(canvas).area),
    ensures
        final(canvas).area == old(canvas).area,
        final(canvas)@ == old(canvas)@ + boxed(
            old(canvas).area,
            76,
            42,
            help_lines(host@, version@),
            " Help "@,
        ),
{
    let mut lines = no_lines();
    add_navigation_help(&mut lines);
    add_keys_help(&mut lines);
    add_layer_help(&mut lines);
    add_plain(&mut lines, "    (Shift+F also works, if the terminal passes it)");
    add_plain(&mut lines, "");
    add_heading(&mut lines, "  Host (in full — in the log)");
    let mut host_line = "    ".to_string();
    host_line.push_str(host);
    add_plain(&mut lines, host_line.as_str());
    add_plain(&mut lines, "");
    let mut version_line = "  DedupCommando ".to_string();
    version_line.push_str(version);
    add_plain(&mut lines, version_line.as_str());
    add_hint(&mut lines, "  [F1] or [Esc] — close");
    put_box(canvas, 76, 42, lines, " Help ");
}

} // verus!
