//! What to scan: the scan's parameters and roots, and the folder to add to them.

use vstd::prelude::*;

use crate::canvas::{
    no_lines, no_rows, push_line, render_footer, Canvas, Frame, Line, LineModel, Rect, Row,
    RowModel, Style, WidgetModel,
};
use crate::layout::{split_three, Extent, ThreeRows};
use crate::path::{FilePath, PathView};
use crate::text::{decode_lossy, terminal};
use crate::wizard::{push_text_row, put_header, put_picker, strips};

verus! {

/// A filter by file type.
#[derive(Debug, Clone)]
pub struct Preset {
    pub name: String,
    /// Empty for all files.
    pub extensions: Vec<String>,
}

/// A dataset or folder to scan.
#[derive(Debug, Clone)]
pub struct Root {
    pub selected: bool,
    pub is_dataset: bool,
    pub label: String,
    pub path: FilePath,
}

/// What the pool offers.
#[derive(Debug, Clone)]
pub struct Capabilities {
    pub zfs_version: Option<String>,
    pub block_cloning_supported: bool,
    pub block_cloning_enabled: bool,
    pub reflink_safe: bool,
}

/// The scan to be configured.
#[derive(Debug, Clone)]
pub struct ScanConfig {
    pub presets: Vec<Preset>,
    pub preset_index: usize,
    pub reuse_hashes: bool,
    /// Name of the hashing intensity, and what it means.
    pub profile_label: String,
    pub profile_hint: String,
    pub roots: Vec<Root>,
    pub cursor: usize,
}

/// "yes" or "no".
pub open spec fn yes_or_no(value: bool) -> Seq<char> {
    if value {
        "yes"@
    } else {
        "no"@
    }
}

/// "yes" or "no".
pub fn yes_no(value: bool) -> (r: &'static str)
    ensures
        r@ == yes_or_no(value),
{
    if value {
        "yes"
    } else {
        "no"
    }
}

/// What the pool offers, in words.
pub open spec fn pool_words(caps: Capabilities) -> Seq<char> {
    " ZFS: "@ + (match caps.zfs_version {
        Some(version) => version@,
        None => "not detected"@,
    }) + " · block cloning: supported="@ + yes_or_no(caps.block_cloning_supported) + " enabled="@
        + yes_or_no(caps.block_cloning_enabled) + " · reflink: "@ + (if caps.reflink_safe {
        "available"@
    } else {
        "unavailable"@
    }) + " "@
}

fn pool_text(caps: &Capabilities) -> (r: String)
    ensures
        r@ == pool_words(*caps),
{
    let mut text = " ZFS: ".to_string();
    match &caps.zfs_version {
        Some(version) => {
            text.push_str(version.as_str());
        },
        None => {
            text.push_str("not detected");
        },
    }
    text.push_str(" · block cloning: supported=");
    text.push_str(yes_no(caps.block_cloning_supported));
    text.push_str(" enabled=");
    text.push_str(yes_no(caps.block_cloning_enabled));
    text.push_str(" · reflink: ");
    text.push_str(
        if caps.reflink_safe {
            "available"
        } else {
            "unavailable"
        },
    );
    text.push_str(" ");
    text
}

/// Strings one after the other.
pub open spec fn listed(names: Seq<Seq<char>>) -> Seq<char>
    decreases names.len(),
{
    if names.len() == 0 {
        ""@
    } else if names.len() == 1 {
        names[0]
    } else {
        listed(names.drop_last()) + ", "@ + names.last()
    }
}

fn list_names(names: &Vec<String>) -> (r: String)
    ensures
        r@ == listed(crate::browser::strings_model(names@)),
{
    let ghost all = crate::browser::strings_model(names@);
    if names.len() == 0 {
        return "".to_string();
    }
    let mut out = names[0].as_str().to_string();
    let mut i: usize = 1;
    assert(all.take(1)[0] == names@[0]@);
    while i < names.len()
        invariant
            1 <= i <= names@.len(),
            all == crate::browser::strings_model(names@),
            out@ == listed(all.take(i as int)),
        decreases names@.len() - i,
    {
        assert(all.take(i as int + 1).drop_last() =~= all.take(i as int));
        out.push_str(", ");
        out.push_str(names[i].as_str());
        i = i + 1;
    }
    assert(all.take(all.len() as int) =~= all);
    out
}

/// The filter in words.
pub open spec fn preset_words(presets: Seq<Preset>, index: int) -> Seq<char> {
    if index >= presets.len() {
        "Filter by type: —"@
    } else if presets[index].extensions@.len() == 0 {
        "Filter by type: "@ + presets[index].name@ + " — all files"@
    } else {
        "Filter by type: "@ + presets[index].name@ + " ("@ + listed(
            crate::browser::strings_model(presets[index].extensions@),
        ) + ")"@
    }
}

fn preset_text(presets: &Vec<Preset>, index: usize) -> (r: String)
    ensures
        r@ == preset_words(presets@, index as int),
{
    if index >= presets.len() {
        return "Filter by type: —".to_string();
    }
    let preset = &presets[index];
    let mut text = "Filter by type: ".to_string();
    text.push_str(preset.name.as_str());
    if preset.extensions.len() == 0 {
        text.push_str(" — all files");
    } else {
        text.push_str(" (");
        text.push_str(list_names(&preset.extensions).as_str());
        text.push_str(")");
    }
    text
}

/// The three parameters: filter, hash cache, intensity.
pub open spec fn parameter_lines(c: ScanConfig) -> Seq<LineModel> {
    seq![
        crate::canvas::text_line(preset_words(c.presets@, c.preset_index as int)),
        crate::canvas::text_line(
            if c.reuse_hashes {
                "Hash cache: on — repeat scans skip unchanged files"@
            } else {
                "Hash cache: off — all files will be re-hashed"@
            },
        ),
        crate::canvas::text_line(
            "Intensity: "@ + c.profile_label@ + " — "@ + c.profile_hint@,
        ),
    ]
}

fn lines_of_parameters(c: &ScanConfig) -> (r: Vec<Line>)
    ensures
        crate::canvas::lines_model(r@) == parameter_lines(*c),
{
    let mut lines = no_lines();
    push_line(&mut lines, Line::text(preset_text(&c.presets, c.preset_index)));
    push_line(
        &mut lines,
        Line::fixed(
            if c.reuse_hashes {
                "Hash cache: on — repeat scans skip unchanged files"
            } else {
                "Hash cache: off — all files will be re-hashed"
            },
        ),
    );
    let mut intensity = "Intensity: ".to_string();
    intensity.push_str(c.profile_label.as_str());
    intensity.push_str(" — ");
    intensity.push_str(c.profile_hint.as_str());
    push_line(&mut lines, Line::text(intensity));
    assert(crate::canvas::lines_model(lines@) =~= parameter_lines(*c));
    lines
}

/// A root: whether it is selected, what it is, where it is.
pub open spec fn root_words(root: Root) -> Seq<char> {
    let mark = if root.selected {
        "[x]"@
    } else {
        "[ ]"@
    };
    if root.is_dataset {
        mark + "  "@ + root.label@ + "   →  "@ + root.path@.shown_safely()
    } else {
        mark + "  [folder]  "@ + root.path@.shown_safely()
    }
}

/// The roots, or what to do where there are none.
pub open spec fn root_rows(roots: Seq<Root>) -> Seq<RowModel> {
    if roots.len() == 0 {
        seq![crate::wizard::text_row("No roots set — press F to add a folder"@)]
    } else {
        roots.map_values(|root: Root| crate::wizard::text_row(root_words(root)))
    }
}

fn root_text(root: &Root) -> (r: String)
    ensures
        r@ == root_words(*root),
{
    let mut text = (if root.selected {
        "[x]"
    } else {
        "[ ]"
    }).to_string();
    if root.is_dataset {
        text.push_str("  ");
        text.push_str(root.label.as_str());
        text.push_str("   →  ");
    } else {
        text.push_str("  [folder]  ");
    }
    text.push_str(root.path.display_safely().as_str());
    text
}

fn rows_of_roots(roots: &Vec<Root>) -> (r: Vec<Row>)
    ensures
        crate::canvas::rows_model(r@) == root_rows(roots@),
{
    let mut rows = no_rows();
    if roots.len() == 0 {
        push_text_row(&mut rows, "No roots set — press F to add a folder".to_string());
        assert(crate::canvas::rows_model(rows@) =~= root_rows(roots@));
        return rows;
    }
    let ghost all = root_rows(roots@);
    let mut i: usize = 0;
    assert(crate::canvas::rows_model(rows@) =~= all.take(0));
    while i < roots.len()
        invariant
            i <= roots@.len(),
            roots@.len() > 0,
            all == root_rows(roots@),
            crate::canvas::rows_model(rows@) == all.take(i as int),
        decreases roots@.len() - i,
    {
        push_text_row(&mut rows, root_text(&roots[i]));
        assert(all.take(i as int).push(all[i as int]) =~= all.take(i as int + 1));
        i = i + 1;
    }
    assert(all.take(all.len() as int) =~= all);
    rows
}

/// The four strips of the screen: the pool, the three parameters in their border, the roots, the
/// footer.
pub open spec fn config_extents() -> Seq<Extent> {
    seq![Extent::Length(3), Extent::Length(5), Extent::Min(3), Extent::Length(4)]
}

/// The configuration on screen.
pub open spec fn config_widgets(
    c: ScanConfig,
    caps: Capabilities,
    at: Seq<Rect>,
    status: Seq<char>,
) -> Seq<WidgetModel> {
    seq![
        crate::wizard::header_text(
            at[0],
            pool_words(caps),
            " DedupCommando — scan configuration "@,
        ),
        crate::canvas::framed_text(
            at[1],
            parameter_lines(c),
            crate::canvas::plain_frame(" Scan parameters — P preset · C cache · G intensity "@),
        ),
        crate::wizard::picker(
            at[2],
            root_rows(c.roots@),
            crate::wizard::cursor_in(c.roots@.len(), c.cursor),
            " Datasets and folders — Space select, F add folder "@,
        ),
        crate::canvas::footer(
            at[3],
            status,
            "↑↓ · Space · F folder · P preset · C cache · G intensity · Del remove · S start · Q quit"@,
        ),
    ]
}

/// Draws the configuration in an area that was split into `at`.
pub fn render_config_at(
    canvas: &mut Canvas,
    c: &ScanConfig,
    caps: &Capabilities,
    at: &Vec<Rect>,
    status: &str,
)
    requires
        at@.len() == 4,
    ensures
        final(canvas).area == old(canvas).area,
        final(canvas)@ == old(canvas)@ + config_widgets(*c, *caps, at@, status@),
{
    let ghost before = canvas@;
    put_header(canvas, at[0], pool_text(caps), " DedupCommando — scan configuration ");
    canvas.text(
        at[1],
        lines_of_parameters(c),
        Frame::fixed(" Scan parameters — P preset · C cache · G intensity "),
    );
    let selected: Option<usize> = if c.roots.len() > 0 {
        Some(c.cursor)
    } else {
        None
    };
    put_picker(
        canvas,
        at[2],
        rows_of_roots(&c.roots),
        selected,
        " Datasets and folders — Space select, F add folder ",
    );
    render_footer(
        canvas,
        at[3],
        status,
        "↑↓ · Space · F folder · P preset · C cache · G intensity · Del remove · S start · Q quit",
    );
    assert(canvas@ =~= before + config_widgets(*c, *caps, at@, status@));
}

/// Configuration screen: selecting datasets and arbitrary folders to scan.
pub fn render_config(canvas: &mut Canvas, c: &ScanConfig, caps: &Capabilities, status: &str)
    ensures
        final(canvas).area == old(canvas).area,
        exists|at: Seq<Rect>|
            #[trigger] crate::wizard::strips_of(old(canvas).area, config_extents(), at)
                && final(canvas)@ == old(canvas)@ + config_widgets(*c, *caps, at, status@),
{
    let extents: Vec<Extent> = vec![
        Extent::Length(3),
        Extent::Length(5),
        Extent::Min(3),
        Extent::Length(4),
    ];
    assert(extents@ =~= config_extents());
    let at = strips(canvas.area, &extents);
    render_config_at(canvas, c, caps, &at, status);
}

// ---------------------------------------------------------------------------------------------
// Picking a folder.
// ---------------------------------------------------------------------------------------------
/// The directory being looked at, and its subdirectories.
#[derive(Debug, Clone)]
pub struct FolderPicker {
    pub current_dir: FilePath,
    pub entries: Vec<FilePath>,
    pub cursor: usize,
}

/// A subdirectory: its name, or the whole path where it has none.
pub open spec fn folder_words(path: PathView) -> Seq<char> {
    (match path.file_name() {
        Some(name) => crate::text::escaped(crate::text::lossy_text(name)),
        None => path.shown_safely(),
    }) + "/"@
}

fn folder_text(path: &FilePath) -> (r: String)
    ensures
        r@ == folder_words(path@),
{
    let mut text = match path.file_name() {
        Some(name) => terminal(decode_lossy(&name).as_str()),
        None => path.display_safely(),
    };
    text.push_str("/");
    text
}

/// The subdirectories, or that there are none.
pub open spec fn folder_rows(entries: Seq<PathView>) -> Seq<RowModel> {
    if entries.len() == 0 {
        seq![crate::wizard::text_row("(no subdirectories)"@)]
    } else {
        entries.map_values(|path: PathView| crate::wizard::text_row(folder_words(path)))
    }
}

fn rows_of_folders(entries: &Vec<FilePath>) -> (r: Vec<Row>)
    ensures
        crate::canvas::rows_model(r@) == folder_rows(crate::model::paths_model(entries@)),
{
    let mut rows = no_rows();
    let ghost all = folder_rows(crate::model::paths_model(entries@));
    if entries.len() == 0 {
        push_text_row(&mut rows, "(no subdirectories)".to_string());
        assert(crate::canvas::rows_model(rows@) =~= all);
        return rows;
    }
    let mut i: usize = 0;
    assert(crate::canvas::rows_model(rows@) =~= all.take(0));
    while i < entries.len()
        invariant
            i <= entries@.len(),
            entries@.len() > 0,
            all == folder_rows(crate::model::paths_model(entries@)),
            crate::canvas::rows_model(rows@) == all.take(i as int),
        decreases entries@.len() - i,
    {
        push_text_row(&mut rows, folder_text(&entries[i]));
        assert(all.take(i as int).push(all[i as int]) =~= all.take(i as int + 1));
        i = i + 1;
    }
    assert(all.take(all.len() as int) =~= all);
    rows
}

/// The folders on screen.
pub open spec fn picker_widgets(p: FolderPicker, at: ThreeRows) -> Seq<WidgetModel> {
    let entries = crate::model::paths_model(p.entries@);
    seq![
        crate::wizard::header_text(
            at.top,
            " Current directory:  "@ + p.current_dir@.shown_safely() + " "@,
            " DedupCommando — pick a folder to scan "@,
        ),
        crate::wizard::picker(
            at.middle,
            folder_rows(entries),
            crate::wizard::cursor_in(entries.len(), p.cursor),
            " Subdirectories — Enter to enter "@,
        ),
        crate::canvas::framed_text(
            at.bottom,
            seq![
                crate::canvas::text_line(
                    "↑↓ select · Enter enter · Backspace up · A select this directory · Esc cancel"@,
                ),
            ],
            crate::canvas::FrameModel {
                title: crate::canvas::blank_line(),
                border: crate::canvas::plain_style(),
            },
        ),
    ]
}

/// Draws the folders in an area that was split into `at`.
pub fn render_picker_at(canvas: &mut Canvas, p: &FolderPicker, at: &ThreeRows)
    ensures
        final(canvas).area == old(canvas).area,
        final(canvas)@ == old(canvas)@ + picker_widgets(*p, *at),
{
    let ghost before = canvas@;
    let mut head = " Current directory:  ".to_string();
    head.push_str(p.current_dir.display_safely().as_str());
    head.push_str(" ");
    put_header(canvas, at.top, head, " DedupCommando — pick a folder to scan ");
    let selected: Option<usize> = if p.entries.len() > 0 {
        Some(p.cursor)
    } else {
        None
    };
    put_picker(
        canvas,
        at.middle,
        rows_of_folders(&p.entries),
        selected,
        " Subdirectories — Enter to enter ",
    );
    let mut lines = no_lines();
    push_line(
        &mut lines,
        Line::fixed(
            "↑↓ select · Enter enter · Backspace up · A select this directory · Esc cancel",
        ),
    );
    assert(crate::canvas::lines_model(lines@) =~= seq![
        crate::canvas::text_line(
            "↑↓ select · Enter enter · Backspace up · A select this directory · Esc cancel"@,
        ),
    ]);
    canvas.text(at.bottom, lines, Frame { title: Line::blank(), border: Style::new() });
    assert(canvas@ =~= before + picker_widgets(*p, *at));
}

/// File-browser screen: navigate the host's directories to pick a folder to scan.
pub fn render_picker(canvas: &mut Canvas, p: &FolderPicker)
    ensures
        final(canvas).area == old(canvas).area,
        exists|at: ThreeRows|
            #[trigger] crate::layout::three_rows(old(canvas).area, 3, 3, 3, at) && final(canvas)@
                == old(canvas)@ + picker_widgets(*p, at),
{
    let at = split_three(canvas.area, 3, 3, 3);
    render_picker_at(canvas, p, &at);
}

/// Where the screen has room for all four strips, the parameters' border holds its three lines:
/// none is clipped.
pub proof fn law_every_parameter_is_seen(area: Rect, at: Seq<Rect>, c: ScanConfig)
    requires
        crate::wizard::strips_of(area, config_extents(), at),
        crate::layout::bounded(area),
        area.height >= 15,
    ensures
        at[1].height == parameter_lines(c).len() + 2,
{
    reveal_with_fuel(crate::layout::asked, 5);
    assert(crate::layout::settled(config_extents(), area.height as int, 2));
    assert(at[1].height == crate::layout::strip_size(config_extents(), area.height as int, 1));
}

} // verus!
