//! Rendering of a single commander panel.

use vstd::prelude::*;

use crate::assoc::Assoc;
use crate::browser::{
    name_palette, render_dir_group_files, render_dir_group_summary_list, render_group_files,
    render_group_list,
};
use crate::canvas::{
    no_lines, no_rows, push_line, push_row, visible_window, Canvas, Color, Frame, FrameModel, Line,
    LineModel, ListState, Rect, Row, RowModel, Style, Widget, WidgetModel,
};
use crate::dedup::{DedupStatus, DirDedup, DirTrust, GroupId};
use crate::entries::{find_last_dot, EntryKind, EntryModel, Mark, PanelEntry, PanelView};
use crate::model::{DirGroup, DirGroupSummary, DuplicateGroup, GroupSummary, PathStyle};
use crate::panels::{Panel, PanelModel};
use crate::path::{FilePath, PathKey, PathView};
use crate::reclaim::GroupClaim;
use crate::state::{
    OpenDirGroup, WatchEmpty, WatchEntry, WatchModel, WatchResult, WatchSubject, WatchUnavailable,
};
use crate::text::{
    char_count, chars_of, ellipsize_left, fit, pad_left, pad_right, push_i64, push_usize,
    slice_chars, terminal,
};
use crate::units::human_bytes_parts;

verus! {

/// What a neighbouring panel has under a file's name, for side-by-side comparison.
#[derive(Debug, Clone, Copy, PartialEq, Eq, Structural)]
pub struct ComparePeer {
    pub size: u64,
    pub mtime: i64,
    /// The published identity of its group.
    pub group: Option<GroupId>,
}

/// What two panels have to agree on for a row to light up as an exact cross-panel match.
#[derive(Debug, Clone)]
pub enum MatchKey {
    /// The same published group — identity, not content.
    Group(GroupId),
    /// The same trusted directory signature.
    Directory(String),
}

/// The content of a match key.
#[verifier::ext_equal]
pub enum MatchKeyModel {
    Group(GroupId),
    Directory(Seq<char>),
}

impl View for MatchKey {
    type V = MatchKeyModel;

    open spec fn view(&self) -> MatchKeyModel {
        match *self {
            MatchKey::Group(id) => MatchKeyModel::Group(id),
            MatchKey::Directory(signature) => MatchKeyModel::Directory(signature@),
        }
    }
}

impl MatchKey {
    /// Whether two keys are the same.
    pub fn same(&self, other: &MatchKey) -> (r: bool)
        ensures
            r == (self@ == other@),
    {
        match (self, other) {
            (MatchKey::Group(a), MatchKey::Group(b)) => *a == *b,
            (MatchKey::Directory(a), MatchKey::Directory(b)) => *a == *b,
            _ => false,
        }
    }
}

/// The contents of a list of match keys.
pub open spec fn keys_model(keys: Seq<MatchKey>) -> Seq<MatchKeyModel> {
    keys.map_values(|k: MatchKey| k@)
}

/// Whether a key is among others.
pub fn holds_key(keys: &Vec<MatchKey>, key: &MatchKey) -> (r: bool)
    ensures
        r == keys_model(keys@).contains(key@),
{
    let mut i: usize = 0;
    while i < keys.len()
        invariant
            i <= keys@.len(),
            forall|j: int| 0 <= j < i ==> keys_model(keys@)[j] != key@,
        decreases keys@.len() - i,
    {
        if keys[i].same(key) {
            assert(keys_model(keys@)[i as int] == key@);
            return true;
        }
        i = i + 1;
    }
    false
}

/// The key an entry matches by: a file by its published group, a directory by its trusted
/// signature, anything else by nothing.
pub open spec fn entry_key(dir: Option<DirDedup>, e: EntryModel) -> Option<MatchKeyModel> {
    match dir {
        None => None,
        Some(d) => match e.kind {
            EntryKind::File => match d.spec_group_of(e.path) {
                Some(id) => Some(MatchKeyModel::Group(id)),
                None => None,
            },
            EntryKind::Dir => match d.spec_trusted_dir_signature(e.path) {
                Some(signature) => Some(MatchKeyModel::Directory(signature)),
                None => None,
            },
            EntryKind::Parent => None,
        },
    }
}

/// The content of an optional key.
pub open spec fn key_of(key: Option<MatchKey>) -> Option<MatchKeyModel> {
    match key {
        Some(k) => Some(k@),
        None => None,
    }
}

/// The key an entry matches by.
pub fn match_key(dir: Option<&DirDedup>, entry: &PanelEntry) -> (r: Option<MatchKey>)
    ensures
        key_of(r) == entry_key(owned(dir), entry@),
{
    match dir {
        None => None,
        Some(d) => match entry.kind {
            EntryKind::File => match d.group_of(&entry.path) {
                Some(id) => Some(MatchKey::Group(id)),
                None => None,
            },
            EntryKind::Dir => match d.trusted_dir_signature(&entry.path) {
                Some(signature) => Some(MatchKey::Directory(signature.to_string())),
                None => None,
            },
            EntryKind::Parent => None,
        },
    }
}

/// The value behind a reference that may be absent.
pub open spec fn owned<T>(value: Option<&T>) -> Option<T> {
    match value {
        Some(v) => Some(*v),
        None => None,
    }
}

/// An entry with no published group and no trusted signature takes no part in exact matching.
pub proof fn law_only_the_vouched_for_match(dir: Option<DirDedup>, e: EntryModel)
    ensures
        entry_key(dir, e) is Some ==> {
            &&& dir matches Some(d)
            &&& match e.kind {
                EntryKind::File => d.groups@.dom().contains(e.path.key()),
                EntryKind::Dir => d.dir_signatures@.dom().contains(e.path.key())
                    && d.dir_signatures@[e.path.key()].trust == DirTrust::Trusted,
                EntryKind::Parent => false,
            }
        },
{
}

/// Everything beside the panel itself that a panel is drawn from.
pub struct Scene<'a> {
    pub dedup: Option<&'a DirDedup>,
    /// Why the dedup attributes of the directory could not be read.
    pub dedup_error: Option<&'a str>,
    /// Keys that occur in two or more panels.
    pub cross: &'a Vec<MatchKey>,
    pub dir_sizes: &'a Assoc<FilePath, u64>,
    pub group_summaries: &'a Vec<GroupSummary>,
    pub dir_groups: &'a Vec<DirGroupSummary>,
    pub dir_groups_error: Option<&'a str>,
    /// What the panel watches: the answer, the reason for none, or the failure to read one.
    pub source: Option<&'a WatchEntry>,
    pub source_dir_group: Option<&'a OpenDirGroup>,
    pub compare_peer: Option<&'a Assoc<String, ComparePeer>>,
    pub scan_id: Option<i64>,
    pub index: usize,
    pub focused: bool,
    /// The Board's own heading; the panel's number otherwise.
    pub label: Option<&'a str>,
}

/// The content of a scene.
#[verifier::ext_equal]
pub struct SceneModel {
    pub dedup: Option<DirDedup>,
    pub dedup_error: Option<Seq<char>>,
    pub cross: Seq<MatchKeyModel>,
    pub dir_sizes: Map<PathKey, u64>,
    pub group_summaries: Seq<GroupSummary>,
    pub dir_groups: Seq<DirGroupSummary>,
    pub dir_groups_error: Option<Seq<char>>,
    pub source: Option<WatchModel>,
    pub source_dir_group: Option<OpenDirGroup>,
    pub compare_peer: Option<Map<Seq<char>, ComparePeer>>,
    pub scan_id: Option<i64>,
    pub index: usize,
    pub focused: bool,
    pub label: Option<Seq<char>>,
}

/// Text that may be absent.
pub open spec fn words_of(text: Option<&str>) -> Option<Seq<char>> {
    match text {
        Some(t) => Some(t@),
        None => None,
    }
}

/// A watch entry that may be absent.
pub open spec fn watch_of(source: Option<&WatchEntry>) -> Option<WatchModel> {
    match source {
        Some(entry) => Some(entry@),
        None => None,
    }
}

/// A neighbour's files that may be absent.
pub open spec fn peers_of(peer: Option<&Assoc<String, ComparePeer>>) -> Option<
    Map<Seq<char>, ComparePeer>,
> {
    match peer {
        Some(p) => Some(p@),
        None => None,
    }
}

impl<'a> View for Scene<'a> {
    type V = SceneModel;

    open spec fn view(&self) -> SceneModel {
        SceneModel {
            dedup: owned(self.dedup),
            dedup_error: words_of(self.dedup_error),
            cross: keys_model(self.cross@),
            dir_sizes: self.dir_sizes@,
            group_summaries: self.group_summaries@,
            dir_groups: self.dir_groups@,
            dir_groups_error: words_of(self.dir_groups_error),
            source: watch_of(self.source),
            source_dir_group: owned(self.source_dir_group),
            compare_peer: peers_of(self.compare_peer),
            scan_id: self.scan_id,
            index: self.index,
            focused: self.focused,
            label: words_of(self.label),
        }
    }
}

// ---------------------------------------------------------------------------------------------
// Colours and cells.
// ---------------------------------------------------------------------------------------------
/// The orange of a likely match.
pub open spec fn orange() -> Color {
    Color::Rgb(255, 140, 0)
}

/// File name colour by status and mark: the mark takes priority over the status.
pub open spec fn name_color(e: EntryModel, status: DedupStatus, mark: Option<Mark>) -> Color {
    if e.is_dir() {
        Color::Blue
    } else {
        match mark {
            Some(m) => mark_color(m),
            None => match status {
                DedupStatus::VerifiedDup => Color::Yellow,
                DedupStatus::DangerousDup => Color::Red,
                DedupStatus::LikelyDuplicate => orange(),
                DedupStatus::HashedUnique => Color::Gray,
                DedupStatus::Unhashed => Color::DarkGray,
                DedupStatus::NotInScan => Color::Reset,
                DedupStatus::Unavailable => Color::Reset,
            },
        }
    }
}

/// File name colour by status and mark.
pub fn name_color_for(entry: &PanelEntry, status: DedupStatus, mark: Option<Mark>) -> (r: Color)
    ensures
        r == name_color(entry@, status, mark),
{
    if entry.is_dir() {
        return Color::Blue;
    }
    match mark {
        Some(m) => mark_color_for(m),
        None => match status {
            DedupStatus::VerifiedDup => Color::Yellow,
            DedupStatus::DangerousDup => Color::Red,
            DedupStatus::LikelyDuplicate => Color::Rgb(255, 140, 0),
            DedupStatus::HashedUnique => Color::Gray,
            DedupStatus::Unhashed => Color::DarkGray,
            DedupStatus::NotInScan => Color::Reset,
            DedupStatus::Unavailable => Color::Reset,
        },
    }
}

/// Mark glyph colour.
pub open spec fn mark_color(mark: Mark) -> Color {
    match mark {
        Mark::Delete => Color::Red,
        Mark::Hardlink => Color::Cyan,
        Mark::Reflink => Color::Cyan,
        Mark::Keeper => Color::Green,
        Mark::Selected => Color::Green,
    }
}

/// Mark glyph colour.
pub fn mark_color_for(mark: Mark) -> (r: Color)
    ensures
        r == mark_color(mark),
{
    match mark {
        Mark::Delete => Color::Red,
        Mark::Hardlink => Color::Cyan,
        Mark::Reflink => Color::Cyan,
        Mark::Keeper => Color::Green,
        Mark::Selected => Color::Green,
    }
}

/// Dedup status glyph colour.
pub open spec fn status_color(status: DedupStatus) -> Color {
    match status {
        DedupStatus::VerifiedDup => Color::Yellow,
        DedupStatus::DangerousDup => Color::Red,
        DedupStatus::LikelyDuplicate => orange(),
        DedupStatus::HashedUnique => Color::Gray,
        DedupStatus::Unhashed => Color::DarkGray,
        DedupStatus::NotInScan => Color::DarkGray,
        DedupStatus::Unavailable => Color::DarkGray,
    }
}

/// Dedup status glyph colour.
pub fn status_color_for(status: DedupStatus) -> (r: Color)
    ensures
        r == status_color(status),
{
    match status {
        DedupStatus::VerifiedDup => Color::Yellow,
        DedupStatus::DangerousDup => Color::Red,
        DedupStatus::LikelyDuplicate => Color::Rgb(255, 140, 0),
        DedupStatus::HashedUnique => Color::Gray,
        DedupStatus::Unhashed => Color::DarkGray,
        DedupStatus::NotInScan => Color::DarkGray,
        DedupStatus::Unavailable => Color::DarkGray,
    }
}

/// A size in fixed columns: the number right-aligned in six, the unit left-aligned in three.
pub open spec fn size_columns(bytes: nat) -> Seq<char> {
    crate::text::padded_left(crate::units::size_number(bytes), 6) + " "@ + crate::text::padded_right(
        crate::units::unit_name(crate::units::unit_index(bytes)),
        3,
    )
}

/// Fixed-width size cell — digits align by column, units under units.
pub fn size_cell(bytes: u64) -> (r: String)
    ensures
        r@ == size_columns(bytes as nat),
{
    let (num, unit) = human_bytes_parts(bytes);
    let mut out = pad_left(num.as_str(), 6);
    out.push_str(" ");
    out.push_str(pad_right(unit, 3).as_str());
    out
}

/// File date in the machine's time zone as `YYYY-MM-DD`, empty where there is no such moment:
/// chrono's `Local.timestamp_opt(mtime, 0).single()`, formatted by `%Y-%m-%d`. It is written with
/// digits and signs, and a moment that has a year of four digits in every time zone always has a
/// date of ten characters; which day a moment falls on depends on the machine's time zone and is
/// left open.
#[verifier::external_body]
pub fn short_date(mtime: i64) -> (r: String)
    ensures
        crate::moments::numeric_date(r@),
        crate::moments::four_digit_year(mtime) ==> crate::moments::calendar_day(r@),
{
    match chrono::TimeZone::timestamp_opt(&chrono::Local, mtime, 0).single() {
        Some(dt) => dt.format("%Y-%m-%d").to_string(),
        None => String::new(),
    }
}

// ---------------------------------------------------------------------------------------------
// Comparison with the neighbour.
// ---------------------------------------------------------------------------------------------
/// What dedup data says of an entry's group.
pub open spec fn group_in(dir: Option<DirDedup>, path: PathView) -> Option<GroupId> {
    match dir {
        Some(d) => d.spec_group_of(path),
        None => None,
    }
}

/// Comparison glyph of an entry: `+` only here, `=` the same published group, `≈` nothing is
/// known of one of them but size and time agree, `~` otherwise. Non-files have none.
pub open spec fn comparison(
    e: EntryModel,
    peer: Map<Seq<char>, ComparePeer>,
    dir: Option<DirDedup>,
) -> (char, Color) {
    if e.kind != EntryKind::File {
        (' ', Color::Reset)
    } else if !peer.dom().contains(e.name) {
        ('+', Color::Blue)
    } else {
        let other = peer[e.name];
        let own = group_in(dir, e.path);
        if own is Some && other.group is Some {
            if own == other.group {
                ('=', Color::Green)
            } else {
                ('~', Color::Yellow)
            }
        } else if e.size == other.size && e.mtime == other.mtime {
            ('≈', orange())
        } else {
            ('~', Color::Yellow)
        }
    }
}

/// Comparison glyph of file `entry` against the neighbouring panel, in diff comparison colours.
pub fn compare_glyph(
    entry: &PanelEntry,
    peer: &Assoc<String, ComparePeer>,
    dedup: Option<&DirDedup>,
) -> (r: (char, Color))
    ensures
        r == comparison(entry@, peer@, owned(dedup)),
{
    match entry.kind {
        EntryKind::File => {},
        _ => {
            return (' ', Color::Reset);
        },
    }
    let other: ComparePeer = match peer.get(&entry.name) {
        Some(other) => *other,
        None => {
            return ('+', Color::Blue);
        },
    };
    let own: Option<GroupId> = match dedup {
        Some(d) => d.group_of(&entry.path),
        None => None,
    };
    match (own, other.group) {
        (Some(a), Some(b)) => {
            if a == b {
                return ('=', Color::Green);
            }
            return ('~', Color::Yellow);
        },
        _ => {},
    }
    if entry.size == other.size && entry.mtime == other.mtime {
        ('≈', Color::Rgb(255, 140, 0))
    } else {
        ('~', Color::Yellow)
    }
}

/// The status of a path, as far as dedup data goes.
pub open spec fn status_in(dir: Option<DirDedup>, path: PathView) -> DedupStatus {
    match dir {
        Some(d) => d.spec_status_for(path),
        None => DedupStatus::NotInScan,
    }
}

/// The status of a path, as far as dedup data goes.
pub fn status_of(dedup: Option<&DirDedup>, path: &FilePath) -> (r: DedupStatus)
    ensures
        r == status_in(owned(dedup), path@),
{
    match dedup {
        Some(d) => d.status_for(path),
        None => DedupStatus::NotInScan,
    }
}

/// How many entries are files.
pub open spec fn files_among(entries: Seq<EntryModel>) -> nat
    decreases entries.len(),
{
    if entries.len() == 0 {
        0
    } else {
        files_among(entries.drop_last()) + if entries.last().kind == EntryKind::File {
            1nat
        } else {
            0nat
        }
    }
}

/// The hash of a file with this status is known.
pub open spec fn hash_known(status: DedupStatus) -> bool {
    status == DedupStatus::HashedUnique || status == DedupStatus::VerifiedDup || status
        == DedupStatus::DangerousDup
}

/// How many entries are files with a known hash.
pub open spec fn hashed_among(entries: Seq<EntryModel>, dir: Option<DirDedup>) -> nat
    decreases entries.len(),
{
    if entries.len() == 0 {
        0
    } else {
        hashed_among(entries.drop_last(), dir) + if entries.last().kind == EntryKind::File
            && hash_known(status_in(dir, entries.last().path)) {
            1nat
        } else {
            0nat
        }
    }
}

/// How many entries are files that are the same or alike in the neighbouring panel.
pub open spec fn matched_among(
    entries: Seq<EntryModel>,
    peer: Map<Seq<char>, ComparePeer>,
    dir: Option<DirDedup>,
) -> nat
    decreases entries.len(),
{
    if entries.len() == 0 {
        0
    } else {
        let glyph = comparison(entries.last(), peer, dir).0;
        matched_among(entries.drop_last(), peer, dir) + if entries.last().kind == EntryKind::File
            && (glyph == '=' || glyph == '≈') {
            1nat
        } else {
            0nat
        }
    }
}

/// A share in whole percent, rounded down; none of nothing.
pub open spec fn percent_of(part: nat, whole: nat) -> Option<int> {
    if whole > 0 {
        Some((part * 100) as int / whole as int)
    } else {
        None
    }
}

/// The content of an optional percentage.
pub open spec fn percent_model(percent: Option<u8>) -> Option<int> {
    match percent {
        Some(p) => Some(p as int),
        None => None,
    }
}

fn share(part: usize, whole: usize) -> (r: Option<u8>)
    requires
        part <= whole,
    ensures
        percent_model(r) == percent_of(part as nat, whole as nat),
{
    if whole == 0 {
        return None;
    }
    let percent: u128 = (part as u128) * 100 / (whole as u128);
    assert((part * 100) / (whole as int) <= 100) by (nonlinear_arith)
        requires
            part <= whole,
            whole > 0,
    ;
    Some(percent as u8)
}

/// Share of panel files with a known hash — the machine's "confidence". `None` — the panel has
/// no files.
pub fn confidence_percent(panel: &Panel, dedup: Option<&DirDedup>) -> (r: Option<u8>)
    ensures
        percent_model(r) == percent_of(
            hashed_among(panel@.entries, owned(dedup)),
            files_among(panel@.entries),
        ),
{
    let ghost all = panel@.entries;
    let mut files: usize = 0;
    let mut hashed: usize = 0;
    let mut i: usize = 0;
    while i < panel.entries.len()
        invariant
            i <= panel.entries@.len(),
            all == crate::entries::entries_model(panel.entries@),
            files == files_among(all.take(i as int)),
            hashed == hashed_among(all.take(i as int), owned(dedup)),
            hashed <= files <= i,
        decreases panel.entries@.len() - i,
    {
        assert(all.take(i as int + 1).drop_last() =~= all.take(i as int));
        match panel.entries[i].kind {
            EntryKind::File => {
                files = files + 1;
                match status_of(dedup, &panel.entries[i].path) {
                    DedupStatus::HashedUnique => {
                        hashed = hashed + 1;
                    },
                    DedupStatus::VerifiedDup => {
                        hashed = hashed + 1;
                    },
                    DedupStatus::DangerousDup => {
                        hashed = hashed + 1;
                    },
                    _ => {},
                }
            },
            _ => {},
        }
        i = i + 1;
    }
    assert(all.take(all.len() as int) =~= all);
    share(hashed, files)
}

/// Share of panel files for which an identical or similar file was found in the neighbouring
/// panel. `None` — the panel has no files.
pub fn compare_match_percent(
    panel: &Panel,
    peer: &Assoc<String, ComparePeer>,
    dedup: Option<&DirDedup>,
) -> (r: Option<u8>)
    ensures
        percent_model(r) == percent_of(
            matched_among(panel@.entries, peer@, owned(dedup)),
            files_among(panel@.entries),
        ),
{
    let ghost all = panel@.entries;
    let mut files: usize = 0;
    let mut matched: usize = 0;
    let mut i: usize = 0;
    while i < panel.entries.len()
        invariant
            i <= panel.entries@.len(),
            all == crate::entries::entries_model(panel.entries@),
            files == files_among(all.take(i as int)),
            matched == matched_among(all.take(i as int), peer@, owned(dedup)),
            matched <= files <= i,
        decreases panel.entries@.len() - i,
    {
        assert(all.take(i as int + 1).drop_last() =~= all.take(i as int));
        match panel.entries[i].kind {
            EntryKind::File => {
                files = files + 1;
                let (glyph, _) = compare_glyph(&panel.entries[i], peer, dedup);
                if glyph == '=' || glyph == '≈' {
                    matched = matched + 1;
                }
            },
            _ => {},
        }
        i = i + 1;
    }
    assert(all.take(all.len() as int) =~= all);
    share(matched, files)
}

// ---------------------------------------------------------------------------------------------
// One row.
// ---------------------------------------------------------------------------------------------
/// An entry's name and extension, as separate columns: the extension is what follows the last
/// dot, unless nothing precedes it.
pub open spec fn name_columns(e: EntryModel) -> (Seq<char>, Seq<char>) {
    match e.kind {
        EntryKind::File => {
            let dot = crate::entries::last_dot(e.name);
            if dot > 0 {
                (e.name.subrange(0, dot), e.name.subrange(dot + 1, e.name.len() as int))
            } else {
                (e.name, Seq::empty())
            }
        },
        EntryKind::Dir => (e.name + "/"@, Seq::empty()),
        EntryKind::Parent => (e.name, Seq::empty()),
    }
}

fn split_name(entry: &PanelEntry) -> (r: (String, String))
    ensures
        (r.0@, r.1@) == name_columns(entry@),
{
    match entry.kind {
        EntryKind::File => {
            let chars = chars_of(entry.name.as_str());
            let after: usize = find_last_dot(&chars);
            if after > 1 {
                (slice_chars(&chars, 0, after - 1), slice_chars(&chars, after, chars.len()))
            } else {
                (entry.name.as_str().to_string(), String::new())
            }
        },
        EntryKind::Dir => {
            let mut name = entry.name.as_str().to_string();
            name.push_str("/");
            (name, String::new())
        },
        EntryKind::Parent => (entry.name.as_str().to_string(), String::new()),
    }
}

/// The size column of an entry: nothing for `..`, and a directory only as far as it is known.
pub open spec fn size_shown(e: EntryModel, dir_size: Option<u64>) -> Seq<char> {
    match e.kind {
        EntryKind::Parent => Seq::empty(),
        EntryKind::Dir => match dir_size {
            Some(bytes) => size_columns(bytes as nat),
            None => "<DIR>"@,
        },
        EntryKind::File => size_columns(e.size as nat),
    }
}

fn show_size(entry: &PanelEntry, dir_size: Option<u64>) -> (r: String)
    ensures
        r@ == size_shown(entry@, dir_size),
{
    match entry.kind {
        EntryKind::Parent => String::new(),
        EntryKind::Dir => match dir_size {
            Some(bytes) => size_cell(bytes),
            None => "<DIR>".to_string(),
        },
        EntryKind::File => size_cell(entry.size),
    }
}

/// Columns left for the name: what the other columns leave, at least four.
pub open spec fn name_width(width: u16, compared: bool) -> int {
    let fixed: int = if compared {
        34
    } else {
        32
    };
    if width - fixed > 4 {
        width - fixed
    } else {
        4
    }
}

/// Black on a highlighted row, the colour itself otherwise.
pub open spec fn cross_color(is_cross: bool, color: Color) -> Color {
    if is_cross {
        Color::Black
    } else {
        color
    }
}

fn over_cross(is_cross: bool, color: Color) -> (r: Color)
    ensures
        r == cross_color(is_cross, color),
{
    if is_cross {
        Color::Black
    } else {
        color
    }
}

/// The look of an entry's name.
pub open spec fn name_look(
    e: EntryModel,
    status: DedupStatus,
    mark: Option<Mark>,
    is_cross: bool,
) -> Style {
    let color = cross_color(is_cross, name_color(e, status, mark));
    Style {
        fg: Some(color),
        bg: None,
        bold: e.is_dir(),
        dim: !e.is_dir() && status == DedupStatus::Unhashed && !is_cross,
        reversed: false,
    }
}

/// The columns an entry's row is made of: mark, name, extension, size, date, status, and the
/// comparison glyph where panels are compared.
pub open spec fn entry_row(
    e: EntryModel,
    width: u16,
    status: DedupStatus,
    mark: Option<Mark>,
    is_cross: bool,
    dir_size: Option<u64>,
    compare: Option<(char, Color)>,
    date: Seq<char>,
) -> LineModel {
    let plain = crate::canvas::plain_style();
    let aux = crate::canvas::colored(cross_color(is_cross, Color::DarkGray));
    let name = crate::text::fitted(crate::text::escaped(name_columns(e).0), name_width(width, compare is Some));
    let extension = crate::text::fitted(crate::text::escaped(name_columns(e).1), 5);
    let glyph = match mark {
        Some(m) => crate::entries::mark_glyph(m),
        None => ' ',
    };
    let glyph_color = match mark {
        Some(m) => mark_color(m),
        None => Color::Reset,
    };
    let status_mark = if e.kind == EntryKind::File {
        crate::dedup::status_glyph(status)
    } else {
        ' '
    };
    let line = crate::canvas::blank_line().with(
        seq![glyph],
        Style { fg: Some(glyph_color), bg: None, bold: true, dim: false, reversed: false },
    ).with(" "@, plain).with(
        crate::text::padded_right(name, name_width(width, compare is Some)),
        name_look(e, status, mark, is_cross),
    ).with(" "@, plain).with(crate::text::padded_right(extension, 5), aux).with(" "@, plain).with(
        crate::text::padded_left(size_shown(e, dir_size), 10),
        aux,
    ).with(" "@, plain).with(crate::text::padded_left(date, 10), aux).with(" "@, plain).with(
        seq![status_mark],
        crate::canvas::colored(cross_color(is_cross, status_color(status))),
    );
    match compare {
        Some((mark, color)) => line.with(" "@, plain).with(
            seq![mark],
            crate::canvas::colored(cross_color(is_cross, color)),
        ),
        None => line,
    }
}

/// One character as text.
pub fn char_text(c: char) -> (r: String)
    ensures
        r@ == seq![c],
{
    let mut s = String::new();
    s.push(c);
    assert(s@ =~= seq![c]);
    s
}

/// Builds an entry row: mark, name, size, date, dedup status. `date` is the entry's date.
pub fn entry_line(
    entry: &PanelEntry,
    width: u16,
    status: DedupStatus,
    mark: Option<Mark>,
    is_cross: bool,
    dir_size: Option<u64>,
    compare_mark: Option<(char, Color)>,
    date: &str,
) -> (r: Line)
    ensures
        r@ == entry_row(entry@, width, status, mark, is_cross, dir_size, compare_mark, date@),
{
    let fixed: usize = match compare_mark {
        Some(_) => 34,
        None => 32,
    };
    let left: usize = (width as usize).saturating_sub(fixed);
    let name_col: usize = if left > 4 {
        left
    } else {
        4
    };
    let (glyph, glyph_color): (char, Color) = match mark {
        Some(m) => (m.glyph(), mark_color_for(m)),
        None => (' ', Color::Reset),
    };
    let (display_name, full_extension) = split_name(entry);
    let name = fit(terminal(display_name.as_str()).as_str(), name_col);
    let extension = fit(terminal(full_extension.as_str()).as_str(), 5);
    let size_text = show_size(entry, dir_size);
    let aux = Style::color(over_cross(is_cross, Color::DarkGray));
    let mut name_style = Style::color(over_cross(is_cross, name_color_for(entry, status, mark)));
    if entry.is_dir() {
        name_style = name_style.bold();
    } else if matches!(status, DedupStatus::Unhashed) && !is_cross {
        name_style = name_style.dim();
    }
    let status_mark: char = match entry.kind {
        EntryKind::File => status.glyph(),
        _ => ' ',
    };
    let mut line = Line::blank();
    line.add(char_text(glyph), Style::color(glyph_color).bold());
    line.add_str(" ", Style::new());
    line.add(pad_right(name.as_str(), name_col), name_style);
    line.add_str(" ", Style::new());
    line.add(pad_right(extension.as_str(), 5), aux);
    line.add_str(" ", Style::new());
    line.add(pad_left(size_text.as_str(), 10), aux);
    line.add_str(" ", Style::new());
    line.add(pad_left(date, 10), aux);
    line.add_str(" ", Style::new());
    line.add(
        char_text(status_mark),
        Style::color(over_cross(is_cross, status_color_for(status))),
    );
    match compare_mark {
        Some((mark, color)) => {
            line.add_str(" ", Style::new());
            line.add(char_text(mark), Style::color(over_cross(is_cross, color)));
        },
        None => {},
    }
    line
}

// ---------------------------------------------------------------------------------------------
// Messages of an empty panel.
// ---------------------------------------------------------------------------------------------
/// Why a panel of the cursor's duplicates is empty.
pub open spec fn duplicates_message(empty: WatchEmpty, scan_id: Option<i64>) -> Seq<char> {
    match empty {
        WatchEmpty::NoSource =>
            "no source — need a «files» or «directories» panel with a cursor on the left"@,
        WatchEmpty::NotInScan => match scan_id {
            Some(id) => "under the cursor — out of scan #"@ + crate::text::signed_decimal(id as int),
            None => "under the cursor — no scan data"@,
        },
        WatchEmpty::NoDuplicates => "no dupes at the cursor"@,
    }
}

/// Message keyed by the reason for emptiness — distinguishes "no source" / "out of scan #N" /
/// "no dupes".
pub fn duplicates_of_cursor_empty_message(empty: WatchEmpty, scan_id: Option<i64>) -> (r: String)
    ensures
        r@ == duplicates_message(empty, scan_id),
{
    match empty {
        WatchEmpty::NoSource => {
            "no source — need a «files» or «directories» panel with a cursor on the left".to_string()
        },
        WatchEmpty::NotInScan => match scan_id {
            Some(id) => {
                let mut text = "under the cursor — out of scan #".to_string();
                push_i64(&mut text, id);
                text
            },
            None => "under the cursor — no scan data".to_string(),
        },
        WatchEmpty::NoDuplicates => "no dupes at the cursor".to_string(),
    }
}

/// Why a panel of a group's files is empty.
pub open spec fn group_files_message(empty: WatchEmpty) -> Seq<char> {
    match empty {
        WatchEmpty::NoSource => "no source — need a «groups» panel on the left"@,
        WatchEmpty::NotInScan => "group selected, but it's not in the scan"@,
        WatchEmpty::NoDuplicates => "group has no files"@,
    }
}

/// The same for a panel of a group's files, whose source is the neighbouring list of groups.
pub fn group_files_empty_message(empty: WatchEmpty) -> (r: &'static str)
    ensures
        r@ == group_files_message(empty),
{
    match empty {
        WatchEmpty::NoSource => "no source — need a «groups» panel on the left",
        WatchEmpty::NotInScan => "group selected, but it's not in the scan",
        WatchEmpty::NoDuplicates => "group has no files",
    }
}

/// What a failed read is reported as: what could not be read, and why.
pub open spec fn unavailable_words(failure: WatchUnavailable) -> Seq<char> {
    (match failure.subject {
        WatchSubject::DirectoryGroup => "directory group unavailable: "@,
        WatchSubject::FileGroup => "file group unavailable: "@,
    }) + crate::text::escaped(failure.detail@)
}

fn unavailable_message(failure: &WatchUnavailable) -> (r: String)
    ensures
        r@ == unavailable_words(*failure),
{
    let mut text = match failure.subject {
        WatchSubject::DirectoryGroup => "directory group unavailable: ".to_string(),
        WatchSubject::FileGroup => "file group unavailable: ".to_string(),
    };
    text.push_str(terminal(failure.detail.as_str()).as_str());
    text
}

// ---------------------------------------------------------------------------------------------
// The panel.
// ---------------------------------------------------------------------------------------------
/// The look of a panel's border.
pub open spec fn border_look(focused: bool) -> Style {
    if focused {
        Style { fg: Some(Color::Cyan), bg: None, bold: true, dim: false, reversed: false }
    } else {
        crate::canvas::colored(Color::DarkGray)
    }
}

fn border_style(focused: bool) -> (r: Style)
    ensures
        r == border_look(focused),
{
    if focused {
        Style::color(Color::Cyan).bold()
    } else {
        Style::color(Color::DarkGray)
    }
}

/// A panel's number, or the Board's own heading.
pub open spec fn heading(scene: SceneModel) -> Seq<char> {
    match scene.label {
        Some(text) => text,
        None => crate::text::decimal((scene.index + 1) as nat),
    }
}

/// The colour of a confidence.
pub open spec fn confidence_color(percent: int) -> Color {
    if percent < 30 {
        Color::Red
    } else if percent < 80 {
        Color::Yellow
    } else {
        Color::Green
    }
}

/// The title of a panel of entries: heading, directory cut on the left, sort key, and what is
/// known of its files.
pub open spec fn panel_title(p: PanelModel, scene: SceneModel, width: u16) -> LineModel {
    let room: int = if width >= 24 {
        width - 24
    } else {
        0
    };
    let base = crate::canvas::blank_line().with(
        " "@ + heading(scene) + " · "@ + crate::text::left_cut(p.cwd.shown_safely(), room) + " · "@
            + crate::entries::sort_label(p.sort) + " "@,
        crate::canvas::plain_style(),
    );
    let sure = match percent_of(hashed_among(p.entries, scene.dedup), files_among(p.entries)) {
        Some(percent) => base.with(
            "· conf "@ + crate::text::decimal(percent as nat) + "% "@,
            crate::canvas::colored(confidence_color(percent)),
        ),
        None => base,
    };
    let read = match scene.dedup_error {
        Some(_) => sure.with("· scan data unreadable "@, crate::canvas::colored(Color::Red)),
        None => sure,
    };
    match scene.compare_peer {
        Some(peer) => match percent_of(
            matched_among(p.entries, peer, scene.dedup),
            files_among(p.entries),
        ) {
            Some(percent) => read.with(
                "· match "@ + crate::text::decimal(percent as nat) + "% "@,
                crate::canvas::colored(Color::Cyan),
            ),
            None => read,
        },
        None => read,
    }
}

fn title_line(panel: &Panel, scene: &Scene, width: u16) -> (r: Line)
    requires
        scene.index < usize::MAX,
    ensures
        r@ == panel_title(panel@, scene@, width),
{
    let room: usize = width.saturating_sub(24) as usize;
    let mut text = " ".to_string();
    match scene.label {
        Some(label) => {
            text.push_str(label);
        },
        None => {
            push_usize(&mut text, scene.index + 1);
        },
    }
    text.push_str(" · ");
    text.push_str(ellipsize_left(panel.cwd.display_safely().as_str(), room).as_str());
    text.push_str(" · ");
    text.push_str(panel.sort.label());
    text.push_str(" ");
    let mut line = Line::blank();
    line.add(text, Style::new());
    match confidence_percent(panel, scene.dedup) {
        Some(percent) => {
            let color = if percent < 30 {
                Color::Red
            } else if percent < 80 {
                Color::Yellow
            } else {
                Color::Green
            };
            let mut text = "· conf ".to_string();
            push_usize(&mut text, percent as usize);
            text.push_str("% ");
            line.add(text, Style::color(color));
        },
        None => {},
    }
    match scene.dedup_error {
        Some(_) => {
            line.add_str("· scan data unreadable ", Style::color(Color::Red));
        },
        None => {},
    }
    match scene.compare_peer {
        Some(peer) => match compare_match_percent(panel, peer, scene.dedup) {
            Some(percent) => {
                let mut text = "· match ".to_string();
                push_usize(&mut text, percent as usize);
                text.push_str("% ");
                line.add(text, Style::color(Color::Cyan));
            },
            None => {},
        },
        None => {},
    }
    line
}

/// A panel with a message instead of rows; the title says which mode it is in.
pub open spec fn fallback(
    area: Rect,
    border: Style,
    index: usize,
    view: PanelView,
    message: Seq<char>,
) -> WidgetModel {
    WidgetModel::Text {
        area,
        lines: seq![crate::canvas::text_line("  "@ + message)],
        style: crate::canvas::colored(Color::DarkGray),
        frame: Some(
            FrameModel {
                title: crate::canvas::text_line(
                    " "@ + crate::text::decimal((index + 1) as nat) + " · «"@
                        + crate::entries::view_label(view) + "» "@,
                ),
                border,
            },
        ),
        wrap: false,
        centered: false,
    }
}

/// Unified panel fallback in the mode views.
pub fn render_view_fallback(
    canvas: &mut Canvas,
    area: Rect,
    border: Style,
    index: usize,
    view: PanelView,
    message: &str,
)
    requires
        index < usize::MAX,
    ensures
        final(canvas).area == old(canvas).area,
        final(canvas)@ == old(canvas)@.push(fallback(area, border, index, view, message@)),
{
    let mut title = " ".to_string();
    push_usize(&mut title, index + 1);
    title.push_str(" · «");
    title.push_str(view.label());
    title.push_str("» ");
    let mut text = "  ".to_string();
    text.push_str(message);
    let mut lines = no_lines();
    push_line(&mut lines, Line::text(text));
    assert(crate::canvas::lines_model(lines@) =~= seq![
        crate::canvas::text_line("  "@ + message@),
    ]);
    canvas.put(
        Widget::Text {
            area,
            lines,
            style: Style::color(Color::DarkGray),
            frame: Some(Frame { title: Line::text(title), border }),
            wrap: false,
            centered: false,
        },
    );
}

/// The title of a mode: the panel's number and what it shows.
pub open spec fn mode_title(index: usize, caption: Seq<char>) -> Seq<char> {
    " "@ + crate::text::decimal((index + 1) as nat) + " · "@ + caption + " "@
}

fn titled(index: usize, caption: &str) -> (r: String)
    requires
        index < usize::MAX,
    ensures
        r@ == mode_title(index, caption@),
{
    let mut title = " ".to_string();
    push_usize(&mut title, index + 1);
    title.push_str(" · ");
    title.push_str(caption);
    title.push_str(" ");
    title
}

/// The rows of plain paths, and one more that counts those left out.
pub open spec fn path_rows(paths: Seq<PathView>, total: int) -> Seq<RowModel> {
    let shown = paths.map_values(
        |p: PathView|
            crate::canvas::row_of_line(crate::canvas::text_line("  "@ + p.shown_safely())),
    );
    if total > paths.len() {
        shown.push(
            crate::canvas::row_of_line(
                crate::canvas::text_line(
                    "  … and "@ + crate::text::decimal((total - paths.len()) as nat) + " more"@,
                ),
            ),
        )
    } else {
        shown
    }
}

/// A list of paths under a title.
pub open spec fn path_list(
    area: Rect,
    paths: Seq<PathView>,
    total: int,
    state: ListState,
    focused: bool,
    title: Seq<char>,
) -> WidgetModel {
    let frame = FrameModel { title: crate::canvas::text_line(title), border: border_look(focused) };
    if paths.len() == 0 {
        WidgetModel::Text {
            area,
            lines: seq![crate::canvas::text_line("  empty"@)],
            style: crate::canvas::colored(Color::DarkGray),
            frame: Some(frame),
            wrap: false,
            centered: false,
        }
    } else {
        WidgetModel::List {
            area,
            rows: path_rows(paths, total),
            state,
            frame: Some(frame),
            pointer: false,
            highlight: crate::canvas::reversed_style(),
        }
    }
}

fn put_paths(
    canvas: &mut Canvas,
    area: Rect,
    paths: &Vec<FilePath>,
    total: usize,
    state: &ListState,
    focused: bool,
    title: String,
)
    ensures
        final(canvas).area == old(canvas).area,
        final(canvas)@ == old(canvas)@.push(
            path_list(
                area,
                crate::model::paths_model(paths@),
                total as int,
                *state,
                focused,
                title@,
            ),
        ),
{
    let frame = Frame { title: Line::text(title), border: border_style(focused) };
    if paths.len() == 0 {
        let mut lines = no_lines();
        push_line(&mut lines, Line::fixed("  empty"));
        assert(crate::canvas::lines_model(lines@) =~= seq![crate::canvas::text_line("  empty"@)]);
        canvas.put(
            Widget::Text {
                area,
                lines,
                style: Style::color(Color::DarkGray),
                frame: Some(frame),
                wrap: false,
                centered: false,
            },
        );
        return;
    }
    let ghost views = crate::model::paths_model(paths@);
    let ghost all = views.map_values(
        |p: PathView|
            crate::canvas::row_of_line(crate::canvas::text_line("  "@ + p.shown_safely())),
    );
    let mut items = no_rows();
    let mut i: usize = 0;
    assert(crate::canvas::rows_model(items@) =~= all.take(0));
    while i < paths.len()
        invariant
            i <= paths@.len(),
            views == crate::model::paths_model(paths@),
            all == views.map_values(
                |p: PathView|
                    crate::canvas::row_of_line(crate::canvas::text_line("  "@ + p.shown_safely())),
            ),
            crate::canvas::rows_model(items@) == all.take(i as int),
        decreases paths@.len() - i,
    {
        let mut text = "  ".to_string();
        text.push_str(paths[i].display_safely().as_str());
        push_row(&mut items, Row::of(Line::text(text)));
        assert(all.take(i as int).push(all[i as int]) =~= all.take(i as int + 1));
        i = i + 1;
    }
    assert(all.take(paths@.len() as int) =~= all);
    if total > paths.len() {
        let mut text = "  … and ".to_string();
        push_usize(&mut text, total - paths.len());
        text.push_str(" more");
        push_row(&mut items, Row::of(Line::text(text)));
    }
    assert(crate::canvas::rows_model(items@) =~= path_rows(views, total as int));
    canvas.put(
        Widget::List {
            area,
            rows: items,
            state: *state,
            frame: Some(frame),
            pointer: false,
            highlight: Style::swapped(),
        },
    );
}

/// Renders the duplicate files inside a directory that has no twin.
pub fn render_inner_dupes(
    canvas: &mut Canvas,
    area: Rect,
    paths: &Vec<FilePath>,
    total: usize,
    state: &ListState,
    focused: bool,
    title: &str,
)
    ensures
        final(canvas).area == old(canvas).area,
        final(canvas)@ == old(canvas)@.push(
            path_list(
                area,
                crate::model::paths_model(paths@),
                total as int,
                *state,
                focused,
                title@ + "· dupes inside (no twin directory)"@,
            ),
        ),
{
    let mut hint = title.to_string();
    hint.push_str("· dupes inside (no twin directory)");
    put_paths(canvas, area, paths, total, state, focused, hint);
}

/// The title of an answer nothing vouches for: what it is and what to do about it. The narrow
/// form keeps both where the wide one would be clipped.
pub open spec fn unverified_title(index: usize, width: u16) -> Seq<char> {
    let wide = mode_title(index, "unverified candidate — rescan required"@);
    if wide.len() + 2 <= width {
        wide
    } else {
        mode_title(index, "unverified · rescan required"@)
    }
}

/// The row of a directory nothing vouches for.
pub open spec fn unverified_row(path: PathView, first: bool) -> RowModel {
    crate::canvas::row_of_line(
        crate::canvas::blank_line().with(
            if first {
                "★?"@
            } else {
                "? "@
            },
            crate::canvas::colored(Color::DarkGray),
        ).with(path.shown_safely(), crate::canvas::plain_style()),
    )
}

/// The rows of directories nothing vouches for.
pub open spec fn unverified_rows(paths: Seq<PathView>) -> Seq<RowModel> {
    Seq::new(paths.len(), |i: int| unverified_row(paths[i], i == 0))
}

/// A list of candidates nothing vouches for.
pub open spec fn unverified_list(
    area: Rect,
    paths: Seq<PathView>,
    state: ListState,
    focused: bool,
    index: usize,
) -> WidgetModel {
    WidgetModel::List {
        area,
        rows: unverified_rows(paths),
        state,
        frame: Some(
            FrameModel {
                title: crate::canvas::text_line(unverified_title(index, area.width)),
                border: border_look(focused),
            },
        ),
        pointer: false,
        highlight: crate::canvas::reversed_style(),
    }
}

/// Draws candidates nothing vouches for: every member is marked, and nothing is claimed of them.
pub fn render_unverified(
    canvas: &mut Canvas,
    area: Rect,
    paths: &Vec<FilePath>,
    state: &ListState,
    focused: bool,
    index: usize,
)
    requires
        index < usize::MAX,
    ensures
        final(canvas).area == old(canvas).area,
        final(canvas)@ == old(canvas)@.push(
            unverified_list(area, crate::model::paths_model(paths@), *state, focused, index),
        ),
{
    let wide = titled(index, "unverified candidate — rescan required");
    let count: usize = char_count(wide.as_str());
    let title = if count <= (area.width as usize).saturating_sub(2) && area.width >= 2 {
        wide
    } else {
        titled(index, "unverified · rescan required")
    };
    let ghost all = unverified_rows(crate::model::paths_model(paths@));
    let mut items = no_rows();
    let mut i: usize = 0;
    assert(crate::canvas::rows_model(items@) =~= all.take(0));
    while i < paths.len()
        invariant
            i <= paths@.len(),
            all == unverified_rows(crate::model::paths_model(paths@)),
            crate::canvas::rows_model(items@) == all.take(i as int),
        decreases paths@.len() - i,
    {
        let mut line = Line::blank();
        line.add_str(
            if i == 0 {
                "★?"
            } else {
                "? "
            },
            Style::color(Color::DarkGray),
        );
        line.add(paths[i].display_safely(), Style::new());
        push_row(&mut items, Row::of(line));
        assert(all.take(i as int).push(all[i as int]) =~= all.take(i as int + 1));
        i = i + 1;
    }
    assert(all.take(paths@.len() as int) =~= all);
    canvas.put(
        Widget::List {
            area,
            rows: items,
            state: *state,
            frame: Some(Frame { title: Line::text(title), border: border_style(focused) }),
            pointer: false,
            highlight: Style::swapped(),
        },
    );
}

/// An opened directory group, drawn by the trust it was read with.
pub open spec fn dir_answer(
    area: Rect,
    open: OpenDirGroup,
    state: ListState,
    scene: SceneModel,
    caption: Seq<char>,
) -> WidgetModel {
    let paths = crate::model::paths_model(open.group.paths@);
    match open.trust {
        DirTrust::Trusted => crate::browser::dir_group_files(
            area,
            paths,
            0,
            false,
            state,
            scene.focused,
            mode_title(scene.index, caption),
        ),
        DirTrust::Untrusted => unverified_list(area, paths, state, scene.focused, scene.index),
    }
}

fn put_dir_answer(
    canvas: &mut Canvas,
    area: Rect,
    open: &OpenDirGroup,
    state: &ListState,
    scene: &Scene,
    caption: &str,
)
    requires
        scene.index < usize::MAX,
    ensures
        final(canvas).area == old(canvas).area,
        final(canvas)@ == old(canvas)@.push(dir_answer(area, *open, *state, scene@, caption@)),
{
    match open.trust {
        DirTrust::Trusted => {
            let title = titled(scene.index, caption);
            render_dir_group_files(
                canvas,
                area,
                Some(&open.group),
                state,
                scene.focused,
                title.as_str(),
            );
        },
        DirTrust::Untrusted => {
            render_unverified(canvas, area, &open.group.paths, state, scene.focused, scene.index);
        },
    }
}

/// What a watching panel shows: the failure to read its answer, the answer, or why there is none.
pub open spec fn watch_widgets(
    area: Rect,
    view: PanelView,
    state: ListState,
    scene: SceneModel,
) -> Seq<WidgetModel> {
    let entry = match scene.source {
        Some(entry) => entry,
        None => crate::state::unresolved(),
    };
    let cursor = view == PanelView::DuplicatesOfCursor;
    let caption = crate::entries::view_label(view);
    let silent = |message: Seq<char>| seq![
        fallback(area, border_look(scene.focused), scene.index, view, message),
    ];
    match (entry.unavailable, entry.result) {
        (Some(failure), _) => silent(unavailable_words(failure)),
        (None, Some(WatchResult::FileGroup(group, claim))) => crate::browser::group_files(
            area,
            crate::browser::open_files(Some(&group)),
            claim,
            crate::browser::palette(crate::model::files_model(group.files@)),
            state,
            PathStyle::NameFirst,
            scene.focused,
            mode_title(scene.index, caption),
        ),
        (None, Some(WatchResult::DirGroup(open))) => if cursor {
            seq![dir_answer(area, open, state, scene, caption)]
        } else {
            silent(group_files_message(entry.empty))
        },
        (None, Some(WatchResult::InnerDupes { paths, total })) => if cursor {
            seq![
                path_list(
                    area,
                    crate::model::paths_model(paths@),
                    total as int,
                    state,
                    scene.focused,
                    mode_title(scene.index, caption) + "· dupes inside (no twin directory)"@,
                ),
            ]
        } else {
            silent(group_files_message(entry.empty))
        },
        (None, Some(WatchResult::InnerCandidates { paths, total })) => if cursor {
            seq![
                unverified_list(
                    area,
                    crate::model::paths_model(paths@),
                    state,
                    scene.focused,
                    scene.index,
                ),
            ]
        } else {
            silent(group_files_message(entry.empty))
        },
        (None, None) => silent(
            if cursor {
                duplicates_message(entry.empty, scene.scan_id)
            } else {
                group_files_message(entry.empty)
            },
        ),
    }
}

/// How a watching panel's cursor is left.
pub open spec fn watch_drawn(area: Rect, state: ListState, scene: SceneModel) -> ListState {
    match scene.source {
        Some(entry) => match (entry.unavailable, entry.result) {
            (None, Some(WatchResult::FileGroup(group, claim))) => crate::browser::group_files_state(
                area,
                crate::browser::open_files(Some(&group)),
                claim,
                state,
            ),
            _ => state,
        },
        None => state,
    }
}

fn put_group_answer(
    canvas: &mut Canvas,
    area: Rect,
    group: &DuplicateGroup,
    claim: Option<GroupClaim>,
    state: &mut ListState,
    scene: &Scene,
    caption: &str,
)
    requires
        crate::layout::bounded(area),
        scene.index < usize::MAX,
    ensures
        final(canvas).area == old(canvas).area,
        final(canvas)@ == old(canvas)@ + crate::browser::group_files(
            area,
            crate::browser::open_files(Some(group)),
            claim,
            crate::browser::palette(crate::model::files_model(group.files@)),
            *old(state),
            PathStyle::NameFirst,
            scene.focused,
            mode_title(scene.index, caption@),
        ),
        *final(state) == crate::browser::group_files_state(
            area,
            crate::browser::open_files(Some(group)),
            claim,
            *old(state),
        ),
{
    let title = titled(scene.index, caption);
    let colors = name_palette(group);
    render_group_files(
        canvas,
        area,
        Some(group),
        claim,
        &colors,
        state,
        PathStyle::NameFirst,
        scene.focused,
        title.as_str(),
    );
}

fn put_watch(
    canvas: &mut Canvas,
    area: Rect,
    view: PanelView,
    state: &mut ListState,
    scene: &Scene,
)
    requires
        crate::layout::bounded(area),
        scene.index < usize::MAX,
    ensures
        final(canvas).area == old(canvas).area,
        final(canvas)@ == old(canvas)@ + watch_widgets(area, view, *old(state), scene@),
        *final(state) == watch_drawn(area, *old(state), scene@),
{
    let ghost before = canvas@;
    let ghost start = *state;
    let border = border_style(scene.focused);
    let cursor = matches!(view, PanelView::DuplicatesOfCursor);
    let mut empty: WatchEmpty = WatchEmpty::NoSource;
    match scene.source {
        Some(entry) => {
            empty = entry.empty;
            match &entry.unavailable {
                Some(failure) => {
                    let message = unavailable_message(failure);
                    render_view_fallback(
                        canvas,
                        area,
                        border,
                        scene.index,
                        view,
                        message.as_str(),
                    );
                    assert(canvas@ =~= before + watch_widgets(area, view, start, scene@));
                    return;
                },
                None => {},
            }
            match &entry.result {
                Some(WatchResult::FileGroup(group, claim)) => {
                    put_group_answer(canvas, area, group, *claim, state, scene, view.label());
                    return;
                },
                Some(WatchResult::DirGroup(open)) => {
                    if cursor {
                        put_dir_answer(canvas, area, open, state, scene, view.label());
                        assert(canvas@ =~= before + watch_widgets(area, view, start, scene@));
                        return;
                    }
                },
                Some(WatchResult::InnerDupes { paths, total }) => {
                    if cursor {
                        let title = titled(scene.index, view.label());
                        render_inner_dupes(
                            canvas,
                            area,
                            paths,
                            *total,
                            state,
                            scene.focused,
                            title.as_str(),
                        );
                        assert(canvas@ =~= before + watch_widgets(area, view, start, scene@));
                        return;
                    }
                },
                Some(WatchResult::InnerCandidates { paths, .. }) => {
                    if cursor {
                        render_unverified(canvas, area, paths, state, scene.focused, scene.index);
                        assert(canvas@ =~= before + watch_widgets(area, view, start, scene@));
                        return;
                    }
                },
                None => {},
            }
        },
        None => {},
    }
    let message = if cursor {
        duplicates_of_cursor_empty_message(empty, scene.scan_id)
    } else {
        group_files_empty_message(empty).to_string()
    };
    render_view_fallback(canvas, area, border, scene.index, view, message.as_str());
    assert(canvas@ =~= before + watch_widgets(area, view, start, scene@));
}

/// One row of a panel of entries; cross-panel matches are black on yellow.
pub open spec fn panel_row(
    e: EntryModel,
    marks: Map<PathKey, Mark>,
    scene: SceneModel,
    width: u16,
    date: Seq<char>,
) -> RowModel {
    let status = if e.kind == EntryKind::File {
        status_in(scene.dedup, e.path)
    } else {
        DedupStatus::NotInScan
    };
    let mark = if marks.dom().contains(e.path.key()) {
        Some(marks[e.path.key()])
    } else {
        None
    };
    let is_cross = match entry_key(scene.dedup, e) {
        Some(key) => scene.cross.contains(key),
        None => false,
    };
    let compare = match scene.compare_peer {
        Some(peer) => Some(comparison(e, peer, scene.dedup)),
        None => None,
    };
    let line = entry_row(
        e,
        width,
        status,
        mark,
        is_cross,
        known_size(e.path, scene),
        compare,
        if e.mtime > 0 {
            date
        } else {
            Seq::empty()
        },
    );
    RowModel {
        lines: seq![line],
        style: if is_cross {
            Style {
                fg: Some(Color::Black),
                bg: Some(Color::Yellow),
                bold: false,
                dim: false,
                reversed: false,
            }
        } else {
            crate::canvas::plain_style()
        },
    }
}

/// A directory's size: what was measured in the background takes priority over the scan.
pub open spec fn known_size(path: PathView, scene: SceneModel) -> Option<u64> {
    if scene.dir_sizes.dom().contains(path.key()) {
        Some(scene.dir_sizes[path.key()])
    } else {
        match scene.dedup {
            Some(d) => d.spec_dir_size(path),
            None => None,
        }
    }
}

fn row_for(entry: &PanelEntry, panel: &Panel, scene: &Scene, width: u16, date: &str) -> (r: Row)
    ensures
        r@ == panel_row(entry@, panel@.marks, scene@, width, date@),
{
    let status = match entry.kind {
        EntryKind::File => status_of(scene.dedup, &entry.path),
        _ => DedupStatus::NotInScan,
    };
    let mark: Option<Mark> = panel.mark_on(&entry.path);
    let is_cross = match match_key(scene.dedup, entry) {
        Some(key) => holds_key(scene.cross, &key),
        None => false,
    };
    let dir_size: Option<u64> = match scene.dir_sizes.get(&entry.path) {
        Some(size) => Some(*size),
        None => match scene.dedup {
            Some(d) => d.dir_size(&entry.path),
            None => None,
        },
    };
    let compare_mark: Option<(char, Color)> = match scene.compare_peer {
        Some(peer) => Some(compare_glyph(entry, peer, scene.dedup)),
        None => None,
    };
    let line = entry_line(
        entry,
        width,
        status,
        mark,
        is_cross,
        dir_size,
        compare_mark,
        if entry.mtime > 0 {
            date
        } else {
            ""
        },
    );
    proof {
        reveal_strlit("");
        assert(""@ =~= Seq::<char>::empty());
    }
    let row = Row::of(line);
    if is_cross {
        row.over(Style::color(Color::Black).on(Color::Yellow))
    } else {
        row
    }
}

/// Width inside a border.
pub open spec fn inner_width(area: Rect) -> u16 {
    if area.width >= 2 {
        (area.width - 2) as u16
    } else {
        0
    }
}

/// The rows of the visible window of entries, each with its date.
pub open spec fn panel_rows(
    p: PanelModel,
    scene: SceneModel,
    from: int,
    to: int,
    width: u16,
    dates: Seq<Seq<char>>,
) -> Seq<RowModel> {
    Seq::new(
        (to - from) as nat,
        |i: int| panel_row(p.entries[from + i], p.marks, scene, width, dates[i]),
    )
}

/// A panel's views whose rows come from its entries.
pub open spec fn shows_entries(view: PanelView) -> bool {
    view == PanelView::Files || view == PanelView::DirsOnly
}

/// Where the visible window of a panel's entries begins.
pub open spec fn entries_begin(area: Rect, p: PanelModel) -> int {
    crate::canvas::window_begin(p.list, p.entries.len() as int, crate::browser::inner_rows(area))
}

/// Where the visible window of a panel's entries ends.
pub open spec fn entries_end(area: Rect, p: PanelModel) -> int {
    crate::canvas::window_end(p.list, p.entries.len() as int, crate::browser::inner_rows(area))
}

/// The widgets of a panel of entries.
pub open spec fn entries_widget(
    area: Rect,
    p: PanelModel,
    scene: SceneModel,
    dates: Seq<Seq<char>>,
) -> WidgetModel {
    let rows = crate::browser::inner_rows(area);
    let total = p.entries.len() as int;
    WidgetModel::List {
        area,
        rows: panel_rows(
            p,
            scene,
            entries_begin(area, p),
            entries_end(area, p),
            inner_width(area),
            dates,
        ),
        state: ListState {
            selected: crate::canvas::window_mark(p.list, total, rows),
            offset: 0,
        },
        frame: Some(
            FrameModel {
                title: panel_title(p, scene, area.width),
                border: border_look(scene.focused),
            },
        ),
        pointer: false,
        highlight: crate::canvas::reversed_style(),
    }
}

/// Everything a panel puts on the screen. `dates` are those of the entries in the window.
pub open spec fn panel_widgets(
    area: Rect,
    p: PanelModel,
    scene: SceneModel,
    dates: Seq<Seq<char>>,
) -> Seq<WidgetModel> {
    let border = border_look(scene.focused);
    let silent = |message: Seq<char>| seq![fallback(area, border, scene.index, p.view, message)];
    if p.loading {
        seq![
            WidgetModel::Text {
                area,
                lines: seq![crate::canvas::text_line("  loading…"@)],
                style: crate::canvas::colored(Color::DarkGray),
                frame: Some(FrameModel { title: panel_title(p, scene, area.width), border }),
                wrap: false,
                centered: false,
            },
        ]
    } else {
        match p.view {
            PanelView::Files => seq![entries_widget(area, p, scene, dates)],
            PanelView::DirsOnly => seq![entries_widget(area, p, scene, dates)],
            PanelView::GroupList => if scene.group_summaries.len() == 0 {
                silent("no scan data — run a scan (F2)"@)
            } else {
                seq![
                    crate::browser::group_list(
                        area,
                        scene.group_summaries,
                        p.list,
                        scene.focused,
                        crate::canvas::text_line(
                            mode_title(scene.index, "groups (by savings)"@),
                        ),
                    ),
                ]
            },
            PanelView::GroupFiles => watch_widgets(area, p.view, p.list, scene),
            PanelView::DuplicatesOfCursor => watch_widgets(area, p.view, p.list, scene),
            PanelView::DirGroupList => match scene.dir_groups_error {
                Some(error) => silent(
                    "directory groups unavailable: "@ + crate::text::escaped(error),
                ),
                None => if scene.dir_groups.len() == 0 {
                    silent("no directory groups — run a scan (F2)"@)
                } else {
                    seq![
                        crate::browser::text_list(
                            area,
                            crate::browser::dir_summary_texts(scene.dir_groups),
                            p.list,
                            FrameModel {
                                title: crate::canvas::text_line(
                                    mode_title(scene.index, "directory groups (by savings)"@),
                                ),
                                border: crate::browser::focus_look(scene.focused),
                            },
                        ),
                    ]
                },
            },
            PanelView::DirGroupFiles => match scene.source_dir_group {
                Some(open) => seq![dir_answer(area, open, p.list, scene, "directories of group"@)],
                None => silent("no source — need a «directory groups» panel on the left"@),
            },
        }
    }
}

/// How a panel's list is left after drawing: the window follows the cursor.
pub open spec fn panel_drawn(area: Rect, p: PanelModel, scene: SceneModel) -> PanelModel {
    let list = if p.loading {
        p.list
    } else {
        match p.view {
            PanelView::Files => crate::canvas::window_placed(
                p.list,
                p.entries.len() as int,
                crate::browser::inner_rows(area),
            ),
            PanelView::DirsOnly => crate::canvas::window_placed(
                p.list,
                p.entries.len() as int,
                crate::browser::inner_rows(area),
            ),
            PanelView::GroupList => if scene.group_summaries.len() == 0 {
                p.list
            } else {
                crate::canvas::window_placed(
                    p.list,
                    scene.group_summaries.len() as int,
                    crate::browser::fitting_groups(area),
                )
            },
            PanelView::GroupFiles => watch_drawn(area, p.list, scene),
            PanelView::DuplicatesOfCursor => watch_drawn(area, p.list, scene),
            PanelView::DirGroupList => if scene.dir_groups_error is Some || scene.dir_groups.len()
                == 0 {
                p.list
            } else {
                crate::canvas::window_placed(
                    p.list,
                    scene.dir_groups.len() as int,
                    crate::browser::inner_rows(area),
                )
            },
            PanelView::DirGroupFiles => p.list,
        }
    };
    PanelModel { list, ..p }
}

/// Draws a panel of entries: only the visible ones are formatted.
fn put_entries(
    canvas: &mut Canvas,
    area: Rect,
    panel: &mut Panel,
    scene: &Scene,
    dates: &Vec<String>,
)
    requires
        scene.index < usize::MAX,
        dates@.len() >= entries_end(area, old(panel)@) - entries_begin(area, old(panel)@),
    ensures
        final(canvas).area == old(canvas).area,
        final(canvas)@ == old(canvas)@.push(
            entries_widget(
                area,
                old(panel)@,
                scene@,
                crate::browser::strings_model(dates@),
            ),
        ),
        final(panel)@ == (PanelModel {
            list: crate::canvas::window_placed(
                old(panel)@.list,
                old(panel)@.entries.len() as int,
                crate::browser::inner_rows(area),
            ),
            ..old(panel)@
        }),
{
    let ghost p = panel@;
    let ghost days = crate::browser::strings_model(dates@);
    let title = title_line(panel, scene, area.width);
    let width: u16 = area.width.saturating_sub(2);
    let rows: usize = (area.height as usize).saturating_sub(2);
    let total: usize = panel.entries.len();
    let (start, local_sel) = visible_window(&mut panel.list, total, rows);
    let end: usize = if total - start < rows {
        total
    } else {
        start + rows
    };
    let ghost window = panel_rows(p, scene@, start as int, end as int, width, days);
    let mut items = no_rows();
    let mut i: usize = start;
    assert(crate::canvas::rows_model(items@) =~= window.take(0));
    while i < end
        invariant
            start <= i <= end <= panel.entries@.len(),
            dates@.len() >= end - start,
            panel@.entries == p.entries,
            panel@.marks == p.marks,
            days == crate::browser::strings_model(dates@),
            window == panel_rows(p, scene@, start as int, end as int, width, days),
            crate::canvas::rows_model(items@) == window.take(i - start),
        decreases end - i,
    {
        assert(days[i - start] == dates@[i - start]@);
        assert(panel.entries@[i as int]@ == p.entries[i as int]);
        push_row(
            &mut items,
            row_for(&panel.entries[i], panel, scene, width, dates[i - start].as_str()),
        );
        assert(window.take(i - start).push(window[i - start]) =~= window.take(i + 1 - start));
        i = i + 1;
    }
    assert(window.take(end - start) =~= window);
    canvas.put(
        Widget::List {
            area,
            rows: items,
            state: ListState { selected: local_sel, offset: 0 },
            frame: Some(Frame { title, border: border_style(scene.focused) }),
            pointer: false,
            highlight: Style::swapped(),
        },
    );
}

/// Draws a panel; `dates` are those of the entries in the visible window.
#[verifier::rlimit(40)]
pub fn render_panel_dated(
    canvas: &mut Canvas,
    area: Rect,
    panel: &mut Panel,
    scene: &Scene,
    dates: &Vec<String>,
)
    requires
        crate::layout::bounded(area),
        scene.index < usize::MAX,
        dates@.len() >= entries_end(area, old(panel)@) - entries_begin(area, old(panel)@),
    ensures
        final(canvas).area == old(canvas).area,
        final(canvas)@ == old(canvas)@ + panel_widgets(
            area,
            old(panel)@,
            scene@,
            crate::browser::strings_model(dates@),
        ),
        final(panel)@ == panel_drawn(area, old(panel)@, scene@),
{
    let ghost before = canvas@;
    let ghost p = panel@;
    let ghost days = crate::browser::strings_model(dates@);
    let border = border_style(scene.focused);
    if panel.loading {
        let title = title_line(panel, scene, area.width);
        let mut lines = no_lines();
        push_line(&mut lines, Line::fixed("  loading…"));
        assert(crate::canvas::lines_model(lines@) =~= seq![
            crate::canvas::text_line("  loading…"@),
        ]);
        canvas.put(
            Widget::Text {
                area,
                lines,
                style: Style::color(Color::DarkGray),
                frame: Some(Frame { title, border }),
                wrap: false,
                centered: false,
            },
        );
        assert(canvas@ =~= before + panel_widgets(area, p, scene@, days));
        return;
    }
    match panel.view {
        PanelView::Files => {
            put_entries(canvas, area, panel, scene, dates);
            assert(canvas@ =~= before + panel_widgets(area, p, scene@, days));
        },
        PanelView::DirsOnly => {
            put_entries(canvas, area, panel, scene, dates);
            assert(canvas@ =~= before + panel_widgets(area, p, scene@, days));
        },
        PanelView::GroupList => {
            if scene.group_summaries.len() == 0 {
                render_view_fallback(
                    canvas,
                    area,
                    border,
                    scene.index,
                    panel.view,
                    "no scan data — run a scan (F2)",
                );
            } else {
                let title = titled(scene.index, "groups (by savings)");
                render_group_list(
                    canvas,
                    area,
                    scene.group_summaries.as_slice(),
                    &mut panel.list,
                    scene.focused,
                    Line::text(title),
                );
            }
            assert(canvas@ =~= before + panel_widgets(area, p, scene@, days));
        },
        PanelView::GroupFiles => {
            let view = panel.view;
            put_watch(canvas, area, view, &mut panel.list, scene);
        },
        PanelView::DuplicatesOfCursor => {
            let view = panel.view;
            put_watch(canvas, area, view, &mut panel.list, scene);
        },
        PanelView::DirGroupList => {
            match scene.dir_groups_error {
                Some(error) => {
                    let mut message = "directory groups unavailable: ".to_string();
                    message.push_str(terminal(error).as_str());
                    render_view_fallback(
                        canvas,
                        area,
                        border,
                        scene.index,
                        panel.view,
                        message.as_str(),
                    );
                },
                None => {
                    if scene.dir_groups.len() == 0 {
                        render_view_fallback(
                            canvas,
                            area,
                            border,
                            scene.index,
                            panel.view,
                            "no directory groups — run a scan (F2)",
                        );
                    } else {
                        let title = titled(scene.index, "directory groups (by savings)");
                        render_dir_group_summary_list(
                            canvas,
                            area,
                            scene.dir_groups.as_slice(),
                            &mut panel.list,
                            scene.focused,
                            Line::text(title),
                        );
                    }
                },
            }
            assert(canvas@ =~= before + panel_widgets(area, p, scene@, days));
        },
        PanelView::DirGroupFiles => {
            match scene.source_dir_group {
                Some(open) => {
                    put_dir_answer(
                        canvas,
                        area,
                        open,
                        &panel.list,
                        scene,
                        "directories of group",
                    );
                },
                None => {
                    render_view_fallback(
                        canvas,
                        area,
                        border,
                        scene.index,
                        panel.view,
                        "no source — need a «directory groups» panel on the left",
                    );
                },
            }
            assert(canvas@ =~= before + panel_widgets(area, p, scene@, days));
        },
    }
}

/// A text that `short_date` may give for a moment.
pub open spec fn dated(mtime: i64, date: Seq<char>) -> bool {
    exists|r: String| r@ == date && #[trigger] call_ensures(short_date, (mtime,), r)
}

/// Whatever the machine's time zone, a date on screen is written in numbers and drives no
/// terminal.
pub proof fn law_a_shown_date_is_inert(mtime: i64, date: Seq<char>)
    requires
        dated(mtime, date),
    ensures
        crate::moments::numeric_date(date),
        crate::text::inert(date),
        crate::moments::four_digit_year(mtime) ==> crate::moments::calendar_day(date),
{
    crate::moments::law_a_numeric_date_is_inert(date);
}

/// Dates of the entries in the visible window, each of its own entry.
pub open spec fn window_dated(area: Rect, p: PanelModel, dates: Seq<Seq<char>>) -> bool {
    &&& dates.len() == entries_end(area, p) - entries_begin(area, p)
    &&& forall|i: int|
        0 <= i < dates.len() ==> dated(
            p.entries[entries_begin(area, p) + i].mtime,
            #[trigger] dates[i],
        )
}

/// The date of a moment, as `short_date` gives it.
pub(crate) fn date_of(mtime: i64) -> (r: String)
    ensures
        dated(mtime, r@),
{
    let written = short_date;
    let r = written(mtime);
    assert(call_ensures(short_date, (mtime,), r));
    r
}

/// The dates of the entries in the visible window, in the machine's time zone.
fn window_dates(area: Rect, panel: &Panel) -> (r: Vec<String>)
    ensures
        window_dated(area, panel@, crate::browser::strings_model(r@)),
{
    let rows: usize = (area.height as usize).saturating_sub(2);
    let total: usize = panel.entries.len();
    let mut list = panel.list;
    let (start, _) = visible_window(&mut list, total, rows);
    let end: usize = if total - start < rows {
        total
    } else {
        start + rows
    };
    let mut dates: Vec<String> = Vec::new();
    let mut i: usize = start;
    while i < end
        invariant
            start <= i <= end <= panel.entries@.len(),
            dates@.len() == i - start,
            forall|k: int|
                0 <= k < dates@.len() ==> dated(
                    panel.entries@[start + k].mtime,
                    (#[trigger] dates@[k])@,
                ),
        decreases end - i,
    {
        dates.push(date_of(panel.entries[i].mtime));
        i = i + 1;
    }
    proof {
        assert forall|k: int| 0 <= k < dates@.len() implies dated(
            panel@.entries[entries_begin(area, panel@) + k].mtime,
            #[trigger] crate::browser::strings_model(dates@)[k],
        ) by {
            assert(panel@.entries[start + k] == panel.entries@[start + k]@);
            assert(dated(panel.entries@[start + k].mtime, dates@[k]@));
        }
    }
    dates
}

/// Draws panel `panel` in area `area`.
pub fn render_panel(canvas: &mut Canvas, area: Rect, panel: &mut Panel, scene: &Scene)
    requires
        crate::layout::bounded(area),
        scene.index < usize::MAX,
    ensures
        final(canvas).area == old(canvas).area,
        exists|dates: Seq<Seq<char>>|
            window_dated(area, old(panel)@, dates) && final(canvas)@ == old(canvas)@
                + #[trigger] panel_widgets(area, old(panel)@, scene@, dates),
        final(panel)@ == panel_drawn(area, old(panel)@, scene@),
{
    let dates = window_dates(area, panel);
    render_panel_dated(canvas, area, panel, scene, &dates);
}

/// The characters of several spans.
pub open spec fn spans_width(spans: Seq<crate::canvas::SpanModel>) -> nat
    decreases spans.len(),
{
    if spans.len() == 0 {
        0
    } else {
        spans_width(spans.drop_last()) + spans.last().text.len()
    }
}

proof fn lemma_one_more_span(line: LineModel, text: Seq<char>, style: Style)
    ensures
        spans_width(line.with(text, style).spans) == spans_width(line.spans) + text.len(),
{
    assert(line.with(text, style).spans.drop_last() =~= line.spans);
}

/// A row's columns line up whatever stands in them: with a size and a date that fit theirs, every
/// row of a panel is as wide as the panel, and no narrower than its fixed columns and a name of
/// four.
pub proof fn law_rows_fill_the_panel(
    e: EntryModel,
    width: u16,
    status: DedupStatus,
    mark: Option<Mark>,
    is_cross: bool,
    dir_size: Option<u64>,
    compare: Option<(char, Color)>,
    date: Seq<char>,
)
    requires
        size_shown(e, dir_size).len() <= 10,
        date.len() <= 10,
    ensures
        spans_width(
            entry_row(e, width, status, mark, is_cross, dir_size, compare, date).spans,
        ) == name_width(width, compare is Some) + (if compare is Some {
            34int
        } else {
            32int
        }),
{
    reveal_strlit(" ");
    let plain = crate::canvas::plain_style();
    let room = name_width(width, compare is Some);
    let name = crate::text::fitted(crate::text::escaped(name_columns(e).0), room);
    let extension = crate::text::fitted(crate::text::escaped(name_columns(e).1), 5);
    crate::text::law_cuts_respect_the_width(crate::text::escaped(name_columns(e).0), room);
    crate::text::law_cuts_respect_the_width(crate::text::escaped(name_columns(e).1), 5);
    assert forall|line: LineModel, text: Seq<char>, style: Style|
        spans_width(#[trigger] line.with(text, style).spans) == spans_width(line.spans)
            + text.len() by {
        lemma_one_more_span(line, text, style);
    }
    assert(spans_width(crate::canvas::blank_line().spans) == 0);
}

/// A size below 2^53 bytes fits its column.
pub proof fn law_a_size_fits_its_column(bytes: nat)
    requires
        bytes < 0x20_0000_0000_0000,
    ensures
        size_columns(bytes).len() == 10,
{
    reveal_strlit(" ");
    reveal_strlit("B");
    reveal_strlit("KiB");
    reveal_strlit("MiB");
    reveal_strlit("GiB");
    reveal_strlit("TiB");
    crate::units::lemma_size_number_is_short(bytes);
}

/// Every row of a panel is as wide as the panel: the sizes it shows are below 2^53 bytes, and its
/// date is one of a year of four digits.
pub proof fn law_every_row_fills_the_panel(
    e: EntryModel,
    width: u16,
    status: DedupStatus,
    mark: Option<Mark>,
    is_cross: bool,
    dir_size: Option<u64>,
    compare: Option<(char, Color)>,
    date: Seq<char>,
)
    requires
        e.kind is File ==> e.size < 0x20_0000_0000_0000,
        e.kind is Dir ==> (dir_size matches Some(bytes) ==> bytes < 0x20_0000_0000_0000),
        crate::moments::four_digit_year(e.mtime),
        dated(e.mtime, date),
    ensures
        spans_width(
            entry_row(e, width, status, mark, is_cross, dir_size, compare, date).spans,
        ) == name_width(width, compare is Some) + (if compare is Some {
            34int
        } else {
            32int
        }),
{
    reveal_strlit("<DIR>");
    law_a_shown_date_is_inert(e.mtime, date);
    match e.kind {
        EntryKind::Parent => {},
        EntryKind::Dir => {
            if let Some(bytes) = dir_size {
                law_a_size_fits_its_column(bytes as nat);
            }
        },
        EntryKind::File => law_a_size_fits_its_column(e.size as nat),
    }
    law_rows_fill_the_panel(e, width, status, mark, is_cross, dir_size, compare, date);
}

} // verus!
