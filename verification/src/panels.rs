//! A panel: an independent navigator over one directory.

use vstd::prelude::*;

use crate::assoc::Assoc;
use crate::canvas::ListState;
use crate::entries::{
    sort_entries, EntryKind, EntryModel, Mark, PanelEntry, PanelView, SortKey,
};
use crate::path::{FilePath, PathKey, PathView};
use crate::text::decode_lossy;

verus! {

/// A single panel — an independent navigator over the real filesystem.
#[derive(Debug, Clone)]
pub struct Panel {
    pub cwd: FilePath,
    pub entries: Vec<PanelEntry>,
    pub list: ListState,
    /// File marks by absolute path — survive moving to another directory.
    pub marks: Assoc<FilePath, Mark>,
    /// Directory is being read in the background.
    pub loading: bool,
    /// Navigation counter: a background result with a stale `generation` is discarded.
    pub generation: u64,
    /// Sort key for panel entries.
    pub sort: SortKey,
    /// Panel view mode — what it shows.
    pub view: PanelView,
}

/// The content of a panel.
#[verifier::ext_equal]
pub struct PanelModel {
    pub cwd: PathView,
    pub entries: Seq<EntryModel>,
    pub list: ListState,
    pub marks: Map<PathKey, Mark>,
    pub loading: bool,
    pub generation: u64,
    pub sort: SortKey,
    pub view: PanelView,
}

impl View for Panel {
    type V = PanelModel;

    open spec fn view(&self) -> PanelModel {
        PanelModel {
            cwd: self.cwd@,
            entries: crate::entries::entries_model(self.entries@),
            list: self.list,
            marks: self.marks@,
            loading: self.loading,
            generation: self.generation,
            sort: self.sort,
            view: self.view,
        }
    }
}

/// Index held to a list of `len` entries; no index where the list is empty.
pub open spec fn held(index: int, len: int) -> Option<usize> {
    if len <= 0 {
        None
    } else if index < 0 {
        Some(0)
    } else if index >= len {
        Some((len - 1) as usize)
    } else {
        Some(index as usize)
    }
}

impl PanelModel {
    /// Index of the entry under the cursor.
    pub open spec fn cursor(self) -> int {
        match self.list.selected {
            Some(index) => index as int,
            None => 0,
        }
    }

    /// The entry under the cursor.
    pub open spec fn selected(self) -> Option<EntryModel> {
        if self.cursor() < self.entries.len() {
            Some(self.entries[self.cursor()])
        } else {
            None
        }
    }

    /// The panel with its cursor on an index of a list of `len` entries.
    pub open spec fn select_within(self, index: int, len: int) -> PanelModel {
        PanelModel { list: crate::canvas::list_selected(self.list, held(index, len)), ..self }
    }

    /// The panel with its cursor on an index of its entries.
    pub open spec fn select(self, index: int) -> PanelModel {
        self.select_within(index, self.entries.len() as int)
    }

    /// The panel with its cursor moved in a list of `len` entries.
    pub open spec fn move_cursor_within(self, delta: int, len: int) -> PanelModel {
        self.select_within(self.cursor() + delta, len)
    }

    /// The panel with its cursor moved in its entries.
    pub open spec fn move_cursor(self, delta: int) -> PanelModel {
        self.move_cursor_within(delta, self.entries.len() as int)
    }

    /// The mark on a path.
    pub open spec fn mark_on(self, path: PathView) -> Option<Mark> {
        if self.marks.dom().contains(path.key()) {
            Some(self.marks[path.key()])
        } else {
            None
        }
    }
}

/// Index of the first entry with a path, or the number of entries.
pub open spec fn position_of(entries: Seq<EntryModel>, path: PathView) -> int
    decreases entries.len(),
{
    if entries.len() == 0 {
        0
    } else if entries[0].path.key() == path.key() {
        0
    } else {
        1 + position_of(entries.drop_first(), path)
    }
}

/// The first entry with a path is where the search says.
pub proof fn lemma_position_is(entries: Seq<EntryModel>, path: PathView, at: int)
    requires
        0 <= at <= entries.len(),
        at < entries.len() ==> entries[at].path.key() == path.key(),
        forall|i: int| 0 <= i < at ==> (#[trigger] entries[i]).path.key() != path.key(),
    ensures
        position_of(entries, path) == at,
    decreases entries.len(),
{
    if entries.len() > 0 && at > 0 {
        assert(entries[0].path.key() != path.key());
        let rest = entries.drop_first();
        assert forall|i: int| 0 <= i < at - 1 implies (#[trigger] rest[i]).path.key() != path.key() by {
            assert(rest[i] == entries[i + 1]);
        }
        lemma_position_is(rest, path, at - 1);
    }
}

/// Index of the first entry with a path.
pub fn find_path(entries: &Vec<PanelEntry>, path: &FilePath) -> (r: Option<usize>)
    ensures
        r is Some <==> position_of(crate::entries::entries_model(entries@), path@) < entries@.len(),
        r matches Some(at) ==> at == position_of(
            crate::entries::entries_model(entries@),
            path@,
        ),
{
    let ghost model = crate::entries::entries_model(entries@);
    let mut i: usize = 0;
    while i < entries.len()
        invariant
            i <= entries@.len(),
            model == crate::entries::entries_model(entries@),
            forall|k: int| 0 <= k < i ==> (#[trigger] model[k]).path.key() != path@.key(),
        decreases entries@.len() - i,
    {
        if entries[i].path.same(path) {
            proof {
                lemma_position_is(model, path@, i as int);
            }
            return Some(i);
        }
        i = i + 1;
    }
    proof {
        lemma_position_is(model, path@, i as int);
    }
    None
}

/// Where the cursor goes back to: the entry it was on, or the top.
pub open spec fn landing(entries: Seq<EntryModel>, previous: Option<PathView>) -> int {
    match previous {
        Some(path) => if position_of(entries, path) < entries.len() {
            position_of(entries, path)
        } else {
            0
        },
        None => 0,
    }
}

/// The content of a path that may be absent.
pub open spec fn path_model(path: Option<FilePath>) -> Option<PathView> {
    match path {
        Some(p) => Some(p@),
        None => None,
    }
}

/// The entries that can be entered.
pub open spec fn only_dirs(entries: Seq<EntryModel>) -> Seq<EntryModel>
    decreases entries.len(),
{
    if entries.len() == 0 {
        Seq::empty()
    } else if entries.last().is_dir() {
        only_dirs(entries.drop_last()).push(entries.last())
    } else {
        only_dirs(entries.drop_last())
    }
}

fn keep_dirs(entries: &Vec<PanelEntry>) -> (r: Vec<PanelEntry>)
    ensures
        crate::entries::entries_model(r@) == only_dirs(crate::entries::entries_model(entries@)),
{
    let ghost model = crate::entries::entries_model(entries@);
    let mut out: Vec<PanelEntry> = Vec::new();
    let mut i: usize = 0;
    assert(crate::entries::entries_model(out@) =~= only_dirs(model.take(0)));
    while i < entries.len()
        invariant
            i <= entries@.len(),
            model == crate::entries::entries_model(entries@),
            crate::entries::entries_model(out@) == only_dirs(model.take(i as int)),
        decreases entries@.len() - i,
    {
        proof {
            assert(model.take(i as int + 1).drop_last() =~= model.take(i as int));
        }
        let ghost before = crate::entries::entries_model(out@);
        if entries[i].is_dir() {
            out.push(entries[i].copy());
            assert(crate::entries::entries_model(out@) =~= before.push(model[i as int]));
        }
        i = i + 1;
    }
    assert(model.take(entries@.len() as int) =~= model);
    out
}

/// The panel once its directory has been read.
pub open spec fn loaded(p: PanelModel, entries: Seq<EntryModel>, previous: Option<PathView>) -> PanelModel {
    let kept = if p.view == PanelView::DirsOnly {
        only_dirs(entries)
    } else {
        entries
    };
    let sorted = crate::entries::sorted_list(kept, p.sort);
    PanelModel { entries: sorted, loading: false, ..p }.select(landing(sorted, previous))
}

/// The panel after an answer from the background reader: a stale answer changes nothing.
pub open spec fn panel_load(
    p: PanelModel,
    generation: u64,
    entries: Seq<EntryModel>,
    previous: Option<PathView>,
) -> PanelModel {
    if p.generation != generation {
        p
    } else {
        loaded(p, entries, previous)
    }
}

/// Applies the result of a background directory load to panel `p`: checks `generation` (a stale
/// response is discarded), the DirsOnly mode filter, sorting, and restoring the cursor to
/// `previous`.
pub fn apply_panel_load(
    p: &mut Panel,
    generation: u64,
    entries: Vec<PanelEntry>,
    previous: Option<FilePath>,
)
    ensures
        final(p)@ == panel_load(
            old(p)@,
            generation,
            crate::entries::entries_model(entries@),
            path_model(previous),
        ),
{
    if p.generation != generation {
        return ;
    }
    if p.view == PanelView::DirsOnly {
        p.entries = keep_dirs(&entries);
    } else {
        p.entries = entries;
    }
    sort_entries(&mut p.entries, p.sort);
    p.loading = false;
    let index: usize = match previous {
        Some(path) => match find_path(&p.entries, &path) {
            Some(at) => at,
            None => 0,
        },
        None => 0,
    };
    p.select(index);
}

/// A stale answer never touches the panel, and whatever arrives the cursor lies on an entry or,
/// where there are none, nowhere.
pub proof fn law_a_load_leaves_the_cursor_inside(
    p: PanelModel,
    generation: u64,
    entries: Seq<EntryModel>,
    previous: Option<PathView>,
)
    requires
        entries.len() <= usize::MAX,
    ensures
        generation != p.generation ==> panel_load(p, generation, entries, previous) == p,
        generation == p.generation ==> {
            let after = panel_load(p, generation, entries, previous);
            &&& !after.loading
            &&& after.entries.len() == 0 <==> after.list.selected is None
            &&& after.list.selected matches Some(at) ==> at < after.entries.len()
        },
{
    if generation == p.generation {
        let kept = if p.view == PanelView::DirsOnly {
            only_dirs(entries)
        } else {
            entries
        };
        lemma_only_dirs_is_shorter(entries);
        crate::entries::lemma_sorted_list_exists(kept, p.sort);
    }
}

proof fn lemma_only_dirs_is_shorter(entries: Seq<EntryModel>)
    ensures
        only_dirs(entries).len() <= entries.len(),
    decreases entries.len(),
{
    if entries.len() > 0 {
        lemma_only_dirs_is_shorter(entries.drop_last());
    }
}

impl Panel {
    /// Creates an empty panel with `cwd = start` and `loading = true`; the content is filled by
    /// the background reader.
    pub fn empty(start: FilePath) -> (r: Panel)
        ensures
            r@ == empty_panel(start@),
    {
        let r = Panel {
            cwd: start,
            entries: Vec::new(),
            list: ListState::new(),
            marks: Assoc::new(),
            loading: true,
            generation: 0,
            sort: SortKey::Name,
            view: PanelView::Files,
        };
        assert(r@.entries =~= Seq::<EntryModel>::empty());
        r
    }

    /// Creates a panel in directory `start`, or in the root where `start` cannot be listed or has
    /// nothing in it. What was found in the two directories is handed in; `None` stands for what
    /// is not a directory.
    pub fn new(
        start: FilePath,
        found: Option<Vec<RawEntry>>,
        root_found: Option<Vec<RawEntry>>,
    ) -> (r: Panel)
        ensures
            r@ == new_panel(start@, found, root_found),
    {
        let mut panel = Panel::empty(FilePath::root());
        if let Some(found) = found {
            panel.load_sync(start, found);
        }
        if panel.entries.len() == 0 {
            if let Some(found) = root_found {
                panel.load_sync(FilePath::root(), found);
            }
        }
        panel
    }

    /// Shows directory `target`, in which `found` was found; the cursor goes to where the panel
    /// came from.
    pub fn load_sync(&mut self, target: FilePath, found: Vec<RawEntry>)
        ensures
            final(self)@ == listed(old(self)@, target@, found@),
    {
        self.entries = read_panel_dir(&target, &found);
        sort_entries(&mut self.entries, self.sort);
        let index: usize = match find_path(&self.entries, &self.cwd) {
            Some(at) => at,
            None => 0,
        };
        self.cwd = target;
        self.select(index);
        self.loading = false;
    }

    /// Index of the current entry under the cursor.
    pub fn cursor(&self) -> (r: usize)
        ensures
            r == self@.cursor(),
    {
        match self.list.selected {
            Some(index) => index,
            None => 0,
        }
    }

    /// The entry under the cursor.
    pub fn selected(&self) -> (r: Option<&PanelEntry>)
        ensures
            r is Some <==> self@.selected() is Some,
            r matches Some(entry) ==> Some(entry@) == self@.selected(),
    {
        let at: usize = self.cursor();
        if at < self.entries.len() {
            Some(&self.entries[at])
        } else {
            None
        }
    }

    /// Moves the cursor by `delta` within the entry list.
    pub fn move_cursor(&mut self, delta: i32)
        ensures
            final(self)@ == old(self)@.move_cursor(delta as int),
    {
        let len: usize = self.entries.len();
        self.move_cursor_within(delta, len);
    }

    /// Moves the cursor by `delta` in a list of length `len` (panel modes may show a list of a
    /// different length than `entries`).
    pub fn move_cursor_within(&mut self, delta: i32, len: usize)
        ensures
            final(self)@ == old(self)@.move_cursor_within(delta as int, len as int),
    {
        let next: i128 = self.cursor() as i128 + delta as i128;
        if len == 0 {
            self.list.select(None);
        } else if next < 0 {
            self.list.select(Some(0));
        } else if next >= len as i128 {
            self.list.select(Some(len - 1));
        } else {
            self.list.select(Some(next as usize));
        }
    }

    /// Places the cursor on the entry at index `index`.
    pub fn select(&mut self, index: usize)
        ensures
            final(self)@ == old(self)@.select(index as int),
    {
        let len: usize = self.entries.len();
        self.select_within(index, len);
    }

    /// Places the cursor on `index` in a list of length `len`.
    pub fn select_within(&mut self, index: usize, len: usize)
        ensures
            final(self)@ == old(self)@.select_within(index as int, len as int),
    {
        if len == 0 {
            self.list.select(None);
        } else if index < len {
            self.list.select(Some(index));
        } else {
            self.list.select(Some(len - 1));
        }
    }

    /// The mark on a path.
    pub fn mark_on(&self, path: &FilePath) -> (r: Option<Mark>)
        ensures
            r == self@.mark_on(path@),
    {
        match self.marks.get(path) {
            Some(mark) => Some(*mark),
            None => None,
        }
    }
}

/// However the cursor is moved, it stays inside the list, and a list without entries has none.
pub proof fn law_the_cursor_stays_inside(p: PanelModel, delta: int, len: int)
    requires
        0 <= len <= usize::MAX,
    ensures
        len == 0 <==> p.move_cursor_within(delta, len).list.selected is None,
        p.move_cursor_within(delta, len).list.selected matches Some(at) ==> at < len,
        0 <= p.cursor() + delta < len ==> p.move_cursor_within(delta, len).cursor() == p.cursor()
            + delta,
{
}

/// A panel without content that waits for its directory.
pub open spec fn empty_panel(start: PathView) -> PanelModel {
    PanelModel {
        cwd: start,
        entries: Seq::empty(),
        list: ListState { selected: None, offset: 0 },
        marks: Map::empty(),
        loading: true,
        generation: 0,
        sort: SortKey::Name,
        view: PanelView::Files,
    }
}

// ---------------------------------------------------------------------------------------------
// Directory listings.
// ---------------------------------------------------------------------------------------------
/// What the file system says of one directory entry: its name, and the fields of its `lstat`.
#[derive(Debug, Clone)]
pub struct RawEntry {
    pub name: Vec<u8>,
    pub mode: u32,
    pub size: u64,
    pub mtime: i64,
    pub device: u64,
    pub inode: u64,
}

/// The file type bits of a mode.
pub const MODE_TYPE: u32 = 0xf000;

/// The file type of a directory.
pub const MODE_DIRECTORY: u32 = 0x4000;

/// The entry of a directory as a panel lists it.
pub open spec fn raw_model(dir: PathView, raw: RawEntry) -> EntryModel {
    EntryModel {
        path: dir.child(raw.name@),
        name: crate::text::lossy_text(raw.name@),
        kind: if raw.mode & MODE_TYPE == MODE_DIRECTORY {
            EntryKind::Dir
        } else {
            EntryKind::File
        },
        size: raw.size,
        mtime: raw.mtime,
        device: raw.device,
        inode: raw.inode,
    }
}

/// The entry that leads up.
pub open spec fn up_entry(parent: PathView) -> EntryModel {
    EntryModel {
        path: parent,
        name: ".."@,
        kind: EntryKind::Parent,
        size: 0,
        mtime: 0,
        device: 0,
        inode: 0,
    }
}

/// What a directory shows before it is put in order: the way up, where there is one, and what was
/// found.
pub open spec fn listing(dir: PathView, found: Seq<RawEntry>) -> Seq<EntryModel> {
    let up = match dir.parent() {
        Some(parent) => seq![up_entry(parent)],
        None => Seq::empty(),
    };
    up + found.map_values(|raw: RawEntry| raw_model(dir, raw))
}

/// The panel showing another directory, the cursor on the directory it came from.
pub open spec fn listed(p: PanelModel, target: PathView, found: Seq<RawEntry>) -> PanelModel {
    let sorted = crate::entries::sorted_list(
        crate::entries::sorted_list(listing(target, found), SortKey::Name),
        p.sort,
    );
    let shown = PanelModel { cwd: target, entries: sorted, ..p }.select(
        landing(sorted, Some(p.cwd)),
    );
    PanelModel { loading: false, ..shown }
}

/// A panel as it is first set up.
pub open spec fn new_panel(
    start: PathView,
    found: Option<Vec<RawEntry>>,
    root_found: Option<Vec<RawEntry>>,
) -> PanelModel {
    let root = crate::path::path_of(seq![47u8]);
    let first = match found {
        Some(f) => listed(empty_panel(root), start, f@),
        None => empty_panel(root),
    };
    if first.entries.len() == 0 {
        match root_found {
            Some(f) => listed(first, root, f@),
            None => first,
        }
    } else {
        first
    }
}

/// The entries of directory `dir`, in which `found` was found: the `..` entry, then directories,
/// then files (alphabetically).
pub fn read_panel_dir(dir: &FilePath, found: &Vec<RawEntry>) -> (r: Vec<PanelEntry>)
    ensures
        crate::entries::entries_model(r@) == crate::entries::sorted_list(
            listing(dir@, found@),
            SortKey::Name,
        ),
{
    let mut out: Vec<PanelEntry> = Vec::new();
    let ghost all = listing(dir@, found@);
    let ghost mut head: Seq<EntryModel> = Seq::empty();
    if let Some(parent) = dir.parent() {
        out.push(
            PanelEntry {
                path: parent,
                name: "..".to_string(),
                kind: EntryKind::Parent,
                size: 0,
                mtime: 0,
                device: 0,
                inode: 0,
            },
        );
        proof {
            head = seq![up_entry(parent@)];
        }
    }
    let ghost tail = found@.map_values(|raw: RawEntry| raw_model(dir@, raw));
    let mut i: usize = 0;
    assert(crate::entries::entries_model(out@) =~= head + tail.take(0));
    while i < found.len()
        invariant
            i <= found@.len(),
            tail == found@.map_values(|raw: RawEntry| raw_model(dir@, raw)),
            crate::entries::entries_model(out@) == head + tail.take(i as int),
        decreases found@.len() - i,
    {
        let raw = &found[i];
        let kind = if raw.mode & MODE_TYPE == MODE_DIRECTORY {
            EntryKind::Dir
        } else {
            EntryKind::File
        };
        let ghost before = crate::entries::entries_model(out@);
        let entry = PanelEntry {
            path: dir.child(&raw.name),
            name: decode_lossy(&raw.name),
            kind,
            size: raw.size,
            mtime: raw.mtime,
            device: raw.device,
            inode: raw.inode,
        };
        assert(entry@ == raw_model(dir@, found@[i as int]));
        out.push(entry);
        assert(crate::entries::entries_model(out@) =~= before.push(tail[i as int]));
        assert(crate::entries::entries_model(out@) =~= head + tail.take(i as int + 1));
        i = i + 1;
    }
    proof {
        assert(tail.take(found@.len() as int) =~= tail);
        assert(head + tail =~= all);
    }
    sort_entries(&mut out, SortKey::Name);
    out
}

} // verus!
