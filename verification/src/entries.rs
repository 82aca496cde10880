//! Directory entries of a panel and the order they are listed in.

use vstd::prelude::*;

use crate::model::ActionKind;
use crate::path::{FilePath, PathView};
use crate::text::chars_of;

verus! {

/// Kind of an entry in a panel.
#[derive(Debug, Clone, Copy, PartialEq, Eq, Structural)]
pub enum EntryKind {
    /// The `..` entry — navigates up to the parent directory.
    Parent,
    Dir,
    File,
}

/// User mark on a file in a panel.
#[derive(Debug, Clone, Copy, PartialEq, Eq, Structural)]
pub enum Mark {
    Selected,
    Keeper,
    Delete,
    Hardlink,
    Reflink,
}

/// Glyph of a mark.
pub open spec fn mark_glyph(mark: Mark) -> char {
    match mark {
        Mark::Selected => '*',
        Mark::Keeper => 'K',
        Mark::Delete => 'D',
        Mark::Hardlink => 'H',
        Mark::Reflink => 'C',
    }
}

/// Action that a mark asks for.
pub open spec fn mark_action(mark: Mark) -> Option<ActionKind> {
    match mark {
        Mark::Delete => Some(ActionKind::Delete),
        Mark::Hardlink => Some(ActionKind::Hardlink),
        Mark::Reflink => Some(ActionKind::Reflink),
        Mark::Selected => None,
        Mark::Keeper => None,
    }
}

impl Mark {
    /// Mark glyph for the panel column.
    pub fn glyph(self) -> (r: char)
        ensures
            r == mark_glyph(self),
    {
        match self {
            Mark::Selected => '*',
            Mark::Keeper => 'K',
            Mark::Delete => 'D',
            Mark::Hardlink => 'H',
            Mark::Reflink => 'C',
        }
    }

    /// Dedup action corresponding to the mark (for F11).
    pub fn action(self) -> (r: Option<ActionKind>)
        ensures
            r == mark_action(self),
    {
        match self {
            Mark::Delete => Some(ActionKind::Delete),
            Mark::Hardlink => Some(ActionKind::Hardlink),
            Mark::Reflink => Some(ActionKind::Reflink),
            Mark::Selected => None,
            Mark::Keeper => None,
        }
    }
}

/// Sort key for panel entries.
#[derive(Debug, Clone, Copy, PartialEq, Eq, Default, Structural)]
pub enum SortKey {
    #[default]
    Name,
    Size,
    Type,
    Date,
}

/// The key after another in the cycle.
pub open spec fn next_sort(key: SortKey) -> SortKey {
    match key {
        SortKey::Name => SortKey::Size,
        SortKey::Size => SortKey::Type,
        SortKey::Type => SortKey::Date,
        SortKey::Date => SortKey::Name,
    }
}

/// Caption of a sort key.
pub open spec fn sort_label(key: SortKey) -> Seq<char> {
    match key {
        SortKey::Name => "name"@,
        SortKey::Size => "size"@,
        SortKey::Type => "type"@,
        SortKey::Date => "date"@,
    }
}

impl SortKey {
    /// Next key in the cycle — for the `s` key.
    pub fn next(self) -> (r: SortKey)
        ensures
            r == next_sort(self),
    {
        match self {
            SortKey::Name => SortKey::Size,
            SortKey::Size => SortKey::Type,
            SortKey::Type => SortKey::Date,
            SortKey::Date => SortKey::Name,
        }
    }

    /// Caption of the key.
    pub fn label(self) -> (r: &'static str)
        ensures
            r@ == sort_label(self),
    {
        match self {
            SortKey::Name => "name",
            SortKey::Size => "size",
            SortKey::Type => "type",
            SortKey::Date => "date",
        }
    }
}

/// Panel view mode — what it shows.
#[derive(Debug, Clone, Copy, PartialEq, Eq, Default, Structural)]
pub enum PanelView {
    /// Files and directories — the ordinary navigator.
    #[default]
    Files,
    /// Directories only.
    DirsOnly,
    /// List of duplicate groups of the loaded scan.
    GroupList,
    /// Files of the group selected in the neighbouring GroupList panel on the left.
    GroupFiles,
    /// Duplicates of the file under the cursor of the source panel.
    DuplicatesOfCursor,
    /// List of duplicate-directory groups.
    DirGroupList,
    /// Directory paths of the group selected in the neighbouring DirGroupList on the left.
    DirGroupFiles,
}

/// The mode after another in the cycle.
pub open spec fn next_view(view: PanelView) -> PanelView {
    match view {
        PanelView::Files => PanelView::DirsOnly,
        PanelView::DirsOnly => PanelView::GroupList,
        PanelView::GroupList => PanelView::GroupFiles,
        PanelView::GroupFiles => PanelView::DuplicatesOfCursor,
        PanelView::DuplicatesOfCursor => PanelView::DirGroupList,
        PanelView::DirGroupList => PanelView::DirGroupFiles,
        PanelView::DirGroupFiles => PanelView::Files,
    }
}

/// Caption of a mode.
pub open spec fn view_label(view: PanelView) -> Seq<char> {
    match view {
        PanelView::Files => "files"@,
        PanelView::DirsOnly => "directories"@,
        PanelView::GroupList => "groups"@,
        PanelView::GroupFiles => "group files"@,
        PanelView::DuplicatesOfCursor => "duplicates"@,
        PanelView::DirGroupList => "directory groups"@,
        PanelView::DirGroupFiles => "group directories"@,
    }
}

impl PanelView {
    /// Next mode in the cycle — for the `v` key.
    pub fn next(self) -> (r: PanelView)
        ensures
            r == next_view(self),
    {
        match self {
            PanelView::Files => PanelView::DirsOnly,
            PanelView::DirsOnly => PanelView::GroupList,
            PanelView::GroupList => PanelView::GroupFiles,
            PanelView::GroupFiles => PanelView::DuplicatesOfCursor,
            PanelView::DuplicatesOfCursor => PanelView::DirGroupList,
            PanelView::DirGroupList => PanelView::DirGroupFiles,
            PanelView::DirGroupFiles => PanelView::Files,
        }
    }

    /// Short mode caption for the panel header.
    pub fn label(self) -> (r: &'static str)
        ensures
            r@ == view_label(self),
    {
        match self {
            PanelView::Files => "files",
            PanelView::DirsOnly => "directories",
            PanelView::GroupList => "groups",
            PanelView::GroupFiles => "group files",
            PanelView::DuplicatesOfCursor => "duplicates",
            PanelView::DirGroupList => "directory groups",
            PanelView::DirGroupFiles => "group directories",
        }
    }
}

/// Pressing the sort key four times, or the view key seven times, ends where it began, and no
/// fewer presses do.
pub proof fn law_the_cycles_come_round(key: SortKey, view: PanelView)
    ensures
        next_sort(next_sort(next_sort(next_sort(key)))) == key,
        next_sort(key) != key,
        next_sort(next_sort(key)) != key,
        next_view(next_view(next_view(next_view(next_view(next_view(next_view(view))))))) == view,
        next_view(view) != view,
{
}

/// A single directory entry.
#[derive(Debug, Clone)]
pub struct PanelEntry {
    pub path: FilePath,
    pub name: String,
    pub kind: EntryKind,
    pub size: u64,
    pub mtime: i64,
    pub device: u64,
    pub inode: u64,
}

/// The content of a directory entry.
#[verifier::ext_equal]
pub struct EntryModel {
    pub path: PathView,
    pub name: Seq<char>,
    pub kind: EntryKind,
    pub size: u64,
    pub mtime: i64,
    pub device: u64,
    pub inode: u64,
}

impl View for PanelEntry {
    type V = EntryModel;

    open spec fn view(&self) -> EntryModel {
        EntryModel {
            path: self.path@,
            name: self.name@,
            kind: self.kind,
            size: self.size,
            mtime: self.mtime,
            device: self.device,
            inode: self.inode,
        }
    }
}

impl EntryModel {
    /// A directory or `..`.
    pub open spec fn is_dir(self) -> bool {
        self.kind == EntryKind::Dir || self.kind == EntryKind::Parent
    }
}

impl PanelEntry {
    /// A directory or `..` — can be entered with Enter.
    pub fn is_dir(&self) -> (r: bool)
        ensures
            r == self@.is_dir(),
    {
        match self.kind {
            EntryKind::Dir => true,
            EntryKind::Parent => true,
            EntryKind::File => false,
        }
    }

    /// The same entry again.
    pub fn copy(&self) -> (r: PanelEntry)
        ensures
            r@ == self@,
    {
        PanelEntry {
            path: self.path.copy(),
            name: self.name.clone(),
            kind: self.kind,
            size: self.size,
            mtime: self.mtime,
            device: self.device,
            inode: self.inode,
        }
    }
}

/// The contents of several entries.
pub open spec fn entries_model(entries: Seq<PanelEntry>) -> Seq<EntryModel> {
    entries.map_values(|e: PanelEntry| e@)
}

// ---------------------------------------------------------------------------------------------
// Order.
// ---------------------------------------------------------------------------------------------
/// How two things stand in an order.
#[derive(Debug, Clone, Copy, PartialEq, Eq, Structural)]
pub enum Standing {
    Before,
    Level,
    After,
}

/// How two texts stand: by their first differing character, the shorter one first.
pub open spec fn text_order(a: Seq<char>, b: Seq<char>) -> Standing
    decreases a.len(),
{
    if a.len() == 0 {
        if b.len() == 0 {
            Standing::Level
        } else {
            Standing::Before
        }
    } else if b.len() == 0 {
        Standing::After
    } else if a[0] < b[0] {
        Standing::Before
    } else if b[0] < a[0] {
        Standing::After
    } else {
        text_order(a.drop_first(), b.drop_first())
    }
}

proof fn lemma_text_order(a: Seq<char>, b: Seq<char>)
    ensures
        text_order(a, b) == Standing::Before <==> text_order(b, a) == Standing::After,
        text_order(a, b) == Standing::After <==> text_order(b, a) == Standing::Before,
        text_order(a, b) == Standing::Level <==> a == b,
    decreases a.len(),
{
    if a.len() > 0 && b.len() > 0 {
        lemma_text_order(a.drop_first(), b.drop_first());
        if a[0] == b[0] && a.drop_first() == b.drop_first() {
            assert(a =~= seq![a[0]] + a.drop_first());
            assert(b =~= seq![b[0]] + b.drop_first());
        }
        if a == b {
            assert(a.drop_first() == b.drop_first());
        }
    } else if a.len() == 0 && b.len() == 0 {
        assert(a =~= b);
    }
}

proof fn lemma_text_order_chains(a: Seq<char>, b: Seq<char>, c: Seq<char>)
    requires
        text_order(a, b) != Standing::After,
        text_order(b, c) != Standing::After,
    ensures
        text_order(a, c) != Standing::After,
        text_order(a, b) == Standing::Before || text_order(b, c) == Standing::Before ==> text_order(
            a,
            c,
        ) == Standing::Before,
    decreases a.len(),
{
    if a.len() > 0 && b.len() > 0 && c.len() > 0 {
        if a[0] == b[0] && b[0] == c[0] {
            lemma_text_order_chains(a.drop_first(), b.drop_first(), c.drop_first());
        }
    }
}

/// Compares two texts character by character.
pub fn order_texts(a: &str, b: &str) -> (r: Standing)
    ensures
        r == text_order(a@, b@),
{
    let x = chars_of(a);
    let y = chars_of(b);
    let mut i: usize = 0;
    assert(x@.skip(0) =~= x@);
    assert(y@.skip(0) =~= y@);
    loop
        invariant
            i <= x@.len(),
            i <= y@.len(),
            text_order(x@.skip(i as int), y@.skip(i as int)) == text_order(x@, y@),
            x@ == a@,
            y@ == b@,
        decreases x@.len() - i,
    {
        if i == x.len() {
            if i == y.len() {
                return Standing::Level;
            } else {
                return Standing::Before;
            }
        }
        if i == y.len() {
            return Standing::After;
        }
        let p = x[i];
        let q = y[i];
        if p < q {
            return Standing::Before;
        }
        if q < p {
            return Standing::After;
        }
        proof {
            assert(x@.skip(i as int).drop_first() =~= x@.skip(i as int + 1));
            assert(y@.skip(i as int).drop_first() =~= y@.skip(i as int + 1));
        }
        i = i + 1;
    }
}

/// Index of the last `.`, or -1.
pub open spec fn last_dot(t: Seq<char>) -> int
    decreases t.len(),
{
    if t.len() == 0 {
        -1
    } else if t.last() == '.' {
        t.len() - 1
    } else {
        last_dot(t.drop_last())
    }
}

/// The last `.` is where the search says.
pub proof fn lemma_last_dot(t: Seq<char>)
    ensures
        -1 <= last_dot(t) < t.len(),
        last_dot(t) >= 0 ==> t[last_dot(t)] == '.',
        forall|i: int| last_dot(t) < i < t.len() ==> t[i] != '.',
    decreases t.len(),
{
    if t.len() > 0 && t.last() != '.' {
        lemma_last_dot(t.drop_last());
        assert forall|i: int| last_dot(t) < i < t.len() implies t[i] != '.' by {
            if i < t.len() - 1 {
                assert(t.drop_last()[i] == t[i]);
            }
        }
    }
}

/// Finds the last `.`: its index and one, or zero.
pub fn find_last_dot(chars: &Vec<char>) -> (r: usize)
    ensures
        r == last_dot(chars@) + 1,
        r <= chars@.len(),
{
    let mut cut: usize = chars.len();
    while cut > 0 && chars[cut - 1] != '.'
        invariant
            cut <= chars@.len(),
            forall|i: int| cut <= i < chars@.len() ==> chars@[i] != '.',
        decreases cut,
    {
        cut = cut - 1;
    }
    proof {
        lemma_last_dot(chars@);
    }
    cut
}

/// A letter of A to Z in lower case, any other character as it is.
pub open spec fn ascii_lower(c: char) -> char {
    if 'A' <= c && c <= 'Z' {
        (c as u32 + 32) as char
    } else {
        c
    }
}

/// The extension of a file name in lower case: what follows its last `.`, unless the name begins
/// with it or is `..`.
pub open spec fn extension_key(name: Seq<char>) -> Seq<char> {
    if last_dot(name) <= 0 || name == seq!['.', '.'] {
        Seq::empty()
    } else {
        name.skip(last_dot(name) + 1).map_values(|c: char| ascii_lower(c))
    }
}

fn lower(c: char) -> (r: char)
    ensures
        r == ascii_lower(c),
{
    if 'A' <= c && c <= 'Z' {
        ((c as u8) + 32u8) as char
    } else {
        c
    }
}

fn extension_of(name: &str) -> (r: String)
    ensures
        r@ == extension_key(name@),
{
    let chars = chars_of(name);
    let dot: usize = find_last_dot(&chars);
    let mut out = String::new();
    if dot <= 1 || (chars.len() == 2 && chars[0] == '.' && chars[1] == '.') {
        proof {
            if chars@.len() == 2 && chars@[0] == '.' && chars@[1] == '.' {
                assert(name@ =~= seq!['.', '.']);
            }
            assert(out@ =~= extension_key(name@));
        }
        return out;
    }
    assert(name@ != seq!['.', '.']) by {
        if name@ == seq!['.', '.'] {
            assert(chars@[0] == '.' && chars@[1] == '.');
        }
    }
    let ghost tail = name@.skip(dot as int).map_values(|c: char| ascii_lower(c));
    let mut i: usize = dot;
    assert(out@ =~= tail.take(0));
    while i < chars.len()
        invariant
            dot <= i <= chars@.len(),
            chars@ == name@,
            tail == name@.skip(dot as int).map_values(|c: char| ascii_lower(c)),
            out@ == tail.take(i - dot),
        decreases chars@.len() - i,
    {
        out.push(lower(chars[i]));
        assert(tail.take(i - dot).push(tail[i - dot]) =~= tail.take(i + 1 - dot));
        i = i + 1;
    }
    assert(tail.take(chars@.len() - dot) =~= tail);
    out
}

/// Rank of an entry kind: `..` above directories, directories above files.
pub open spec fn rank_of(kind: EntryKind) -> int {
    match kind {
        EntryKind::Parent => 0,
        EntryKind::Dir => 1,
        EntryKind::File => 2,
    }
}

/// Rank of an entry kind: `..` (0) above directories (1), directories — above files (2).
pub fn kind_rank(kind: EntryKind) -> (r: u8)
    ensures
        r == rank_of(kind),
{
    match kind {
        EntryKind::Parent => 0,
        EntryKind::Dir => 1,
        EntryKind::File => 2,
    }
}

/// The first standing, or the second where the first is level.
pub open spec fn or_else(first: Standing, second: Standing) -> Standing {
    if first == Standing::Level {
        second
    } else {
        first
    }
}

/// How two numbers stand, the larger first.
pub open spec fn descending(a: int, b: int) -> Standing {
    if a > b {
        Standing::Before
    } else if a < b {
        Standing::After
    } else {
        Standing::Level
    }
}

/// How two entries of one rank stand by a sort key. Size and date in descending order, ties
/// broken by name.
pub open spec fn key_order(a: EntryModel, b: EntryModel, sort: SortKey) -> Standing {
    let by_name = text_order(a.name, b.name);
    match sort {
        SortKey::Name => by_name,
        SortKey::Size => or_else(descending(a.size as int, b.size as int), by_name),
        SortKey::Date => or_else(descending(a.mtime as int, b.mtime as int), by_name),
        SortKey::Type => or_else(
            text_order(extension_key(a.name), extension_key(b.name)),
            by_name,
        ),
    }
}

/// How two entries stand in a panel: by rank, then by the sort key.
pub open spec fn entry_order(a: EntryModel, b: EntryModel, sort: SortKey) -> Standing {
    or_else(descending(rank_of(b.kind), rank_of(a.kind)), key_order(a, b, sort))
}

/// Compares entries of the same rank by the sort key.
pub fn compare_by(a: &PanelEntry, b: &PanelEntry, sort: SortKey) -> (r: Standing)
    ensures
        r == key_order(a@, b@, sort),
{
    match sort {
        SortKey::Name => order_texts(a.name.as_str(), b.name.as_str()),
        SortKey::Size => if a.size > b.size {
            Standing::Before
        } else if a.size < b.size {
            Standing::After
        } else {
            order_texts(a.name.as_str(), b.name.as_str())
        },
        SortKey::Date => if a.mtime > b.mtime {
            Standing::Before
        } else if a.mtime < b.mtime {
            Standing::After
        } else {
            order_texts(a.name.as_str(), b.name.as_str())
        },
        SortKey::Type => {
            let x = extension_of(a.name.as_str());
            let y = extension_of(b.name.as_str());
            match order_texts(x.as_str(), y.as_str()) {
                Standing::Level => order_texts(a.name.as_str(), b.name.as_str()),
                other => other,
            }
        },
    }
}

fn order_entries(a: &PanelEntry, b: &PanelEntry, sort: SortKey) -> (r: Standing)
    ensures
        r == entry_order(a@, b@, sort),
{
    let x: u8 = kind_rank(a.kind);
    let y: u8 = kind_rank(b.kind);
    if x < y {
        Standing::Before
    } else if x > y {
        Standing::After
    } else {
        compare_by(a, b, sort)
    }
}

proof fn lemma_entry_order_chains(a: EntryModel, b: EntryModel, c: EntryModel, sort: SortKey)
    requires
        entry_order(a, b, sort) != Standing::After,
        entry_order(b, c, sort) != Standing::After,
    ensures
        entry_order(a, c, sort) != Standing::After,
        entry_order(a, b, sort) == Standing::Before || entry_order(b, c, sort) == Standing::Before
            ==> entry_order(a, c, sort) == Standing::Before,
{
    if text_order(a.name, b.name) != Standing::After && text_order(b.name, c.name)
        != Standing::After {
        lemma_text_order_chains(a.name, b.name, c.name);
    }
    let (x, y, z) = (extension_key(a.name), extension_key(b.name), extension_key(c.name));
    lemma_text_order(x, y);
    lemma_text_order(y, z);
    lemma_text_order(x, z);
    if text_order(x, y) != Standing::After && text_order(y, z) != Standing::After {
        lemma_text_order_chains(x, y, z);
    }
}

proof fn lemma_entry_order_mirrors(a: EntryModel, b: EntryModel, sort: SortKey)
    ensures
        entry_order(a, b, sort) == Standing::Before <==> entry_order(b, a, sort) == Standing::After,
        entry_order(a, b, sort) == Standing::Level <==> entry_order(b, a, sort) == Standing::Level,
{
    lemma_text_order(a.name, b.name);
    lemma_text_order(extension_key(a.name), extension_key(b.name));
}


// ---------------------------------------------------------------------------------------------
// Sorting.
// ---------------------------------------------------------------------------------------------
/// Entry `i` of a list comes before entry `j` in the stable order: by the entries' own standing,
/// and by their places in the list where that is level.
pub open spec fn comes_first(list: Seq<EntryModel>, sort: SortKey, i: int, j: int) -> bool {
    match entry_order(list[i], list[j], sort) {
        Standing::Before => true,
        Standing::Level => i < j,
        Standing::After => false,
    }
}

/// `places` lists the entries of `list` in the stable order, and `sorted` holds them in it.
pub open spec fn stable_order(
    list: Seq<EntryModel>,
    sort: SortKey,
    places: Seq<int>,
    sorted: Seq<EntryModel>,
) -> bool {
    &&& places.len() == list.len()
    &&& sorted.len() == list.len()
    &&& forall|k: int|
        0 <= k < places.len() ==> 0 <= #[trigger] places[k] < list.len() && sorted[k]
            == list[places[k]]
    &&& forall|a: int, b: int|
        0 <= a < b < places.len() ==> comes_first(
            list,
            sort,
            #[trigger] places[a],
            #[trigger] places[b],
        )
}

/// `sorted` holds the entries of `list` in the stable order. Since the order is strict, no place
/// occurs twice: `sorted` is a rearrangement of `list`.
pub open spec fn is_sorted_from(
    list: Seq<EntryModel>,
    sort: SortKey,
    sorted: Seq<EntryModel>,
) -> bool {
    exists|places: Seq<int>| stable_order(list, sort, places, sorted)
}

struct Tagged {
    entry: PanelEntry,
    tag: Ghost<int>,
}

#[verifier::ext_equal]
struct TagModel {
    entry: EntryModel,
    tag: int,
}

impl View for Tagged {
    type V = TagModel;

    closed spec fn view(&self) -> TagModel {
        TagModel { entry: self.entry@, tag: self.tag@ }
    }
}

spec fn tags(v: Seq<Tagged>) -> Seq<TagModel> {
    v.map_values(|t: Tagged| t@)
}

spec fn precedes(a: TagModel, b: TagModel, sort: SortKey) -> bool {
    match entry_order(a.entry, b.entry, sort) {
        Standing::Before => true,
        Standing::Level => a.tag < b.tag,
        Standing::After => false,
    }
}

spec fn ascending(s: Seq<TagModel>, sort: SortKey) -> bool {
    forall|i: int, j: int| 0 <= i < j < s.len() ==> precedes(#[trigger] s[i], #[trigger] s[j], sort)
}

proof fn lemma_precedes_chains(a: TagModel, b: TagModel, c: TagModel, sort: SortKey)
    requires
        precedes(a, b, sort),
        precedes(b, c, sort),
    ensures
        precedes(a, c, sort),
{
    lemma_entry_order_chains(a.entry, b.entry, c.entry, sort);
}

/// Moves the elements of a list into another in reverse.
fn reversed(v: Vec<Tagged>) -> (r: Vec<Tagged>)
    ensures
        r@.len() == v@.len(),
        forall|k: int| 0 <= k < r@.len() ==> (#[trigger] r@[k]) == v@[v@.len() - 1 - k],
{
    let ghost all = v@;
    let mut rest = v;
    let mut out: Vec<Tagged> = Vec::new();
    while rest.len() > 0
        invariant
            rest@.len() + out@.len() == all.len(),
            rest@ == all.take(rest@.len() as int),
            forall|k: int| 0 <= k < out@.len() ==> (#[trigger] out@[k]) == all[all.len() - 1 - k],
        decreases rest@.len(),
    {
        let ghost n = rest@.len() as int;
        match rest.pop() {
            Some(item) => {
                assert(item == all[n - 1]);
                out.push(item);
            },
            None => {},
        }
        assert(rest@ =~= all.take(n - 1));
    }
    out
}

/// Merges two ascending lists, everything of the left one having come before everything of the
/// right one.
#[verifier::rlimit(50)]
fn merge(left: Vec<Tagged>, right: Vec<Tagged>, sort: SortKey) -> (r: Vec<Tagged>)
    requires
        ascending(tags(left@), sort),
        ascending(tags(right@), sort),
        forall|i: int, j: int|
            0 <= i < left@.len() && 0 <= j < right@.len() ==> (#[trigger] left@[i])@.tag < (
            #[trigger] right@[j])@.tag,
    ensures
        ascending(tags(r@), sort),
        r@.len() == left@.len() + right@.len(),
        forall|k: int|
            0 <= k < r@.len() ==> tags(left@).contains(#[trigger] tags(r@)[k]) || tags(
                right@,
            ).contains(tags(r@)[k]),
{
    let ghost l = tags(left@);
    let ghost r = tags(right@);
    let mut x = left;
    let mut y = right;
    let mut acc: Vec<Tagged> = Vec::new();
    proof {
        assert(l.take(l.len() as int) =~= l);
        assert(r.take(r.len() as int) =~= r);
    }
    while x.len() > 0 || y.len() > 0
        invariant
            ascending(l, sort),
            ascending(r, sort),
            x@.len() <= l.len(),
            y@.len() <= r.len(),
            tags(x@) == l.take(x@.len() as int),
            tags(y@) == r.take(y@.len() as int),
            x@.len() + y@.len() + acc@.len() == l.len() + r.len(),
            forall|i: int, j: int|
                0 <= i < l.len() && 0 <= j < r.len() ==> (#[trigger] l[i]).tag < (
                #[trigger] r[j]).tag,
            forall|k: int|
                0 <= k < acc@.len() ==> l.contains(#[trigger] tags(acc@)[k]) || r.contains(
                    tags(acc@)[k],
                ),
            forall|i: int, j: int|
                0 <= i < j < acc@.len() ==> precedes(
                    #[trigger] tags(acc@)[j],
                    #[trigger] tags(acc@)[i],
                    sort,
                ),
            forall|i: int, k: int|
                0 <= i < x@.len() && 0 <= k < acc@.len() ==> precedes(
                    #[trigger] l[i],
                    #[trigger] tags(acc@)[k],
                    sort,
                ),
            forall|j: int, k: int|
                0 <= j < y@.len() && 0 <= k < acc@.len() ==> precedes(
                    #[trigger] r[j],
                    #[trigger] tags(acc@)[k],
                    sort,
                ),
        decreases x@.len() + y@.len(),
    {
        let n: usize = x.len();
        let m: usize = y.len();
        let take_left = if m == 0 {
            true
        } else if n == 0 {
            false
        } else {
            match order_entries(&x[n - 1].entry, &y[m - 1].entry, sort) {
                Standing::After => true,
                _ => false,
            }
        };
        let ghost before = tags(acc@);
        proof {
            if n > 0 {
                assert(tags(x@)[n - 1] == x@[n - 1]@);
                assert(l[n - 1] == x@[n - 1]@);
            }
            if m > 0 {
                assert(tags(y@)[m - 1] == y@[m - 1]@);
                assert(r[m - 1] == y@[m - 1]@);
            }
            if n > 0 && m > 0 {
                lemma_entry_order_mirrors(l[n - 1].entry, r[m - 1].entry, sort);
                if take_left {
                    assert(precedes(r[m - 1], l[n - 1], sort));
                    assert forall|j: int| 0 <= j < m implies precedes(
                        #[trigger] r[j],
                        l[n - 1],
                        sort,
                    ) by {
                        if j < m - 1 {
                            lemma_precedes_chains(r[j], r[m - 1], l[n - 1], sort);
                        }
                    }
                } else {
                    assert(l[n - 1].tag < r[m - 1].tag);
                    assert(precedes(l[n - 1], r[m - 1], sort));
                    assert forall|i: int| 0 <= i < n implies precedes(
                        #[trigger] l[i],
                        r[m - 1],
                        sort,
                    ) by {
                        if i < n - 1 {
                            lemma_precedes_chains(l[i], l[n - 1], r[m - 1], sort);
                        }
                    }
                }
            }
        }
        let popped = if take_left {
            x.pop()
        } else {
            y.pop()
        };
        match popped {
            Some(item) => {
                acc.push(item);
                proof {
                    assert(tags(acc@) =~= before.push(item@));
                    if take_left {
                        assert(item@ == l[n - 1]);
                        assert(tags(x@) =~= l.take(n - 1));
                    } else {
                        assert(item@ == r[m - 1]);
                        assert(tags(y@) =~= r.take(m - 1));
                    }
                }
            },
            None => {},
        }
    }
    let ghost down = tags(acc@);
    let out = reversed(acc);
    proof {
        assert forall|k: int| 0 <= k < out@.len() implies #[trigger] tags(out@)[k] == down[down.len()
            - 1 - k] by {}
        assert forall|i: int, j: int| 0 <= i < j < tags(out@).len() implies precedes(
            #[trigger] tags(out@)[i],
            #[trigger] tags(out@)[j],
            sort,
        ) by {
            assert(precedes(down[down.len() - 1 - i], down[down.len() - 1 - j], sort));
        }
    }
    out
}

fn merge_sort(v: Vec<Tagged>, sort: SortKey) -> (r: Vec<Tagged>)
    requires
        forall|i: int, j: int|
            0 <= i < j < v@.len() ==> (#[trigger] v@[i])@.tag < (#[trigger] v@[j])@.tag,
    ensures
        ascending(tags(r@), sort),
        r@.len() == v@.len(),
        forall|k: int| 0 <= k < r@.len() ==> tags(v@).contains(#[trigger] tags(r@)[k]),
    decreases v@.len(),
{
    if v.len() <= 1 {
        proof {
            assert forall|k: int| 0 <= k < v@.len() implies tags(v@).contains(
                #[trigger] tags(v@)[k],
            ) by {}
        }
        return v;
    }
    let ghost all = v@;
    let mut low = v;
    let mid: usize = low.len() / 2;
    let high = low.split_off(mid);
    let ghost left = low@;
    let ghost right = high@;
    let x = merge_sort(low, sort);
    let y = merge_sort(high, sort);
    proof {
        assert forall|i: int, j: int| 0 <= i < x@.len() && 0 <= j < y@.len() implies (
        #[trigger] x@[i])@.tag < (#[trigger] y@[j])@.tag by {
            assert(tags(left).contains(tags(x@)[i]));
            assert(tags(right).contains(tags(y@)[j]));
            let a = choose|a: int| 0 <= a < left.len() && tags(left)[a] == tags(x@)[i];
            let b = choose|b: int| 0 <= b < right.len() && tags(right)[b] == tags(y@)[j];
            assert(all[a]@.tag < all[mid + b]@.tag);
        }
    }
    let ghost xs = tags(x@);
    let ghost ys = tags(y@);
    let r = merge(x, y, sort);
    proof {
        assert forall|k: int| 0 <= k < r@.len() implies tags(all).contains(
            #[trigger] tags(r@)[k],
        ) by {
            let t = tags(r@)[k];
            if xs.contains(t) {
                let i = choose|i: int| 0 <= i < xs.len() && xs[i] == t;
                assert(tags(left).contains(xs[i]));
                let a = choose|a: int| 0 <= a < left.len() && tags(left)[a] == t;
                assert(tags(all)[a] == t);
            } else {
                let i = choose|i: int| 0 <= i < ys.len() && ys[i] == t;
                assert(tags(right).contains(ys[i]));
                let b = choose|b: int| 0 <= b < right.len() && tags(right)[b] == t;
                assert(tags(all)[mid + b] == t);
            }
        }
    }
    r
}

/// Sorts panel entries: `..` first, directories above files, within groups — by the `sort` key.
/// Entries that are level stay in the order they were in.
pub fn sort_entries(entries: &mut Vec<PanelEntry>, sort: SortKey)
    ensures
        is_sorted_from(entries_model(old(entries)@), sort, entries_model(final(entries)@)),
        entries_model(final(entries)@) == sorted_list(entries_model(old(entries)@), sort),
        final(entries)@.len() == old(entries)@.len(),
{
    let ghost list = entries_model(entries@);
    let ghost all = entries@;
    let mut work: Vec<Tagged> = Vec::new();
    while entries.len() > 0
        invariant
            entries@.len() + work@.len() == all.len(),
            entries@ == all.take(entries@.len() as int),
            forall|k: int|
                0 <= k < work@.len() ==> (#[trigger] work@[k])@ == (TagModel {
                    entry: all[all.len() - 1 - k]@,
                    tag: all.len() - 1 - k,
                }),
        decreases entries@.len(),
    {
        let ghost n = entries@.len() as int;
        match entries.pop() {
            Some(entry) => {
                assert(entry == all[n - 1]);
                work.push(Tagged { entry, tag: Ghost(n - 1) });
            },
            None => {},
        }
        assert(entries@ =~= all.take(n - 1));
    }
    let work = reversed(work);
    let ghost start = tags(work@);
    proof {
        assert forall|k: int| 0 <= k < start.len() implies (#[trigger] start[k]) == (TagModel {
            entry: list[k],
            tag: k,
        }) by {
            assert(start[k] == work@[k]@);
        }
        assert forall|i: int, j: int| 0 <= i < j < work@.len() implies (#[trigger] work@[i])@.tag
            < (#[trigger] work@[j])@.tag by {
            assert(start[i] == work@[i]@ && start[j] == work@[j]@);
        }
    }
    let done = merge_sort(work, sort);
    let ghost result = tags(done@);
    let ghost places = Seq::new(result.len(), |k: int| result[k].tag);
    proof {
        assert forall|k: int| 0 <= k < result.len() implies 0 <= (#[trigger] result[k]).tag
            < list.len() && result[k].entry == list[result[k].tag] by {
            assert(start.contains(result[k]));
            let a = choose|a: int| 0 <= a < start.len() && start[a] == result[k];
            assert(start[a].tag == a);
        }
    }
    let mut rest = reversed(done);
    while rest.len() > 0
        invariant
            rest@.len() + entries@.len() == result.len(),
            forall|k: int|
                0 <= k < rest@.len() ==> (#[trigger] rest@[k])@ == result[result.len() - 1 - k],
            forall|k: int| 0 <= k < entries@.len() ==> (#[trigger] entries@[k])@ == result[k].entry,
        decreases rest@.len(),
    {
        let ghost n = entries@.len() as int;
        proof {
            assert(rest@.last()@ == result[n]);
        }
        match rest.pop() {
            Some(item) => {
                entries.push(item.entry);
            },
            None => {},
        }
    }
    proof {
        let sorted = entries_model(entries@);
        assert forall|k: int| 0 <= k < places.len() implies 0 <= #[trigger] places[k] < list.len()
            && sorted[k] == list[places[k]] by {
            assert(places[k] == result[k].tag);
            assert(sorted[k] == entries@[k]@);
        }
        assert forall|a: int, b: int| 0 <= a < b < places.len() implies comes_first(
            list,
            sort,
            #[trigger] places[a],
            #[trigger] places[b],
        ) by {
            assert(precedes(result[a], result[b], sort));
        }
        assert(stable_order(list, sort, places, sorted));
        assert(is_sorted_from(list, sort, sorted));
        law_the_sorted_list_is_unique(list, sort, sorted, sorted_list(list, sort));
    }
}

/// The one list that holds the entries of `list` in the stable order.
pub open spec fn sorted_list(list: Seq<EntryModel>, sort: SortKey) -> Seq<EntryModel> {
    choose|sorted: Seq<EntryModel>| is_sorted_from(list, sort, sorted)
}

proof fn lemma_places_cover(
    list: Seq<EntryModel>,
    sort: SortKey,
    places: Seq<int>,
    sorted: Seq<EntryModel>,
)
    requires
        stable_order(list, sort, places, sorted),
    ensures
        places.no_duplicates(),
        places.to_set() == vstd::set_lib::set_int_range(0, list.len() as int),
{
    assert(places.no_duplicates()) by {
        assert forall|a: int, b: int|
            0 <= a < places.len() && 0 <= b < places.len() && a != b implies places[a]
            != places[b] by {
            if places[a] == places[b] {
                let (lo, hi) = if a < b {
                    (a, b)
                } else {
                    (b, a)
                };
                assert(comes_first(list, sort, places[lo], places[hi]));
                lemma_entry_order_mirrors(list[places[lo]], list[places[lo]], sort);
            }
        }
    }
    places.unique_seq_to_set();
    vstd::set_lib::lemma_int_range(0, list.len() as int);
    assert(places.to_set().subset_of(vstd::set_lib::set_int_range(0, list.len() as int)));
    vstd::seq_lib::seq_to_set_is_finite(places);
    vstd::set_lib::lemma_subset_equality(
        places.to_set(),
        vstd::set_lib::set_int_range(0, list.len() as int),
    );
}

/// The stable order of a list is unique: two lists sorted from one list are the same.
pub proof fn law_the_sorted_list_is_unique(
    list: Seq<EntryModel>,
    sort: SortKey,
    a: Seq<EntryModel>,
    b: Seq<EntryModel>,
)
    requires
        is_sorted_from(list, sort, a),
        is_sorted_from(list, sort, b),
    ensures
        a == b,
{
    let p = choose|places: Seq<int>| stable_order(list, sort, places, a);
    let q = choose|places: Seq<int>| stable_order(list, sort, places, b);
    lemma_places_cover(list, sort, p, a);
    lemma_places_cover(list, sort, q, b);
    let leq = |i: int, j: int| i == j || comes_first(list, sort, i, j);
    assert(vstd::relations::total_ordering(leq)) by {
        assert forall|i: int, j: int| #[trigger] leq(i, j) && #[trigger] leq(j, i) implies i
            == j by {
            lemma_entry_order_mirrors(list[i], list[j], sort);
        }
        assert forall|i: int, j: int, k: int| #[trigger] leq(i, j) && #[trigger] leq(
            j,
            k,
        ) implies leq(i, k) by {
            if i != j && j != k {
                lemma_entry_order_chains(list[i], list[j], list[k], sort);
                lemma_entry_order_mirrors(list[i], list[k], sort);
            }
        }
        assert forall|i: int, j: int| #[trigger] leq(i, j) || #[trigger] leq(j, i) by {
            lemma_entry_order_mirrors(list[i], list[j], sort);
        }
    }
    assert(p.to_multiset() =~= q.to_multiset()) by {
        broadcast use vstd::multiset::group_multiset_axioms;
        broadcast use vstd::seq_lib::group_to_multiset_ensures;

        p.lemma_multiset_has_no_duplicates();
        q.lemma_multiset_has_no_duplicates();
        assert forall|x: int| p.to_multiset().count(x) == q.to_multiset().count(x) by {
            assert(p.contains(x) <==> p.to_set().contains(x));
            assert(q.contains(x) <==> q.to_set().contains(x));
            if p.contains(x) {
                assert(p.to_multiset().contains(x));
                assert(q.to_multiset().contains(x));
            }
        }
    }
    vstd::seq_lib::lemma_sorted_unique(p, q, leq);
    assert forall|k: int| 0 <= k < a.len() implies a[k] == b[k] by {
        assert(a[k] == list[p[k]]);
        assert(b[k] == list[q[k]]);
    }
    assert(a =~= b);
}

/// Every list has its stable order, and it is as long as the list.
pub proof fn lemma_sorted_list_exists(list: Seq<EntryModel>, sort: SortKey)
    ensures
        is_sorted_from(list, sort, sorted_list(list, sort)),
        sorted_list(list, sort).len() == list.len(),
    decreases list.len(),
{
    if list.len() == 0 {
        assert(stable_order(list, sort, Seq::empty(), list));
        assert(is_sorted_from(list, sort, list));
    } else {
        let short = list.drop_last();
        lemma_sorted_list_exists(short, sort);
        let before = sorted_list(short, sort);
        let places = choose|places: Seq<int>| stable_order(short, sort, places, before);
        let last = list.len() - 1;
        let at = insertion_point(list, sort, places, last);
        lemma_insertion_point(list, sort, places, last);
        let longer = places.insert(at, last);
        let sorted = before.insert(at, list[last]);
        assert forall|k: int| 0 <= k < longer.len() implies 0 <= #[trigger] longer[k] < list.len()
            && sorted[k] == list[longer[k]] by {
            if k < at {
                assert(longer[k] == places[k]);
            } else if k > at {
                assert(longer[k] == places[k - 1]);
            }
        }
        assert forall|a: int, b: int| 0 <= a < b < longer.len() implies comes_first(
            list,
            sort,
            #[trigger] longer[a],
            #[trigger] longer[b],
        ) by {
            if b < at {
                assert(longer[a] == places[a] && longer[b] == places[b]);
                assert(comes_first(short, sort, places[a], places[b]));
            } else if b == at {
                assert(longer[a] == places[a]);
            } else if a == at {
                assert(longer[b] == places[b - 1]);
            } else if a < at {
                assert(longer[a] == places[a] && longer[b] == places[b - 1]);
                assert(comes_first(short, sort, places[a], places[b - 1]));
            } else {
                assert(longer[a] == places[a - 1] && longer[b] == places[b - 1]);
                assert(comes_first(short, sort, places[a - 1], places[b - 1]));
            }
        }
        assert(stable_order(list, sort, longer, sorted));
        assert(is_sorted_from(list, sort, sorted));
    }
}

/// How many of the first places come before the entry at `last`.
spec fn insertion_point(list: Seq<EntryModel>, sort: SortKey, places: Seq<int>, last: int) -> int
    decreases places.len(),
{
    if places.len() == 0 {
        0
    } else if comes_first(list, sort, places.last(), last) {
        places.len() as int
    } else {
        insertion_point(list, sort, places.drop_last(), last)
    }
}

proof fn lemma_insertion_point(list: Seq<EntryModel>, sort: SortKey, places: Seq<int>, last: int)
    requires
        0 <= last < list.len(),
        forall|k: int| 0 <= k < places.len() ==> 0 <= #[trigger] places[k] < last,
        forall|a: int, b: int|
            0 <= a < b < places.len() ==> comes_first(
                list,
                sort,
                #[trigger] places[a],
                #[trigger] places[b],
            ),
    ensures
        ({
            let at = insertion_point(list, sort, places, last);
            &&& 0 <= at <= places.len()
            &&& forall|k: int| 0 <= k < at ==> comes_first(list, sort, #[trigger] places[k], last)
            &&& forall|k: int|
                at <= k < places.len() ==> comes_first(list, sort, last, #[trigger] places[k])
        }),
    decreases places.len(),
{
    if places.len() > 0 {
        let end = places.last();
        lemma_entry_order_mirrors(list[end], list[last], sort);
        if comes_first(list, sort, end, last) {
            assert forall|k: int| 0 <= k < places.len() implies comes_first(
                list,
                sort,
                #[trigger] places[k],
                last,
            ) by {
                if k < places.len() - 1 {
                    assert(comes_first(list, sort, places[k], places[places.len() - 1]));
                    lemma_entry_order_chains(list[places[k]], list[end], list[last], sort);
                }
            }
        } else {
            let rest = places.drop_last();
            lemma_insertion_point(list, sort, rest, last);
            let at = insertion_point(list, sort, rest, last);
            assert forall|k: int| 0 <= k < at implies comes_first(
                list,
                sort,
                #[trigger] places[k],
                last,
            ) by {
                assert(rest[k] == places[k]);
            }
            assert forall|k: int| at <= k < places.len() implies comes_first(
                list,
                sort,
                last,
                #[trigger] places[k],
            ) by {
                if k < rest.len() {
                    assert(rest[k] == places[k]);
                }
            }
        }
    }
}

/// After sorting, `..` stands first, directories above files, and no entry stands behind one it
/// belongs before.
pub proof fn law_sorted_entries_are_in_order(
    list: Seq<EntryModel>,
    sort: SortKey,
    sorted: Seq<EntryModel>,
    i: int,
    j: int,
)
    requires
        is_sorted_from(list, sort, sorted),
        0 <= i < j < sorted.len(),
    ensures
        sorted.len() == list.len(),
        entry_order(sorted[i], sorted[j], sort) != Standing::After,
        rank_of(sorted[i].kind) <= rank_of(sorted[j].kind),
{
    let places = choose|places: Seq<int>| stable_order(list, sort, places, sorted);
    assert(comes_first(list, sort, places[i], places[j]));
}

/// Sorting loses and invents nothing: every entry of the sorted list is one of the list, each at a
/// place of its own.
pub proof fn law_sorting_rearranges(
    list: Seq<EntryModel>,
    sort: SortKey,
    sorted: Seq<EntryModel>,
)
    requires
        is_sorted_from(list, sort, sorted),
    ensures
        exists|places: Seq<int>|
            places.len() == list.len() && sorted.len() == list.len() && places.no_duplicates() && (
            forall|k: int|
                0 <= k < places.len() ==> 0 <= #[trigger] places[k] < list.len() && sorted[k]
                    == list[places[k]]),
{
    let places = choose|places: Seq<int>| stable_order(list, sort, places, sorted);
    lemma_places_cover(list, sort, places, sorted);
}

} // verus!
