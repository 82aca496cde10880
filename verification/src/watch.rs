//! What the «watching» panels point at.

use vstd::prelude::*;

use crate::app::{App, AppModel, CommanderModel, CommanderState, Effect, EffectModel};
use crate::entries::{EntryKind, PanelView};
use crate::panels::{Panel, PanelModel};
use crate::state::{OpenDirGroup, WatchEmpty, WatchEntry, WatchKey, WatchKeyModel, WatchModel};

verus! {

/// The source of a panel of the cursor's duplicates: the panel on the left, for the leftmost one
/// the active one.
pub open spec fn cursor_source(c: CommanderModel, i: int) -> PanelModel {
    if i > 0 {
        c.panels[i - 1]
    } else {
        c.active_panel()
    }
}

/// The key that an entry of a source panel is asked for by.
pub open spec fn source_key(source: PanelModel) -> Result<WatchKeyModel, WatchEmpty> {
    if !crate::panel::shows_entries(source.view) {
        Err(WatchEmpty::NoSource)
    } else {
        match source.selected() {
            None => Err(WatchEmpty::NoSource),
            Some(entry) => match entry.kind {
                EntryKind::File => Ok(WatchKeyModel::DupOf(entry.path)),
                EntryKind::Dir => Ok(WatchKeyModel::DirOf(entry.path)),
                EntryKind::Parent => Err(WatchEmpty::NoSource),
            },
        }
    }
}

/// The source key of a watching panel, or why it has none: a panel of a group's files takes the
/// selected group of the list on its left, a panel of duplicates what is under its source's
/// cursor.
pub open spec fn watch_key(c: CommanderModel, i: int) -> Result<WatchKeyModel, WatchEmpty> {
    match c.panels[i].view {
        PanelView::GroupFiles => if i > 0 && c.panels[i - 1].view == PanelView::GroupList {
            match c.panels[i - 1].list.selected {
                Some(index) => Ok(WatchKeyModel::Group(index)),
                None => Err(WatchEmpty::NoSource),
            }
        } else {
            Err(WatchEmpty::NoSource)
        },
        PanelView::DuplicatesOfCursor => source_key(cursor_source(c, i)),
        _ => Err(WatchEmpty::NoSource),
    }
}

/// The content of a computed key.
pub open spec fn key_result(r: Result<WatchKey, WatchEmpty>) -> Result<WatchKeyModel, WatchEmpty> {
    match r {
        Ok(key) => Ok(key@),
        Err(reason) => Err(reason),
    }
}

fn key_of_source(source: &Panel) -> (r: Result<WatchKey, WatchEmpty>)
    ensures
        key_result(r) == source_key(source@),
{
    match source.view {
        PanelView::Files => {},
        PanelView::DirsOnly => {},
        _ => {
            return Err(WatchEmpty::NoSource);
        },
    }
    match source.selected() {
        Some(entry) => match entry.kind {
            EntryKind::File => Ok(WatchKey::DupOf(entry.path.copy())),
            EntryKind::Dir => Ok(WatchKey::DirOf(entry.path.copy())),
            EntryKind::Parent => Err(WatchEmpty::NoSource),
        },
        None => Err(WatchEmpty::NoSource),
    }
}

/// The source key of the «watching» panel `i`; an error explains why there is none.
pub fn compute_watch_key(commander: &CommanderState, i: usize) -> (r: Result<WatchKey, WatchEmpty>)
    requires
        commander@.valid(),
        i < commander@.panels.len(),
    ensures
        key_result(r) == watch_key(commander@, i as int),
{
    match commander.panels[i].view {
        PanelView::GroupFiles => {
            if i == 0 {
                return Err(WatchEmpty::NoSource);
            }
            let source = &commander.panels[i - 1];
            assert(commander@.panels[i - 1] == source@);
            match source.view {
                PanelView::GroupList => match source.list.selected {
                    Some(index) => Ok(WatchKey::Group(index)),
                    None => Err(WatchEmpty::NoSource),
                },
                _ => Err(WatchEmpty::NoSource),
            }
        },
        PanelView::DuplicatesOfCursor => {
            if i > 0 {
                assert(commander@.panels[i - 1] == commander.panels@[i - 1]@);
                key_of_source(&commander.panels[i - 1])
            } else {
                key_of_source(commander.active_panel())
            }
        },
        _ => Err(WatchEmpty::NoSource),
    }
}

/// The question a key is asked by; none where the answer is known without asking.
pub open spec fn watch_question(c: CommanderModel, panel: usize, key: WatchKeyModel) -> Option<
    EffectModel,
> {
    if c.dedup_scan_id is None {
        None
    } else {
        match key {
            WatchKeyModel::Group(index) => if index < c.group_ids.len() {
                Some(EffectModel::WatchGroup { panel, id: c.group_ids[index as int] })
            } else {
                None
            },
            WatchKeyModel::DupOf(path) => Some(EffectModel::WatchFile { panel, path }),
            WatchKeyModel::DirOf(path) => Some(EffectModel::WatchDir { panel, path }),
        }
    }
}

/// Why there is nothing to show until an answer comes.
pub open spec fn watch_reason(c: CommanderModel, key: Result<WatchKeyModel, WatchEmpty>) -> WatchEmpty {
    match key {
        Err(reason) => reason,
        Ok(key) => if c.dedup_scan_id is None {
            WatchEmpty::NotInScan
        } else if key matches WatchKeyModel::Group(index) && index >= c.group_ids.len() {
            WatchEmpty::NoDuplicates
        } else {
            WatchEmpty::NoSource
        },
    }
}

/// A watch entry for a new source: the old answer is gone.
pub open spec fn fresh_entry(c: CommanderModel, key: Result<WatchKeyModel, WatchEmpty>) -> WatchModel {
    WatchModel {
        key: match key {
            Ok(k) => Some(k),
            Err(_) => None,
        },
        result: None,
        empty: watch_reason(c, key),
        unavailable: None,
    }
}

/// The key an entry would have.
pub open spec fn wanted_key(c: CommanderModel, i: int) -> Option<WatchKeyModel> {
    match watch_key(c, i) {
        Ok(k) => Some(k),
        Err(_) => None,
    }
}

/// The commander with one watch entry replaced.
pub open spec fn with_watch(c: CommanderModel, i: int, entry: WatchModel) -> CommanderModel {
    CommanderModel { watch_cache: c.watch_cache.update(i, entry), ..c }
}

/// One watching panel brought in step with its source: a changed source is asked for once, and
/// the key is recorded before the question goes out.
pub open spec fn watched(a: AppModel, i: int) -> AppModel {
    let c = a.commander;
    if crate::state::watch_id(c.watch_cache[i].key) == crate::state::watch_id(wanted_key(c, i)) {
        a
    } else {
        let b = AppModel { commander: with_watch(c, i, fresh_entry(c, watch_key(c, i))), ..a };
        match watch_key(c, i) {
            Ok(key) => match watch_question(c, i as usize, key) {
                Some(effect) => b.send(effect),
                None => b,
            },
            Err(_) => b,
        }
    }
}

fn question_for(commander: &CommanderState, panel: usize, key: &WatchKey) -> (r: Option<Effect>)
    ensures
        match r {
            Some(effect) => watch_question(commander@, panel, key@) == Some(effect@),
            None => watch_question(commander@, panel, key@) is None,
        },
{
    if commander.dedup_scan_id.is_none() {
        return None;
    }
    match key {
        WatchKey::Group(index) => {
            if *index < commander.group_ids.len() {
                Some(Effect::WatchGroup { panel, id: commander.group_ids[*index] })
            } else {
                None
            }
        },
        WatchKey::DupOf(path) => Some(Effect::WatchFile { panel, path: path.copy() }),
        WatchKey::DirOf(path) => Some(Effect::WatchDir { panel, path: path.copy() }),
    }
}

fn reason_for(commander: &CommanderState, key: &Result<WatchKey, WatchEmpty>) -> (r: WatchEmpty)
    ensures
        r == watch_reason(commander@, key_result(*key)),
{
    match key {
        Err(reason) => *reason,
        Ok(key) => {
            if commander.dedup_scan_id.is_none() {
                return WatchEmpty::NotInScan;
            }
            match key {
                WatchKey::Group(index) => {
                    if *index >= commander.group_ids.len() {
                        WatchEmpty::NoDuplicates
                    } else {
                        WatchEmpty::NoSource
                    }
                },
                _ => WatchEmpty::NoSource,
            }
        },
    }
}

fn set_watch(app: &mut App, i: usize, entry: WatchEntry)
    requires
        i < old(app)@.commander.watch_cache.len(),
    ensures
        final(app)@ == (AppModel {
            commander: with_watch(old(app)@.commander, i as int, entry@),
            ..old(app)@
        }),
{
    let ghost before = app@.commander.watch_cache;
    app.commander.watch_cache.set(i, entry);
    assert(app@.commander.watch_cache =~= before.update(i as int, entry@));
}

/// Whether panel `i` watches what its entry was asked for.
fn in_step(commander: &CommanderState, i: usize, key: &Result<WatchKey, WatchEmpty>) -> (r: bool)
    requires
        i < commander@.watch_cache.len(),
    ensures
        r == (crate::state::watch_id(commander@.watch_cache[i as int].key)
            == crate::state::watch_id(match key_result(*key) {
            Ok(k) => Some(k),
            Err(_) => None,
        })),
{
    assert(commander@.watch_cache[i as int] == commander.watch_cache@[i as int]@);
    match (&commander.watch_cache[i].key, key) {
        (None, Err(_)) => true,
        (Some(known), Ok(wanted)) => known.same(wanted),
        _ => false,
    }
}

/// The entry and the question that a new source of panel `i` calls for.
fn new_source(commander: &CommanderState, i: usize, key: Result<WatchKey, WatchEmpty>) -> (r: (
    WatchEntry,
    Option<Effect>,
))
    requires
        key_result(key) == watch_key(commander@, i as int),
    ensures
        r.0@ == fresh_entry(commander@, watch_key(commander@, i as int)),
        match r.1 {
            Some(effect) => watch_key(commander@, i as int) matches Ok(k) && watch_question(
                commander@,
                i,
                k,
            ) == Some(effect@),
            None => watch_key(commander@, i as int) matches Ok(k) ==> watch_question(
                commander@,
                i,
                k,
            ) is None,
        },
{
    let empty = reason_for(commander, &key);
    match key {
        Ok(key) => {
            let question = question_for(commander, i, &key);
            (WatchEntry { key: Some(key), result: None, empty, unavailable: None }, question)
        },
        Err(_) => (WatchEntry { key: None, result: None, empty, unavailable: None }, None),
    }
}

/// Brings the watching panel `i` in step with its source: asks what it resolves to, where the
/// source changed.
pub fn request_watch_group(app: &mut App, i: usize)
    requires
        old(app)@.valid(),
        i < old(app)@.commander.panels.len(),
        i < old(app)@.commander.watch_cache.len(),
    ensures
        final(app)@ == watched(old(app)@, i as int),
        final(app)@.valid(),
        final(app)@.commander.watch_cache.len() == old(app)@.commander.watch_cache.len(),
{
    let key = compute_watch_key(&app.commander, i);
    if in_step(&app.commander, i, &key) {
        return;
    }
    let (entry, question) = new_source(&app.commander, i, key);
    set_watch(app, i, entry);
    match question {
        Some(effect) => app.send(effect),
        None => {},
    }
}

// ---------------------------------------------------------------------------------------------
// Directory groups.
// ---------------------------------------------------------------------------------------------
/// Which directory-group signature a panel should be showing, if any: that of the group selected
/// in the list on its left.
pub open spec fn wanted_signature(c: CommanderModel, i: int) -> Option<Seq<char>> {
    if c.panels[i].view == PanelView::DirGroupFiles && i > 0 && c.panels[i - 1].view
        == PanelView::DirGroupList {
        match c.panels[i - 1].list.selected {
            Some(index) => if index < c.dir_group_summaries.len() {
                Some(c.dir_group_summaries[index as int].signature@)
            } else {
                None
            },
            None => None,
        }
    } else {
        None
    }
}

/// The content of a signature that may be absent.
pub open spec fn signature_model(signature: Option<String>) -> Option<Seq<char>> {
    match signature {
        Some(s) => Some(s@),
        None => None,
    }
}

/// Which directory-group signature panel `i` should be showing, if any.
pub fn wanted_dir_signature(commander: &CommanderState, i: usize) -> (r: Option<String>)
    requires
        i < commander@.panels.len(),
    ensures
        signature_model(r) == wanted_signature(commander@, i as int),
{
    match commander.panels[i].view {
        PanelView::DirGroupFiles => {},
        _ => {
            return None;
        },
    }
    if i == 0 {
        return None;
    }
    let source = &commander.panels[i - 1];
    assert(commander@.panels[i - 1] == source@);
    match source.view {
        PanelView::DirGroupList => {},
        _ => {
            return None;
        },
    }
    match source.list.selected {
        Some(index) => {
            if index < commander.dir_group_summaries.len() {
                Some(commander.dir_group_summaries[index].signature.as_str().to_string())
            } else {
                None
            }
        },
        None => None,
    }
}

/// The commander with another signature wanted for a panel, what it showed gone.
pub open spec fn with_signature(c: CommanderModel, i: int, signature: Option<Seq<char>>) -> CommanderModel {
    CommanderModel {
        watch_dir_keys: c.watch_dir_keys.update(i, signature),
        watch_dir_cache: c.watch_dir_cache.update(i, None),
        ..c
    }
}

/// One panel of a directory group brought in step with its list: a changed selection is asked
/// for once.
pub open spec fn dir_watched(a: AppModel, i: int) -> AppModel {
    let c = a.commander;
    let wanted = wanted_signature(c, i);
    if c.watch_dir_keys[i] == wanted {
        a
    } else {
        let b = AppModel { commander: with_signature(c, i, wanted), ..a };
        match wanted {
            Some(signature) => b.send(EffectModel::OpenDirGroup { panel: i as usize, signature }),
            None => b,
        }
    }
}

fn signature_known(commander: &CommanderState, i: usize, wanted: &Option<String>) -> (r: bool)
    requires
        i < commander@.watch_dir_keys.len(),
    ensures
        r == (commander@.watch_dir_keys[i as int] == signature_model(*wanted)),
{
    match (&commander.watch_dir_keys[i], wanted) {
        (None, None) => true,
        (Some(known), Some(signature)) => *known == *signature,
        _ => false,
    }
}

fn set_signature(app: &mut App, i: usize, signature: Option<String>)
    requires
        i < old(app)@.commander.watch_dir_keys.len(),
        i < old(app)@.commander.watch_dir_cache.len(),
    ensures
        final(app)@ == (AppModel {
            commander: with_signature(
                old(app)@.commander,
                i as int,
                signature_model(signature),
            ),
            ..old(app)@
        }),
{
    let ghost before = app@.commander;
    app.commander.watch_dir_keys.set(i, signature);
    app.commander.watch_dir_cache.set(i, None);
    assert(app@.commander.watch_dir_keys =~= before.watch_dir_keys.update(
        i as int,
        signature_model(signature),
    ));
    assert(app@.commander.watch_dir_cache =~= before.watch_dir_cache.update(i as int, None));
}

fn copy_signature(signature: &Option<String>) -> (r: Option<String>)
    ensures
        signature_model(r) == signature_model(*signature),
{
    match signature {
        Some(s) => Some(s.as_str().to_string()),
        None => None,
    }
}

/// Resolves the directory group of panel `i`: the group selected on its left, opened by its
/// signature. Asked once per selection change.
pub fn resolve_dir_group(app: &mut App, i: usize)
    requires
        i < old(app)@.commander.panels.len(),
        i < old(app)@.commander.watch_dir_keys.len(),
        i < old(app)@.commander.watch_dir_cache.len(),
    ensures
        final(app)@ == dir_watched(old(app)@, i as int),
{
    let wanted = wanted_dir_signature(&app.commander, i);
    if signature_known(&app.commander, i, &wanted) {
        return;
    }
    let recorded = copy_signature(&wanted);
    set_signature(app, i, recorded);
    match wanted {
        Some(signature) => app.send(Effect::OpenDirGroup { panel: i, signature }),
        None => {},
    }
}

// ---------------------------------------------------------------------------------------------
// All panels.
// ---------------------------------------------------------------------------------------------
/// The watch caches as long as there are panels: one of another length starts over.
pub open spec fn sized(c: CommanderModel) -> CommanderModel {
    let total = c.panels.len();
    CommanderModel {
        watch_cache: if c.watch_cache.len() == total {
            c.watch_cache
        } else {
            Seq::new(total, |i: int| crate::state::unresolved())
        },
        watch_dir_cache: if c.watch_dir_cache.len() == total {
            c.watch_dir_cache
        } else {
            Seq::new(total, |i: int| None)
        },
        watch_dir_keys: if c.watch_dir_keys.len() == total {
            c.watch_dir_keys
        } else {
            Seq::new(total, |i: int| None)
        },
        ..c
    }
}

fn fresh_watches(total: usize) -> (r: Vec<WatchEntry>)
    ensures
        crate::state::watches_model(r@) == Seq::new(
            total as nat,
            |i: int| crate::state::unresolved(),
        ),
{
    let mut cache: Vec<WatchEntry> = Vec::new();
    let mut i: usize = 0;
    while i < total
        invariant
            i <= total,
            cache@.len() == i,
            forall|k: int| 0 <= k < i ==> (#[trigger] cache@[k])@ == crate::state::unresolved(),
        decreases total - i,
    {
        cache.push(WatchEntry::default());
        i = i + 1;
    }
    assert(crate::state::watches_model(cache@) =~= Seq::new(
        total as nat,
        |i: int| crate::state::unresolved(),
    ));
    cache
}

fn fresh_groups(total: usize) -> (r: Vec<Option<OpenDirGroup>>)
    ensures
        r@ == Seq::new(total as nat, |i: int| None::<OpenDirGroup>),
{
    let mut cache: Vec<Option<OpenDirGroup>> = Vec::new();
    let mut i: usize = 0;
    while i < total
        invariant
            i <= total,
            cache@.len() == i,
            forall|k: int| 0 <= k < i ==> (#[trigger] cache@[k]) is None,
        decreases total - i,
    {
        cache.push(None);
        i = i + 1;
    }
    assert(cache@ =~= Seq::new(total as nat, |i: int| None::<OpenDirGroup>));
    cache
}

fn fresh_signatures(total: usize) -> (r: Vec<Option<String>>)
    ensures
        crate::app::signatures_model(r@) == Seq::new(total as nat, |i: int| None::<Seq<char>>),
{
    let mut keys: Vec<Option<String>> = Vec::new();
    let mut i: usize = 0;
    while i < total
        invariant
            i <= total,
            keys@.len() == i,
            forall|k: int| 0 <= k < i ==> (#[trigger] keys@[k]) is None,
        decreases total - i,
    {
        keys.push(None);
        i = i + 1;
    }
    assert(crate::app::signatures_model(keys@) =~= Seq::new(
        total as nat,
        |i: int| None::<Seq<char>>,
    ));
    keys
}

fn size_caches(commander: &mut CommanderState)
    ensures
        final(commander)@ == sized(old(commander)@),
{
    let total: usize = commander.panels.len();
    if commander.watch_cache.len() != total {
        commander.watch_cache = fresh_watches(total);
    }
    if commander.watch_dir_cache.len() != total {
        commander.watch_dir_cache = fresh_groups(total);
    }
    if commander.watch_dir_keys.len() != total {
        commander.watch_dir_keys = fresh_signatures(total);
    }
}

/// The first panels brought in step with their sources.
pub open spec fn watched_upto(a: AppModel, count: int) -> AppModel
    decreases count,
{
    if count <= 0 {
        a
    } else {
        watched(watched_upto(a, count - 1), count - 1)
    }
}

/// The first panels brought in step with the directory groups selected beside them.
pub open spec fn dirs_watched_upto(a: AppModel, count: int) -> AppModel
    decreases count,
{
    if count <= 0 {
        a
    } else {
        dir_watched(dirs_watched_upto(a, count - 1), count - 1)
    }
}

/// Every watching panel brought in step.
pub open spec fn resolved(a: AppModel) -> AppModel {
    let total = a.commander.panels.len() as int;
    dirs_watched_upto(
        watched_upto(AppModel { commander: sized(a.commander), ..a }, total),
        total,
    )
}

/// Which commander is meant by two models that differ in what is watched alone.
pub open spec fn same_but_watches(a: AppModel, b: AppModel) -> bool {
    &&& a.commander.panels == b.commander.panels
    &&& a.commander.active == b.commander.active
    &&& a.commander.board == b.commander.board
    &&& a.commander.overlay == b.commander.overlay
    &&& a.commander.info_lines == b.commander.info_lines
    &&& a.commander.confirm_digest == b.commander.confirm_digest
    &&& a.commander.dedup_scan_id == b.commander.dedup_scan_id
    &&& a.commander.group_ids == b.commander.group_ids
    &&& a.commander.dir_group_summaries == b.commander.dir_group_summaries
}

proof fn lemma_watched_upto(a: AppModel, count: int)
    requires
        0 <= count <= a.commander.panels.len(),
        a.commander.watch_cache.len() == a.commander.panels.len(),
    ensures
        same_but_watches(watched_upto(a, count), a),
        watched_upto(a, count).commander.watch_cache.len() == a.commander.watch_cache.len(),
        watched_upto(a, count).commander.watch_dir_keys == a.commander.watch_dir_keys,
        watched_upto(a, count).commander.watch_dir_cache == a.commander.watch_dir_cache,
        forall|i: int|
            0 <= i < count ==> crate::state::watch_id(
                (#[trigger] watched_upto(a, count).commander.watch_cache[i]).key,
            ) == crate::state::watch_id(wanted_key(a.commander, i)),
    decreases count,
{
    if count > 0 {
        let before = watched_upto(a, count - 1);
        lemma_watched_upto(a, count - 1);
        lemma_keys_depend_on_panels(before.commander, a.commander, count - 1);
        assert forall|i: int| 0 <= i < count implies crate::state::watch_id(
            (#[trigger] watched_upto(a, count).commander.watch_cache[i]).key,
        ) == crate::state::watch_id(wanted_key(a.commander, i)) by {
            if i < count - 1 {
                assert(crate::state::watch_id(before.commander.watch_cache[i].key)
                    == crate::state::watch_id(wanted_key(a.commander, i)));
            }
        }
    }
}

/// What a panel watches depends on the panels and the groups alone.
pub proof fn lemma_keys_depend_on_panels(c: CommanderModel, d: CommanderModel, i: int)
    requires
        c.panels == d.panels,
        c.active == d.active,
    ensures
        watch_key(c, i) == watch_key(d, i),
{
}

proof fn lemma_dirs_watched_upto(a: AppModel, count: int)
    requires
        0 <= count <= a.commander.panels.len(),
        a.commander.watch_dir_keys.len() == a.commander.panels.len(),
        a.commander.watch_dir_cache.len() == a.commander.panels.len(),
    ensures
        same_but_watches(dirs_watched_upto(a, count), a),
        dirs_watched_upto(a, count).commander.watch_cache == a.commander.watch_cache,
        dirs_watched_upto(a, count).commander.watch_dir_keys.len()
            == a.commander.watch_dir_keys.len(),
        dirs_watched_upto(a, count).commander.watch_dir_cache.len()
            == a.commander.watch_dir_cache.len(),
        forall|i: int|
            0 <= i < count ==> #[trigger] dirs_watched_upto(a, count).commander.watch_dir_keys[i]
                == wanted_signature(a.commander, i),
    decreases count,
{
    if count > 0 {
        let before = dirs_watched_upto(a, count - 1);
        lemma_dirs_watched_upto(a, count - 1);
        assert(wanted_signature(before.commander, count - 1) == wanted_signature(
            a.commander,
            count - 1,
        ));
        assert forall|i: int| 0 <= i < count implies #[trigger] dirs_watched_upto(
            a,
            count,
        ).commander.watch_dir_keys[i] == wanted_signature(a.commander, i) by {
            if i < count - 1 {
                assert(before.commander.watch_dir_keys[i] == wanted_signature(a.commander, i));
            }
        }
    }
}

/// Bringing the watching panels in step changes nothing but what they watch.
pub proof fn lemma_resolved_keeps(a: AppModel)
    ensures
        same_but_watches(resolved(a), a),
{
    let total = a.commander.panels.len() as int;
    let start = AppModel { commander: sized(a.commander), ..a };
    lemma_watched_upto(start, total);
    lemma_dirs_watched_upto(watched_upto(start, total), total);
}

proof fn lemma_in_step_stays(a: AppModel, count: int)
    requires
        0 <= count <= a.commander.panels.len(),
        forall|i: int|
            0 <= i < a.commander.panels.len() ==> crate::state::watch_id(
                (#[trigger] a.commander.watch_cache[i]).key,
            ) == crate::state::watch_id(wanted_key(a.commander, i)),
        forall|i: int|
            0 <= i < a.commander.panels.len() ==> #[trigger] a.commander.watch_dir_keys[i]
                == wanted_signature(a.commander, i),
    ensures
        watched_upto(a, count) == a,
        dirs_watched_upto(a, count) == a,
    decreases count,
{
    if count > 0 {
        lemma_in_step_stays(a, count - 1);
        assert(crate::state::watch_id(a.commander.watch_cache[count - 1].key)
            == crate::state::watch_id(wanted_key(a.commander, count - 1)));
        assert(a.commander.watch_dir_keys[count - 1] == wanted_signature(
            a.commander,
            count - 1,
        ));
    }
}

/// Every watching panel is asked for once per change of its source: resolving again, with nothing
/// changed in between, asks nothing and changes nothing.
pub proof fn law_watching_asks_once(a: AppModel)
    ensures
        resolved(resolved(a)) == resolved(a),
{
    let total = a.commander.panels.len() as int;
    let start = AppModel { commander: sized(a.commander), ..a };
    let files = watched_upto(start, total);
    lemma_watched_upto(start, total);
    let done = dirs_watched_upto(files, total);
    lemma_dirs_watched_upto(files, total);
    assert(done == resolved(a));
    assert forall|i: int| 0 <= i < total implies crate::state::watch_id(
        (#[trigger] done.commander.watch_cache[i]).key,
    ) == crate::state::watch_id(wanted_key(done.commander, i)) by {
        lemma_keys_depend_on_panels(done.commander, start.commander, i);
        assert(crate::state::watch_id(files.commander.watch_cache[i].key)
            == crate::state::watch_id(wanted_key(start.commander, i)));
    }
    assert forall|i: int| 0 <= i < total implies #[trigger] done.commander.watch_dir_keys[i]
        == wanted_signature(done.commander, i) by {
        assert(wanted_signature(done.commander, i) == wanted_signature(files.commander, i));
    }
    assert(sized(done.commander) == done.commander);
    lemma_in_step_stays(done, total);
}

/// Dispatches one request per «watching» panel whose source changed — never one per frame.
pub fn resolve_watch_groups(app: &mut App)
    requires
        old(app)@.valid(),
    ensures
        final(app)@ == resolved(old(app)@),
        final(app)@.valid(),
        final(app)@.commander.panels == old(app)@.commander.panels,
        final(app)@.commander.active == old(app)@.commander.active,
{
    let ghost a = app@;
    let total: usize = app.commander.panels.len();
    size_caches(&mut app.commander);
    let ghost start = app@;
    let mut i: usize = 0;
    while i < total
        invariant
            i <= total,
            total == start.commander.panels.len(),
            start.valid(),
            start.commander.watch_cache.len() == total,
            app@ == watched_upto(start, i as int),
            app@.valid(),
            same_but_watches(app@, start),
            app@.commander.watch_cache.len() == total,
        decreases total - i,
    {
        request_watch_group(app, i);
        i = i + 1;
        proof {
            lemma_watched_upto(start, i as int);
        }
    }
    let ghost files = app@;
    proof {
        lemma_watched_upto(start, total as int);
    }
    let mut k: usize = 0;
    while k < total
        invariant
            k <= total,
            total == files.commander.panels.len(),
            files.valid(),
            files.commander.watch_dir_keys.len() == total,
            files.commander.watch_dir_cache.len() == total,
            app@ == dirs_watched_upto(files, k as int),
            same_but_watches(app@, files),
            app@.commander.watch_dir_keys.len() == total,
            app@.commander.watch_dir_cache.len() == total,
        decreases total - k,
    {
        resolve_dir_group(app, k);
        k = k + 1;
        proof {
            lemma_dirs_watched_upto(files, k as int);
        }
    }
}

} // verus!
