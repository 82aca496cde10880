//! Panels that follow another panel's cursor: what they follow, what is asked and what is shown.

use vstd::prelude::*;

use crate::answers::WatchAnswer;
use crate::app::{AppModel, CommanderModel, EffectModel};
use crate::entries::{EntryKind, PanelView};
use crate::state::{WatchEmpty, WatchKeyModel};

verus! {

/// A panel of duplicates follows the panel on its left, and the first one the active panel: the
/// file under the cursor, or the directory; `..`, an empty panel and one that shows no entries
/// give it nothing to follow.
pub proof fn law_duplicates_follow_the_cursor(c: CommanderModel, i: int, at: int)
    requires
        c.valid(),
        0 <= i < c.panels.len(),
        c.panels[i].view == PanelView::DuplicatesOfCursor,
    ensures
        ({
            let source = if i > 0 {
                c.panels[i - 1]
            } else {
                c.panels[c.active as int]
            };
            let entries = source.view == PanelView::Files || source.view == PanelView::DirsOnly;
            let on = entries && 0 <= at < source.entries.len() <= usize::MAX && source.list.selected
                == Some(at as usize);
            let key = crate::watch::watch_key(c, i);
            &&& on && source.entries[at].kind == EntryKind::File ==> key == Ok::<
                WatchKeyModel,
                WatchEmpty,
            >(WatchKeyModel::DupOf(source.entries[at].path))
            &&& on && source.entries[at].kind == EntryKind::Dir ==> key == Ok::<
                WatchKeyModel,
                WatchEmpty,
            >(WatchKeyModel::DirOf(source.entries[at].path))
            &&& on && source.entries[at].kind == EntryKind::Parent ==> key is Err
            &&& !entries || source.entries.len() == 0 ==> key is Err
        }),
{
}

/// The files of a group are those of the group under the cursor of the group list on the left.
pub proof fn law_group_files_follow_the_group_list(c: CommanderModel, i: int)
    requires
        c.valid(),
        0 <= i < c.panels.len(),
        c.panels[i].view == PanelView::GroupFiles,
    ensures
        ({
            let key = crate::watch::watch_key(c, i);
            &&& i > 0 && c.panels[i - 1].view == PanelView::GroupList ==> (
            c.panels[i - 1].list.selected matches Some(at) ==> key == Ok::<
                WatchKeyModel,
                WatchEmpty,
            >(WatchKeyModel::Group(at)))
            &&& i == 0 || c.panels[i - 1].view != PanelView::GroupList
                || c.panels[i - 1].list.selected is None ==> key is Err
        }),
{
}

/// No other mode follows anything.
pub proof fn law_other_modes_follow_nothing(c: CommanderModel, i: int)
    requires
        0 <= i < c.panels.len(),
        c.panels[i].view != PanelView::DuplicatesOfCursor,
        c.panels[i].view != PanelView::GroupFiles,
    ensures
        crate::watch::watch_key(c, i) is Err,
{
}

/// What is followed is asked about under its own name: the group by the identity of the row, the
/// file and the directory by their paths; without a scan nothing is asked.
pub proof fn law_the_question_is_about_what_is_followed(
    c: CommanderModel,
    panel: usize,
    key: WatchKeyModel,
)
    ensures
        ({
            let asked = crate::watch::watch_question(c, panel, key);
            &&& c.dedup_scan_id is None ==> asked is None
            &&& c.dedup_scan_id is Some ==> match key {
                WatchKeyModel::Group(at) => if at < c.group_ids.len() {
                    asked == Some(EffectModel::WatchGroup { panel, id: c.group_ids[at as int] })
                } else {
                    asked is None
                },
                WatchKeyModel::DupOf(path) => asked == Some(EffectModel::WatchFile { panel, path }),
                WatchKeyModel::DirOf(path) => asked == Some(EffectModel::WatchDir { panel, path }),
            }
        }),
{
}

/// A panel whose source changed forgets what it showed and asks about the new one; a panel whose
/// source stayed keeps what it shows and asks nothing. The other panels are left alone.
pub proof fn law_a_new_source_is_asked_about(a: AppModel, i: int, key: WatchKeyModel, j: int)
    requires
        a.valid(),
        0 <= i < a.commander.panels.len(),
        a.commander.watch_cache.len() == a.commander.panels.len(),
        crate::watch::watch_key(a.commander, i) == Ok::<WatchKeyModel, WatchEmpty>(key),
        0 <= j < a.commander.panels.len(),
        j != i,
    ensures
        ({
            let b = crate::watch::watched(a, i);
            let kept = match a.commander.watch_cache[i].key {
                Some(old_key) => old_key.id() == key.id(),
                None => false,
            };
            let asked = crate::watch::watch_question(a.commander, i as usize, key);
            &&& kept ==> b == a
            &&& !kept ==> b.commander.watch_cache[i].key == Some(key)
                && b.commander.watch_cache[i].result is None
                && b.commander.watch_cache[i].unavailable is None && b.outbox == (match asked {
                Some(effect) => a.outbox.push(effect),
                None => a.outbox,
            })
            &&& b.commander.watch_cache[j] == a.commander.watch_cache[j]
            &&& b.commander.panels == a.commander.panels
        }),
{
}

/// An answer is shown in the panel that asked, while it still follows what was asked about, and
/// as it was given; no other panel changes.
pub proof fn law_an_answer_is_shown_where_it_was_asked(
    a: AppModel,
    panel: usize,
    key: WatchKeyModel,
    answer: WatchAnswer,
    j: int,
)
    requires
        panel < a.commander.watch_cache.len(),
        0 <= j < a.commander.watch_cache.len(),
        j != panel,
    ensures
        ({
            let b = crate::answers::watch_settled(a, panel, key, answer);
            let follows = match a.commander.watch_cache[panel as int].key {
                Some(current) => current.id() == key.id(),
                None => false,
            };
            let shown = b.commander.watch_cache[panel as int];
            &&& !follows ==> b == a
            &&& follows ==> match answer {
                WatchAnswer::Found(result) => shown.result == Some(result) && shown.unavailable
                    is None,
                WatchAnswer::Nothing(reason) => shown.result is None && shown.empty == reason
                    && shown.unavailable is None,
                WatchAnswer::Failed(detail) => shown.result is None && (
                shown.unavailable matches Some(u) && u.detail == detail),
            }
            &&& follows ==> shown.key == Some(key)
            &&& b.commander.watch_cache[j] == a.commander.watch_cache[j]
            &&& b.outbox == a.outbox
        }),
{
}

/// The directories of a group are those of the directory group under the cursor of the list on the
/// left, asked for by its signature and only where that changed.
pub proof fn law_directory_groups_follow_their_list(a: AppModel, i: int, at: usize)
    requires
        a.valid(),
        0 < i < a.commander.panels.len(),
        a.commander.watch_dir_keys.len() == a.commander.panels.len(),
        a.commander.watch_dir_cache.len() == a.commander.panels.len(),
        a.commander.panels[i].view == PanelView::DirGroupFiles,
        a.commander.panels[i - 1].view == PanelView::DirGroupList,
        a.commander.panels[i - 1].list.selected == Some(at),
        at < a.commander.dir_group_summaries.len(),
    ensures
        ({
            let b = crate::watch::dir_watched(a, i);
            let signature = a.commander.dir_group_summaries[at as int].signature@;
            &&& a.commander.watch_dir_keys[i] == Some(signature) ==> b == a
            &&& a.commander.watch_dir_keys[i] != Some(signature) ==> b.outbox == a.outbox.push(
                EffectModel::OpenDirGroup { panel: i as usize, signature },
            ) && b.commander.watch_dir_keys[i] == Some(signature)
                && b.commander.watch_dir_cache[i] is None
        }),
{
}

/// An opened directory group is shown in the panel that asked, while it still wants that very
/// group, and in no other.
pub proof fn law_an_opened_group_is_shown_where_it_was_asked(
    a: AppModel,
    panel: usize,
    signature: Seq<char>,
    group: Option<crate::state::OpenDirGroup>,
    j: int,
)
    requires
        panel < a.commander.watch_dir_keys.len(),
        a.commander.watch_dir_keys.len() == a.commander.watch_dir_cache.len(),
        0 <= j < a.commander.watch_dir_cache.len(),
        j != panel,
    ensures
        ({
            let b = crate::answers::group_placed(a, panel, signature, group);
            let wanted = a.commander.watch_dir_keys[panel as int] == Some(signature);
            &&& wanted ==> b.commander.watch_dir_cache[panel as int] == group
            &&& !wanted ==> b == a
            &&& b.commander.watch_dir_cache[j] == a.commander.watch_dir_cache[j]
            &&& b.commander.watch_dir_keys == a.commander.watch_dir_keys && b.outbox == a.outbox
        }),
{
}

} // verus!
