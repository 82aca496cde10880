//! What is shown: rows, colors, counts and figures, said of the values that they stand for.

use vstd::prelude::*;

use crate::canvas::Color;
use crate::dedup::{DedupStatus, DirDedup};
use crate::entries::{EntryKind, EntryModel, Mark};
use crate::model::{ActionKind, ActionPlan, FileModel, PlannedAction};
use crate::panel::SceneModel;
use crate::path::{PathKey, PathView};
use crate::reclaim::ReclaimEstimate;
use crate::scan_diff::DiffReport;
use crate::state::WatchEmpty;
use crate::summary::ActionOutcome;

verus! {

// ---------------------------------------------------------------------------------------------
// Rows.
// ---------------------------------------------------------------------------------------------
/// A panel's row tells of its own entry: the mark that its path carries, the standing of its path,
/// and its size, where it is a file; a directory has no standing.
pub proof fn law_a_row_tells_of_its_entry(
    e: EntryModel,
    marks: Map<PathKey, Mark>,
    scene: SceneModel,
    width: u16,
    date: Seq<char>,
)
    ensures
        ({
            let spans = crate::panel::panel_row(e, marks, scene, width, date).lines[0].spans;
            let key = e.path.key();
            &&& spans.len() >= 11
            &&& !marks.dom().contains(key) ==> spans[0].text == seq![' ']
            &&& marks.contains_pair(key, Mark::Delete) ==> spans[0].text == seq!['D']
            &&& marks.contains_pair(key, Mark::Hardlink) ==> spans[0].text == seq!['H']
            &&& marks.contains_pair(key, Mark::Reflink) ==> spans[0].text == seq!['C']
            &&& marks.contains_pair(key, Mark::Keeper) ==> spans[0].text == seq!['K']
            &&& marks.contains_pair(key, Mark::Selected) ==> spans[0].text == seq!['*']
            &&& e.kind != EntryKind::File ==> spans[10].text == seq![' ']
            &&& e.kind == EntryKind::File ==> spans[10].text == seq![
                crate::dedup::status_glyph(
                    match scene.dedup {
                        Some(dir) => if dir.status@.dom().contains(key) {
                            dir.status@[key]
                        } else {
                            DedupStatus::NotInScan
                        },
                        None => DedupStatus::NotInScan,
                    },
                ),
            ]
            &&& e.kind == EntryKind::File ==> spans[6].text == crate::text::padded_left(
                crate::panel::size_columns(e.size as nat),
                10,
            )
            &&& spans[8].text == crate::text::padded_left(
                if e.mtime > 0 {
                    date
                } else {
                    Seq::empty()
                },
                10,
            )
            &&& scene.compare_peer is Some <==> spans.len() == 13
        }),
{
}

/// A directory shows the size that was measured, else the one that the scan knows, else that it is
/// a directory.
pub proof fn law_a_measured_size_goes_first(path: PathView, scene: SceneModel, e: EntryModel)
    ensures
        scene.dir_sizes.dom().contains(path.key()) ==> crate::panel::known_size(path, scene)
            == Some(scene.dir_sizes[path.key()]),
        !scene.dir_sizes.dom().contains(path.key()) && scene.dedup is None
            ==> crate::panel::known_size(path, scene) is None,
        !scene.dir_sizes.dom().contains(path.key()) ==> (scene.dedup matches Some(dir) ==> (
        dir.dir_sizes@.dom().contains(path.key()) ==> crate::panel::known_size(path, scene) == Some(
            dir.dir_sizes@[path.key()],
        ))),
        e.kind == EntryKind::Dir ==> crate::panel::size_shown(e, None) == "<DIR>"@,
        e.kind == EntryKind::Parent ==> crate::panel::size_shown(e, None).len() == 0,
{
}

/// A file's name is shown in two columns, parted at its last dot: together they are the name, and
/// the extension holds no dot. A name without a dot inside it has one column.
pub proof fn law_a_name_is_parted_at_its_last_dot(e: EntryModel)
    requires
        e.kind == EntryKind::File,
    ensures
        ({
            let (stem, extension) = crate::panel::name_columns(e);
            &&& e.name == stem && extension.len() == 0 || e.name == stem + seq!['.'] + extension
                && stem.len() > 0
            &&& !extension.contains('.')
            &&& (exists|i: int| 0 < i < e.name.len() && #[trigger] e.name[i] == '.') ==> e.name
                == stem + seq!['.'] + extension
        }),
{
    crate::entries::lemma_last_dot(e.name);
    let (stem, extension) = crate::panel::name_columns(e);
    let dot = crate::entries::last_dot(e.name);
    if dot > 0 {
        assert(e.name =~= stem + seq!['.'] + extension);
        if extension.contains('.') {
            let k = choose|k: int| 0 <= k < extension.len() && extension[k] == '.';
            assert(e.name[dot + 1 + k] == '.');
        }
    }
}

/// Each mark and each standing has its color: delete is red, links are cyan, what is kept or
/// selected is green; a verified duplicate is yellow and a dangerous one red.
pub proof fn law_the_colors_tell(mark: Mark, status: DedupStatus)
    ensures
        crate::panel::mark_color(mark) == Color::Red <==> mark == Mark::Delete,
        crate::panel::mark_color(mark) == Color::Cyan <==> mark == Mark::Hardlink || mark
            == Mark::Reflink,
        crate::panel::mark_color(mark) == Color::Green <==> mark == Mark::Keeper || mark
            == Mark::Selected,
        crate::panel::status_color(status) == Color::Yellow <==> status == DedupStatus::VerifiedDup,
        crate::panel::status_color(status) == Color::Red <==> status == DedupStatus::DangerousDup,
        crate::panel::status_color(status) == Color::Gray <==> status == DedupStatus::HashedUnique,
        crate::panel::status_color(status) == Color::Rgb(255, 140, 0) <==> status
            == DedupStatus::LikelyDuplicate,
{
}

/// A name has the color of its mark, and without one that of its standing; a directory is blue.
pub proof fn law_a_name_is_colored_by_its_mark_first(
    e: EntryModel,
    status: DedupStatus,
    mark: Mark,
)
    ensures
        e.kind != EntryKind::File ==> crate::panel::name_color(e, status, Some(mark))
            == Color::Blue,
        e.kind == EntryKind::File ==> crate::panel::name_color(e, status, Some(mark))
            == crate::panel::mark_color(mark),
        e.kind == EntryKind::File && status != DedupStatus::NotInScan && status
            != DedupStatus::Unavailable ==> crate::panel::name_color(e, status, None)
            == crate::panel::status_color(status),
        e.kind == EntryKind::File && (status == DedupStatus::NotInScan || status
            == DedupStatus::Unavailable) ==> crate::panel::name_color(e, status, None)
            == Color::Reset,
{
}

/// Why a panel of duplicates is empty is told apart.
pub proof fn law_an_empty_panel_says_why(empty: WatchEmpty, id: i64)
    ensures
        empty == WatchEmpty::NoSource ==> crate::panel::duplicates_message(empty, Some(id))
            == "no source — need a «files» or «directories» panel with a cursor on the left"@
            && crate::panel::group_files_message(empty)
            == "no source — need a «groups» panel on the left"@,
        empty == WatchEmpty::NotInScan ==> crate::panel::duplicates_message(empty, Some(id))
            == "under the cursor — out of scan #"@ + crate::text::signed_decimal(id as int)
            && crate::panel::duplicates_message(empty, None)
            == "under the cursor — no scan data"@ && crate::panel::group_files_message(empty)
            == "group selected, but it's not in the scan"@,
        empty == WatchEmpty::NoDuplicates ==> crate::panel::duplicates_message(empty, Some(id))
            == "no dupes at the cursor"@ && crate::panel::group_files_message(empty)
            == "group has no files"@,
{
}

// ---------------------------------------------------------------------------------------------
// Counts.
// ---------------------------------------------------------------------------------------------
/// A percentage is rounded down; of nothing there is none.
pub proof fn law_a_percentage_is_rounded_down(part: nat, whole: nat)
    ensures
        crate::panel::percent_of(part, whole) is None <==> whole == 0,
        crate::panel::percent_of(part, whole) matches Some(p) ==> p * whole <= part * 100 < (p + 1)
            * whole,
{
    if whole > 0 {
        let n = (part * 100) as int;
        let w = whole as int;
        assert((n / w) * w <= n < (n / w + 1) * w) by (nonlinear_arith)
            requires
                w > 0,
        ;
    }
}

/// The files counted are the entries that are files; the hashed ones among them are those whose
/// standing rests on their content.
pub proof fn law_the_files_are_counted(entries: Seq<EntryModel>, dir: Option<DirDedup>)
    ensures
        crate::panel::files_among(entries) == entries.filter(
            |e: EntryModel| e.kind == EntryKind::File,
        ).len(),
        crate::panel::hashed_among(entries, dir) == entries.filter(
            |e: EntryModel|
                e.kind == EntryKind::File && (crate::panel::status_in(dir, e.path)
                    == DedupStatus::HashedUnique || crate::panel::status_in(dir, e.path)
                    == DedupStatus::VerifiedDup || crate::panel::status_in(dir, e.path)
                    == DedupStatus::DangerousDup),
        ).len(),
        crate::panel::hashed_among(entries, dir) <= crate::panel::files_among(entries),
    decreases entries.len(),
{
    reveal(Seq::filter);
    if entries.len() > 0 {
        law_the_files_are_counted(entries.drop_last(), dir);
    }
}

/// The actions of a kind are counted, each once.
pub proof fn law_the_actions_are_counted(actions: Seq<PlannedAction>, kind: ActionKind)
    ensures
        crate::state::count_of(actions, kind) == actions.filter(
            |a: PlannedAction| a.kind == kind,
        ).len(),
    decreases actions.len(),
{
    reveal(Seq::filter);
    if actions.len() > 0 {
        law_the_actions_are_counted(actions.drop_last(), kind);
    }
}

/// What is asked to be confirmed is the plan's: every kind of action with its number, the first
/// targets with what is to be done to them, and the figures of its summary.
pub proof fn law_the_digest_is_the_plans(plan: ActionPlan, kind: ActionKind, n: usize, i: int)
    requires
        plan.actions@.len() <= usize::MAX,
    ensures
        ({
            let digest = crate::state::plan_digest(plan);
            let counted = plan.actions@.filter(|a: PlannedAction| a.kind == kind).len();
            &&& digest.counts.contains((kind, n)) <==> n == counted && n > 0
            &&& 0 <= i < digest.samples.len() ==> digest.samples[i] == (
                plan.actions@[i].kind,
                plan.actions@[i].target@,
            )
            &&& digest.samples.len() + digest.hidden == plan.actions@.len()
            &&& digest.samples.len() == 5 || digest.hidden == 0
            &&& digest.covered_objects == plan.summary.covered_objects
            &&& digest.reclaim == plan.summary.estimate.guaranteed
        }),
{
    let actions = plan.actions@;
    law_the_actions_are_counted(actions, kind);
    lemma_no_more_than_all(actions, kind);
    let digest = crate::state::plan_digest(plan);
    let d = crate::state::counted(actions, ActionKind::Delete);
    let h = crate::state::counted(actions, ActionKind::Hardlink);
    let r = crate::state::counted(actions, ActionKind::Reflink);
    assert(digest.counts == d + h + r);
    if n == crate::state::count_of(actions, kind) && n > 0 {
        let at = match kind {
            ActionKind::Delete => 0,
            ActionKind::Hardlink => d.len() as int,
            ActionKind::Reflink => (d + h).len() as int,
        };
        assert(digest.counts[at] == (kind, n));
    }
    if digest.counts.contains((kind, n)) {
        let k = choose|k: int| 0 <= k < digest.counts.len() && digest.counts[k] == (kind, n);
        if k < d.len() {
            assert(digest.counts[k] == d[k]);
        } else if k < d.len() + h.len() {
            assert(digest.counts[k] == h[k - d.len()]);
        } else {
            assert(digest.counts[k] == r[k - d.len() - h.len()]);
        }
    }
}

proof fn lemma_no_more_than_all(actions: Seq<PlannedAction>, kind: ActionKind)
    ensures
        crate::state::count_of(actions, kind) <= actions.len(),
    decreases actions.len(),
{
    if actions.len() > 0 {
        lemma_no_more_than_all(actions.drop_last(), kind);
    }
}

/// The failures counted are the outcomes that are errors.
pub proof fn law_the_failures_are_counted(outcomes: Seq<ActionOutcome>)
    ensures
        crate::summary::failures(outcomes) == outcomes.filter(
            |o: ActionOutcome| o.result is Err,
        ).len(),
    decreases outcomes.len(),
{
    reveal(Seq::filter);
    if outcomes.len() > 0 {
        law_the_failures_are_counted(outcomes.drop_last());
    }
}

/// The originals named are those that were put into quarantine: each of them, and no other.
pub proof fn law_the_originals_are_named(outcomes: Seq<ActionOutcome>, path: PathView)
    ensures
        crate::summary::originals_of(outcomes).contains(path) <==> exists|i: int|
            0 <= i < outcomes.len() && ((#[trigger] outcomes[i]).quarantine matches Some(kept)
                && kept@ == path),
    decreases outcomes.len(),
{
    if outcomes.len() > 0 {
        let inner = outcomes.drop_last();
        law_the_originals_are_named(inner, path);
        let before = crate::summary::originals_of(inner);
        let all = crate::summary::originals_of(outcomes);
        assert(outcomes[outcomes.len() - 1] == outcomes.last());
        if before.contains(path) {
            let k = choose|k: int| 0 <= k < before.len() && before[k] == path;
            assert(all[k] == path);
            let i = choose|i: int|
                0 <= i < inner.len() && ((#[trigger] inner[i]).quarantine matches Some(kept)
                    && kept@ == path);
            assert(outcomes[i] == inner[i]);
        }
        if outcomes.last().quarantine matches Some(kept) && kept@ == path {
            assert(all[before.len() as int] == path);
        }
        if exists|i: int|
            0 <= i < outcomes.len() && ((#[trigger] outcomes[i]).quarantine matches Some(kept)
                && kept@ == path) {
            let i = choose|i: int|
                0 <= i < outcomes.len() && ((#[trigger] outcomes[i]).quarantine matches Some(kept)
                    && kept@ == path);
            if i < inner.len() {
                assert(inner[i] == outcomes[i]);
            }
        }
    }
}

// ---------------------------------------------------------------------------------------------
// Figures.
// ---------------------------------------------------------------------------------------------
/// A size is told in the largest unit that it fills once: bytes, and the powers of 1024 above.
pub proof fn law_a_size_is_told_in_its_unit(b: nat)
    ensures
        ({
            let unit = crate::units::unit_bytes(crate::units::unit_index(b));
            let name = crate::units::unit_name(crate::units::unit_index(b));
            &&& b > 0 ==> unit <= b
            &&& b < 0x400_0000_0000_0000 && b >= 0x100_0000_0000 ==> unit == 0x100_0000_0000
            &&& b < 0x100_0000_0000 ==> b < 1024 * unit
            &&& unit == 1 ==> name == "B"@
            &&& unit == 1024 ==> name == "KiB"@
            &&& unit == 1024 * 1024 ==> name == "MiB"@
            &&& unit == 1024 * 1024 * 1024 ==> name == "GiB"@
            &&& unit == 1024 * 1024 * 1024 * 1024 ==> name == "TiB"@
            &&& unit == 1 || unit == 1024 || unit == 1024 * 1024 || unit == 1024 * 1024 * 1024
                || unit == 1024 * 1024 * 1024 * 1024
        }),
{
}

/// The number before the unit is the size in tenths of the unit, to the nearest tenth; bytes are
/// told exactly.
pub proof fn law_a_size_is_told_to_the_tenth(b: nat) -> (tenths: nat)
    requires
        b < 0x20_0000_0000_0000,
    ensures
        b < 1024 ==> crate::units::size_text(b) == crate::text::decimal(b) + " "@ + "B"@,
        b >= 1024 ==> crate::units::size_text(b) == crate::text::decimal(tenths / 10) + seq!['.']
            + crate::text::decimal(tenths % 10) + " "@ + crate::units::unit_name(
            crate::units::unit_index(b),
        ),
        b >= 1024 ==> ({
            let unit = crate::units::unit_bytes(crate::units::unit_index(b)) as int;
            2 * (10 * b - tenths * unit) <= unit && 2 * (tenths * unit - 10 * b) <= unit
        }),
{
    let unit = crate::units::unit_bytes(crate::units::unit_index(b));
    let tenths = crate::units::round_half_even(10 * b, unit);
    assert(crate::units::double_spacing(b, 1) == 1);
    assert(crate::units::round_half_even(b, 1) == b) by {
        assert(b / 1 == b && b % 1 == 0);
    }
    assert(crate::units::nearest_double(b) == b);
    lemma_nearest(10 * b, unit);
    tenths
}

proof fn lemma_nearest(n: nat, d: nat)
    requires
        d > 0,
    ensures
        ({
            let r = crate::units::round_half_even(n, d) as int;
            2 * (n - r * d) <= d && 2 * (r * d - n) <= d
        }),
{
    let q = (n / d) as int;
    let r = (n % d) as int;
    let e = d as int;
    assert(n == q * e + r && 0 <= r < e) by (nonlinear_arith)
        requires
            q == n as int / e,
            r == n as int % e,
            e > 0,
    ;
    assert((q + 1) * e == q * e + e) by (nonlinear_arith);
}

/// A time is told in hours and minutes, in minutes and seconds, or in seconds, whichever is the
/// first that it fills.
pub proof fn law_a_time_is_told_in_its_parts(hours: nat, minutes: nat, secs: nat)
    requires
        minutes < 60,
        secs < 60,
    ensures
        ({
            let words = crate::units::duration_words(3600 * hours + 60 * minutes + secs);
            &&& hours > 0 ==> words == crate::text::decimal(hours) + "h"@
                + crate::text::two_digits(minutes) + "m"@
            &&& hours == 0 && minutes > 0 ==> words == crate::text::decimal(minutes) + "m"@
                + crate::text::two_digits(secs) + "s"@
            &&& hours == 0 && minutes == 0 ==> words == crate::text::decimal(secs) + "s"@
        }),
{
    let total = 3600 * hours + 60 * minutes + secs;
    assert(total / 3600 == hours);
    assert(total % 3600 == 60 * minutes + secs);
    assert((total % 3600) / 60 == minutes);
    assert(total % 60 == secs);
}

/// Numbers are written in decimal, read from the last digit.
pub proof fn law_a_number_is_written_in_decimal(n: nat)
    ensures
        crate::text::decimal(n).len() > 0,
        n % 10 == 0 <==> crate::text::decimal(n).last() == '0',
        n % 10 == 1 <==> crate::text::decimal(n).last() == '1',
        n % 10 == 2 <==> crate::text::decimal(n).last() == '2',
        n % 10 == 3 <==> crate::text::decimal(n).last() == '3',
        n % 10 == 4 <==> crate::text::decimal(n).last() == '4',
        n % 10 == 5 <==> crate::text::decimal(n).last() == '5',
        n % 10 == 6 <==> crate::text::decimal(n).last() == '6',
        n % 10 == 7 <==> crate::text::decimal(n).last() == '7',
        n % 10 == 8 <==> crate::text::decimal(n).last() == '8',
        n % 10 == 9 <==> crate::text::decimal(n).last() == '9',
        n < 10 <==> crate::text::decimal(n).len() == 1,
        n >= 10 ==> crate::text::decimal(n).drop_last() == crate::text::decimal(n / 10),
{
    if n >= 10 {
        let shorter = crate::text::decimal(n / 10);
        assert(shorter.len() > 0) by {
            reveal_with_fuel(crate::text::decimal, 2);
        }
        assert(crate::text::decimal(n).drop_last() =~= shorter);
    }
}

/// What several estimates guarantee is the sum of what each does, in whatever parts it is taken.
pub proof fn law_the_guarantees_add_up(a: Seq<ReclaimEstimate>, b: Seq<ReclaimEstimate>, e: ReclaimEstimate)
    ensures
        crate::reclaim::total_guaranteed(seq![e]) == e.guaranteed,
        crate::reclaim::total_guaranteed(a + b) == crate::reclaim::total_guaranteed(a)
            + crate::reclaim::total_guaranteed(b),
        crate::reclaim::total_potential(a + b) == crate::reclaim::total_potential(a)
            + crate::reclaim::total_potential(b),
        e.potential matches Some(ceiling) ==> crate::reclaim::total_potential(seq![e]) == ceiling,
        crate::reclaim::any_unknown(a + b) <==> crate::reclaim::any_unknown(a)
            || crate::reclaim::any_unknown(b),
    decreases b.len(),
{
    reveal_with_fuel(crate::reclaim::total_guaranteed, 2);
    reveal_with_fuel(crate::reclaim::total_potential, 2);
    assert(seq![e].drop_last() =~= Seq::empty());
    assert forall|i: int| 0 <= i < a.len() implies (#[trigger] a[i]) == (a + b)[i] by {}
    assert forall|i: int| 0 <= i < b.len() implies (#[trigger] b[i]) == (a + b)[a.len() + i] by {}
    if crate::reclaim::any_unknown(a + b) {
        let i = choose|i: int| 0 <= i < (a + b).len() && (#[trigger] (a + b)[i]).potential is None;
        if i < a.len() {
            assert(a[i].potential is None);
        } else {
            assert(b[i - a.len()].potential is None);
        }
    }
    if crate::reclaim::any_unknown(a) {
        let i = choose|i: int| 0 <= i < a.len() && (#[trigger] a[i]).potential is None;
        assert((a + b)[i].potential is None);
    }
    if crate::reclaim::any_unknown(b) {
        let i = choose|i: int| 0 <= i < b.len() && (#[trigger] b[i]).potential is None;
        assert((a + b)[a.len() + i].potential is None);
    }
    if b.len() == 0 {
        assert(a + b =~= a);
    } else {
        law_the_guarantees_add_up(a, b.drop_last(), e);
        assert((a + b).drop_last() =~= a + b.drop_last());
        assert((a + b).last() == b.last());
    }
}

// ---------------------------------------------------------------------------------------------
// Groups.
// ---------------------------------------------------------------------------------------------
/// The keeper is the first file that is marked so.
pub proof fn law_the_keeper_is_the_first_marked(files: Seq<FileModel>, at: int)
    requires
        0 <= at < files.len(),
        files[at].is_keeper,
        forall|i: int| 0 <= i < at ==> !(#[trigger] files[i]).is_keeper,
    ensures
        crate::browser::keeper_index(files) == at,
    decreases at,
{
    if at > 0 {
        assert(!files[0].is_keeper);
        let rest = files.drop_first();
        assert(rest[at - 1] == files[at]);
        assert forall|i: int| 0 <= i < at - 1 implies !(#[trigger] rest[i]).is_keeper by {
            assert(rest[i] == files[i + 1]);
        }
        law_the_keeper_is_the_first_marked(rest, at - 1);
    }
}

/// The sign before a file tells what will happen to it: a star that it is kept, `=` that it shares
/// its content with the kept one already, else the action that is marked.
pub proof fn law_the_sign_tells_the_action(file: FileModel, linked: bool)
    ensures
        ({
            let sign = crate::browser::file_prefix(file, linked).text;
            &&& file.is_keeper ==> sign == "★ "@
            &&& !file.is_keeper && linked ==> sign == "= "@
            &&& !file.is_keeper && !linked && file.action == Some(ActionKind::Delete) ==> sign
                == "x "@
            &&& !file.is_keeper && !linked && file.action == Some(ActionKind::Hardlink) ==> sign
                == "h "@
            &&& !file.is_keeper && !linked && file.action == Some(ActionKind::Reflink) ==> sign
                == "c "@
            &&& !file.is_keeper && !linked && file.action is None ==> sign == "  "@
        }),
        ({
            let remark = crate::browser::file_suffix(file, linked);
            &&& file.is_keeper ==> (remark matches Some(s) && s.text == "  (keeper)"@)
            &&& !file.is_keeper && linked ==> (remark matches Some(s) && s.text
                == "  (already linked — 0 payoff)"@)
            &&& !file.is_keeper && !linked && file.action is None ==> remark is None
            &&& !file.is_keeper && !linked ==> (file.action matches Some(kind) ==> (
            remark matches Some(s) && s.text == "  -> "@ + crate::model::action_label(kind)))
        }),
{
}

/// A path is parted at its last slash: together the parts are the path, and the name holds none.
pub proof fn law_a_path_is_parted_at_its_last_slash(t: Seq<char>)
    ensures
        crate::browser::dir_part(t) + crate::browser::name_part(t) == t,
        !crate::browser::name_part(t).contains('/'),
        crate::browser::dir_part(t).len() > 0 ==> crate::browser::dir_part(t).last() == '/',
        t.contains('/') ==> crate::browser::dir_part(t).len() > 0,
    decreases t.len(),
{
    let slash = crate::browser::last_slash(t);
    lemma_last_slash(t);
    assert(crate::browser::dir_part(t) + crate::browser::name_part(t) =~= t);
    let name = crate::browser::name_part(t);
    if name.contains('/') {
        let k = choose|k: int| 0 <= k < name.len() && name[k] == '/';
        assert(t[slash + 1 + k] == '/');
    }
}

proof fn lemma_last_slash(t: Seq<char>)
    ensures
        -1 <= crate::browser::last_slash(t) < t.len(),
        crate::browser::last_slash(t) >= 0 ==> t[crate::browser::last_slash(t)] == '/',
        forall|i: int| crate::browser::last_slash(t) < i < t.len() ==> #[trigger] t[i] != '/',
    decreases t.len(),
{
    if t.len() > 0 && t.last() != '/' {
        let shorter = t.drop_last();
        lemma_last_slash(shorter);
        assert forall|i: int| crate::browser::last_slash(t) < i < t.len() implies #[trigger] t[i]
            != '/' by {
            if i < shorter.len() {
                assert(shorter[i] == t[i]);
            }
        }
    }
}

/// Differing names are each listed once, in the order in which they first come.
pub proof fn law_the_names_are_listed_once(names: Seq<Seq<char>>, name: Seq<char>)
    ensures
        crate::browser::distinct(names).contains(name) <==> names.contains(name),
        crate::browser::distinct(names).no_duplicates(),
    decreases names.len(),
{
    if names.len() > 0 {
        let inner = names.drop_last();
        law_the_names_are_listed_once(inner, name);
        law_the_names_are_listed_once(inner, names.last());
        let before = crate::browser::distinct(inner);
        let all = crate::browser::distinct(names);
        assert(names[names.len() - 1] == names.last());
        if all != before {
            assert(all == before.push(names.last()));
            assert(all[before.len() as int] == names.last());
        }
        if before.contains(name) {
            let k = choose|k: int| 0 <= k < before.len() && before[k] == name;
            assert(all[k] == name);
        }
        if inner.contains(name) {
            let k = choose|k: int| 0 <= k < inner.len() && inner[k] == name;
            assert(names[k] == name);
        }
        if names.contains(name) {
            let k = choose|k: int| 0 <= k < names.len() && names[k] == name;
            if k < inner.len() {
                assert(inner[k] == name);
            }
        }
    }
}

/// A line of a plan names the action, the target and its size.
pub proof fn law_a_planned_line_names_its_action(action: PlannedAction)
    ensures
        crate::review::action_text(action) == crate::text::padded_right(
            crate::model::action_label(action.kind),
            9,
        ) + "  "@ + action.target@.shown_safely() + "   ("@ + crate::units::size_text(
            action.size as nat,
        ) + ")"@,
        action.kind == ActionKind::Delete ==> crate::model::action_label(action.kind) == "DELETE"@,
        action.kind == ActionKind::Hardlink ==> crate::model::action_label(action.kind)
            == "HARDLINK"@,
        action.kind == ActionKind::Reflink ==> crate::model::action_label(action.kind)
            == "REFLINK"@,
{
}

// ---------------------------------------------------------------------------------------------
// Differences between scans.
// ---------------------------------------------------------------------------------------------
/// Each category lists the changes that its name says.
pub proof fn law_a_category_lists_its_changes(report: DiffReport)
    ensures
        crate::scan_diff::category_name(0) == "New duplicates"@ && crate::scan_diff::changes_in(
            report,
            0,
        ) == report.new_dup_candidates@,
        crate::scan_diff::category_name(1) == "Moved (inode)"@ && crate::scan_diff::changes_in(
            report,
            1,
        ) == report.moved_inode@,
        crate::scan_diff::category_name(2) == "Moved (hash)"@ && crate::scan_diff::changes_in(
            report,
            2,
        ) == report.moved_hash@,
        crate::scan_diff::category_name(3) == "Modified"@ && crate::scan_diff::changes_in(report, 3)
            == report.modified@,
        crate::scan_diff::category_name(4) == "Deleted"@ && crate::scan_diff::changes_in(report, 4)
            == report.deleted@,
        crate::scan_diff::category_name(5) == "New"@ && crate::scan_diff::changes_in(report, 5)
            == report.new@,
{
}

/// A scan's figure is the sum of its groups' where every group has one and the sums fit; one group
/// without a figure leaves the scan without one.
pub proof fn law_a_scans_figure_is_the_sum(
    parts: &[ReclaimEstimate],
    r: Option<ReclaimEstimate>,
)
    requires
        call_ensures(ReclaimEstimate::for_fresh_scan, (parts,), r),
        crate::reclaim::total_guaranteed(parts@) <= u64::MAX,
        crate::reclaim::total_potential(parts@) <= u64::MAX,
    ensures
        r matches Some(total) && (crate::reclaim::any_unknown(parts@) ==> total.guaranteed == 0
            && total.potential is None) && (!crate::reclaim::any_unknown(parts@)
            ==> total.guaranteed == crate::reclaim::total_guaranteed(parts@) && (
        total.potential matches Some(ceiling) && ceiling == crate::reclaim::total_potential(
            parts@,
        ))),
{
}

/// The matches counted are the files that the other panel has too, with the same content or the
/// same size and date.
pub proof fn law_the_matches_are_counted(
    entries: Seq<EntryModel>,
    peer: Map<Seq<char>, crate::panel::ComparePeer>,
    dir: Option<DirDedup>,
)
    ensures
        crate::panel::matched_among(entries, peer, dir) == entries.filter(
            |e: EntryModel|
                e.kind == EntryKind::File && (crate::panel::comparison(e, peer, dir).0 == '='
                    || crate::panel::comparison(e, peer, dir).0 == '≈'),
        ).len(),
    decreases entries.len(),
{
    reveal(Seq::filter);
    if entries.len() > 0 {
        law_the_matches_are_counted(entries.drop_last(), peer, dir);
    }
}

/// What is too long for its column keeps its beginning, with an ellipsis behind it.
pub proof fn law_a_fitted_text_keeps_its_beginning(t: Seq<char>, width: int)
    requires
        0 < width < t.len(),
    ensures
        crate::text::fitted(t, width).len() == width,
        crate::text::fitted(t, width).last() == '…',
        crate::text::fitted(t, width).drop_last() == t.take(width - 1),
{
    assert(crate::text::fitted(t, width).drop_last() =~= t.take(width - 1));
}

/// Padding only adds spaces, behind the text or before it, up to the width.
pub proof fn law_padding_only_adds_spaces(t: Seq<char>, width: int, i: int)
    requires
        t.len() <= width,
    ensures
        crate::text::padded_right(t, width).len() == width,
        crate::text::padded_left(t, width).len() == width,
        crate::text::padded_right(t, width).take(t.len() as int) == t,
        crate::text::padded_left(t, width).skip(width - t.len()) == t,
        t.len() <= i < width ==> crate::text::padded_right(t, width)[i] == ' ',
        0 <= i < width - t.len() ==> crate::text::padded_left(t, width)[i] == ' ',
{
    assert(crate::text::padded_right(t, width).take(t.len() as int) =~= t);
    assert(crate::text::padded_left(t, width).skip(width - t.len()) =~= t);
}

/// An age is told in minutes, hours or days, rounded down, by the largest of them that it fills.
pub proof fn law_an_age_is_told_in_its_unit(n: nat, rest: nat, day: Seq<char>)
    requires
        n > 0,
    ensures
        rest < 60 && n < 60 ==> crate::moments::age_words(60 * n + rest, day)
            == crate::text::decimal(n) + " min ago"@,
        rest < 3600 && n < 24 ==> crate::moments::age_words(3600 * n + rest, day)
            == crate::text::decimal(n) + " h ago"@,
        rest < 86400 && n < 7 ==> crate::moments::age_words(86400 * n + rest, day)
            == crate::text::decimal(n) + " d ago"@,
        rest < 60 ==> crate::moments::age_words(rest, day) == "just now"@,
{
}

/// A hash is written two digits a byte, the high half first, in lower case.
pub proof fn law_a_hash_is_written_in_hex(bytes: Seq<u8>, last: u8)
    ensures
        crate::text::hex_text(bytes.push(last)).len() == crate::text::hex_text(bytes).len() + 2,
        crate::text::hex_text(bytes.push(last)).take(crate::text::hex_text(bytes).len() as int)
            == crate::text::hex_text(bytes),
        crate::text::hex_text(bytes.push(last)).last() == crate::text::digit(last as int % 16),
        crate::text::hex_text(bytes.push(last))[crate::text::hex_text(bytes).len() as int]
            == crate::text::digit(last as int / 16),
{
    assert(bytes.push(last).drop_last() =~= bytes);
    assert(crate::text::hex_text(bytes.push(last)).take(
        crate::text::hex_text(bytes).len() as int,
    ) =~= crate::text::hex_text(bytes));
}

} // verus!
