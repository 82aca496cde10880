//! F11 — building and executing deduplication actions from panel marks.

use vstd::prelude::*;

use crate::app::{App, AppMode, AppModel, CommanderModel, Effect, EffectModel, MarkIntent, RequestedMark};
use crate::entries::Mark;
use crate::model::ActionPlan;
use crate::panels::{Panel, PanelModel};
use crate::path::{FilePath, PathKey, PathView};
use crate::state::{ConfirmScript, ConfirmScroll, ConfirmTab, Overlay, PlanDigest, ScriptModel};
use crate::text::lines_of;

verus! {

// ---------------------------------------------------------------------------------------------
// The marks that are submitted.
// ---------------------------------------------------------------------------------------------
/// What a mark asks the plan for; a selection asks for nothing.
pub open spec fn intent_of(mark: Mark) -> Option<MarkIntent> {
    match mark {
        Mark::Keeper => Some(MarkIntent::Keeper),
        Mark::Delete => Some(MarkIntent::Act(crate::model::ActionKind::Delete)),
        Mark::Hardlink => Some(MarkIntent::Act(crate::model::ActionKind::Hardlink)),
        Mark::Reflink => Some(MarkIntent::Act(crate::model::ActionKind::Reflink)),
        Mark::Selected => None,
    }
}

fn mark_intent(mark: Mark) -> (r: Option<MarkIntent>)
    ensures
        r == intent_of(mark),
{
    match mark {
        Mark::Keeper => Some(MarkIntent::Keeper),
        other => match other.action() {
            Some(kind) => Some(MarkIntent::Act(kind)),
            None => None,
        },
    }
}

/// What a panel submits for a path.
pub open spec fn panel_request(marks: Map<PathKey, Mark>, path: PathKey) -> Seq<
    (PathKey, MarkIntent),
> {
    if marks.dom().contains(path) {
        match intent_of(marks[path]) {
            Some(intent) => seq![(path, intent)],
            None => Seq::empty(),
        }
    } else {
        Seq::empty()
    }
}

/// What the panels submit for a path, in their order: it may be marked in more than one.
pub open spec fn requests_for(panels: Seq<PanelModel>, path: PathKey) -> Seq<(PathKey, MarkIntent)>
    decreases panels.len(),
{
    if panels.len() == 0 {
        Seq::empty()
    } else {
        requests_for(panels.drop_last(), path) + panel_request(panels.last().marks, path)
    }
}

/// The requests of a list that name a path.
pub open spec fn naming(requests: Seq<(PathKey, MarkIntent)>, path: PathKey) -> Seq<
    (PathKey, MarkIntent),
>
    decreases requests.len(),
{
    if requests.len() == 0 {
        Seq::empty()
    } else if requests.last().0 == path {
        naming(requests.drop_last(), path).push(requests.last())
    } else {
        naming(requests.drop_last(), path)
    }
}

/// Requests sorted by path.
pub open spec fn sorted_requests(requests: Seq<(PathKey, MarkIntent)>) -> bool {
    forall|i: int, j: int|
        0 <= i < j < requests.len() ==> !crate::order::path_before(
            (#[trigger] requests[j]).0,
            (#[trigger] requests[i]).0,
        )
}

/// The list that the panels submit: sorted by path, and under each path, however it is spelled,
/// exactly what the panels hold there.
pub open spec fn submitted(panels: Seq<PanelModel>, requests: Seq<(PathKey, MarkIntent)>) -> bool {
    &&& sorted_requests(requests)
    &&& forall|path: PathKey| #[trigger] naming(requests, path) == requests_for(panels, path)
}

proof fn lemma_naming_has(requests: Seq<(PathKey, MarkIntent)>, path: PathKey)
    ensures
        naming(requests, path).len() > 0 <==> exists|i: int|
            0 <= i < requests.len() && (#[trigger] requests[i]).0 == path,
    decreases requests.len(),
{
    if requests.len() > 0 {
        let front = requests.drop_last();
        lemma_naming_has(front, path);
        if requests.last().0 == path {
            assert(requests[requests.len() - 1].0 == path);
        } else {
            if naming(front, path).len() > 0 {
                let i = choose|i: int| 0 <= i < front.len() && (#[trigger] front[i]).0 == path;
                assert(requests[i].0 == path);
            }
            if exists|i: int| 0 <= i < requests.len() && (#[trigger] requests[i]).0 == path {
                let i = choose|i: int| 0 <= i < requests.len() && (#[trigger] requests[i]).0 == path;
                assert(front[i].0 == path);
            }
        }
    }
}

/// The panels submit one list and no other: the plan does not depend on the order in which marks
/// were set or are stored.
pub proof fn law_the_submission_is_unique(
    panels: Seq<PanelModel>,
    a: Seq<(PathKey, MarkIntent)>,
    b: Seq<(PathKey, MarkIntent)>,
)
    requires
        submitted(panels, a),
        submitted(panels, b),
    ensures
        a == b,
{
    assert forall|path: PathKey| #[trigger] naming(a, path) == naming(b, path) by {
        assert(naming(a, path) == requests_for(panels, path));
        assert(naming(b, path) == requests_for(panels, path));
    }
    lemma_same_lists(a, b);
}

proof fn lemma_same_lists(a: Seq<(PathKey, MarkIntent)>, b: Seq<(PathKey, MarkIntent)>)
    requires
        sorted_requests(a),
        sorted_requests(b),
        forall|path: PathKey| #[trigger] naming(a, path) == naming(b, path),
    ensures
        a == b,
    decreases a.len(),
{
    if a.len() == 0 {
        if b.len() > 0 {
            lemma_naming_has(b, b[0].0);
            assert(naming(a, b[0].0).len() == 0);
            assert(naming(a, b[0].0) == naming(b, b[0].0));
            assert(b[0].0 == b[0].0);
        }
        assert(a =~= b);
    } else if b.len() == 0 {
        lemma_naming_has(a, a[0].0);
        assert(naming(a, a[0].0) == naming(b, a[0].0));
        assert(a[0].0 == a[0].0);
        assert(false);
    } else {
        let x = a.last();
        let y = b.last();
        lemma_naming_has(a, x.0);
        lemma_naming_has(a, y.0);
        lemma_naming_has(b, x.0);
        lemma_naming_has(b, y.0);
        assert(a[a.len() - 1].0 == x.0 && b[b.len() - 1].0 == y.0);
        assert(naming(a, x.0) == naming(b, x.0));
        assert(naming(a, y.0) == naming(b, y.0));
        let i = choose|i: int| 0 <= i < b.len() && (#[trigger] b[i]).0 == x.0;
        let j = choose|j: int| 0 <= j < a.len() && (#[trigger] a[j]).0 == y.0;
        crate::order::law_the_path_order_is_total(x.0, y.0);
        assert(!crate::order::path_before(y.0, x.0)) by {
            if i < b.len() - 1 {
                assert(!crate::order::path_before(b[b.len() - 1].0, b[i].0));
            }
        }
        assert(!crate::order::path_before(x.0, y.0)) by {
            if j < a.len() - 1 {
                assert(!crate::order::path_before(a[a.len() - 1].0, a[j].0));
            }
        }
        assert(x.0 == y.0);
        assert(naming(a, x.0).last() == x && naming(b, x.0).last() == y);
        assert(x == y);
        let front = a.drop_last();
        let rest = b.drop_last();
        assert(sorted_requests(front)) by {
            assert forall|i: int, j: int| 0 <= i < j < front.len() implies !crate::order::path_before(
                (#[trigger] front[j]).0,
                (#[trigger] front[i]).0,
            ) by {
                assert(front[i] == a[i] && front[j] == a[j]);
            }
        }
        assert(sorted_requests(rest)) by {
            assert forall|i: int, j: int| 0 <= i < j < rest.len() implies !crate::order::path_before(
                (#[trigger] rest[j]).0,
                (#[trigger] rest[i]).0,
            ) by {
                assert(rest[i] == b[i] && rest[j] == b[j]);
            }
        }
        assert forall|path: PathKey| #[trigger] naming(front, path) == naming(rest, path) by {
            assert(naming(a, path) == naming(b, path));
            if path == x.0 {
                assert(naming(a, path).drop_last() =~= naming(front, path));
                assert(naming(b, path).drop_last() =~= naming(rest, path));
            }
        }
        lemma_same_lists(front, rest);
        assert(a =~= front.push(x));
        assert(b =~= rest.push(y));
    }
}

/// A sorted list with one more request put where it belongs, behind those of the same path.
pub open spec fn request_inserted(
    sorted: Seq<(PathKey, MarkIntent)>,
    request: (PathKey, MarkIntent),
) -> Seq<(PathKey, MarkIntent)>
    decreases sorted.len(),
{
    if sorted.len() == 0 {
        seq![request]
    } else if crate::order::path_before(request.0, sorted.last().0) {
        request_inserted(sorted.drop_last(), request).push(sorted.last())
    } else {
        sorted.push(request)
    }
}

proof fn lemma_inserted_naming(
    sorted: Seq<(PathKey, MarkIntent)>,
    request: (PathKey, MarkIntent),
    path: PathKey,
)
    ensures
        naming(request_inserted(sorted, request), path) == naming(sorted, path) + (if path
            == request.0 {
            seq![request]
        } else {
            Seq::empty()
        }),
    decreases sorted.len(),
{
    let out = request_inserted(sorted, request);
    let tail = if path == request.0 {
        seq![request]
    } else {
        Seq::<(PathKey, MarkIntent)>::empty()
    };
    if sorted.len() == 0 {
        assert(out.drop_last() =~= Seq::empty());
        assert(naming(out.drop_last(), path) =~= Seq::empty());
        assert(naming(sorted, path) =~= Seq::empty());
        assert(naming(out, path) =~= naming(sorted, path) + tail);
    } else if crate::order::path_before(request.0, sorted.last().0) {
        lemma_inserted_naming(sorted.drop_last(), request, path);
        crate::order::law_the_path_order_is_total(request.0, sorted.last().0);
        assert(out.drop_last() =~= request_inserted(sorted.drop_last(), request));
        assert(naming(out, path) =~= naming(sorted, path) + tail);
    } else {
        assert(out.drop_last() =~= sorted);
        assert(naming(out, path) =~= naming(sorted, path) + tail);
    }
}

proof fn lemma_inserted_sorted(sorted: Seq<(PathKey, MarkIntent)>, request: (PathKey, MarkIntent))
    requires
        sorted_requests(sorted),
    ensures
        sorted_requests(request_inserted(sorted, request)),
        request_inserted(sorted, request).len() == sorted.len() + 1,
        forall|i: int|
            0 <= i < request_inserted(sorted, request).len() ==> (#[trigger] request_inserted(
                sorted,
                request,
            )[i] == request || sorted.contains(request_inserted(sorted, request)[i])),
    decreases sorted.len(),
{
    let out = request_inserted(sorted, request);
    if sorted.len() > 0 {
        let last = sorted.last();
        if crate::order::path_before(request.0, last.0) {
            let front = sorted.drop_last();
            assert(sorted_requests(front)) by {
                assert forall|i: int, j: int| 0 <= i < j < front.len() implies !crate::order::path_before(
                    (#[trigger] front[j]).0,
                    (#[trigger] front[i]).0,
                ) by {
                    assert(front[i] == sorted[i] && front[j] == sorted[j]);
                }
            }
            lemma_inserted_sorted(front, request);
            let head = request_inserted(front, request);
            crate::order::law_the_path_order_is_total(request.0, last.0);
            assert forall|i: int| 0 <= i < out.len() implies (#[trigger] out[i] == request
                || sorted.contains(out[i])) by {
                if i < head.len() {
                    assert(out[i] == head[i]);
                    if front.contains(head[i]) {
                        let k = front.index_of(head[i]);
                        assert(sorted[k] == head[i]);
                    }
                } else {
                    assert(out[i] == sorted[sorted.len() - 1]);
                }
            }
            assert forall|i: int, j: int| 0 <= i < j < out.len() implies !crate::order::path_before(
                (#[trigger] out[j]).0,
                (#[trigger] out[i]).0,
            ) by {
                if j < head.len() {
                    assert(out[i] == head[i] && out[j] == head[j]);
                } else {
                    assert(out[i] == head[i]);
                    if front.contains(head[i]) {
                        let k = front.index_of(head[i]);
                        assert(sorted[k] == head[i] && sorted[sorted.len() - 1] == last);
                    }
                }
            }
        } else {
            assert forall|i: int| 0 <= i < out.len() implies (#[trigger] out[i] == request
                || sorted.contains(out[i])) by {
                if i < sorted.len() {
                    assert(out[i] == sorted[i]);
                }
            }
            assert forall|i: int, j: int| 0 <= i < j < out.len() implies !crate::order::path_before(
                (#[trigger] out[j]).0,
                (#[trigger] out[i]).0,
            ) by {
                if j == sorted.len() {
                    assert(out[i] == sorted[i]);
                    if i < sorted.len() - 1 {
                        assert(!crate::order::path_before(
                            sorted[sorted.len() - 1].0,
                            sorted[i].0,
                        ));
                        crate::order::lemma_path_transitive(sorted[i].0, last.0, request.0);
                    }
                } else {
                    assert(out[i] == sorted[i] && out[j] == sorted[j]);
                }
            }
        }
    }
}

/// A panel holds a mark on a path that is spelled this way.
pub open spec fn marked_as(panel: Panel, path: PathView) -> bool {
    exists|k: int| 0 <= k < panel.marks.rows@.len() && (#[trigger] panel.marks.rows@[k]).0@ == path
}

/// Some panel holds a mark on a path that is spelled this way.
pub open spec fn marked_somewhere(panels: Seq<Panel>, path: PathView) -> bool {
    exists|p: int| 0 <= p < panels.len() && #[trigger] marked_as(panels[p], path)
}

fn insert_request(sorted: &mut Vec<RequestedMark>, path: FilePath, intent: MarkIntent)
    ensures
        forall|i: int|
            0 <= i < final(sorted)@.len() ==> (#[trigger] final(sorted)@[i]).path@ == path@
                || old(sorted)@.contains(final(sorted)@[i]),
        crate::app::requests_model(final(sorted)@) == request_inserted(
            crate::app::requests_model(old(sorted)@),
            (path@.key(), intent),
        ),
{
    let ghost all = crate::app::requests_model(sorted@);
    let ghost view = (path@.key(), intent);
    let mut at: usize = sorted.len();
    assert(all.take(all.len() as int) =~= all);
    assert(request_inserted(all, view) =~= request_inserted(all.take(at as int), view) + all.skip(
        at as int,
    ));
    while at > 0 && path.before(&sorted[at - 1].path)
        invariant
            at <= sorted@.len(),
            all == crate::app::requests_model(sorted@),
            view == (path@.key(), intent),
            request_inserted(all, view) == request_inserted(all.take(at as int), view) + all.skip(
                at as int,
            ),
        decreases at,
    {
        proof {
            let upto = all.take(at as int);
            assert(upto.drop_last() =~= all.take(at - 1));
            assert(upto.last() == all[at - 1]);
            assert(all[at - 1].0 == sorted@[at - 1].path@.key());
            assert(request_inserted(all.take(at - 1), view).push(all[at - 1]) + all.skip(at as int)
                =~= request_inserted(all.take(at - 1), view) + all.skip(at - 1));
        }
        at = at - 1;
    }
    proof {
        if at > 0 {
            assert(all.take(at as int).last() == all[at - 1]);
            assert(all[at - 1].0 == sorted@[at - 1].path@.key());
        }
        assert(request_inserted(all.take(at as int), view) =~= all.take(at as int).push(view));
    }
    let ghost earlier = sorted@;
    sorted.insert(at, RequestedMark { path, intent });
    assert forall|i: int| 0 <= i < sorted@.len() implies (#[trigger] sorted@[i]).path@ == path@
        || earlier.contains(sorted@[i]) by {
        if i < at {
            assert(sorted@[i] == earlier[i]);
        } else if i > at {
            assert(sorted@[i] == earlier[i - 1]);
        }
    }
    assert(crate::app::requests_model(sorted@) =~= all.take(at as int).push(view) + all.skip(
        at as int,
    ));
}

/// What the first rows of a panel's marks submit for a path.
spec fn rows_request(panel: Panel, upto: int, path: PathKey) -> Seq<(PathKey, MarkIntent)> {
    if crate::assoc::row_of(panel.marks.rows@, path) < upto {
        panel_request(panel@.marks, path)
    } else {
        Seq::empty()
    }
}

fn submit_panel(out: &mut Vec<RequestedMark>, panel: &Panel)
    requires
        sorted_requests(crate::app::requests_model(old(out)@)),
    ensures
        sorted_requests(crate::app::requests_model(final(out)@)),
        forall|path: PathKey|
            #[trigger] naming(crate::app::requests_model(final(out)@), path) == naming(
                crate::app::requests_model(old(out)@),
                path,
            ) + panel_request(panel@.marks, path),
        forall|i: int|
            0 <= i < final(out)@.len() ==> marked_as(*panel, (#[trigger] final(out)@[i]).path@)
                || old(out)@.contains(final(out)@[i]),
{
    let ghost entry = out@;
    let ghost before = crate::app::requests_model(out@);
    let ghost rows = panel.marks.rows@;
    let mut i: usize = 0;
    proof {
        assert forall|path: PathKey|
            #[trigger] naming(before, path) == naming(before, path) + rows_request(
                *panel,
                0,
                path,
            ) by {
            crate::assoc::lemma_row_of(rows, path);
            assert(naming(before, path) =~= naming(before, path) + rows_request(*panel, 0, path));
        }
    }
    while i < panel.marks.rows.len()
        invariant
            i <= rows.len(),
            rows == panel.marks.rows@,
            sorted_requests(crate::app::requests_model(out@)),
            forall|path: PathKey|
                #[trigger] naming(crate::app::requests_model(out@), path) == naming(before, path)
                    + rows_request(*panel, i as int, path),
            forall|k: int|
                0 <= k < out@.len() ==> marked_as(*panel, (#[trigger] out@[k]).path@)
                    || entry.contains(out@[k]),
        decreases rows.len() - i,
    {
        let ghost listed = out@;
        let ghost sofar = crate::app::requests_model(out@);
        let ghost here = rows[i as int].0@.key();
        let first: usize = panel.marks.first_row(&panel.marks.rows[i].0);
        let intent = mark_intent(panel.marks.rows[i].1);
        proof {
            crate::assoc::lemma_row_of(rows, here);
        }
        if first == i {
            assert(panel@.marks.dom().contains(here));
            assert(panel@.marks[here] == rows[i as int].1);
            if let Some(intent) = intent {
                proof {
                    lemma_inserted_sorted(sofar, (here, intent));
                }
                insert_request(out, panel.marks.rows[i].0.copy(), intent);
                proof {
                    assert forall|k: int| 0 <= k < out@.len() implies marked_as(
                        *panel,
                        (#[trigger] out@[k]).path@,
                    ) || entry.contains(out@[k]) by {
                        assert(panel.marks.rows@[i as int].0@ == rows[i as int].0@);
                        if listed.contains(out@[k]) {
                            let at = listed.index_of(out@[k]);
                            assert(listed[at] == out@[k]);
                        }
                    }
                    let now = crate::app::requests_model(out@);
                    assert forall|path: PathKey|
                        #[trigger] naming(now, path) == naming(before, path) + rows_request(
                            *panel,
                            i as int + 1,
                            path,
                        ) by {
                        lemma_inserted_naming(sofar, (here, intent), path);
                        crate::assoc::lemma_row_of(rows, path);
                        assert(naming(sofar, path) == naming(before, path) + rows_request(
                            *panel,
                            i as int,
                            path,
                        ));
                        if path == here {
                            assert(rows_request(*panel, i as int, path) =~= Seq::empty());
                        } else {
                            assert(crate::assoc::row_of(rows, path) != i);
                        }
                        assert(naming(now, path) =~= naming(before, path) + rows_request(
                            *panel,
                            i as int + 1,
                            path,
                        ));
                    }
                }
            }
        }
        proof {
            if first != i || intent is None {
                assert forall|path: PathKey|
                    #[trigger] naming(sofar, path) == naming(before, path) + rows_request(
                        *panel,
                        i as int + 1,
                        path,
                    ) by {
                    crate::assoc::lemma_row_of(rows, path);
                    assert(naming(sofar, path) == naming(before, path) + rows_request(
                        *panel,
                        i as int,
                        path,
                    ));
                    if crate::assoc::row_of(rows, path) == i {
                        assert(path == here);
                        assert(rows_request(*panel, i as int, path) =~= rows_request(
                            *panel,
                            i as int + 1,
                            path,
                        ));
                    }
                }
            }
        }
        i = i + 1;
    }
    proof {
        assert forall|path: PathKey|
            #[trigger] naming(crate::app::requests_model(out@), path) == naming(before, path)
                + panel_request(panel@.marks, path) by {
            crate::assoc::lemma_row_of(rows, path);
            assert(panel_request(panel@.marks, path) =~= rows_request(
                *panel,
                rows.len() as int,
                path,
            ));
        }
    }
}

/// The marks the panels believe they hold, exactly as they stand.
///
/// One pathname may be marked in two panels; both requests are submitted, and a window that has
/// lost track of its own state cannot plan. A path is submitted as it is spelled where it is
/// marked.
pub fn requested_marks(panels: &Vec<Panel>) -> (r: Vec<RequestedMark>)
    ensures
        submitted(crate::state::panels_model(panels@), crate::app::requests_model(r@)),
        forall|i: int|
            0 <= i < r@.len() ==> marked_somewhere(panels@, (#[trigger] r@[i]).path@),
{
    let ghost all = crate::state::panels_model(panels@);
    let mut out: Vec<RequestedMark> = Vec::new();
    let mut i: usize = 0;
    assert(crate::app::requests_model(out@) =~= Seq::empty());
    while i < panels.len()
        invariant
            i <= panels@.len(),
            all == crate::state::panels_model(panels@),
            submitted(all.take(i as int), crate::app::requests_model(out@)),
            forall|k: int|
                0 <= k < out@.len() ==> marked_somewhere(panels@, (#[trigger] out@[k]).path@),
        decreases panels@.len() - i,
    {
        let ghost sofar = crate::app::requests_model(out@);
        let ghost listed = out@;
        submit_panel(&mut out, &panels[i]);
        proof {
            assert forall|k: int| 0 <= k < out@.len() implies marked_somewhere(
                panels@,
                (#[trigger] out@[k]).path@,
            ) by {
                if marked_as(panels@[i as int], out@[k].path@) {
                } else {
                    let at = listed.index_of(out@[k]);
                    assert(listed[at] == out@[k]);
                }
            }
            let now = crate::app::requests_model(out@);
            assert(all.take(i as int + 1).drop_last() =~= all.take(i as int));
            assert(all[i as int] == panels@[i as int]@);
            assert forall|path: PathKey|
                #[trigger] naming(now, path) == requests_for(all.take(i as int + 1), path) by {
                assert(naming(sofar, path) == requests_for(all.take(i as int), path));
            }
        }
        i = i + 1;
    }
    assert(all.take(all.len() as int) =~= all);
    out
}

// ---------------------------------------------------------------------------------------------
// The plan and its confirmation.
// ---------------------------------------------------------------------------------------------
/// F11, once the marks to submit are known.
pub open spec fn plan_asked(a: AppModel, requests: Seq<(PathKey, MarkIntent)>) -> AppModel {
    if a.read_only {
        a.refuse_observer("executing actions"@)
    } else if requests.len() == 0 {
        a.say("No marked files (F5/F6/F7/F8)"@)
    } else if a.commander.dedup_scan_id is None {
        a.say("No scan is loaded — load one (F2/F12) before executing actions"@)
    } else if a.pending_marks > 0 {
        a.say(crate::app::plan_gate_words())
    } else {
        a.send(EffectModel::BuildPlan(requests)).say("Building the plan…"@)
    }
}

/// A plan never overtakes a mark that the store has not acknowledged: while one is in flight
/// nothing is asked for.
pub proof fn law_no_plan_overtakes_a_mark(a: AppModel, requests: Seq<(PathKey, MarkIntent)>)
    requires
        a.pending_marks > 0,
    ensures
        plan_asked(a, requests).outbox == a.outbox,
        plan_asked(a, requests).pending_marks == a.pending_marks,
{
}

/// What F11 does, by the marks that the panels hold.
pub open spec fn execution_prepared(a: AppModel, b: AppModel) -> bool {
    exists|requests: Seq<(PathKey, MarkIntent)>|
        #[trigger] submitted(a.commander.panels, requests) && b == plan_asked(a, requests)
}

/// F11: submits the panels' marks to the one plan authority; the answer seats itself when it
/// comes. A plan may not overtake a mark the database has not accepted yet.
pub fn prepare_execution(app: &mut App)
    ensures
        execution_prepared(old(app)@, final(app)@),
{
    let requested = requested_marks(&app.commander.panels);
    let ghost requests = crate::app::requests_model(requested@);
    assert(requests.len() == requested@.len());
    if app.deny_if_read_only("executing actions") {
        return;
    }
    if requested.len() == 0 {
        app.say_str("No marked files (F5/F6/F7/F8)");
        return;
    }
    if app.commander.dedup_scan_id.is_none() {
        app.say_str("No scan is loaded — load one (F2/F12) before executing actions");
        return;
    }
    match app.plan_gate_refusal() {
        Some(reason) => app.say(reason),
        None => {
            app.send(Effect::BuildPlan(requested));
            app.say_str("Building the plan…");
        },
    }
}

/// A plan seated: the plan, its script, its digest and its overlay, together, and the script at
/// its top.
pub open spec fn plan_seated(a: AppModel, plan: ActionPlan, script: Seq<char>) -> AppModel {
    AppModel {
        commander: CommanderModel {
            confirm_scroll: ConfirmScroll {
                offset: 0,
                total: crate::text::text_lines(script).len() as usize,
                rows: 0,
            },
            confirm_script: ScriptModel::Ready(script),
            confirm_digest: crate::state::plan_digest(plan),
            pending_plan: Some(plan),
            status: Seq::empty(),
            overlay: Overlay::Confirm { tab: ConfirmTab::Summary },
            ..a.commander
        },
        ..a
    }
}

/// Seats a plan the authority just built, with the script that would carry it out.
pub fn seat_plan(app: &mut App, plan: ActionPlan, script: String)
    ensures
        final(app)@ == plan_seated(old(app)@, plan, script@),
{
    let total: usize = lines_of(script.as_str()).len();
    app.commander.confirm_scroll = ConfirmScroll { offset: 0, total, rows: 0 };
    app.commander.confirm_script = ConfirmScript::Ready(script);
    app.commander.confirm_digest = plan.digest();
    app.commander.pending_plan = Some(plan);
    app.commander.status = String::new();
    app.commander.overlay = Overlay::Confirm { tab: ConfirmTab::Summary };
    assert(app@.commander.status =~= Seq::empty());
}

/// Nothing left of a plan.
pub open spec fn without_plan(a: AppModel) -> AppModel {
    AppModel {
        commander: CommanderModel {
            pending_plan: None,
            confirm_script: ScriptModel::Absent,
            confirm_digest: crate::state::empty_digest(),
            confirm_scroll: crate::state::no_scroll(),
            ..a.commander
        },
        ..a
    }
}

/// Drops everything that describes a plan, together. A script left beside a plan that is gone is a
/// screen quoting something nobody can execute.
pub fn clear_pending(app: &mut App)
    ensures
        final(app)@ == without_plan(old(app)@),
{
    app.commander.pending_plan = None;
    app.commander.confirm_script = ConfirmScript::Absent;
    app.commander.confirm_digest = PlanDigest::default();
    app.commander.confirm_scroll = ConfirmScroll::default();
}

/// Y on the confirmation: an observer is refused and the plan dropped; a confirmation whose
/// evidence moved says why and stays; otherwise the plan, if there is one, is handed over to be
/// applied and the wizard shown.
pub open spec fn execution_confirmed(a: AppModel) -> AppModel {
    if a.read_only {
        without_plan(a.refuse_observer("executing actions"@)).with_overlay(Overlay::Closed)
    } else {
        match a.commander.confirm_script {
            ScriptModel::Invalidated(reason) => a.say(
                "The confirmation is no longer valid: "@ + reason,
            ),
            _ => {
                let taken = AppModel {
                    commander: CommanderModel {
                        pending_plan: None,
                        confirm_script: ScriptModel::Absent,
                        overlay: Overlay::Closed,
                        return_to_commander: if a.commander.pending_plan is Some {
                            true
                        } else {
                            a.commander.return_to_commander
                        },
                        ..a.commander
                    },
                    mode: if a.commander.pending_plan is Some {
                        AppMode::Wizard
                    } else {
                        a.mode
                    },
                    ..a
                };
                match a.commander.pending_plan {
                    Some(plan) => taken.send(EffectModel::Apply(plan)),
                    None => taken,
                }
            },
        }
    }
}

/// F11 confirmation: applies the plan in the background and moves to the wizard's screens.
pub fn confirm_execution(app: &mut App)
    ensures
        final(app)@ == execution_confirmed(old(app)@),
{
    if app.deny_if_read_only("executing actions") {
        clear_pending(app);
        app.commander.overlay = Overlay::Closed;
        return;
    }
    let refusal = match app.commander.confirm_script.invalidated() {
        Some(reason) => {
            let mut text = "The confirmation is no longer valid: ".to_string();
            text.push_str(reason);
            Some(text)
        },
        None => None,
    };
    if let Some(text) = refusal {
        app.say(text);
        return;
    }
    let plan = app.commander.pending_plan.take();
    app.commander.confirm_script = ConfirmScript::Absent;
    app.commander.overlay = Overlay::Closed;
    if let Some(plan) = plan {
        app.mode = AppMode::Wizard;
        app.commander.return_to_commander = true;
        app.send(Effect::Apply(plan));
    }
}

/// Cancels the F11 confirmation.
pub fn cancel_execution(app: &mut App)
    ensures
        final(app)@ == without_plan(old(app)@).with_overlay(Overlay::Closed),
{
    clear_pending(app);
    app.commander.overlay = Overlay::Closed;
}

/// A plan that was backed out of leaves nothing behind, so whatever is seated next is described by
/// its own digest and its own script.
pub proof fn law_a_cancelled_plan_leaves_nothing(
    a: AppModel,
    first: ActionPlan,
    one: Seq<char>,
    second: ActionPlan,
    other: Seq<char>,
)
    ensures
        ({
            let cancelled = without_plan(plan_seated(a, first, one)).with_overlay(Overlay::Closed);
            &&& cancelled.commander.pending_plan is None
            &&& cancelled.commander.confirm_script == ScriptModel::Absent
            &&& cancelled.commander.confirm_digest == crate::state::empty_digest()
            &&& cancelled.commander.overlay == Overlay::Closed
            &&& plan_seated(cancelled, second, other).commander.confirm_digest
                == crate::state::plan_digest(second)
            &&& plan_seated(cancelled, second, other) == plan_seated(a, second, other)
        }),
{
}

/// Only a seated plan whose evidence still stands is handed over to be applied, never an observer's.
pub proof fn law_nothing_else_is_applied(a: AppModel)
    ensures
        execution_confirmed(a).outbox != a.outbox ==> !a.read_only && a.commander.pending_plan is Some
            && !(a.commander.confirm_script is Invalidated) && execution_confirmed(a).outbox
            == a.outbox.push(EffectModel::Apply(a.commander.pending_plan.unwrap())),
        execution_confirmed(execution_confirmed(a)).outbox == execution_confirmed(a).outbox,
{
}

} // verus!
