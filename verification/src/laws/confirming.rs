//! What is shown before anything is done: the plan, the offers of a scan, and the names of keys.

use vstd::prelude::*;

use crate::app::AppModel;
use crate::canvas::Rect;
use crate::model::{ActionKind, ActionPlan, ResumeInfo};
use crate::state::{ConfirmScroll, ConfirmTab, DigestModel};
use crate::overlay::Shed;

verus! {

/// A kind of action is named as what it is.
pub proof fn law_an_action_is_named_as_what_it_is(kind: ActionKind)
    ensures
        kind == ActionKind::Delete ==> crate::model::action_word(kind) == "delete"@
            && crate::model::action_label(kind) == "DELETE"@,
        kind == ActionKind::Hardlink ==> crate::model::action_word(kind) == "hardlink"@
            && crate::model::action_label(kind) == "HARDLINK"@,
        kind == ActionKind::Reflink ==> crate::model::action_word(kind) == "reflink"@
            && crate::model::action_label(kind) == "REFLINK"@,
{
}

/// The kinds are listed with their numbers, in order, parted by dots.
pub proof fn law_each_kind_is_listed_with_its_number(
    x: (ActionKind, usize),
    y: (ActionKind, usize),
    rest: Seq<(ActionKind, usize)>,
)
    ensures
        crate::overlay::by_kind(seq![x]) == crate::model::action_word(x.0) + " "@
            + crate::text::decimal(x.1 as nat),
        rest.len() > 0 ==> crate::overlay::by_kind(rest.push(y)) == crate::overlay::by_kind(rest)
            + " · "@ + crate::model::action_word(y.0) + " "@ + crate::text::decimal(y.1 as nat),
{
    reveal_with_fuel(crate::overlay::by_kind, 2);
    assert(seq![x].drop_last() =~= Seq::empty());
    assert(crate::overlay::by_kind(seq![x].drop_last()) =~= Seq::<char>::empty());
    assert(crate::overlay::by_kind(seq![x]) =~= crate::model::action_word(x.0) + " "@
        + crate::text::decimal(x.1 as nat));
    if rest.len() > 0 {
        assert(rest.push(y).drop_last() =~= rest);
    }
}

/// The first line counts the actions; the samples are quoted as they stand in the plan, each with
/// its kind and target; and every action is either quoted or counted as not quoted.
pub proof fn law_every_action_is_quoted_or_counted(
    files: usize,
    reclaim: u64,
    d: DigestModel,
    shed: Shed,
    i: int,
)
    ensures
        crate::overlay::composed(files, reclaim, d, shed)[0] == "  Actions to be executed: "@
            + crate::text::decimal(files as nat),
        crate::overlay::quoted(d, shed) + crate::overlay::unnamed(d, shed) == d.samples.len()
            + d.hidden,
        0 <= i < crate::overlay::quoted(d, shed) ==> crate::overlay::sample_lines(
            d,
            crate::overlay::quoted(d, shed),
        )[i] == "  "@ + crate::text::padded_right(crate::model::action_label(d.samples[i].0), 9)
            + " "@ + crate::text::left_cut(d.samples[i].1.shown_safely(), 52),
{
}

/// What is drawn for confirmation is drawn from the plan that `y` applies: its number of actions,
/// its guaranteed reclaim, its digest and its script.
pub proof fn law_what_is_drawn_is_what_is_applied(
    a: AppModel,
    plan: ActionPlan,
    script: Seq<char>,
    screen: Rect,
)
    requires
        plan.actions@.len() <= usize::MAX,
    ensures
        ({
            let c = crate::actions::plan_seated(a, plan, script).commander;
            crate::commander_screen::overlay_pictured(screen, c)
                == crate::overlay::confirm_widgets(
                screen,
                plan.actions@.len() as usize,
                plan.summary.estimate.guaranteed,
                ConfirmTab::Summary,
                script,
                crate::state::plan_digest(plan),
                c.confirm_scroll,
            ) && c.pending_plan == Some(plan)
        }),
{
}

/// The lines of the script that are shown are the script's own, from where it is scrolled to.
pub proof fn law_the_script_is_shown_as_it_is(script: Seq<char>, offset: int, rows: int, i: int)
    requires
        0 <= offset,
        0 <= rows,
        0 <= i < crate::overlay::script_window(script, offset, rows).len(),
    ensures
        crate::overlay::script_window(script, offset, rows)[i] == crate::text::text_lines(
            script,
        )[offset + i],
        crate::overlay::script_window(script, offset, rows).len() <= rows,
{
}

/// Scrolling moves by a line or a page and stops at either end.
pub proof fn law_the_script_scrolls_and_stops(scroll: ConfirmScroll)
    requires
        scroll.offset <= scroll.spec_max_offset(),
    ensures
        ({
            let up = crate::confirm::script_scrolled(scroll, crate::keys::KeyCode::Up);
            let down = crate::confirm::script_scrolled(scroll, crate::keys::KeyCode::Down);
            let home = crate::confirm::script_scrolled(scroll, crate::keys::KeyCode::Home);
            let end = crate::confirm::script_scrolled(scroll, crate::keys::KeyCode::End);
            let max: int = if scroll.total > scroll.rows {
                scroll.total - scroll.rows
            } else {
                0
            };
            &&& scroll.offset > 0 ==> up.offset == scroll.offset - 1
            &&& scroll.offset == 0 ==> up.offset == 0
            &&& scroll.offset < max ==> down.offset == scroll.offset + 1
            &&& scroll.offset == max ==> down.offset == max
            &&& home.offset == 0
            &&& end.offset == max
        }),
{
}

/// The progress of an unfinished scan is a share of a hundred, rounded down and never more.
pub proof fn law_progress_is_a_share(hashed: u64, total: u64)
    requires
        hashed * 100 <= u64::MAX,
    ensures
        crate::overlay::hashed_percent(hashed, total) <= 100,
        total == 0 ==> crate::overlay::hashed_percent(hashed, total) == 0,
        0 < total && hashed <= total ==> crate::overlay::hashed_percent(hashed, total) * total
            <= hashed * 100 < (crate::overlay::hashed_percent(hashed, total) + 1) * total,
        total > 0 && hashed >= total ==> crate::overlay::hashed_percent(hashed, total) == 100,
{
    if total > 0 {
        let n = hashed * 100;
        let w = total as int;
        assert((n / w) * w <= n < (n / w + 1) * w) by (nonlinear_arith)
            requires
                w > 0,
        ;
        if hashed <= total {
            assert(n / w <= 100) by (nonlinear_arith)
                requires
                    n <= 100 * w,
                    w > 0,
            ;
        }
        if hashed >= total {
            assert(n / w >= 100) by (nonlinear_arith)
                requires
                    n >= 100 * w,
                    w > 0,
            ;
        }
    }
}

/// Only what there is is offered.
pub proof fn law_only_what_there_is_is_offered()
    ensures
        crate::overlay::resume_options(true, true)
            == "  "@ + "[R]/[Enter] resume · "@ + "[O] open completed · "@
            + "[N] new scan · [Esc] cancel"@,
        crate::overlay::resume_options(true, false) == "  "@ + "[R]/[Enter] resume · "@ + Seq::<
            char,
        >::empty() + "[N] new scan · [Esc] cancel"@,
        crate::overlay::resume_options(false, true) == "  "@ + Seq::<char>::empty()
            + "[O] open completed · "@ + "[N] new scan · [Esc] cancel"@,
{
}

/// Resuming is recommended unless a later scan was completed.
pub proof fn law_a_later_scan_is_recommended(u: ResumeInfo, c: ResumeInfo)
    ensures
        crate::overlay::recommendation(Some(&u), None)
            == "Recommended: [R] resume — hashes are inherited, the disk is barely read"@,
        crate::overlay::recommendation(None, Some(&c))
            == "Recommended: [O] open results or [N] new scan"@,
        crate::overlay::recommendation(Some(&u), Some(&c)) == (if crate::entries::text_order(
            u.created_at@,
            c.created_at@,
        ) == crate::entries::Standing::Before {
            "Recommended: [O] open the completed one (current) or [N] new; [R] is usually not needed"@
        } else {
            "Recommended: [R] resume — hashes are inherited, the disk is barely read"@
        }),
{
}

/// The footer names each key as what it does.
pub proof fn law_the_footer_names_the_keys()
    ensures
        crate::keys::first_label(0) == "Help"@,
        crate::keys::first_label(1) == "Scan"@,
        crate::keys::first_label(2) == "File"@,
        crate::keys::first_label(3) == "Hash"@,
        crate::keys::first_label(4) == "Hard"@,
        crate::keys::first_label(5) == "Ref"@,
        crate::keys::first_label(6) == "Keep"@,
        crate::keys::first_label(7) == "Del"@,
        crate::keys::first_label(8) == "Menu"@,
        crate::keys::first_label(9) == "Exit"@,
        crate::keys::first_label(10) == "Exec"@,
        crate::keys::first_label(11) == "Sessions"@,
        crate::keys::second_label(0) == "Sync"@,
        crate::keys::second_label(1) == "Compare"@,
        crate::keys::second_label(2) == "+Panel"@,
        crate::keys::second_label(3) == "-Panel"@,
        crate::keys::second_label(4) == "Root"@,
        crate::keys::second_label(5) == "Size"@,
        crate::keys::second_label(8) == "Wizard"@,
        crate::keys::second_label(11) == "Board"@,
{
}

/// In the second layer the digits stand for the first nine keys, `0` for the tenth, `-` and `=` for
/// the last two.
pub proof fn law_the_digits_stand_for_the_keys(c: char, n: u8)
    requires
        1 <= n <= 12,
    ensures
        crate::keys::digit_key(crate::keys::KeyCode::Char(c)) == Some(n) <==> (n <= 9 && c as int
            == '0' as int + n) || (n == 10 && c == '0') || (n == 11 && c == '-') || (n == 12 && c
            == '='),
{
}

} // verus!
