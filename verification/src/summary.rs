//! Summary screen: what was done, safety snapshots, the path to freeing disk space.

use vstd::prelude::*;

use crate::canvas::{
    push_line, Canvas, Color, Frame, Line, LineModel, Rect, Style, Widget, WidgetModel,
};
use crate::commander_screen::{add_hint, add_plain};
use crate::model::ActionKind;
use crate::path::{FilePath, PathView};
use crate::reclaim::ReclaimEstimate;
use crate::text::{push_usize, terminal};
use crate::units::{human_bytes, reclaim_phrase};

verus! {

/// What became of one action.
#[derive(Debug)]
pub struct ActionOutcome {
    pub kind: ActionKind,
    pub target: FilePath,
    /// Where the original was moved to.
    pub quarantine: Option<FilePath>,
    pub result: Result<(), String>,
}

/// Why an allocation came out worth nothing.
#[derive(Debug, Clone, Copy, PartialEq, Eq, Structural)]
pub enum ZeroReason {
    NotFullyCovered,
    ExternalLinks,
    PartialCoverage,
    RolledBack,
    Refused,
    Cancelled,
    AlreadyLinked,
}

/// What became of one allocation.
#[derive(Debug, Clone)]
pub enum ObjectRealization {
    /// So many bytes are released once the quarantine is purged.
    Released(u64),
    Zero(ZeroReason),
    /// Not to be told; the original may be in quarantine.
    Unknown { reason: String, quarantine: Option<FilePath> },
}

/// What became of a batch.
#[derive(Debug)]
pub struct BatchResult {
    pub outcomes: Vec<ActionOutcome>,
    pub snapshots: Vec<String>,
    pub quarantine_dirs: Vec<FilePath>,
    pub planned: usize,
    pub cancelled: bool,
    /// The batch refused itself as a whole.
    pub aborted: Option<String>,
    /// What the plan was worth.
    pub estimate: ReclaimEstimate,
    pub realized: Vec<ObjectRealization>,
    pub realized_bytes: u64,
    pub completed_objects: usize,
    pub bytes_read: u64,
}

/// How many exact quarantine pathnames the screen prints before summarising the rest.
pub const QUARANTINE_LINES: usize = 10;

/// The reasons in the order they are told in.
pub open spec fn reason_at(index: int) -> ZeroReason {
    if index == 0 {
        ZeroReason::NotFullyCovered
    } else if index == 1 {
        ZeroReason::ExternalLinks
    } else if index == 2 {
        ZeroReason::PartialCoverage
    } else if index == 3 {
        ZeroReason::RolledBack
    } else if index == 4 {
        ZeroReason::Refused
    } else if index == 5 {
        ZeroReason::Cancelled
    } else {
        ZeroReason::AlreadyLinked
    }
}

/// Allocations that came out worth nothing for one reason.
pub open spec fn zeros_of(realized: Seq<ObjectRealization>, reason: ZeroReason) -> nat
    decreases realized.len(),
{
    if realized.len() == 0 {
        0
    } else {
        zeros_of(realized.drop_last(), reason) + if realized.last() == ObjectRealization::Zero(
            reason,
        ) {
            1nat
        } else {
            0nat
        }
    }
}

/// The first reasons that occur, each with its number of allocations.
pub open spec fn zeros_upto(realized: Seq<ObjectRealization>, count: int) -> Seq<
    (ZeroReason, usize),
>
    decreases count,
{
    if count <= 0 {
        Seq::empty()
    } else {
        let before = zeros_upto(realized, count - 1);
        let reason = reason_at(count - 1);
        if zeros_of(realized, reason) > 0 {
            before.push((reason, zeros_of(realized, reason) as usize))
        } else {
            before
        }
    }
}

fn is_zero_of(state: &ObjectRealization, reason: ZeroReason) -> (r: bool)
    ensures
        r == (*state == ObjectRealization::Zero(reason)),
{
    match state {
        ObjectRealization::Zero(other) => *other == reason,
        _ => false,
    }
}

fn count_zeros(realized: &Vec<ObjectRealization>, reason: ZeroReason) -> (r: usize)
    ensures
        r == zeros_of(realized@, reason),
        r <= realized@.len(),
{
    let mut count: usize = 0;
    let mut i: usize = 0;
    while i < realized.len()
        invariant
            i <= realized@.len(),
            count == zeros_of(realized@.take(i as int), reason),
            count <= i,
        decreases realized@.len() - i,
    {
        assert(realized@.take(i as int + 1).drop_last() =~= realized@.take(i as int));
        if is_zero_of(&realized[i], reason) {
            count = count + 1;
        }
        i = i + 1;
    }
    assert(realized@.take(realized@.len() as int) =~= realized@);
    count
}

/// How many allocations came out worth nothing, grouped by the reason, in a fixed order so the
/// same batch always reads the same way.
pub fn zeros_by_reason(result: &BatchResult) -> (r: Vec<(ZeroReason, usize)>)
    ensures
        r@ == zeros_upto(result.realized@, 7),
{
    let reasons: [ZeroReason; 7] = [
        ZeroReason::NotFullyCovered,
        ZeroReason::ExternalLinks,
        ZeroReason::PartialCoverage,
        ZeroReason::RolledBack,
        ZeroReason::Refused,
        ZeroReason::Cancelled,
        ZeroReason::AlreadyLinked,
    ];
    let mut out: Vec<(ZeroReason, usize)> = Vec::new();
    let mut i: usize = 0;
    while i < 7
        invariant
            i <= 7,
            forall|k: int| 0 <= k < 7 ==> #[trigger] reasons@[k] == reason_at(k),
            out@ == zeros_upto(result.realized@, i as int),
        decreases 7 - i,
    {
        let reason = reasons[i];
        assert(reasons@[i as int] == reason_at(i as int));
        let count: usize = count_zeros(&result.realized, reason);
        if count > 0 {
            out.push((reason, count));
        }
        i = i + 1;
    }
    out
}

proof fn lemma_zeros_within(realized: Seq<ObjectRealization>, reason: ZeroReason)
    ensures
        zeros_of(realized, reason) <= realized.len(),
    decreases realized.len(),
{
    if realized.len() > 0 {
        lemma_zeros_within(realized.drop_last(), reason);
    }
}

/// Every reason that occurs is told exactly once and with its own number, and none that does not
/// occur is told.
pub proof fn law_every_zero_is_told_once(realized: Seq<ObjectRealization>, index: int)
    requires
        0 <= index < 7,
        realized.len() <= usize::MAX,
    ensures
        zeros_of(realized, reason_at(index)) > 0 <==> exists|i: int|
            0 <= i < zeros_upto(realized, 7).len() && (#[trigger] zeros_upto(realized, 7)[i]).0
                == reason_at(index),
        forall|i: int|
            0 <= i < zeros_upto(realized, 7).len() ==> (#[trigger] zeros_upto(realized, 7)[i]).1
                == zeros_of(realized, zeros_upto(realized, 7)[i].0),
{
    lemma_told(realized, 7, index);
}

proof fn lemma_told(realized: Seq<ObjectRealization>, count: int, index: int)
    requires
        0 <= index < 7,
        0 <= count <= 7,
        realized.len() <= usize::MAX,
    ensures
        zeros_of(realized, reason_at(index)) > 0 && index < count <==> exists|i: int|
            0 <= i < zeros_upto(realized, count).len() && (#[trigger] zeros_upto(
                realized,
                count,
            )[i]).0 == reason_at(index),
        forall|i: int|
            0 <= i < zeros_upto(realized, count).len() ==> (#[trigger] zeros_upto(
                realized,
                count,
            )[i]).1 == zeros_of(realized, zeros_upto(realized, count)[i].0),
    decreases count,
{
    if count > 0 {
        lemma_told(realized, count - 1, index);
        lemma_zeros_within(realized, reason_at(count - 1));
        let before = zeros_upto(realized, count - 1);
        let now = zeros_upto(realized, count);
        if zeros_of(realized, reason_at(count - 1)) > 0 {
            assert(now.last().0 == reason_at(count - 1));
            assert(now[now.len() - 1] == now.last());
            assert forall|i: int| 0 <= i < before.len() implies #[trigger] now[i] == before[i] by {
            }
            if zeros_of(realized, reason_at(index)) > 0 && index < count - 1 {
                let i = choose|i: int|
                    0 <= i < before.len() && (#[trigger] before[i]).0 == reason_at(index);
                assert(now[i].0 == reason_at(index));
            }
            if exists|i: int| 0 <= i < now.len() && (#[trigger] now[i]).0 == reason_at(index) {
                let i = choose|i: int| 0 <= i < now.len() && (#[trigger] now[i]).0 == reason_at(
                    index,
                );
                if i < before.len() {
                    assert(before[i].0 == reason_at(index));
                }
            }
        }
    }
}

// ---------------------------------------------------------------------------------------------
// The counts.
// ---------------------------------------------------------------------------------------------
/// Actions that failed.
pub open spec fn failures(outcomes: Seq<ActionOutcome>) -> nat
    decreases outcomes.len(),
{
    if outcomes.len() == 0 {
        0
    } else {
        failures(outcomes.drop_last()) + if outcomes.last().result is Err {
            1nat
        } else {
            0nat
        }
    }
}

impl BatchResult {
    /// How many actions failed.
    pub fn failed(&self) -> (r: usize)
        ensures
            r == failures(self.outcomes@),
            r <= self.outcomes@.len(),
    {
        let mut count: usize = 0;
        let mut i: usize = 0;
        while i < self.outcomes.len()
            invariant
                i <= self.outcomes@.len(),
                count == failures(self.outcomes@.take(i as int)),
                count <= i,
            decreases self.outcomes@.len() - i,
        {
            assert(self.outcomes@.take(i as int + 1).drop_last() =~= self.outcomes@.take(
                i as int,
            ));
            if self.outcomes[i].result.is_err() {
                count = count + 1;
            }
            i = i + 1;
        }
        assert(self.outcomes@.take(self.outcomes@.len() as int) =~= self.outcomes@);
        count
    }

    /// How many actions succeeded.
    pub fn succeeded(&self) -> (r: usize)
        ensures
            r == self.outcomes@.len() - failures(self.outcomes@),
    {
        self.outcomes.len() - self.failed()
    }
}

/// The look of a warning.
pub open spec fn loud(color: Color) -> Style {
    Style { fg: Some(color), bg: None, bold: true, dim: false, reversed: false }
}

/// A line over a look of its own.
pub open spec fn over_line(text: Seq<char>, style: Style) -> LineModel {
    LineModel { style, ..crate::canvas::text_line(text) }
}

fn push_over(lines: &mut Vec<Line>, text: String, style: Style)
    ensures
        crate::canvas::lines_model(final(lines)@) == crate::canvas::lines_model(old(lines)@).push(
            over_line(text@, style),
        ),
{
    push_line(lines, Line::text(text).over(style));
}

/// The head of the summary: how many actions went well, a refusal, a cancellation.
pub open spec fn head_lines(b: BatchResult) -> Seq<LineModel> {
    let l = crate::commander_screen::plain(Seq::empty(), ""@);
    let l = l.push(
        crate::canvas::styled_line(
            "  Completed successfully: "@ + crate::text::decimal(
                (b.outcomes@.len() - failures(b.outcomes@)) as nat,
            ) + " operations      Errors: "@ + crate::text::decimal(failures(b.outcomes@)),
            crate::commander_screen::bold_style(),
        ),
    );
    let l = match b.aborted {
        Some(reason) => l.push(
            over_line(
                "  BATCH REFUSED before any change: "@ + crate::text::escaped(reason@),
                loud(Color::Red),
            ),
        ),
        None => l,
    };
    if b.cancelled {
        l.push(
            crate::canvas::styled_line(
                "  CANCELLED: "@ + crate::text::decimal(b.outcomes@.len()) + " of "@
                    + crate::text::decimal(b.planned as nat)
                    + " actions were reached — the marks of the rest are kept"@,
                loud(Color::Yellow),
            ),
        )
    } else {
        l
    }
}

fn add_head(lines: &mut Vec<Line>, b: &BatchResult)
    requires
        old(lines)@.len() == 0,
    ensures
        crate::canvas::lines_model(final(lines)@) == head_lines(*b),
{
    assert(crate::canvas::lines_model(lines@) =~= Seq::empty());
    add_plain(lines, "");
    let failed: usize = b.failed();
    let mut text = "  Completed successfully: ".to_string();
    push_usize(&mut text, b.outcomes.len() - failed);
    text.push_str(" operations      Errors: ");
    push_usize(&mut text, failed);
    push_line(lines, Line::styled(text, Style::new().bold()));
    if let Some(reason) = &b.aborted {
        let mut text = "  BATCH REFUSED before any change: ".to_string();
        text.push_str(terminal(reason.as_str()).as_str());
        push_over(lines, text, Style::color(Color::Red).bold());
    }
    if b.cancelled {
        let mut text = "  CANCELLED: ".to_string();
        push_usize(&mut text, b.outcomes.len());
        text.push_str(" of ");
        push_usize(&mut text, b.planned);
        text.push_str(" actions were reached — the marks of the rest are kept");
        push_line(lines, Line::styled(text, Style::color(Color::Yellow).bold()));
    }
}

/// A line for every action that failed.
pub open spec fn failure_lines(lines: Seq<LineModel>, outcomes: Seq<ActionOutcome>) -> Seq<LineModel>
    decreases outcomes.len(),
{
    if outcomes.len() == 0 {
        lines
    } else {
        let before = failure_lines(lines, outcomes.drop_last());
        let o = outcomes.last();
        match o.result {
            Err(message) => before.push(
                over_line(
                    "    ✗ "@ + crate::model::action_label(o.kind) + " "@
                        + o.target@.shown_safely() + " — "@ + crate::text::escaped(message@),
                    crate::canvas::colored(Color::Red),
                ),
            ),
            Ok(_) => before,
        }
    }
}

fn add_failures(lines: &mut Vec<Line>, outcomes: &Vec<ActionOutcome>)
    ensures
        crate::canvas::lines_model(final(lines)@) == failure_lines(
            crate::canvas::lines_model(old(lines)@),
            outcomes@,
        ),
{
    let ghost before = crate::canvas::lines_model(lines@);
    let mut i: usize = 0;
    while i < outcomes.len()
        invariant
            i <= outcomes@.len(),
            crate::canvas::lines_model(lines@) == failure_lines(before, outcomes@.take(i as int)),
        decreases outcomes@.len() - i,
    {
        assert(outcomes@.take(i as int + 1).drop_last() =~= outcomes@.take(i as int));
        if let Err(message) = &outcomes[i].result {
            let mut text = "    ✗ ".to_string();
            text.push_str(outcomes[i].kind.label());
            text.push_str(" ");
            text.push_str(outcomes[i].target.display_safely().as_str());
            text.push_str(" — ");
            text.push_str(terminal(message.as_str()).as_str());
            push_over(lines, text, Style::color(Color::Red));
        }
        i = i + 1;
    }
    assert(outcomes@.take(outcomes@.len() as int) =~= outcomes@);
}

// ---------------------------------------------------------------------------------------------
// Snapshots and quarantine.
// ---------------------------------------------------------------------------------------------
/// Texts, each on a line of its own after `lead`.
pub open spec fn listed_texts(lines: Seq<LineModel>, lead: Seq<char>, texts: Seq<Seq<char>>) -> Seq<
    LineModel,
>
    decreases texts.len(),
{
    if texts.len() == 0 {
        lines
    } else {
        crate::commander_screen::plain(
            listed_texts(lines, lead, texts.drop_last()),
            lead + texts.last(),
        )
    }
}

fn add_texts(lines: &mut Vec<Line>, lead: &str, texts: &Vec<String>)
    ensures
        crate::canvas::lines_model(final(lines)@) == listed_texts(
            crate::canvas::lines_model(old(lines)@),
            lead@,
            crate::browser::strings_model(texts@),
        ),
{
    let ghost before = crate::canvas::lines_model(lines@);
    let ghost all = crate::browser::strings_model(texts@);
    let mut i: usize = 0;
    while i < texts.len()
        invariant
            i <= texts@.len(),
            all == crate::browser::strings_model(texts@),
            crate::canvas::lines_model(lines@) == listed_texts(before, lead@, all.take(i as int)),
        decreases texts@.len() - i,
    {
        assert(all.take(i as int + 1).drop_last() =~= all.take(i as int));
        let mut text = lead.to_string();
        text.push_str(texts[i].as_str());
        add_plain(lines, text.as_str());
        i = i + 1;
    }
    assert(all.take(all.len() as int) =~= all);
}

/// Paths, each on a line of its own.
pub open spec fn listed_paths(lines: Seq<LineModel>, paths: Seq<PathView>) -> Seq<LineModel>
    decreases paths.len(),
{
    if paths.len() == 0 {
        lines
    } else {
        crate::commander_screen::plain(
            listed_paths(lines, paths.drop_last()),
            "    "@ + paths.last().shown_safely(),
        )
    }
}

fn add_paths(lines: &mut Vec<Line>, paths: &Vec<FilePath>, count: usize)
    requires
        count <= paths@.len(),
    ensures
        crate::canvas::lines_model(final(lines)@) == listed_paths(
            crate::canvas::lines_model(old(lines)@),
            crate::model::paths_model(paths@).take(count as int),
        ),
{
    let ghost before = crate::canvas::lines_model(lines@);
    let ghost all = crate::model::paths_model(paths@).take(count as int);
    let mut i: usize = 0;
    assert(all.take(0) =~= Seq::empty());
    while i < count
        invariant
            i <= count <= paths@.len(),
            all == crate::model::paths_model(paths@).take(count as int),
            crate::canvas::lines_model(lines@) == listed_paths(before, all.take(i as int)),
        decreases count - i,
    {
        assert(all.take(i as int + 1).drop_last() =~= all.take(i as int));
        assert(all[i as int] == paths@[i as int]@);
        let mut text = "    ".to_string();
        text.push_str(paths[i].display_safely().as_str());
        add_plain(lines, text.as_str());
        i = i + 1;
    }
    assert(all.take(all.len() as int) =~= all);
}

/// Where the originals are: the quarantine paths of the actions.
pub open spec fn originals_of(outcomes: Seq<ActionOutcome>) -> Seq<PathView>
    decreases outcomes.len(),
{
    if outcomes.len() == 0 {
        Seq::empty()
    } else {
        let before = originals_of(outcomes.drop_last());
        match outcomes.last().quarantine {
            Some(path) => before.push(path@),
            None => before,
        }
    }
}

impl BatchResult {
    /// The exact paths of the quarantined originals.
    pub fn quarantined_paths(&self) -> (r: Vec<FilePath>)
        ensures
            crate::model::paths_model(r@) == originals_of(self.outcomes@),
    {
        let mut out: Vec<FilePath> = Vec::new();
        let mut i: usize = 0;
        assert(crate::model::paths_model(out@) =~= Seq::empty());
        while i < self.outcomes.len()
            invariant
                i <= self.outcomes@.len(),
                crate::model::paths_model(out@) == originals_of(self.outcomes@.take(i as int)),
            decreases self.outcomes@.len() - i,
        {
            assert(self.outcomes@.take(i as int + 1).drop_last() =~= self.outcomes@.take(
                i as int,
            ));
            if let Some(path) = &self.outcomes[i].quarantine {
                crate::sizes::push_path(&mut out, path.copy());
            }
            i = i + 1;
        }
        assert(self.outcomes@.take(self.outcomes@.len() as int) =~= self.outcomes@);
        out
    }
}

/// The snapshots, the quarantine directories and the first of the originals.
pub open spec fn safety_lines(lines: Seq<LineModel>, b: BatchResult) -> Seq<LineModel> {
    let l = crate::commander_screen::plain(lines, ""@);
    let l = if b.snapshots@.len() > 0 {
        listed_texts(
            crate::commander_screen::plain(l, "  Safety snapshots created:"@),
            "    "@,
            crate::browser::strings_model(b.snapshots@),
        )
    } else {
        l
    };
    let dirs = crate::model::paths_model(b.quarantine_dirs@);
    let l = if dirs.len() > 0 {
        listed_paths(
            crate::commander_screen::plain(l, "  Files moved to quarantine:"@),
            dirs.take(dirs.len() as int),
        )
    } else {
        l
    };
    let originals = originals_of(b.outcomes@);
    if originals.len() > QUARANTINE_LINES {
        crate::commander_screen::plain(
            listed_paths(
                crate::commander_screen::plain(l, "  Originals, by their exact path:"@),
                originals.take(QUARANTINE_LINES as int),
            ),
            "    … and "@ + crate::text::decimal((originals.len() - QUARANTINE_LINES) as nat)
                + " more"@,
        )
    } else if originals.len() > 0 {
        listed_paths(
            crate::commander_screen::plain(l, "  Originals, by their exact path:"@),
            originals.take(originals.len() as int),
        )
    } else {
        l
    }
}

fn add_safety(lines: &mut Vec<Line>, b: &BatchResult)
    ensures
        crate::canvas::lines_model(final(lines)@) == safety_lines(
            crate::canvas::lines_model(old(lines)@),
            *b,
        ),
{
    add_plain(lines, "");
    if b.snapshots.len() > 0 {
        add_plain(lines, "  Safety snapshots created:");
        add_texts(lines, "    ", &b.snapshots);
    }
    assert(crate::model::paths_model(b.quarantine_dirs@).len() == b.quarantine_dirs@.len());
    if b.quarantine_dirs.len() > 0 {
        add_plain(lines, "  Files moved to quarantine:");
        add_paths(lines, &b.quarantine_dirs, b.quarantine_dirs.len());
    }
    let originals = b.quarantined_paths();
    assert(crate::model::paths_model(originals@).len() == originals@.len());
    if originals.len() > 0 {
        add_plain(lines, "  Originals, by their exact path:");
        if originals.len() > QUARANTINE_LINES {
            add_paths(lines, &originals, QUARANTINE_LINES);
            let mut text = "    … and ".to_string();
            push_usize(&mut text, originals.len() - QUARANTINE_LINES);
            text.push_str(" more");
            add_plain(lines, text.as_str());
        } else {
            add_paths(lines, &originals, originals.len());
        }
    }
}

// ---------------------------------------------------------------------------------------------
// What it is worth.
// ---------------------------------------------------------------------------------------------
/// The words for a reason, out of seven.
pub open spec fn words_for(words: Seq<Seq<char>>, reason: ZeroReason) -> Seq<char> {
    match reason {
        ZeroReason::NotFullyCovered => words[0],
        ZeroReason::ExternalLinks => words[1],
        ZeroReason::PartialCoverage => words[2],
        ZeroReason::RolledBack => words[3],
        ZeroReason::Refused => words[4],
        ZeroReason::Cancelled => words[5],
        ZeroReason::AlreadyLinked => words[6],
    }
}

/// A line for every reason that allocations came out worth nothing for.
pub open spec fn zero_lines(
    lines: Seq<LineModel>,
    zeros: Seq<(ZeroReason, usize)>,
    words: Seq<Seq<char>>,
) -> Seq<LineModel>
    decreases zeros.len(),
{
    if zeros.len() == 0 {
        lines
    } else {
        crate::commander_screen::plain(
            zero_lines(lines, zeros.drop_last(), words),
            "  "@ + crate::text::decimal(zeros.last().1 as nat)
                + " allocation(s): zero guaranteed reclaim — "@ + words_for(
                words,
                zeros.last().0,
            ),
        )
    }
}

fn reason_words(words: &Vec<String>, reason: ZeroReason) -> (r: &str)
    requires
        words@.len() == 7,
    ensures
        r@ == words_for(crate::browser::strings_model(words@), reason),
{
    match reason {
        ZeroReason::NotFullyCovered => words[0].as_str(),
        ZeroReason::ExternalLinks => words[1].as_str(),
        ZeroReason::PartialCoverage => words[2].as_str(),
        ZeroReason::RolledBack => words[3].as_str(),
        ZeroReason::Refused => words[4].as_str(),
        ZeroReason::Cancelled => words[5].as_str(),
        ZeroReason::AlreadyLinked => words[6].as_str(),
    }
}

fn add_zeros(lines: &mut Vec<Line>, zeros: &Vec<(ZeroReason, usize)>, words: &Vec<String>)
    requires
        words@.len() == 7,
    ensures
        crate::canvas::lines_model(final(lines)@) == zero_lines(
            crate::canvas::lines_model(old(lines)@),
            zeros@,
            crate::browser::strings_model(words@),
        ),
{
    let ghost before = crate::canvas::lines_model(lines@);
    let ghost said = crate::browser::strings_model(words@);
    let mut i: usize = 0;
    while i < zeros.len()
        invariant
            i <= zeros@.len(),
            words@.len() == 7,
            said == crate::browser::strings_model(words@),
            crate::canvas::lines_model(lines@) == zero_lines(before, zeros@.take(i as int), said),
        decreases zeros@.len() - i,
    {
        assert(zeros@.take(i as int + 1).drop_last() =~= zeros@.take(i as int));
        let mut text = "  ".to_string();
        push_usize(&mut text, zeros[i].1);
        text.push_str(" allocation(s): zero guaranteed reclaim — ");
        text.push_str(reason_words(words, zeros[i].0));
        add_plain(lines, text.as_str());
        i = i + 1;
    }
    assert(zeros@.take(zeros@.len() as int) =~= zeros@);
}

/// A line for every allocation that could not be settled.
pub open spec fn unknown_lines(lines: Seq<LineModel>, realized: Seq<ObjectRealization>) -> Seq<LineModel>
    decreases realized.len(),
{
    if realized.len() == 0 {
        lines
    } else {
        let before = unknown_lines(lines, realized.drop_last());
        match realized.last() {
            ObjectRealization::Unknown { reason, quarantine } => before.push(
                over_line(
                    match quarantine {
                        Some(path) => "  unknown — check "@ + path@.shown_safely() + ": "@
                            + crate::text::escaped(reason@),
                        None => "  unknown — "@ + crate::text::escaped(reason@),
                    },
                    crate::canvas::colored(Color::Red),
                ),
            ),
            _ => before,
        }
    }
}

fn add_unknown(lines: &mut Vec<Line>, realized: &Vec<ObjectRealization>)
    ensures
        crate::canvas::lines_model(final(lines)@) == unknown_lines(
            crate::canvas::lines_model(old(lines)@),
            realized@,
        ),
{
    let ghost before = crate::canvas::lines_model(lines@);
    let mut i: usize = 0;
    while i < realized.len()
        invariant
            i <= realized@.len(),
            crate::canvas::lines_model(lines@) == unknown_lines(before, realized@.take(i as int)),
        decreases realized@.len() - i,
    {
        assert(realized@.take(i as int + 1).drop_last() =~= realized@.take(i as int));
        if let ObjectRealization::Unknown { reason, quarantine } = &realized[i] {
            let text = match quarantine {
                Some(path) => {
                    let mut text = "  unknown — check ".to_string();
                    text.push_str(path.display_safely().as_str());
                    text.push_str(": ");
                    text.push_str(terminal(reason.as_str()).as_str());
                    text
                },
                None => {
                    let mut text = "  unknown — ".to_string();
                    text.push_str(terminal(reason.as_str()).as_str());
                    text
                },
            };
            push_over(lines, text, Style::color(Color::Red));
        }
        i = i + 1;
    }
    assert(realized@.take(realized@.len() as int) =~= realized@);
}

/// Planned and realized, each as a value of its own.
pub open spec fn worth_lines(lines: Seq<LineModel>, b: BatchResult, words: Seq<Seq<char>>) -> Seq<LineModel> {
    let l = crate::commander_screen::plain(lines, ""@);
    let l = crate::commander_screen::plain(
        l,
        "  planned: "@ + crate::units::reclaim_words(b.estimate),
    );
    let l = crate::commander_screen::plain(
        l,
        "  realized: guaranteed after quarantine purge: "@ + crate::units::size_text(
            b.realized_bytes as nat,
        ) + "  ("@ + crate::text::decimal(b.completed_objects as nat) + " allocation(s))"@,
    );
    let l = zero_lines(l, zeros_upto(b.realized@, 7), words);
    let l = crate::commander_screen::plain(
        l,
        "  re-checked during the batch: "@ + crate::units::size_text(b.bytes_read as nat),
    );
    unknown_lines(l, b.realized@)
}

fn add_worth(lines: &mut Vec<Line>, b: &BatchResult, words: &Vec<String>)
    requires
        words@.len() == 7,
    ensures
        crate::canvas::lines_model(final(lines)@) == worth_lines(
            crate::canvas::lines_model(old(lines)@),
            *b,
            crate::browser::strings_model(words@),
        ),
{
    add_plain(lines, "");
    let mut planned = "  planned: ".to_string();
    planned.push_str(reclaim_phrase(b.estimate).as_str());
    add_plain(lines, planned.as_str());
    let mut realized = "  realized: guaranteed after quarantine purge: ".to_string();
    realized.push_str(human_bytes(b.realized_bytes).as_str());
    realized.push_str("  (");
    push_usize(&mut realized, b.completed_objects);
    realized.push_str(" allocation(s))");
    add_plain(lines, realized.as_str());
    let zeros = zeros_by_reason(b);
    add_zeros(lines, &zeros, words);
    let mut checked = "  re-checked during the batch: ".to_string();
    checked.push_str(human_bytes(b.bytes_read).as_str());
    add_plain(lines, checked.as_str());
    add_unknown(lines, &b.realized);
}

// ---------------------------------------------------------------------------------------------
// Releasing the space.
// ---------------------------------------------------------------------------------------------
/// The heading over the commands that release the space.
pub open spec fn release_heading_words() -> Seq<char> {
    "Space is released AFTER verifying and purging with the commands:"@
}

/// The heading over the commands that release the space.
pub fn release_heading() -> (r: &'static str)
    ensures
        r@ == release_heading_words(),
{
    "Space is released AFTER verifying and purging with the commands:"
}

/// A purge command.
pub open spec fn purge_command(index: int) -> Seq<char> {
    if index == 0 {
        "dedcom --purge-quarantine       # shows what it would remove"@
    } else {
        "dedcom --purge-quarantine --yes # removes every quarantine, for good"@
    }
}

/// The two purge commands: the one that lists, and the one that removes.
pub fn purge_commands() -> (r: [&'static str; 2])
    ensures
        r@[0]@ == purge_command(0),
        r@[1]@ == purge_command(1),
{
    [
        "dedcom --purge-quarantine       # shows what it would remove",
        "dedcom --purge-quarantine --yes # removes every quarantine, for good",
    ]
}

/// How the space is released, a warning about the marks, and the way on.
pub open spec fn release_lines(lines: Seq<LineModel>, b: BatchResult, unsettled: Option<Seq<char>>) -> Seq<
    LineModel,
> {
    let l = crate::commander_screen::plain(lines, "  "@ + release_heading_words());
    let l = listed_texts(l, "    zfs destroy "@, crate::browser::strings_model(b.snapshots@));
    let l = if b.quarantine_dirs@.len() > 0 {
        crate::commander_screen::plain(
            crate::commander_screen::plain(l, "    "@ + purge_command(0)),
            "    "@ + purge_command(1),
        )
    } else {
        l
    };
    let l = match unsettled {
        Some(warning) => crate::commander_screen::plain(l, ""@).push(
            over_line("  "@ + warning, loud(Color::Red)),
        ),
        None => l,
    };
    crate::commander_screen::plain(l, ""@).push(
        crate::canvas::styled_line(
            "  [Esc] to configuration · [Q] quit"@,
            crate::commander_screen::dim_style(),
        ),
    )
}

fn add_release(lines: &mut Vec<Line>, b: &BatchResult, unsettled: Option<&str>)
    ensures
        crate::canvas::lines_model(final(lines)@) == release_lines(
            crate::canvas::lines_model(old(lines)@),
            *b,
            crate::panel::words_of(unsettled),
        ),
{
    let mut heading = "  ".to_string();
    heading.push_str(release_heading());
    add_plain(lines, heading.as_str());
    add_texts(lines, "    zfs destroy ", &b.snapshots);
    if b.quarantine_dirs.len() > 0 {
        let commands = purge_commands();
        let mut first = "    ".to_string();
        first.push_str(commands[0]);
        add_plain(lines, first.as_str());
        let mut second = "    ".to_string();
        second.push_str(commands[1]);
        add_plain(lines, second.as_str());
    }
    if let Some(warning) = unsettled {
        add_plain(lines, "");
        let mut text = "  ".to_string();
        text.push_str(warning);
        push_over(lines, text, Style::color(Color::Red).bold());
    }
    add_plain(lines, "");
    add_hint(lines, "  [Esc] to configuration · [Q] quit");
}

/// The whole summary.
pub open spec fn summary_lines(b: BatchResult, words: Seq<Seq<char>>, unsettled: Option<Seq<char>>) -> Seq<
    LineModel,
> {
    release_lines(
        worth_lines(
            safety_lines(failure_lines(head_lines(b), b.outcomes@), b),
            b,
            words,
        ),
        b,
        unsettled,
    )
}

/// The summary on screen: wrapped, so that no pathname pushes a reason off the edge.
pub open spec fn summary_widget(area: Rect, lines: Seq<LineModel>) -> WidgetModel {
    WidgetModel::Text {
        area,
        lines,
        style: crate::canvas::plain_style(),
        frame: Some(crate::canvas::plain_frame(" DedupCommando — summary "@)),
        wrap: true,
        centered: false,
    }
}

/// Summary screen: `words` say why allocations came out worth nothing, in the order of the
/// reasons; `unsettled` warns that the marks are not settled.
pub fn render(
    canvas: &mut Canvas,
    result: Option<&BatchResult>,
    words: &Vec<String>,
    unsettled: Option<&str>,
)
    requires
        words@.len() == 7,
    ensures
        final(canvas).area == old(canvas).area,
        final(canvas)@ == (match result {
            Some(b) => old(canvas)@.push(
                summary_widget(
                    old(canvas).area,
                    summary_lines(
                        *b,
                        crate::browser::strings_model(words@),
                        crate::panel::words_of(unsettled),
                    ),
                ),
            ),
            None => old(canvas)@,
        }),
{
    if let Some(b) = result {
        let mut lines: Vec<Line> = Vec::new();
        add_head(&mut lines, b);
        add_failures(&mut lines, &b.outcomes);
        add_safety(&mut lines, b);
        add_worth(&mut lines, b, words);
        add_release(&mut lines, b, unsettled);
        let area = canvas.area;
        canvas.put(
            Widget::Text {
                area,
                lines,
                style: Style::new(),
                frame: Some(Frame::fixed(" DedupCommando — summary ")),
                wrap: true,
                centered: false,
            },
        );
    }
}

} // verus!
