//! The safeguard before a move: a snapshot of every dataset that holds a source, once per run.

use vstd::prelude::*;

use crate::app::{App, AppModel, CommanderModel, Dataset};
use crate::assoc::Assoc;

verus! {

/// The name of the dataset that a device belongs to.
pub open spec fn dataset_of(datasets: Seq<Dataset>, device: u64) -> Option<Seq<char>>
    decreases datasets.len(),
{
    if datasets.len() == 0 {
        None
    } else if datasets[0].device_id == Some(device) {
        Some(datasets[0].name@)
    } else {
        dataset_of(datasets.skip(1), device)
    }
}

/// The datasets to snapshot: those of the sources, in order, without duplicates. A source that
/// could not be looked at or lies on no dataset calls for none.
pub open spec fn snapshot_datasets(datasets: Seq<Dataset>, devices: Seq<Option<u64>>) -> Seq<Seq<char>>
    decreases devices.len(),
{
    if devices.len() == 0 {
        Seq::empty()
    } else {
        let before = snapshot_datasets(datasets, devices.drop_last());
        match devices.last() {
            None => before,
            Some(device) => match dataset_of(datasets, device) {
                None => before,
                Some(name) => if before.contains(name) {
                    before
                } else {
                    before.push(name)
                },
            },
        }
    }
}

fn find_dataset(datasets: &Vec<Dataset>, device: u64) -> (r: Option<String>)
    ensures
        match r {
            Some(name) => dataset_of(datasets@, device) == Some(name@),
            None => dataset_of(datasets@, device) is None,
        },
{
    let mut i: usize = 0;
    assert(datasets@.skip(0) =~= datasets@);
    while i < datasets.len()
        invariant
            i <= datasets@.len(),
            dataset_of(datasets@, device) == dataset_of(datasets@.skip(i as int), device),
        decreases datasets@.len() - i,
    {
        assert(datasets@.skip(i as int)[0] == datasets@[i as int]);
        assert(datasets@.skip(i as int).skip(1) =~= datasets@.skip(i as int + 1));
        let here = match datasets[i].device_id {
            Some(id) => id == device,
            None => false,
        };
        if here {
            return Some(datasets[i].name.as_str().to_string());
        }
        i = i + 1;
    }
    None
}

fn holds_name(names: &Vec<String>, name: &String) -> (r: bool)
    ensures
        r == crate::browser::strings_model(names@).contains(name@),
{
    let ghost all = crate::browser::strings_model(names@);
    let mut i: usize = 0;
    while i < names.len()
        invariant
            i <= names@.len(),
            all == crate::browser::strings_model(names@),
            forall|k: int| 0 <= k < i ==> all[k] != name@,
        decreases names@.len() - i,
    {
        if names[i] == *name {
            assert(all[i as int] == name@);
            return true;
        }
        i = i + 1;
    }
    false
}

/// The datasets to snapshot before moving sources that lie on `devices`.
pub fn snapshot_targets(datasets: &Vec<Dataset>, devices: &Vec<Option<u64>>) -> (r: Vec<String>)
    ensures
        crate::browser::strings_model(r@) == snapshot_datasets(datasets@, devices@),
{
    let mut targets: Vec<String> = Vec::new();
    let mut i: usize = 0;
    assert(crate::browser::strings_model(targets@) =~= Seq::empty());
    while i < devices.len()
        invariant
            i <= devices@.len(),
            crate::browser::strings_model(targets@) == snapshot_datasets(
                datasets@,
                devices@.take(i as int),
            ),
        decreases devices@.len() - i,
    {
        assert(devices@.take(i as int + 1).drop_last() =~= devices@.take(i as int));
        if let Some(device) = devices[i] {
            if let Some(name) = find_dataset(datasets, device) {
                if !holds_name(&targets, &name) {
                    let ghost before = crate::browser::strings_model(targets@);
                    let ghost view = name@;
                    targets.push(name);
                    assert(crate::browser::strings_model(targets@) =~= before.push(view));
                }
            }
        }
        i = i + 1;
    }
    assert(devices@.take(devices@.len() as int) =~= devices@);
    targets
}

// ---------------------------------------------------------------------------------------------
// A run of snapshots, step by step.
// ---------------------------------------------------------------------------------------------
/// A run of safeguard snapshots: the datasets it is for, those that have their snapshot, and the
/// failure that ended it.
#[derive(Debug, Clone)]
pub struct SnapshotRun {
    pub targets: Vec<String>,
    pub record: Assoc<String, ()>,
    pub failure: Option<String>,
}

/// The content of a run.
#[verifier::ext_equal]
pub struct SnapshotModel {
    pub targets: Seq<Seq<char>>,
    pub record: Map<Seq<char>, ()>,
    pub failure: Option<Seq<char>>,
}

impl View for SnapshotRun {
    type V = SnapshotModel;

    open spec fn view(&self) -> SnapshotModel {
        SnapshotModel {
            targets: crate::browser::strings_model(self.targets@),
            record: self.record@,
            failure: crate::triage::failure_model(self.failure),
        }
    }
}

/// What a failed snapshot is reported as.
pub open spec fn snapshot_failure(dataset: Seq<char>, error: Seq<char>) -> Seq<char> {
    "Snapshot "@ + dataset + " not created ("@ + error + ") — move cancelled"@
}

/// The first dataset without a snapshot.
pub open spec fn first_missing(targets: Seq<Seq<char>>, record: Map<Seq<char>, ()>) -> Option<
    Seq<char>,
>
    decreases targets.len(),
{
    if targets.len() == 0 {
        None
    } else if record.dom().contains(targets[0]) {
        first_missing(targets.skip(1), record)
    } else {
        Some(targets[0])
    }
}

impl SnapshotModel {
    /// A run about to begin.
    pub open spec fn begun(targets: Seq<Seq<char>>, record: Map<Seq<char>, ()>) -> SnapshotModel {
        SnapshotModel { targets, record, failure: None }
    }

    /// The dataset to snapshot next; none where the run is over.
    pub open spec fn wants(self) -> Option<Seq<char>> {
        if self.failure is Some {
            None
        } else {
            first_missing(self.targets, self.record)
        }
    }

    /// The run after the answer on the dataset it wanted: a success is recorded, an error ends the
    /// run.
    pub open spec fn answered(self, error: Option<Seq<char>>) -> SnapshotModel {
        match self.wants() {
            None => self,
            Some(dataset) => match error {
                None => SnapshotModel { record: self.record.insert(dataset, ()), ..self },
                Some(words) => SnapshotModel {
                    failure: Some(snapshot_failure(dataset, words)),
                    ..self
                },
            },
        }
    }

    /// The run after several answers.
    pub open spec fn driven(self, errors: Seq<Option<Seq<char>>>) -> SnapshotModel
        decreases errors.len(),
    {
        if errors.len() == 0 {
            self
        } else {
            self.driven(errors.drop_last()).answered(errors.last())
        }
    }
}

impl SnapshotRun {
    /// The dataset to snapshot next; none where the run is over.
    pub fn wanted(&self) -> (r: Option<&String>)
        ensures
            match r {
                Some(dataset) => self@.wants() == Some(dataset@),
                None => self@.wants() is None,
            },
    {
        if self.failure.is_some() {
            return None;
        }
        let ghost all = crate::browser::strings_model(self.targets@);
        let mut i: usize = 0;
        assert(all.skip(0) =~= all);
        while i < self.targets.len()
            invariant
                i <= self.targets@.len(),
                all == crate::browser::strings_model(self.targets@),
                self@.wants() == first_missing(all.skip(i as int), self.record@),
            decreases self.targets@.len() - i,
        {
            assert(all.skip(i as int)[0] == self.targets@[i as int]@);
            assert(all.skip(i as int).skip(1) =~= all.skip(i as int + 1));
            if !self.record.contains(&self.targets[i]) {
                return Some(&self.targets[i]);
            }
            i = i + 1;
        }
        None
    }

    /// Takes the answer on the dataset wanted: the snapshot's name, or why there is none.
    pub fn answer(&mut self, outcome: Result<String, String>)
        ensures
            final(self)@ == old(self)@.answered(error_of(outcome)),
    {
        let dataset = match self.wanted() {
            Some(dataset) => dataset.as_str().to_string(),
            None => {
                return;
            },
        };
        match outcome {
            Ok(_) => self.record.insert(dataset, ()),
            Err(error) => {
                let mut message = "Snapshot ".to_string();
                message.push_str(dataset.as_str());
                message.push_str(" not created (");
                message.push_str(error.as_str());
                message.push_str(") — move cancelled");
                self.failure = Some(message);
            },
        }
    }
}

/// Why a snapshot was not taken, if it was not.
pub open spec fn error_of(outcome: Result<String, String>) -> Option<Seq<char>> {
    match outcome {
        Ok(_) => None,
        Err(error) => Some(error@),
    }
}

proof fn lemma_first_missing(targets: Seq<Seq<char>>, record: Map<Seq<char>, ()>)
    ensures
        match first_missing(targets, record) {
            Some(dataset) => exists|at: int|
                #![trigger targets[at]]
                0 <= at < targets.len() && targets[at] == dataset && !record.dom().contains(
                    dataset,
                ) && forall|k: int| 0 <= k < at ==> record.dom().contains(#[trigger] targets[k]),
            None => forall|k: int|
                0 <= k < targets.len() ==> record.dom().contains(#[trigger] targets[k]),
        },
    decreases targets.len(),
{
    if targets.len() > 0 {
        let rest = targets.skip(1);
        lemma_first_missing(rest, record);
        if record.dom().contains(targets[0]) {
            match first_missing(targets, record) {
                Some(dataset) => {
                    let at = choose|at: int|
                        #![trigger rest[at]]
                        0 <= at < rest.len() && rest[at] == dataset && !record.dom().contains(
                            dataset,
                        ) && forall|k: int|
                            0 <= k < at ==> record.dom().contains(#[trigger] rest[k]);
                    assert(targets[at + 1] == dataset);
                    assert forall|k: int| 0 <= k < at + 1 implies record.dom().contains(
                        #[trigger] targets[k],
                    ) by {
                        if k > 0 {
                            assert(rest[k - 1] == targets[k]);
                        }
                    }
                },
                None => {
                    assert forall|k: int| 0 <= k < targets.len() implies record.dom().contains(
                        #[trigger] targets[k],
                    ) by {
                        if k > 0 {
                            assert(rest[k - 1] == targets[k]);
                        }
                    }
                },
            }
        } else {
            assert(targets[0] == first_missing(targets, record)->Some_0);
        }
    }
}

/// Snapshots are asked for in order, and only of datasets of the batch that have none: everything
/// before the dataset asked for is recorded, it is not, and nothing has failed.
pub proof fn law_only_the_unrecorded_are_asked_for(run: SnapshotModel)
    requires
        run.wants() is Some,
    ensures
        run.failure is None,
        !run.record.dom().contains(run.wants()->Some_0),
        exists|at: int|
            #![trigger run.targets[at]]
            0 <= at < run.targets.len() && run.targets[at] == run.wants()->Some_0 && forall|k: int|
                0 <= k < at ==> run.record.dom().contains(#[trigger] run.targets[k]),
{
    lemma_first_missing(run.targets, run.record);
}

/// After a failure nothing more is asked for, and what failed is not recorded.
pub proof fn law_a_failure_ends_the_run(
    run: SnapshotModel,
    error: Seq<char>,
    later: Seq<Option<Seq<char>>>,
)
    requires
        run.wants() is Some,
    ensures
        run.answered(Some(error)).driven(later) == run.answered(Some(error)),
        run.answered(Some(error)).wants() is None,
        run.answered(Some(error)).record == run.record,
        run.answered(Some(error)).failure == Some(snapshot_failure(run.wants()->Some_0, error)),
    decreases later.len(),
{
    if later.len() > 0 {
        law_a_failure_ends_the_run(run, error, later.drop_last());
    }
}

/// A dataset is asked for at most once in a run, whatever the answers are.
pub proof fn law_a_dataset_is_asked_for_once(
    run: SnapshotModel,
    error: Option<Seq<char>>,
    later: Seq<Option<Seq<char>>>,
)
    requires
        run.wants() is Some,
    ensures
        run.answered(error).driven(later).wants() != run.wants(),
{
    match error {
        Some(words) => {
            law_a_failure_ends_the_run(run, words, later);
        },
        None => {
            let next = run.answered(error);
            let end = next.driven(later);
            lemma_record_grows(next, later);
            lemma_first_missing(end.targets, end.record);
            assert(next.record.dom().contains(run.wants()->Some_0));
            assert(end.record.dom().contains(run.wants()->Some_0));
        },
    }
}

proof fn lemma_record_grows(run: SnapshotModel, errors: Seq<Option<Seq<char>>>)
    ensures
        run.driven(errors).targets == run.targets,
        forall|name: Seq<char>| #[trigger]
            run.record.dom().contains(name) ==> run.driven(errors).record.dom().contains(name),
    decreases errors.len(),
{
    if errors.len() > 0 {
        lemma_record_grows(run, errors.drop_last());
    }
}

/// What is recorded are the datasets recorded before and those of the batch that were answered
/// with a snapshot; a run that ends without a failure has all of the batch, so that running it
/// again asks for nothing.
pub proof fn law_only_successes_are_recorded(
    start: SnapshotModel,
    errors: Seq<Option<Seq<char>>>,
    name: Seq<char>,
)
    requires
        start.failure is None,
    ensures
        ({
            let end = start.driven(errors);
            &&& end.record.dom().contains(name) && !start.record.dom().contains(name) ==> exists|
                at: int,
            |
                #![trigger errors[at]]
                0 <= at < errors.len() && errors[at] is None && start.driven(
                    errors.take(at),
                ).wants() == Some(name)
            &&& end.wants() is None && end.failure is None ==> (forall|k: int|
                0 <= k < end.targets.len() ==> end.record.dom().contains(#[trigger] end.targets[k]))
                && SnapshotModel::begun(end.targets, end.record).wants() is None
        }),
    decreases errors.len(),
{
    let end = start.driven(errors);
    lemma_first_missing(end.targets, end.record);
    if errors.len() > 0 {
        let before = errors.drop_last();
        let last = errors.len() - 1;
        law_only_successes_are_recorded(start, before, name);
        assert(errors.take(last) =~= before);
        if end.record.dom().contains(name) && !start.record.dom().contains(name) {
            if start.driven(before).record.dom().contains(name) {
                let at = choose|at: int|
                    #![trigger before[at]]
                    0 <= at < before.len() && before[at] is None && start.driven(
                        before.take(at),
                    ).wants() == Some(name);
                assert(before.take(at) =~= errors.take(at));
                assert(errors[at] == before[at]);
            } else {
                assert(errors[last] is None);
            }
        }
    }
}

// ---------------------------------------------------------------------------------------------
// A run to its end.
// ---------------------------------------------------------------------------------------------
/// A snapshot of a dataset could have come out this way.
#[verifier::opaque]
pub open spec fn may_return<F: Fn(&str) -> Result<String, String>>(
    create: F,
    dataset: Seq<char>,
    error: Option<Seq<char>>,
) -> bool {
    exists|name: &str, outcome: Result<String, String>|
        name@ == dataset && error_of(outcome) == error && #[trigger] call_ensures(
            create,
            (name,),
            outcome,
        )
}

/// Answer `i` of a run is one of `create` on the dataset wanted at that point.
#[verifier::opaque]
pub open spec fn replied_at<F: Fn(&str) -> Result<String, String>>(
    create: F,
    start: SnapshotModel,
    errors: Seq<Option<Seq<char>>>,
    i: int,
) -> bool {
    start.driven(errors.take(i)).wants() matches Some(dataset) && may_return(
        create,
        dataset,
        errors[i],
    )
}

/// The answers of a run are those of `create`, each on the dataset wanted at that point.
#[verifier::opaque]
pub open spec fn replied<F: Fn(&str) -> Result<String, String>>(
    create: F,
    start: SnapshotModel,
    errors: Seq<Option<Seq<char>>>,
) -> bool {
    forall|i: int| 0 <= i < errors.len() ==> #[trigger] replied_at(create, start, errors, i)
}

proof fn lemma_replied_none<F: Fn(&str) -> Result<String, String>>(create: F, start: SnapshotModel)
    ensures
        replied(create, start, Seq::empty()),
        start.driven(Seq::empty()) == start,
{
    reveal(replied);
}

proof fn lemma_replied_before<F: Fn(&str) -> Result<String, String>>(
    create: F,
    start: SnapshotModel,
    errors: Seq<Option<Seq<char>>>,
    error: Option<Seq<char>>,
    i: int,
)
    requires
        0 <= i < errors.len(),
        replied_at(create, start, errors, i),
    ensures
        replied_at(create, start, errors.push(error), i),
{
    reveal(replied_at);
    assert(errors.push(error).take(i) =~= errors.take(i));
    assert(errors.push(error)[i] == errors[i]);
}

proof fn lemma_replied_last<F: Fn(&str) -> Result<String, String>>(
    create: F,
    start: SnapshotModel,
    errors: Seq<Option<Seq<char>>>,
    error: Option<Seq<char>>,
)
    requires
        start.driven(errors).wants() matches Some(dataset) && may_return(create, dataset, error),
    ensures
        replied_at(create, start, errors.push(error), errors.len() as int),
{
    reveal(replied_at);
    assert(errors.push(error).take(errors.len() as int) =~= errors);
    assert(errors.push(error)[errors.len() as int] == error);
}

proof fn lemma_replied_more<F: Fn(&str) -> Result<String, String>>(
    create: F,
    start: SnapshotModel,
    errors: Seq<Option<Seq<char>>>,
    error: Option<Seq<char>>,
)
    requires
        replied(create, start, errors),
        start.driven(errors).wants() matches Some(dataset) && may_return(create, dataset, error),
    ensures
        replied(create, start, errors.push(error)),
        start.driven(errors.push(error)) == start.driven(errors).answered(error),
{
    let more = errors.push(error);
    assert(more.drop_last() =~= errors);
    assert(start.driven(more) == start.driven(errors).answered(error));
    reveal(replied);
    assert forall|i: int| 0 <= i < more.len() implies #[trigger] replied_at(
        create,
        start,
        more,
        i,
    ) by {
        if i < errors.len() {
            assert(replied_at(create, start, errors, i));
            lemma_replied_before(create, start, errors, error, i);
        } else {
            lemma_replied_last(create, start, errors, error);
        }
    }
}

/// A run from its beginning to its end.
pub open spec fn run_through<F: Fn(&str) -> Result<String, String>>(
    create: F,
    start: SnapshotModel,
    errors: Seq<Option<Seq<char>>>,
    end: SnapshotModel,
) -> bool {
    replied(create, start, errors) && end == start.driven(errors) && end.wants() is None
}

/// How many datasets have no snapshot.
spec fn missing(targets: Seq<Seq<char>>, record: Map<Seq<char>, ()>) -> nat
    decreases targets.len(),
{
    if targets.len() == 0 {
        0
    } else {
        missing(targets.drop_last(), record) + (if record.dom().contains(targets.last()) {
            0nat
        } else {
            1nat
        })
    }
}

proof fn lemma_missing(targets: Seq<Seq<char>>, record: Map<Seq<char>, ()>, name: Seq<char>)
    ensures
        missing(targets, record.insert(name, ())) <= missing(targets, record),
        targets.contains(name) && !record.dom().contains(name) ==> missing(
            targets,
            record.insert(name, ()),
        ) < missing(targets, record),
    decreases targets.len(),
{
    if targets.len() > 0 {
        lemma_missing(targets.drop_last(), record, name);
        if targets.contains(name) && targets.last() != name {
            let k = choose|k: int| 0 <= k < targets.len() && targets[k] == name;
            assert(targets.drop_last()[k] == name);
        }
    }
}

/// Steps that a run can still take.
spec fn steps_left(run: SnapshotModel) -> nat {
    if run.failure is Some {
        0
    } else {
        missing(run.targets, run.record) + 1
    }
}

proof fn lemma_steps(run: SnapshotModel, error: Option<Seq<char>>)
    requires
        run.wants() is Some,
    ensures
        steps_left(run.answered(error)) < steps_left(run),
{
    lemma_first_missing(run.targets, run.record);
    let dataset = run.wants()->Some_0;
    assert(run.targets.contains(dataset));
    lemma_missing(run.targets, run.record, dataset);
}

/// Snapshots in order each entry of `targets` that has not been snapshotted yet; on the first
/// failure the move is cancelled. A success is recorded in `already`, so as not to snapshot the
/// same dataset twice within a run.
pub fn run_source_snapshots<F: Fn(&str) -> Result<String, String>>(
    targets: &Vec<String>,
    already: &mut Assoc<String, ()>,
    create: F,
) -> (r: Result<(), String>)
    requires
        forall|name: &str| call_requires(create, (name,)),
    ensures
        exists|errors: Seq<Option<Seq<char>>>, end: SnapshotModel|
            #[trigger] run_through(
                create,
                SnapshotModel::begun(crate::browser::strings_model(targets@), old(already)@),
                errors,
                end,
            ) && final(already)@ == end.record && ended(r) == end.failure,
{
    let ghost names = crate::browser::strings_model(targets@);
    let ghost start = SnapshotModel::begun(names, already@);
    let mut run = SnapshotRun {
        targets: copy_names(targets),
        record: Assoc::new(),
        failure: None,
    };
    std::mem::swap(already, &mut run.record);
    let ghost mut errors: Seq<Option<Seq<char>>> = Seq::empty();
    assert(run@ =~= start);
    proof {
        lemma_replied_none(create, start);
    }
    loop
        invariant
            forall|name: &str| call_requires(create, (name,)),
            run@ == start.driven(errors),
            replied(create, start, errors),
        ensures
            run@ == start.driven(errors),
            replied(create, start, errors),
            run@.wants() is None,
        decreases steps_left(run@),
    {
        let outcome = match run.wanted() {
            None => {
                break;
            },
            Some(dataset) => {
                let name: &str = dataset.as_str();
                let outcome = create(name);
                assert(call_ensures(create, (name,), outcome));
                assert(may_return(create, dataset@, error_of(outcome))) by {
                    reveal(may_return);
                }
                outcome
            },
        };
        proof {
            lemma_steps(run@, error_of(outcome));
            lemma_replied_more(create, start, errors, error_of(outcome));
            errors = errors.push(error_of(outcome));
        }
        run.answer(outcome);
    }
    let ghost end = run@;
    std::mem::swap(already, &mut run.record);
    assert(run_through(create, start, errors, end));
    match run.failure {
        None => Ok(()),
        Some(message) => Err(message),
    }
}

/// The failure a result stands for.
pub open spec fn ended(r: Result<(), String>) -> Option<Seq<char>> {
    match r {
        Ok(()) => None,
        Err(message) => Some(message@),
    }
}

fn copy_names(names: &Vec<String>) -> (r: Vec<String>)
    ensures
        crate::browser::strings_model(r@) == crate::browser::strings_model(names@),
{
    let ghost all = crate::browser::strings_model(names@);
    let mut out: Vec<String> = Vec::new();
    let mut i: usize = 0;
    assert(crate::browser::strings_model(out@) =~= all.take(0));
    while i < names.len()
        invariant
            i <= names@.len(),
            all == crate::browser::strings_model(names@),
            crate::browser::strings_model(out@) == all.take(i as int),
        decreases names@.len() - i,
    {
        let ghost before = crate::browser::strings_model(out@);
        out.push(names[i].as_str().to_string());
        assert(crate::browser::strings_model(out@) =~= before.push(all[i as int]));
        assert(all.take(i as int + 1) =~= all.take(i as int).push(all[i as int]));
        i = i + 1;
    }
    assert(all.take(all.len() as int) =~= all);
    out
}

/// The safeguard of a batch whose sources lie on `devices`, about to begin: the affected datasets,
/// and what the session has recorded. The record is handed over to the run until it is over.
pub fn begin_safeguard(app: &mut App, devices: &Vec<Option<u64>>) -> (r: SnapshotRun)
    ensures
        r@ == SnapshotModel::begun(
            snapshot_datasets(old(app)@.datasets, devices@),
            old(app)@.commander.snapshotted,
        ),
        final(app)@ == with_record(old(app)@, Map::empty()),
{
    let targets = snapshot_targets(&app.datasets, devices);
    let mut record: Assoc<String, ()> = Assoc::new();
    std::mem::swap(&mut app.commander.snapshotted, &mut record);
    SnapshotRun { targets, record, failure: None }
}

/// The application with another record of snapshots.
pub open spec fn with_record(a: AppModel, record: Map<Seq<char>, ()>) -> AppModel {
    AppModel { commander: CommanderModel { snapshotted: record, ..a.commander }, ..a }
}

/// Takes the record back from a run, and says why it failed, if it did.
pub fn end_safeguard(app: &mut App, run: SnapshotRun) -> (r: Option<String>)
    ensures
        final(app)@ == with_record(old(app)@, run@.record),
        crate::triage::failure_model(r) == run@.failure,
{
    app.commander.snapshotted = run.record;
    run.failure
}

/// The safeguard of a batch whose sources lie on `devices`: a snapshot of every affected dataset,
/// once per run. A failure cancels the move.
pub fn ensure_source_snapshots<F: Fn(&str) -> Result<String, String>>(
    app: &mut App,
    devices: &Vec<Option<u64>>,
    create: F,
) -> (r: Result<(), String>)
    requires
        forall|name: &str| call_requires(create, (name,)),
    ensures
        exists|errors: Seq<Option<Seq<char>>>, end: SnapshotModel|
            #[trigger] run_through(
                create,
                SnapshotModel::begun(
                    snapshot_datasets(old(app)@.datasets, devices@),
                    old(app)@.commander.snapshotted,
                ),
                errors,
                end,
            ) && final(app)@ == with_record(old(app)@, end.record) && ended(r) == end.failure,
{
    let targets = snapshot_targets(&app.datasets, devices);
    run_source_snapshots(&targets, &mut app.commander.snapshotted, create)
}

} // verus!
