//! The attachment set: auxiliary database files that one session makes
//! visible beside its primary catalog, each under a generated alias, and the
//! statements that attach and detach them.

use crate::error::{Error, ErrorView};
use crate::text::{decimal, decimal_digits, lemma_decimal_injective};
use rand::distr::{Alphanumeric, SampleString};
use std::sync::Arc;
use vstd::prelude::*;

verus! {

/// The number of characters of a session token.
pub const TOKEN_LENGTH: usize = 8;

/// Whether `c` is an ASCII letter or digit.
pub open spec fn ascii_alphanumeric(c: char) -> bool {
    ('0' <= c && c <= '9') || ('a' <= c && c <= 'z') || ('A' <= c && c <= 'Z')
}

/// Whether `token` is made of ASCII letters and digits.
pub open spec fn alphanumeric_token(token: Seq<char>) -> bool {
    forall|i: int| 0 <= i < token.len() ==> ascii_alphanumeric(#[trigger] token[i])
}

/// The texts of a sequence of paths.
pub open spec fn texts(paths: Seq<Arc<str>>) -> Seq<Seq<char>> {
    paths.map_values(|path: Arc<str>| path@)
}

/// The texts of a sequence of owned paths.
pub open spec fn owned_texts(paths: Seq<String>) -> Seq<Seq<char>> {
    paths.map_values(|path: String| path@)
}

/// `paths` without its repetitions: each path once, at the place of its
/// first occurrence.
pub open spec fn distinct(paths: Seq<Seq<char>>) -> Seq<Seq<char>>
    decreases paths.len(),
{
    if paths.len() == 0 {
        Seq::empty()
    } else {
        let before = distinct(paths.drop_last());
        if before.contains(paths.last()) {
            before
        } else {
            before.push(paths.last())
        }
    }
}

/// The alias of the attachment at `index` in the session of `token`.
pub open spec fn attachment_name(token: Seq<char>, index: nat) -> Seq<char> {
    "attachment_"@ + token + "_"@ + decimal_digits(index)
}

/// The segments of a search path: the primary catalog, then the alias of
/// each of `count` attachments in their order.
pub open spec fn search_path_segments(id: Seq<char>, token: Seq<char>, count: nat) -> Seq<
    Seq<char>,
> {
    seq![id] + Seq::new(count, |i: int| attachment_name(token, i as nat))
}

/// `parts` joined by commas.
pub open spec fn comma_joined(parts: Seq<Seq<char>>) -> Seq<char>
    decreases parts.len(),
{
    if parts.len() == 0 {
        Seq::empty()
    } else if parts.len() == 1 {
        parts[0]
    } else {
        comma_joined(parts.drop_last()) + ","@ + parts.last()
    }
}

/// The search path of a session: its segments joined by commas.
pub open spec fn search_path_of(id: Seq<char>, token: Seq<char>, count: nat) -> Seq<char> {
    comma_joined(search_path_segments(id, token, count))
}

/// Draws a token of `length` characters with `Alphanumeric.sample_string`
/// on the thread's generator. Each draw may differ; every outcome has the
/// asked length and holds ASCII letters and digits only.
#[verifier::external_body]
fn random_token(length: usize) -> (r: String)
    ensures
        r@.len() == length,
        alphanumeric_token(r@),
{
    Alphanumeric.sample_string(&mut rand::rng(), length)
}

/// The text behind a shared path.
fn path_text(path: &Arc<str>) -> (r: &str)
    ensures
        r@ == path@,
{
    &**path
}

/// The alias of the attachment at `index` in the session of `random_id`.
pub fn get_attachment_name(random_id: &str, index: usize) -> (r: String)
    ensures
        r@ == attachment_name(random_id@, index as nat),
{
    let mut name = String::new();
    name.append("attachment_");
    name.append(random_id);
    name.append("_");
    name.append(decimal(index).as_str());
    assert(name@ == attachment_name(random_id@, index as nat));
    name
}

/// One more alias at the end of the segments joins behind a comma.
proof fn lemma_search_path_step(id: Seq<char>, token: Seq<char>, count: nat)
    ensures
        search_path_of(id, token, 0) == id,
        search_path_of(id, token, count + 1) == search_path_of(id, token, count) + ","@
            + attachment_name(token, count),
{
    let shorter = search_path_segments(id, token, count);
    let longer = search_path_segments(id, token, count + 1);
    assert(longer.drop_last() == shorter);
    assert(longer.last() == attachment_name(token, count));
    assert(search_path_segments(id, token, 0) == seq![id]);
}

/// The search path of the catalog `id` with `count` attachments in the
/// session of `random_id`: the catalog, then each alias, joined by commas.
pub fn get_search_path(id: &str, random_id: &str, count: usize) -> (r: String)
    ensures
        r@ == search_path_of(id@, random_id@, count as nat),
{
    let mut path = String::new();
    path.append(id);
    proof {
        lemma_search_path_step(id@, random_id@, 0);
        assert(path@ == id@);
    }
    let mut i: usize = 0;
    while i < count
        invariant
            i <= count,
            path@ == search_path_of(id@, random_id@, i as nat),
        decreases count - i,
    {
        proof {
            lemma_search_path_step(id@, random_id@, i as nat);
        }
        path.append(",");
        path.append(get_attachment_name(random_id, i).as_str());
        i += 1;
    }
    path
}

/// What `distinct` keeps: nothing twice, and exactly the paths of the input.
pub proof fn lemma_distinct(paths: Seq<Seq<char>>)
    ensures
        distinct(paths).no_duplicates(),
        distinct(paths).len() <= paths.len(),
        forall|path: Seq<char>| distinct(paths).contains(path) <==> paths.contains(path),
    decreases paths.len(),
{
    if paths.len() > 0 {
        let shorter = paths.drop_last();
        let before = distinct(shorter);
        lemma_distinct(shorter);
        assert forall|path: Seq<char>| distinct(paths).contains(path) <==> paths.contains(
            path,
        ) by {
            if paths.contains(path) {
                let i = choose|i: int| 0 <= i < paths.len() && paths[i] == path;
                if i < shorter.len() {
                    assert(shorter[i] == path);
                    assert(shorter.contains(path));
                    assert(before.contains(path));
                    let j = choose|j: int| 0 <= j < before.len() && before[j] == path;
                    assert(distinct(paths)[j] == path);
                } else {
                    assert(path == paths.last());
                    if !before.contains(path) {
                        assert(distinct(paths)[before.len() as int] == path);
                    }
                }
            }
            if distinct(paths).contains(path) {
                let j = choose|j: int| 0 <= j < distinct(paths).len() && distinct(paths)[j] == path;
                if j < before.len() {
                    assert(before[j] == path);
                    assert(before.contains(path));
                    assert(shorter.contains(path));
                    let i = choose|i: int| 0 <= i < shorter.len() && shorter[i] == path;
                    assert(paths[i] == path);
                } else {
                    assert(paths[paths.len() - 1] == path);
                }
            }
        }
    }
}

/// One step of attaching or detaching: something to ask of the file system
/// or of the engine.
#[derive(Debug, PartialEq, Eq)]
pub enum Step {
    /// Verify that the database file at `path` exists.
    CheckFile { path: String },
    /// Execute the statement `sql` on the connection.
    Execute { sql: String },
}

/// The mathematical content of a `Step`.
pub enum StepView {
    CheckFile { path: Seq<char> },
    Execute { sql: Seq<char> },
}

impl View for Step {
    type V = StepView;

    open spec fn view(&self) -> StepView {
        match self {
            Step::CheckFile { path } => StepView::CheckFile { path: path@ },
            Step::Execute { sql } => StepView::Execute { sql: sql@ },
        }
    }
}

impl StepView {
    /// The error that reports this step's failure with the message `source`:
    /// a missing file is an attachment error that names the path, a failed
    /// statement a connection error.
    pub open spec fn failure(self, source: Seq<char>) -> ErrorView {
        match self {
            StepView::CheckFile { path } => ErrorView::UnableToAttachDatabase { path, source },
            StepView::Execute { .. } => ErrorView::DuckDBConnectionError { source },
        }
    }
}

impl Step {
    /// The error that reports this step's failure with the message `source`.
    pub fn failure(&self, source: String) -> (r: Error)
        ensures
            r@ == self@.failure(source@),
    {
        match self {
            Step::CheckFile { path } => Error::UnableToAttachDatabase {
                path: path.clone(),
                source,
            },
            Step::Execute { .. } => Error::DuckDBConnectionError { source },
        }
    }
}

/// Where carrying out a plan stands: the step to be asked for next, the end
/// of the plan, or the error that the plan was given up with.
pub type Progress = Result<Option<int>, ErrorView>;

/// The step that a plan of `count` steps starts with, if it has one.
pub open spec fn plan_start(count: nat) -> Progress {
    if count > 0 {
        Ok(Some(0int))
    } else {
        Ok(None)
    }
}

/// What follows the step at `index` of `steps`: where it failed with a
/// message, the plan is given up with that step's error; where it went well,
/// the next step is asked for, or the plan has ended.
pub open spec fn plan_after(steps: Seq<StepView>, index: int, failed: Option<Seq<char>>) -> Progress {
    let count = steps.len();
    match failed {
        Some(source) => Err(steps[index].failure(source)),
        None => if index + 1 < count {
            Ok(Some(index + 1))
        } else {
            Ok(None)
        },
    }
}

/// Where the plan `steps` stands after the steps asked for so far ended
/// with `outcomes` in turn; each outcome holds the message of a failure, or
/// nothing. Outcomes that come after the end of the plan change nothing:
/// neither a plan that has ended nor one that was given up asks for a step.
pub open spec fn plan_progress(steps: Seq<StepView>, outcomes: Seq<Option<Seq<char>>>) -> Progress
    decreases outcomes.len(),
{
    if outcomes.len() == 0 {
        plan_start(steps.len())
    } else {
        match plan_progress(steps, outcomes.drop_last()) {
            Ok(Some(index)) => plan_after(steps, index, outcomes.last()),
            over => over,
        }
    }
}

/// The contents of a sequence of steps.
pub open spec fn step_views(steps: Seq<Step>) -> Seq<StepView> {
    steps.map_values(|step: Step| step@)
}

/// The statement that attaches the file at `path` read-only under `alias`,
/// unless it is attached already.
pub open spec fn attach_statement(path: Seq<char>, alias: Seq<char>) -> Seq<char> {
    "ATTACH IF NOT EXISTS '"@ + path + "' AS "@ + alias + " (READ_ONLY)"@
}

/// The statement that detaches `alias` if it is attached, and does nothing
/// otherwise: detaching twice, or after an attach that was given up, is no
/// error.
pub open spec fn detach_statement(alias: Seq<char>) -> Seq<char> {
    "DETACH DATABASE IF EXISTS "@ + alias
}

/// The statement that sets the search path to `search_path`.
pub open spec fn set_search_path_statement(search_path: Seq<char>) -> Seq<char> {
    "SET search_path ='"@ + search_path + "'"@
}

/// The statement that resets the search path to the engine's default.
pub open spec fn reset_search_path_statement() -> Seq<char> {
    "RESET search_path"@
}

/// The steps that attach the first `count` of `paths`: for each path in
/// order, the check that its file exists, then its attach statement.
pub open spec fn attach_steps(paths: Seq<Seq<char>>, token: Seq<char>, count: nat) -> Seq<
    StepView,
>
    decreases count,
{
    if count == 0 {
        Seq::empty()
    } else {
        let index = (count - 1) as nat;
        attach_steps(paths, token, index).push(
            StepView::CheckFile { path: paths[index as int] },
        ).push(
            StepView::Execute {
                sql: attach_statement(paths[index as int], attachment_name(token, index)),
            },
        )
    }
}

/// The whole of attaching: the steps for every path, then the statement that
/// sets the search path.
pub open spec fn attach_plan(catalog: Seq<char>, token: Seq<char>, paths: Seq<Seq<char>>) -> Seq<
    StepView,
> {
    attach_steps(paths, token, paths.len()).push(
        StepView::Execute {
            sql: set_search_path_statement(search_path_of(catalog, token, paths.len())),
        },
    )
}

/// The statements that detach the first `count` aliases, in order.
pub open spec fn detach_steps(token: Seq<char>, count: nat) -> Seq<StepView>
    decreases count,
{
    if count == 0 {
        Seq::empty()
    } else {
        let index = (count - 1) as nat;
        detach_steps(token, index).push(
            StepView::Execute { sql: detach_statement(attachment_name(token, index)) },
        )
    }
}

/// The whole of detaching: the detach statement of every alias, then the
/// statement that resets the search path.
pub open spec fn detach_plan(token: Seq<char>, count: nat) -> Seq<StepView> {
    detach_steps(token, count).push(StepView::Execute { sql: reset_search_path_statement() })
}

/// The progress that a result of `first_step` or `after_step` stands for.
pub open spec fn progress_of(result: Result<Option<usize>, Error>) -> Progress {
    match result {
        Ok(Some(index)) => Ok(Some(index as int)),
        Ok(None) => Ok(None),
        Err(error) => Err(error@),
    }
}

/// The message of a failure, if there was one.
pub open spec fn message_of(failed: Option<String>) -> Option<Seq<char>> {
    match failed {
        Some(source) => Some(source@),
        None => None,
    }
}

/// The step that carrying out `steps` starts with, if there is one.
pub fn first_step(steps: &Vec<Step>) -> (r: Option<usize>)
    ensures
        progress_of(Ok(r)) == plan_start(steps@.len()),
        r matches Some(index) ==> index < steps@.len(),
{
    if steps.len() > 0 {
        Some(0)
    } else {
        None
    }
}

/// What follows the step at `index` of `steps`, which failed with the
/// message in `failed` or went well. A failure gives the plan up at once
/// with that step's error: no later step is asked for and none is tried
/// again. After a step that went well the next one is asked for, if there
/// is one.
pub fn after_step(steps: &Vec<Step>, index: usize, failed: Option<String>) -> (r: Result<
    Option<usize>,
    Error,
>)
    requires
        index < steps@.len(),
    ensures
        progress_of(r) == plan_after(step_views(steps@), index as int, message_of(failed)),
        r matches Ok(Some(next)) ==> next < steps@.len(),
{
    let count = steps.len();
    match failed {
        Some(source) => Err(steps[index].failure(source)),
        None => if index + 1 < count {
            Ok(Some(index + 1))
        } else {
            Ok(None)
        },
    }
}

/// A plan whose steps all went well asked for each of them in order and
/// then ended.
pub proof fn lemma_plan_runs_through(steps: Seq<StepView>, outcomes: Seq<Option<Seq<char>>>)
    requires
        outcomes.len() <= steps.len(),
        forall|j: int| 0 <= j < outcomes.len() ==> outcomes[j] is None,
    ensures
        plan_progress(steps, outcomes) == if outcomes.len() < steps.len() {
            Ok::<Option<int>, ErrorView>(Some(outcomes.len() as int))
        } else {
            Ok::<Option<int>, ErrorView>(None)
        },
    decreases outcomes.len(),
{
    if outcomes.len() > 0 {
        lemma_plan_runs_through(steps, outcomes.drop_last());
    }
}

/// A plan is given up at its first failure. Where the steps before `k` went
/// well and the step at `k` failed, the steps up to `k` were asked for in
/// order, the plan stands at the error of the step at `k`, and it stays
/// there whatever is reported afterwards: no later step is asked for, and
/// the failed one is not tried again.
pub proof fn lemma_plan_gives_up_at_first_failure(
    steps: Seq<StepView>,
    outcomes: Seq<Option<Seq<char>>>,
    k: int,
)
    requires
        0 <= k < outcomes.len(),
        k < steps.len(),
        outcomes[k] is Some,
        forall|j: int| 0 <= j < k ==> outcomes[j] is None,
    ensures
        forall|n: int|
            0 <= n <= k ==> #[trigger] plan_progress(steps, outcomes.take(n)) == Ok::<
                Option<int>,
                ErrorView,
            >(Some(n)),
        forall|n: int|
            k < n <= outcomes.len() ==> #[trigger] plan_progress(steps, outcomes.take(n)) == Err::<
                Option<int>,
                ErrorView,
            >(steps[k].failure(outcomes[k]->0)),
        plan_progress(steps, outcomes) == Err::<Option<int>, ErrorView>(
            steps[k].failure(outcomes[k]->0),
        ),
{
    assert forall|n: int| 0 <= n <= k implies #[trigger] plan_progress(steps, outcomes.take(n))
        == Ok::<Option<int>, ErrorView>(Some(n)) by {
        lemma_plan_runs_through(steps, outcomes.take(n));
    }
    assert forall|n: int| k < n <= outcomes.len() implies #[trigger] plan_progress(
        steps,
        outcomes.take(n),
    ) == Err::<Option<int>, ErrorView>(steps[k].failure(outcomes[k]->0)) by {
        lemma_plan_stays_given_up(steps, outcomes, k, n);
    }
    assert(outcomes.take(outcomes.len() as int) == outcomes);
}

/// After the first failure every longer run stands at its error.
proof fn lemma_plan_stays_given_up(
    steps: Seq<StepView>,
    outcomes: Seq<Option<Seq<char>>>,
    k: int,
    n: int,
)
    requires
        0 <= k < n <= outcomes.len(),
        k < steps.len(),
        outcomes[k] is Some,
        forall|j: int| 0 <= j < k ==> outcomes[j] is None,
    ensures
        plan_progress(steps, outcomes.take(n)) == Err::<Option<int>, ErrorView>(
            steps[k].failure(outcomes[k]->0),
        ),
    decreases n,
{
    let run = outcomes.take(n);
    assert(run.drop_last() == outcomes.take(n - 1));
    assert(run.last() == outcomes[n - 1]);
    if n == k + 1 {
        lemma_plan_runs_through(steps, outcomes.take(k));
    } else {
        lemma_plan_stays_given_up(steps, outcomes, k, n - 1);
    }
}

/// The steps of attaching, by position: the check of the file at `j` stands
/// at `2 j`, its attach statement right after it, and the statement that
/// sets the search path at the end.
pub proof fn lemma_attach_plan_shape(catalog: Seq<char>, token: Seq<char>, paths: Seq<Seq<char>>)
    ensures
        attach_plan(catalog, token, paths).len() == 2 * paths.len() + 1,
        forall|j: int|
            0 <= j < paths.len() ==> #[trigger] attach_plan(catalog, token, paths)[2 * j]
                == (StepView::CheckFile { path: paths[j] }),
        forall|j: int|
            0 <= j < paths.len() ==> #[trigger] attach_plan(catalog, token, paths)[2 * j + 1]
                == (StepView::Execute {
                sql: attach_statement(paths[j], attachment_name(token, j as nat)),
            }),
        attach_plan(catalog, token, paths)[2 * paths.len() as int] == (StepView::Execute {
            sql: set_search_path_statement(search_path_of(catalog, token, paths.len())),
        }),
{
    lemma_attach_steps_shape(paths, token, paths.len());
}

/// The steps that attach the first `count` paths, by position.
proof fn lemma_attach_steps_shape(paths: Seq<Seq<char>>, token: Seq<char>, count: nat)
    requires
        count <= paths.len(),
    ensures
        attach_steps(paths, token, count).len() == 2 * count,
        forall|j: int|
            0 <= j < count ==> #[trigger] attach_steps(paths, token, count)[2 * j]
                == (StepView::CheckFile { path: paths[j] }),
        forall|j: int|
            0 <= j < count ==> #[trigger] attach_steps(paths, token, count)[2 * j + 1]
                == (StepView::Execute {
                sql: attach_statement(paths[j], attachment_name(token, j as nat)),
            }),
    decreases count,
{
    if count > 0 {
        lemma_attach_steps_shape(paths, token, (count - 1) as nat);
    }
}

/// Attaching fails fast on a missing file. Where the file of the path at
/// `j` is the first step to fail, the result is the attachment error that
/// names that path; the attach statements asked for are those of the paths
/// before `j` alone, and the search path is not set.
pub proof fn lemma_attach_stops_at_missing_file(
    catalog: Seq<char>,
    token: Seq<char>,
    paths: Seq<Seq<char>>,
    outcomes: Seq<Option<Seq<char>>>,
    j: int,
)
    requires
        0 <= j < paths.len(),
        2 * j < outcomes.len(),
        outcomes[2 * j] is Some,
        forall|i: int| 0 <= i < 2 * j ==> outcomes[i] is None,
    ensures
        plan_progress(attach_plan(catalog, token, paths), outcomes) == Err::<
            Option<int>,
            ErrorView,
        >(ErrorView::UnableToAttachDatabase { path: paths[j], source: outcomes[2 * j]->0 }),
        forall|n: int|
            0 <= n <= outcomes.len() ==> (#[trigger] plan_progress(
                attach_plan(catalog, token, paths),
                outcomes.take(n),
            ) matches Ok(Some(asked)) ==> asked <= 2 * j),
{
    let plan = attach_plan(catalog, token, paths);
    lemma_attach_plan_shape(catalog, token, paths);
    assert(plan[2 * j] == (StepView::CheckFile { path: paths[j] }));
    lemma_plan_gives_up_at_first_failure(plan, outcomes, 2 * j);
}

/// Attaching fails fast on a rejected statement. Where the statement at
/// position `k` of the plan is the first step to fail, be it an attach
/// statement or the one that sets the search path, the result is the
/// connection error with the engine's message, and no step after `k` is
/// asked for.
pub proof fn lemma_attach_stops_at_rejected_statement(
    catalog: Seq<char>,
    token: Seq<char>,
    paths: Seq<Seq<char>>,
    outcomes: Seq<Option<Seq<char>>>,
    k: int,
)
    requires
        0 <= k < outcomes.len(),
        k <= 2 * paths.len(),
        k % 2 == 1 || k == 2 * paths.len(),
        outcomes[k] is Some,
        forall|i: int| 0 <= i < k ==> outcomes[i] is None,
    ensures
        plan_progress(attach_plan(catalog, token, paths), outcomes) == Err::<
            Option<int>,
            ErrorView,
        >(ErrorView::DuckDBConnectionError { source: outcomes[k]->0 }),
        forall|n: int|
            0 <= n <= outcomes.len() ==> (#[trigger] plan_progress(
                attach_plan(catalog, token, paths),
                outcomes.take(n),
            ) matches Ok(Some(asked)) ==> asked <= k),
{
    let plan = attach_plan(catalog, token, paths);
    lemma_attach_plan_shape(catalog, token, paths);
    if k < 2 * paths.len() {
        let j = k / 2;
        assert(k == 2 * j + 1);
        assert(plan[2 * j + 1] is Execute);
    }
    lemma_plan_gives_up_at_first_failure(plan, outcomes, k);
}

/// A set of auxiliary database files for one session: each path once, with
/// the session's token and its search path. The paths are kept in the order
/// of first occurrence, so that the alias of a path does not depend on the
/// order in which a hash set happens to be walked.
pub struct DuckDBAttachments {
    catalog: String,
    attachments: Vec<String>,
    search_path: String,
    random_id: String,
}

impl DuckDBAttachments {
    #[verifier::type_invariant]
    spec fn valid(&self) -> bool {
        &&& owned_texts(self.attachments@).no_duplicates()
        &&& self.search_path@ == search_path_of(
            self.catalog@,
            self.random_id@,
            self.attachments@.len() as nat,
        )
    }

    /// The primary catalog's identifier.
    pub closed spec fn catalog(&self) -> Seq<char> {
        self.catalog@
    }

    /// The attached paths, in order.
    pub closed spec fn paths(&self) -> Seq<Seq<char>> {
        owned_texts(self.attachments@)
    }

    /// The session token.
    pub closed spec fn token(&self) -> Seq<char> {
        self.random_id@
    }

    /// Whether `path` is already among `kept`.
    fn holds(kept: &Vec<String>, path: &String) -> (r: bool)
        ensures
            r == owned_texts(kept@).contains(path@),
    {
        let mut i: usize = 0;
        while i < kept.len()
            invariant
                i <= kept@.len(),
                forall|j: int| 0 <= j < i ==> owned_texts(kept@)[j] != path@,
            decreases kept@.len() - i,
        {
            if kept[i] == *path {
                assert(owned_texts(kept@)[i as int] == path@);
                return true;
            }
            i += 1;
        }
        false
    }

    /// The attachment set of the catalog `id` for the session of `token`:
    /// the given paths without repetitions, each at the place of its first
    /// occurrence.
    pub fn with_token(id: &str, token: String, attachments: &[Arc<str>]) -> (r: Self)
        ensures
            r.catalog() == id@,
            r.token() == token@,
            r.paths() == distinct(texts(attachments@)),
    {
        let mut kept: Vec<String> = Vec::new();
        let mut i: usize = 0;
        proof {
            assert(texts(attachments@).take(0) == Seq::<Seq<char>>::empty());
            assert(owned_texts(kept@) == Seq::<Seq<char>>::empty());
        }
        while i < attachments.len()
            invariant
                i <= attachments@.len(),
                owned_texts(kept@) == distinct(texts(attachments@).take(i as int)),
            decreases attachments@.len() - i,
        {
            let path = path_text(&attachments[i]);
            proof {
                let longer = texts(attachments@).take(i as int + 1);
                assert(longer.drop_last() == texts(attachments@).take(i as int));
                assert(longer.last() == path@);
            }
            let owned = path.to_owned();
            if !Self::holds(&kept, &owned) {
                let ghost before = owned_texts(kept@);
                kept.push(owned);
                assert(owned_texts(kept@) == before.push(path@));
            }
            i += 1;
        }
        proof {
            assert(texts(attachments@).take(i as int) == texts(attachments@));
            lemma_distinct(texts(attachments@));
        }
        let search_path = get_search_path(id, token.as_str(), kept.len());
        DuckDBAttachments {
            catalog: id.to_owned(),
            attachments: kept,
            search_path,
            random_id: token,
        }
    }

    /// The attachment set of the catalog `id` for a new session: the given
    /// paths without repetitions, under a freshly drawn token.
    pub fn new(id: &str, attachments: &[Arc<str>]) -> (r: Self)
        ensures
            r.catalog() == id@,
            r.token().len() == TOKEN_LENGTH,
            alphanumeric_token(r.token()),
            r.paths() == distinct(texts(attachments@)),
    {
        Self::with_token(id, random_token(TOKEN_LENGTH), attachments)
    }

    /// The attached paths: each one once, in the order of first occurrence.
    pub fn attachments(&self) -> (r: &Vec<String>)
        ensures
            owned_texts(r@) == self.paths(),
            self.paths().no_duplicates(),
    {
        proof {
            use_type_invariant(self);
        }
        &self.attachments
    }

    /// The number of attached paths.
    pub fn len(&self) -> (r: usize)
        ensures
            r == self.paths().len(),
    {
        self.attachments.len()
    }

    /// The session token.
    pub fn random_id(&self) -> (r: &str)
        ensures
            r@ == self.token(),
    {
        self.random_id.as_str()
    }

    /// The search path: the primary catalog, then one alias for each
    /// attached path, joined by commas.
    pub fn search_path(&self) -> (r: &str)
        ensures
            r@ == search_path_of(self.catalog(), self.token(), self.paths().len()),
    {
        proof {
            use_type_invariant(self);
        }
        self.search_path.as_str()
    }

    /// The statement that sets a connection's search path to this set's.
    pub fn set_search_path(&self) -> (r: String)
        ensures
            r@ == set_search_path_statement(
                search_path_of(self.catalog(), self.token(), self.paths().len()),
            ),
    {
        let mut sql = String::new();
        sql.append("SET search_path ='");
        sql.append(self.search_path());
        sql.append("'");
        sql
    }

    /// The statement that resets a connection's search path to the default.
    pub fn reset_search_path(&self) -> (r: String)
        ensures
            r@ == reset_search_path_statement(),
    {
        "RESET search_path".to_owned()
    }

    /// The steps that attach this set to a connection: for each path the
    /// check that its file exists and its attach statement, then the
    /// statement that sets the search path. `first_step` and `after_step`
    /// say in which order they are carried out and when they are given up.
    pub fn attach(&self) -> (r: Vec<Step>)
        ensures
            step_views(r@) == attach_plan(self.catalog(), self.token(), self.paths()),
    {
        let mut steps: Vec<Step> = Vec::new();
        let mut i: usize = 0;
        assert(step_views(steps@) == Seq::<StepView>::empty());
        while i < self.attachments.len()
            invariant
                i <= self.attachments@.len(),
                step_views(steps@) == attach_steps(self.paths(), self.token(), i as nat),
            decreases self.attachments@.len() - i,
        {
            let path = &self.attachments[i];
            let mut sql = String::new();
            sql.append("ATTACH IF NOT EXISTS '");
            sql.append(path.as_str());
            sql.append("' AS ");
            sql.append(get_attachment_name(self.random_id.as_str(), i).as_str());
            sql.append(" (READ_ONLY)");
            let ghost before = step_views(steps@);
            let check = Step::CheckFile { path: path.clone() };
            let execute = Step::Execute { sql };
            assert(self.paths()[i as int] == path@);
            steps.push(check);
            steps.push(execute);
            assert(step_views(steps@) == before.push(check@).push(execute@));
            i += 1;
        }
        let ghost before = step_views(steps@);
        let last = Step::Execute { sql: self.set_search_path() };
        steps.push(last);
        assert(step_views(steps@) == before.push(last@));
        steps
    }

    /// The steps that detach this set from a connection: the detach
    /// statement of each alias, then the statement that resets the search
    /// path. `first_step` and `after_step` say in which order they are
    /// carried out and when they are given up.
    pub fn detach(&self) -> (r: Vec<Step>)
        ensures
            step_views(r@) == detach_plan(self.token(), self.paths().len()),
    {
        let mut steps: Vec<Step> = Vec::new();
        let mut i: usize = 0;
        assert(step_views(steps@) == Seq::<StepView>::empty());
        while i < self.attachments.len()
            invariant
                i <= self.attachments@.len(),
                step_views(steps@) == detach_steps(self.token(), i as nat),
            decreases self.attachments@.len() - i,
        {
            let mut sql = String::new();
            sql.append("DETACH DATABASE IF EXISTS ");
            sql.append(get_attachment_name(self.random_id.as_str(), i).as_str());
            let ghost before = step_views(steps@);
            let execute = Step::Execute { sql };
            steps.push(execute);
            assert(step_views(steps@) == before.push(execute@));
            i += 1;
        }
        let ghost before = step_views(steps@);
        let last = Step::Execute { sql: self.reset_search_path() };
        steps.push(last);
        assert(step_views(steps@) == before.push(last@));
        steps
    }
}

/// Without attachments the search path is the primary catalog's identifier
/// alone.
pub proof fn lemma_search_path_without_attachments(id: Seq<char>, token: Seq<char>)
    ensures
        search_path_of(id, token, 0) == id,
{
    lemma_search_path_step(id, token, 0);
}

/// A search path has one segment more than there are attachments, and the
/// primary catalog's identifier is the first of them and the start of the
/// joined text.
pub proof fn lemma_search_path_shape(id: Seq<char>, token: Seq<char>, count: nat)
    ensures
        search_path_segments(id, token, count).len() == count + 1,
        search_path_segments(id, token, count)[0] == id,
        forall|i: int|
            0 <= i < count ==> #[trigger] search_path_segments(id, token, count)[i + 1]
                == attachment_name(token, i as nat),
        id.is_prefix_of(search_path_of(id, token, count)),
    decreases count,
{
    lemma_search_path_step(id, token, 0);
    if count > 0 {
        lemma_search_path_shape(id, token, (count - 1) as nat);
        lemma_search_path_step(id, token, (count - 1) as nat);
    }
}

/// Aliases do not collide: within one session two attachments have the same
/// alias only at the same index, and two sessions whose tokens have the same
/// length share an alias only if they share the token.
pub proof fn lemma_aliases_are_distinct(first: Seq<char>, i: nat, second: Seq<char>, j: nat)
    requires
        first.len() == second.len(),
        attachment_name(first, i) == attachment_name(second, j),
    ensures
        first == second,
        i == j,
{
    let head = "attachment_"@;
    let one = attachment_name(first, i);
    let two = attachment_name(second, j);
    let start = head.len() as int;
    let end = start + first.len();
    assert(one.subrange(start, end) =~= first);
    assert(two.subrange(start, end) =~= second);
    let tail = end + "_"@.len();
    assert(one.subrange(tail, one.len() as int) =~= decimal_digits(i));
    assert(two.subrange(tail, two.len() as int) =~= decimal_digits(j));
    lemma_decimal_injective(i, j);
}

} // verus!
