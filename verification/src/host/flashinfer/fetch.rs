//! The fetching of the Composable Kernel sources: a clone into a directory of
//! its own, which is then renamed, so that processes that fetch at the same time
//! do not see each other's unfinished work.
use vstd::prelude::*;
use vstd::string::*;

use crate::host::flashinfer::ck::{CK_GIT_REV, CK_GIT_URL, CK_SHORT_REV};
use crate::numeral;
use crate::numeral::push_decimal;
use crate::path;
use crate::path::join;
use crate::text;
use crate::text::owned;

verus! {

/// What came of running `git`.
#[derive(Debug)]
pub enum GitOutcome {
    /// It could not be started, with this error.
    NotStarted(String),
    /// It failed, and wrote this to its standard error.
    Failed(String),
    /// It succeeded.
    Succeeded,
}

/// The words with a space between each two.
pub open spec fn spaced(words: Seq<Seq<char>>) -> Seq<char>
    decreases words.len(),
{
    if words.len() == 0 {
        Seq::empty()
    } else if words.len() == 1 {
        words[0]
    } else {
        spaced(words.drop_last()) + " "@ + words.last()
    }
}

fn join_words(words: &[String]) -> (r: String)
    ensures
        r@ == spaced(text::texts(words@)),
{
    let mut out = String::new();
    let ghost all = text::texts(words@);
    let mut i: usize = 0;
    assert(all.take(0) =~= Seq::empty());
    while i < words.len()
        invariant
            i <= words@.len(),
            all == text::texts(words@),
            out@ == spaced(all.take(i as int)),
        decreases words@.len() - i,
    {
        assert(all.take(i + 1).drop_last() =~= all.take(i as int));
        assert(all.take(i + 1).last() == words@[i as int]@);
        if i > 0 {
            out.append(" ");
        }
        out.append(words[i].as_str());
        assert(out@ =~= spaced(all.take(i + 1)));
        i += 1;
    }
    assert(all.take(i as int) =~= all);
    out
}

/// The failure of a `git` run in the current directory.
pub open spec fn git_failure(args: Seq<Seq<char>>, outcome: GitOutcome) -> Option<Seq<char>> {
    match outcome {
        GitOutcome::NotStarted(error) => Some(
            "failed to spawn `git`: "@ + error@ + ". Is git installed?"@,
        ),
        GitOutcome::Failed(stderr) => Some("`git "@ + spaced(args) + "` failed: "@ + stderr@),
        GitOutcome::Succeeded => None,
    }
}

/// The failure of a `git` run in the directory `cwd`.
pub open spec fn git_in_failure(
    cwd: Seq<char>,
    args: Seq<Seq<char>>,
    outcome: GitOutcome,
) -> Option<Seq<char>> {
    match outcome {
        GitOutcome::NotStarted(error) => Some("failed to spawn `git`: "@ + error@),
        GitOutcome::Failed(stderr) => Some(
            "`git "@ + spaced(args) + "` in "@ + cwd + " failed: "@ + stderr@,
        ),
        GitOutcome::Succeeded => None,
    }
}

/// The text of a failure, if the result is one.
pub open spec fn failure_text(r: Result<(), String>) -> Option<Seq<char>> {
    match r {
        Ok(_) => None,
        Err(message) => Some(message@),
    }
}

/// What a `git` run in the current directory comes to.
pub fn run_git(args: &[String], outcome: &GitOutcome) -> (r: Result<(), String>)
    ensures
        failure_text(r) == git_failure(text::texts(args@), *outcome),
{
    let mut out = String::new();
    match outcome {
        GitOutcome::Succeeded => Ok(()),
        GitOutcome::NotStarted(error) => {
            out.append("failed to spawn `git`: ");
            out.append(error.as_str());
            out.append(". Is git installed?");
            assert(out@ =~= "failed to spawn `git`: "@ + error@ + ". Is git installed?"@);
            Err(out)
        },
        GitOutcome::Failed(stderr) => {
            let words = join_words(args);
            out.append("`git ");
            out.append(words.as_str());
            out.append("` failed: ");
            out.append(stderr.as_str());
            assert(out@ =~= "`git "@ + spaced(text::texts(args@)) + "` failed: "@ + stderr@);
            Err(out)
        },
    }
}

/// What a `git` run in the directory `cwd` comes to.
pub fn run_git_in(cwd: &str, args: &[String], outcome: &GitOutcome) -> (r: Result<(), String>)
    ensures
        failure_text(r) == git_in_failure(cwd@, text::texts(args@), *outcome),
{
    let mut out = String::new();
    match outcome {
        GitOutcome::Succeeded => Ok(()),
        GitOutcome::NotStarted(error) => {
            out.append("failed to spawn `git`: ");
            out.append(error.as_str());
            assert(out@ =~= "failed to spawn `git`: "@ + error@);
            Err(out)
        },
        GitOutcome::Failed(stderr) => {
            let words = join_words(args);
            out.append("`git ");
            out.append(words.as_str());
            out.append("` in ");
            out.append(cwd);
            out.append(" failed: ");
            out.append(stderr.as_str());
            assert(out@ =~= "`git "@ + spaced(text::texts(args@)) + "` in "@ + cwd@ + " failed: "@
                + stderr@);
            Err(out)
        },
    }
}

/// The directory that holds the fetched sources.
pub open spec fn sources_parent(cache_dir: Seq<char>) -> Seq<char> {
    path::joined(cache_dir, "ck-src"@)
}

/// The directory to which the sources are fetched.
pub open spec fn sources_root(cache_dir: Seq<char>) -> Seq<char> {
    path::joined(sources_parent(cache_dir), CK_SHORT_REV@)
}

/// The directory into which this process clones.
pub open spec fn staging_path(cache_dir: Seq<char>, process_id: u32) -> Seq<char> {
    path::joined(
        sources_parent(cache_dir),
        ".staging-"@ + CK_SHORT_REV@ + "-"@ + numeral::decimal_text(process_id as nat),
    )
}

/// Two processes that clone into the same directory have the same number.
pub proof fn staging_directories_differ(cache_dir: Seq<char>, one: u32, other: u32)
    requires
        staging_path(cache_dir, one) == staging_path(cache_dir, other),
    ensures
        one == other,
{
    reveal_strlit(".staging-");
    let start = ".staging-"@ + CK_SHORT_REV@ + "-"@;
    let number = numeral::decimal_text(one as nat);
    let other_number = numeral::decimal_text(other as nat);
    path::joined_names_differ(sources_parent(cache_dir), start + number, start + other_number);
    let name = start + number;
    assert(number =~= name.subrange(start.len() as int, name.len() as int));
    assert(other_number =~= name.subrange(start.len() as int, name.len() as int));
    numeral::decimal_reads_back(one as nat);
    numeral::decimal_reads_back(other as nat);
}

/// No process clones into the directory to which the sources are fetched.
pub proof fn staging_is_not_the_final_directory(cache_dir: Seq<char>, process_id: u32)
    ensures
        staging_path(cache_dir, process_id) != sources_root(cache_dir),
{
    reveal_strlit(".staging-");
    reveal_strlit("d7609923b6a2");
    let name = ".staging-"@ + CK_SHORT_REV@ + "-"@ + numeral::decimal_text(process_id as nat);
    assert(name[0] == '.');
    assert(CK_SHORT_REV@[0] == 'd');
    if staging_path(cache_dir, process_id) == sources_root(cache_dir) {
        path::joined_names_differ(sources_parent(cache_dir), name, CK_SHORT_REV@);
    }
}

/// The arguments of the clone.
pub open spec fn clone_args(staging: Seq<char>) -> Seq<Seq<char>> {
    seq!["clone"@, "--filter=blob:none"@, "--no-checkout"@, CK_GIT_URL@, staging]
}

/// The arguments of the checkout.
pub open spec fn checkout_args() -> Seq<Seq<char>> {
    seq!["checkout"@, CK_GIT_REV@]
}

/// How far the fetching has come: what is done next, or how it ended.
#[derive(Clone, Copy, Debug, PartialEq, Eq, Structural)]
pub enum FetchStep {
    /// Look whether the sources were fetched before.
    LookInCache,
    /// Create the directory above them.
    CreateParent,
    /// Remove what an earlier process of this number left behind.
    ClearStaging,
    /// Clone.
    Clone,
    /// Check out the commit.
    Checkout,
    /// Look whether the headers are there.
    Verify,
    /// Rename the clone to its final place.
    Publish,
    /// Look whether another process was there first.
    LookForRival,
    /// Remove the clone in favour of the other process's.
    DiscardStaging,
    /// The sources are there.
    Fetched,
    /// They could not be had.
    Failed,
}

/// What came of a step.
#[derive(Debug)]
pub enum FetchEvent {
    /// What was looked for is there.
    Found,
    /// What was looked for is not there.
    Missing,
    /// It is done.
    Done,
    /// It failed, with this error.
    Error(String),
    /// What came of running `git`.
    Git(GitOutcome),
}

/// Whether the step can have this outcome.
pub open spec fn possible(step: FetchStep, event: FetchEvent) -> bool {
    match step {
        FetchStep::LookInCache => event is Found || event is Missing,
        FetchStep::CreateParent => event is Done || event is Error,
        FetchStep::ClearStaging => event is Done || event is Error,
        FetchStep::Clone => event is Git,
        FetchStep::Checkout => event is Git,
        FetchStep::Verify => event is Found || event is Missing,
        FetchStep::Publish => event is Done || event is Error,
        FetchStep::LookForRival => event is Found || event is Missing,
        FetchStep::DiscardStaging => event is Done || event is Error,
        FetchStep::Fetched => false,
        FetchStep::Failed => false,
    }
}

/// The sources being fetched by a process.
#[derive(Debug)]
pub struct CkFetch {
    cache_root: String,
    parent: String,
    staging: String,
    step: FetchStep,
    text: String,
}

/// The paths and the progress of a fetch.
pub struct FetchView {
    /// The directory to which the sources are fetched.
    pub root: Seq<char>,
    /// The directory above it.
    pub parent: Seq<char>,
    /// The directory into which this process clones.
    pub staging: Seq<char>,
    /// How far it has come.
    pub step: FetchStep,
    /// Why it failed; while looking for another process, why the renaming
    /// failed.
    pub text: Seq<char>,
}

impl FetchView {
    /// The same fetch, at another step.
    pub open spec fn at(self, step: FetchStep, text: Seq<char>) -> FetchView {
        FetchView { step, text, ..self }
    }

    /// The same fetch, after the step had this outcome.
    pub open spec fn after(self, event: FetchEvent) -> FetchView {
        let none = Seq::empty();
        match self.step {
            FetchStep::LookInCache => if event is Found {
                self.at(FetchStep::Fetched, none)
            } else {
                self.at(FetchStep::CreateParent, none)
            },
            FetchStep::CreateParent => match event {
                FetchEvent::Error(error) => self.at(
                    FetchStep::Failed,
                    "failed to create "@ + self.parent + ": "@ + error@,
                ),
                _ => self.at(FetchStep::ClearStaging, none),
            },
            FetchStep::ClearStaging => self.at(FetchStep::Clone, none),
            FetchStep::Clone => match git_failure(clone_args(self.staging), event->Git_0) {
                Some(message) => self.at(FetchStep::Failed, message),
                None => self.at(FetchStep::Checkout, none),
            },
            FetchStep::Checkout => match git_in_failure(
                self.staging,
                checkout_args(),
                event->Git_0,
            ) {
                Some(message) => self.at(FetchStep::Failed, message),
                None => self.at(FetchStep::Verify, none),
            },
            FetchStep::Verify => if event is Found {
                self.at(FetchStep::Publish, none)
            } else {
                self.at(
                    FetchStep::Failed,
                    "Composable Kernel clone succeeded but include/ck_tile missing at "@
                        + self.staging,
                )
            },
            FetchStep::Publish => match event {
                FetchEvent::Error(error) => self.at(FetchStep::LookForRival, error@),
                _ => self.at(FetchStep::Fetched, none),
            },
            FetchStep::LookForRival => if event is Found {
                self.at(FetchStep::DiscardStaging, none)
            } else {
                self.at(
                    FetchStep::Failed,
                    "rename to "@ + self.root + " failed: "@ + self.text,
                )
            },
            FetchStep::DiscardStaging => self.at(FetchStep::Fetched, none),
            FetchStep::Fetched => self,
            FetchStep::Failed => self,
        }
    }
}

impl View for CkFetch {
    type V = FetchView;

    closed spec fn view(&self) -> FetchView {
        FetchView {
            root: self.cache_root@,
            parent: self.parent@,
            staging: self.staging@,
            step: self.step,
            text: self.text@,
        }
    }
}

/// What is to be done next, or how the fetching ended.
#[derive(Debug)]
pub enum FetchAction {
    /// Look whether the directory is a usable header directory.
    ProbeHeaders(String),
    /// Create the directory and those above it.
    CreateDirs(String),
    /// Remove the directory with all that is in it.
    RemoveTree(String),
    /// Run `git` with these arguments, in the directory, where one is given.
    Git(Vec<String>, Option<String>),
    /// Rename the first to the second.
    Rename(String, String),
    /// Look whether the path exists.
    ProbePath(String),
    /// The sources are in this directory.
    Return(String),
    /// They could not be had, for this reason.
    Fail(String),
}

/// Whether the action is what a fetch in this state does next.
pub open spec fn is_action_of(action: FetchAction, fetch: FetchView) -> bool {
    match fetch.step {
        FetchStep::LookInCache => action matches FetchAction::ProbeHeaders(dir) && dir@
            == path::joined(fetch.root, "include"@),
        FetchStep::CreateParent => action matches FetchAction::CreateDirs(dir) && dir@
            == fetch.parent,
        FetchStep::ClearStaging => action matches FetchAction::RemoveTree(dir) && dir@
            == fetch.staging,
        FetchStep::Clone => action matches FetchAction::Git(args, cwd) && text::texts(args@)
            == clone_args(fetch.staging) && cwd is None,
        FetchStep::Checkout => action matches FetchAction::Git(args, cwd) && text::texts(args@)
            == checkout_args() && text::string_text(cwd) == Some(fetch.staging),
        FetchStep::Verify => action matches FetchAction::ProbeHeaders(dir) && dir@
            == path::joined(fetch.staging, "include"@),
        FetchStep::Publish => action matches FetchAction::Rename(from, to) && from@
            == fetch.staging && to@ == fetch.root,
        FetchStep::LookForRival => action matches FetchAction::ProbePath(dir) && dir@
            == fetch.root,
        FetchStep::DiscardStaging => action matches FetchAction::RemoveTree(dir) && dir@
            == fetch.staging,
        FetchStep::Fetched => action matches FetchAction::Return(dir) && dir@ == fetch.root,
        FetchStep::Failed => action matches FetchAction::Fail(message) && message@ == fetch.text,
    }
}

fn clone_arguments(staging: &str) -> (r: Vec<String>)
    ensures
        text::texts(r@) == clone_args(staging@),
{
    let mut args: Vec<String> = Vec::new();
    args.push(owned("clone"));
    args.push(owned("--filter=blob:none"));
    args.push(owned("--no-checkout"));
    args.push(owned(CK_GIT_URL));
    args.push(owned(staging));
    assert(text::texts(args@) =~= clone_args(staging@));
    args
}

fn checkout_arguments() -> (r: Vec<String>)
    ensures
        text::texts(r@) == checkout_args(),
{
    let mut args: Vec<String> = Vec::new();
    args.push(owned("checkout"));
    args.push(owned(CK_GIT_REV));
    assert(text::texts(args@) =~= checkout_args());
    args
}

impl CkFetch {
    /// A fetch into this cache directory by the process with this number, with
    /// nothing done yet.
    pub fn fetch_ck_source(cache_dir: &str, process_id: u32) -> (r: Self)
        ensures
            r@ == (FetchView {
                root: sources_root(cache_dir@),
                parent: sources_parent(cache_dir@),
                staging: staging_path(cache_dir@, process_id),
                step: FetchStep::LookInCache,
                text: Seq::empty(),
            }),
    {
        let parent = join(cache_dir, "ck-src");
        let cache_root = join(parent.as_str(), CK_SHORT_REV);
        let mut name = String::new();
        name.append(".staging-");
        name.append(CK_SHORT_REV);
        name.append("-");
        push_decimal(&mut name, process_id as u64);
        assert(name@ =~= ".staging-"@ + CK_SHORT_REV@ + "-"@ + numeral::decimal_text(
            process_id as nat,
        ));
        let staging = join(parent.as_str(), name.as_str());
        let text = String::new();
        assert(text@ =~= Seq::empty());
        CkFetch { cache_root, parent, staging, step: FetchStep::LookInCache, text }
    }

    /// What is to be done next, or how the fetching ended.
    pub fn action(&self) -> (r: FetchAction)
        ensures
            is_action_of(r, self@),
    {
        match self.step {
            FetchStep::LookInCache => FetchAction::ProbeHeaders(
                join(self.cache_root.as_str(), "include"),
            ),
            FetchStep::CreateParent => FetchAction::CreateDirs(owned(self.parent.as_str())),
            FetchStep::ClearStaging => FetchAction::RemoveTree(owned(self.staging.as_str())),
            FetchStep::Clone => FetchAction::Git(clone_arguments(self.staging.as_str()), None),
            FetchStep::Checkout => FetchAction::Git(
                checkout_arguments(),
                Some(owned(self.staging.as_str())),
            ),
            FetchStep::Verify => FetchAction::ProbeHeaders(
                join(self.staging.as_str(), "include"),
            ),
            FetchStep::Publish => FetchAction::Rename(
                owned(self.staging.as_str()),
                owned(self.cache_root.as_str()),
            ),
            FetchStep::LookForRival => FetchAction::ProbePath(owned(self.cache_root.as_str())),
            FetchStep::DiscardStaging => FetchAction::RemoveTree(owned(self.staging.as_str())),
            FetchStep::Fetched => FetchAction::Return(owned(self.cache_root.as_str())),
            FetchStep::Failed => FetchAction::Fail(owned(self.text.as_str())),
        }
    }

    fn go(&mut self, step: FetchStep)
        ensures
            final(self)@ == old(self)@.at(step, Seq::empty()),
    {
        self.step = step;
        self.text = String::new();
        assert(self.text@ =~= Seq::empty());
    }

    fn go_with(&mut self, step: FetchStep, text: String)
        ensures
            final(self)@ == old(self)@.at(step, text@),
    {
        self.step = step;
        self.text = text;
    }

    /// Takes the outcome of the current step and moves on.
    pub fn advance(&mut self, event: FetchEvent)
        requires
            possible(old(self)@.step, event),
        ensures
            final(self)@ == old(self)@.after(event),
    {
        match self.step {
            FetchStep::LookInCache => match event {
                FetchEvent::Found => self.go(FetchStep::Fetched),
                _ => self.go(FetchStep::CreateParent),
            },
            FetchStep::CreateParent => match event {
                FetchEvent::Error(error) => {
                    let mut out = String::new();
                    out.append("failed to create ");
                    out.append(self.parent.as_str());
                    out.append(": ");
                    out.append(error.as_str());
                    assert(out@ =~= "failed to create "@ + self.parent@ + ": "@ + error@);
                    self.go_with(FetchStep::Failed, out);
                },
                _ => self.go(FetchStep::ClearStaging),
            },
            FetchStep::ClearStaging => self.go(FetchStep::Clone),
            FetchStep::Clone => match event {
                FetchEvent::Git(outcome) => {
                    let args = clone_arguments(self.staging.as_str());
                    match run_git(args.as_slice(), &outcome) {
                        Ok(_) => self.go(FetchStep::Checkout),
                        Err(message) => self.go_with(FetchStep::Failed, message),
                    }
                },
                _ => {},
            },
            FetchStep::Checkout => match event {
                FetchEvent::Git(outcome) => {
                    let args = checkout_arguments();
                    match run_git_in(self.staging.as_str(), args.as_slice(), &outcome) {
                        Ok(_) => self.go(FetchStep::Verify),
                        Err(message) => self.go_with(FetchStep::Failed, message),
                    }
                },
                _ => {},
            },
            FetchStep::Verify => match event {
                FetchEvent::Found => self.go(FetchStep::Publish),
                _ => {
                    let mut out = String::new();
                    out.append("Composable Kernel clone succeeded but include/ck_tile missing at ");
                    out.append(self.staging.as_str());
                    assert(out@
                        =~= "Composable Kernel clone succeeded but include/ck_tile missing at "@
                        + self.staging@);
                    self.go_with(FetchStep::Failed, out);
                },
            },
            FetchStep::Publish => match event {
                FetchEvent::Error(error) => self.go_with(FetchStep::LookForRival, error),
                _ => self.go(FetchStep::Fetched),
            },
            FetchStep::LookForRival => match event {
                FetchEvent::Found => self.go(FetchStep::DiscardStaging),
                _ => {
                    let mut out = String::new();
                    out.append("rename to ");
                    out.append(self.cache_root.as_str());
                    out.append(" failed: ");
                    out.append(self.text.as_str());
                    assert(out@ =~= "rename to "@ + self.cache_root@ + " failed: "@ + self.text@);
                    self.go_with(FetchStep::Failed, out);
                },
            },
            FetchStep::DiscardStaging => self.go(FetchStep::Fetched),
            FetchStep::Fetched => {},
            FetchStep::Failed => {},
        }
    }

    /// The note that the sources are being cloned.
    pub fn cloning_note(&self) -> (r: String)
        ensures
            r@ == "Composable Kernel: cloning "@ + CK_GIT_URL@ + " @ "@ + CK_SHORT_REV@ + " into "@
                + self@.root + " (one-time fetch) …"@,
    {
        let mut out = String::new();
        out.append("Composable Kernel: cloning ");
        out.append(CK_GIT_URL);
        out.append(" @ ");
        out.append(CK_SHORT_REV);
        out.append(" into ");
        out.append(self.cache_root.as_str());
        out.append(" (one-time fetch) …");
        assert(out@ =~= "Composable Kernel: cloning "@ + CK_GIT_URL@ + " @ "@ + CK_SHORT_REV@
            + " into "@ + self@.root + " (one-time fetch) …"@);
        out
    }
}

/// How many steps may still follow.
pub open spec fn steps_left(step: FetchStep) -> nat {
    match step {
        FetchStep::LookInCache => 9,
        FetchStep::CreateParent => 8,
        FetchStep::ClearStaging => 7,
        FetchStep::Clone => 6,
        FetchStep::Checkout => 5,
        FetchStep::Verify => 4,
        FetchStep::Publish => 3,
        FetchStep::LookForRival => 2,
        FetchStep::DiscardStaging => 1,
        FetchStep::Fetched => 0,
        FetchStep::Failed => 0,
    }
}

/// Every step brings the fetching nearer to its end, and leaves its paths as
/// they are.
pub proof fn fetching_ends(fetch: FetchView, event: FetchEvent)
    requires
        possible(fetch.step, event),
    ensures
        steps_left(fetch.after(event).step) < steps_left(fetch.step),
        fetch.after(event).root == fetch.root,
        fetch.after(event).parent == fetch.parent,
        fetch.after(event).staging == fetch.staging,
{
}

/// A clone is put in its final place only after its headers were found, and the
/// sources count as fetched only when they were there before, were put there,
/// or were put there by another process.
pub proof fn only_complete_sources_are_published(fetch: FetchView, event: FetchEvent)
    requires
        possible(fetch.step, event),
    ensures
        fetch.after(event).step is Publish <==> fetch.step is Verify && event is Found,
        fetch.after(event).step is Fetched <==> {
            ||| fetch.step is LookInCache && event is Found
            ||| fetch.step is Publish && event is Done
            ||| fetch.step is DiscardStaging
        },
        fetch.after(event).step is DiscardStaging <==> fetch.step is LookForRival && event is Found,
{
}

/// The state that a fetch comes to when its steps have these outcomes, one after
/// the other, beginning at `from`; `None` where a step cannot have its outcome.
pub open spec fn through(fetch: FetchView, events: Seq<FetchEvent>, from: nat) -> Option<FetchView>
    decreases events.len() - from,
{
    if from >= events.len() {
        Some(fetch)
    } else if possible(fetch.step, events[from as int]) {
        through(fetch.after(events[from as int]), events, from + 1)
    } else {
        None
    }
}

/// The sources are there at the end of a fetch exactly when they were there
/// before, or were cloned, checked out, found complete, and renamed; or when the
/// renaming failed because another process had put them there.
pub proof fn fetched_iff_there_or_cloned(fetch: FetchView, events: Seq<FetchEvent>)
    requires
        fetch.step is LookInCache,
    ensures
        (through(fetch, events, 0) is Some && through(fetch, events, 0)->0.step is Fetched) <==> {
            ||| events.len() == 1 && events[0] is Found
            ||| {
                &&& events.len() == 7 || events.len() == 9
                &&& events[0] is Missing
                &&& events[1] is Done
                &&& events[2] is Done || events[2] is Error
                &&& events[3] matches FetchEvent::Git(outcome) && outcome is Succeeded
                &&& events[4] matches FetchEvent::Git(outcome) && outcome is Succeeded
                &&& events[5] is Found
                &&& events.len() == 7 ==> events[6] is Done
                &&& events.len() == 9 ==> events[6] is Error && events[7] is Found && (
                events[8] is Done || events[8] is Error)
            }
        },
{
    reveal_with_fuel(through, 11);
}

/// A fetch begins with nothing done, into the directory of the pinned commit
/// below `ck-src` in the cache directory, by way of a directory beside it that
/// the process has for itself.
pub proof fn fetches_begin_in_their_directories(cache_dir: &str, process_id: u32, fetch: CkFetch)
    requires
        call_ensures(CkFetch::fetch_ck_source, (cache_dir, process_id), fetch),
    ensures
        fetch@.step is LookInCache,
        fetch@.parent == path::joined(cache_dir@, "ck-src"@),
        fetch@.root == path::joined(fetch@.parent, "d7609923b6a2"@),
        fetch@.staging == path::joined(
            fetch@.parent,
            ".staging-d7609923b6a2-"@ + numeral::decimal_text(process_id as nat),
        ),
{
    reveal_strlit(".staging-");
    reveal_strlit("d7609923b6a2");
    reveal_strlit("-");
    reveal_strlit(".staging-d7609923b6a2-");
    assert(".staging-"@ + CK_SHORT_REV@ + "-"@ =~= ".staging-d7609923b6a2-"@);
}

/// All steps of a fetch are about the same two directories. What is cloned into
/// is what was cleared before, what the commit is checked out in, what is
/// searched for headers, what is renamed, and what is removed where another
/// process was first; and it is renamed to what was looked at first, what is
/// looked for where the renaming fails, and what is returned.
pub proof fn steps_are_about_the_same_directories(fetch: &CkFetch, action: FetchAction)
    requires
        call_ensures(CkFetch::action, (fetch,), action),
    ensures
        match fetch@.step {
            FetchStep::LookInCache => action matches FetchAction::ProbeHeaders(dir) && dir@
                == path::joined(fetch@.root, "include"@),
            FetchStep::CreateParent => action matches FetchAction::CreateDirs(dir) && dir@
                == fetch@.parent,
            FetchStep::ClearStaging => action matches FetchAction::RemoveTree(dir) && dir@
                == fetch@.staging,
            FetchStep::Clone => {
                &&& action is Git
                &&& action->Git_1 is None
                &&& action->Git_0@.len() == 5
                &&& action->Git_0@[0]@ == "clone"@
                &&& action->Git_0@[3]@ == "https://github.com/ROCm/composable_kernel.git"@
                &&& action->Git_0@[4]@ == fetch@.staging
            },
            FetchStep::Checkout => {
                &&& action is Git
                &&& action->Git_1 is Some
                &&& action->Git_1->0@ == fetch@.staging
                &&& action->Git_0@.len() == 2
                &&& action->Git_0@[0]@ == "checkout"@
                &&& action->Git_0@[1]@ == "d7609923b6a2fd9c83e8c40d8bd510b2c483ff91"@
            },
            FetchStep::Verify => action matches FetchAction::ProbeHeaders(dir) && dir@
                == path::joined(fetch@.staging, "include"@),
            FetchStep::Publish => action matches FetchAction::Rename(from, to) && from@
                == fetch@.staging && to@ == fetch@.root,
            FetchStep::LookForRival => action matches FetchAction::ProbePath(dir) && dir@
                == fetch@.root,
            FetchStep::DiscardStaging => action matches FetchAction::RemoveTree(dir) && dir@
                == fetch@.staging,
            FetchStep::Fetched => action matches FetchAction::Return(dir) && dir@ == fetch@.root,
            FetchStep::Failed => action matches FetchAction::Fail(message) && message@
                == fetch@.text,
        },
{
    if fetch@.step is Clone {
        let args = text::texts(action->Git_0@);
        assert(args.len() == action->Git_0@.len());
        assert(args[0] == action->Git_0@[0]@);
        assert(args[3] == action->Git_0@[3]@);
        assert(args[4] == action->Git_0@[4]@);
    }
    if fetch@.step is Checkout {
        let args = text::texts(action->Git_0@);
        assert(args.len() == action->Git_0@.len());
        assert(args[0] == action->Git_0@[0]@);
        assert(args[1] == action->Git_0@[1]@);
    }
}

/// The clone leaves out the file contents that the commit does not need, and
/// checks nothing out yet.
pub proof fn clones_are_partial(fetch: &CkFetch, action: FetchAction)
    requires
        fetch@.step is Clone,
        call_ensures(CkFetch::action, (fetch,), action),
    ensures
        text::texts(action->Git_0@).contains("--filter=blob:none"@),
        text::texts(action->Git_0@).contains("--no-checkout"@),
{
    let args = text::texts(action->Git_0@);
    assert(args[1] == "--filter=blob:none"@);
    assert(args[2] == "--no-checkout"@);
}

/// A run of `git` comes to nothing exactly when it fails or cannot be started,
/// and its message then holds what was run and what went wrong.
pub proof fn git_fails_with_its_own_words(
    cwd: &str,
    args: &[String],
    outcome: &GitOutcome,
    here: Result<(), String>,
    there: Result<(), String>,
)
    requires
        call_ensures(run_git, (args, outcome), here),
        call_ensures(run_git_in, (cwd, args, outcome), there),
    ensures
        here is Ok <==> *outcome is Succeeded,
        there is Ok <==> *outcome is Succeeded,
        outcome matches GitOutcome::Failed(stderr) ==> here->Err_0@ == "`git "@ + text::joined_by(
            text::texts(args@),
            ' ',
        ) + "` failed: "@ + stderr@ && there->Err_0@ == "`git "@ + text::joined_by(
            text::texts(args@),
            ' ',
        ) + "` in "@ + cwd@ + " failed: "@ + stderr@,
        outcome matches GitOutcome::NotStarted(error) ==> here->Err_0@ == "failed to spawn `git`: "@
            + error@ + ". Is git installed?"@ && there->Err_0@ == "failed to spawn `git`: "@
            + error@,
{
    spaced_is_joined(text::texts(args@));
}

proof fn spaced_is_joined(words: Seq<Seq<char>>)
    ensures
        spaced(words) == text::joined_by(words, ' '),
    decreases words.len(),
{
    reveal_strlit(" ");
    assert(" "@ =~= seq![' ']);
    if words.len() > 1 {
        spaced_is_joined(words.drop_last());
    }
}

/// A fetch that fails says why: with the error of the directory that could not
/// be made or of the renaming, with the words of `git`, or with the directory in
/// which no headers were found.
pub proof fn failed_fetches_say_why(fetch: FetchView, event: FetchEvent)
    requires
        possible(fetch.step, event),
        fetch.after(event).step is Failed,
    ensures
        ({
            let message = fetch.after(event).text;
            match fetch.step {
                FetchStep::CreateParent => message == "failed to create "@ + fetch.parent + ": "@
                    + event->Error_0@,
                FetchStep::Clone => event->Git_0 !is Succeeded,
                FetchStep::Checkout => event->Git_0 !is Succeeded,
                FetchStep::Verify => event is Missing && message
                    == "Composable Kernel clone succeeded but include/ck_tile missing at "@
                    + fetch.staging,
                FetchStep::LookForRival => event is Missing && message == "rename to "@ + fetch.root
                    + " failed: "@ + fetch.text,
                _ => false,
            }
        }),
{
}

/// Where the renaming fails, its error is kept until it is known whether another
/// process was first.
pub proof fn renaming_error_is_kept(fetch: FetchView, event: FetchEvent)
    requires
        fetch.step is Publish,
        event is Error,
    ensures
        fetch.after(event).step is LookForRival,
        fetch.after(event).text == event->Error_0@,
{
}

/// The outcome of a step moves a fetch on to the state that follows, and that is:
/// from the cache through the directories, the clone, the checkout and the
/// headers to the renaming, in this order, as long as nothing fails.
pub proof fn fetches_move_on(fetch: &mut CkFetch, event: FetchEvent)
    requires
        possible(old(fetch)@.step, event),
        call_ensures(CkFetch::advance, (fetch, event), ()),
    ensures
        final(fetch)@ == old(fetch)@.after(event),
        match old(fetch)@.step {
            FetchStep::LookInCache => if event is Found {
                final(fetch)@.step is Fetched
            } else {
                final(fetch)@.step is CreateParent
            },
            FetchStep::CreateParent => event is Done ==> final(fetch)@.step is ClearStaging,
            FetchStep::ClearStaging => final(fetch)@.step is Clone,
            FetchStep::Clone => event->Git_0 is Succeeded ==> final(fetch)@.step is Checkout,
            FetchStep::Checkout => event->Git_0 is Succeeded ==> final(fetch)@.step is Verify,
            FetchStep::Verify => event is Found ==> final(fetch)@.step is Publish,
            FetchStep::Publish => event is Done ==> final(fetch)@.step is Fetched,
            FetchStep::LookForRival => event is Found ==> final(fetch)@.step is DiscardStaging,
            FetchStep::DiscardStaging => final(fetch)@.step is Fetched,
            _ => true,
        },
{
}

} // verus!
