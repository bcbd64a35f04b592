//! The command executors: silence, clear and list.
//!
//! A command needs exchanges with the monitoring service, which the caller
//! performs one at a time. Starting a command gives the first [`Step`]; a
//! step that asks for an exchange carries the [`Run`] to resume with the
//! reply. The notices of a step are shown before its action is taken.

use vstd::prelude::*;
use crate::ask::{Ask, AskView, Method};
use crate::client::SensuClient;
use crate::endpoint::{EndpointView, SensuEndpoint};
use crate::err::{ErrorView, SensuError};
use crate::expire::Expire;
use crate::json::{Json, JsonView};
use crate::listing::{header_text, list_notices, listing_notices};
use crate::notice;
use crate::opts::{ClearOpts, ListOpts, SilenceOpts};
use crate::pattern::{Pattern, DFA_SIZE_LIMIT, SIZE_LIMIT};
use crate::payload::SensuPayload;
use crate::plan::{dispatch_views, Command, Dispatch, DispatchView};
use crate::resolve::{
    Resolution,
    ResolutionView,
    ResolveStep,
    ResolveStepView,
    Resolved,
    ResolvedView,
};
use crate::resource::{resource_views, ResourceView, SensuResource};
use crate::resources::{ShushResourceType, ShushResources};
use crate::text::{lemma_texts_add, no_texts, one_text, opt_texts, texts};
use crate::reply::reply_view;
use crate::validate::{
    valid_checks,
    valid_checks_notices,
    validate_checks,
};

verus! {

/// The status with which the process ends after a usage error or a failed
/// dispatch.
pub const EXIT_FAILURE: i32 = 1;

/// The state of a command that awaits a reply.
#[derive(Debug)]
pub enum Run {
    /// The selector is being resolved.
    Resolving { command: Command, checks: Option<Vec<String>>, resolution: Resolution },
    /// Awaits the check results that validate the checks of a silence.
    Checking { expire: Expire, resources: Option<Vec<String>>, named: Vec<String> },
    /// Awaits the reply to the request at position `next` of the batch.
    Dispatching { command: Command, batch: Vec<Dispatch>, next: usize },
    /// Awaits the list of silenced entries.
    Listing { sub: Pattern, chk: Pattern },
}

/// The mathematical model of a [`Run`].
pub enum RunView {
    Resolving { command: Command, checks: Option<Seq<Seq<char>>>, resolution: ResolutionView },
    Checking { expire: Expire, resources: Option<Seq<Seq<char>>>, named: Seq<Seq<char>> },
    Dispatching { command: Command, batch: Seq<DispatchView>, next: int },
    Listing { sub: Pattern, chk: Pattern },
}

impl View for Run {
    type V = RunView;

    open spec fn view(&self) -> RunView {
        match self {
            Run::Resolving { command, checks, resolution } => RunView::Resolving {
                command: *command,
                checks: opt_texts(*checks),
                resolution: resolution@,
            },
            Run::Checking { expire, resources, named } => RunView::Checking {
                expire: *expire,
                resources: opt_texts(*resources),
                named: texts(named@),
            },
            Run::Dispatching { command, batch, next } => RunView::Dispatching {
                command: *command,
                batch: dispatch_views(batch@),
                next: *next as int,
            },
            Run::Listing { sub, chk } => RunView::Listing { sub: *sub, chk: *chk },
        }
    }
}

/// What the caller does after showing a step's notices.
#[derive(Debug)]
pub enum Action {
    /// Perform the exchange, then resume the run with its reply.
    Ask(Run, Ask),
    /// Nothing more: the command is done.
    Done,
    /// Report the error: the command failed as a whole.
    Failed(SensuError),
    /// End the process with this status.
    Exit(i32),
}

/// The mathematical model of an [`Action`].
pub enum ActionView {
    Ask(RunView, AskView),
    Done,
    Failed(ErrorView),
    Exit(i32),
}

impl View for Action {
    type V = ActionView;

    open spec fn view(&self) -> ActionView {
        match self {
            Action::Ask(run, ask) => ActionView::Ask(run@, ask@),
            Action::Done => ActionView::Done,
            Action::Failed(e) => ActionView::Failed(e@),
            Action::Exit(status) => ActionView::Exit(*status),
        }
    }
}

/// One step of a command: the notices for the operator, then the action.
#[derive(Debug)]
pub struct Step {
    pub notices: Vec<String>,
    pub action: Action,
}

/// The mathematical model of a [`Step`].
pub struct StepView {
    pub notices: Seq<Seq<char>>,
    pub action: ActionView,
}

impl View for Step {
    type V = StepView;

    open spec fn view(&self) -> StepView {
        StepView { notices: texts(self.notices@), action: self.action@ }
    }
}

impl StepView {
    /// The step with `notices` shown before its own.
    pub open spec fn after(self, notices: Seq<Seq<char>>) -> StepView {
        StepView { notices: notices + self.notices, action: self.action }
    }
}

/// The identifiers of the resources in `resources`, in order.
pub open spec fn resource_texts(resources: Seq<ResourceView>) -> Seq<Seq<char>> {
    Seq::new(resources.len(), |i: int| resources[i].text())
}

impl Command {
    /// The request that sends the payload of `dispatch`.
    pub open spec fn post(self, dispatch: DispatchView) -> AskView {
        AskView {
            method: Method::Post,
            endpoint: match self {
                Command::Silence(_) => EndpointView::Silenced,
                Command::Clear => EndpointView::Clear,
            },
            body: Some(dispatch.payload),
        }
    }

    /// Dispatches the batch from position `from`: announces and asks for the
    /// request at that position, or is done where the batch is used up.
    pub open spec fn dispatch_from(self, batch: Seq<DispatchView>, from: int) -> StepView {
        if 0 <= from < batch.len() {
            StepView {
                notices: seq![batch[from].notice],
                action: ActionView::Ask(
                    RunView::Dispatching { command: self, batch, next: from },
                    self.post(batch[from]),
                ),
            }
        } else {
            StepView { notices: Seq::empty(), action: ActionView::Done }
        }
    }

    /// Goes on once resources and checks are settled: dispatches their
    /// batch, or ends the process with a failure status where neither a
    /// resource nor a check was given.
    pub open spec fn after_checks(
        self,
        resources: Option<Seq<Seq<char>>>,
        checks: Option<Seq<Seq<char>>>,
    ) -> StepView {
        match self.plan_view(resources, checks) {
            Some(batch) => self.dispatch_from(batch, 0),
            None => StepView {
                notices: seq![notice::no_targets_text()],
                action: ActionView::Exit(EXIT_FAILURE),
            },
        }
    }

    /// Goes on once the resources are settled: a silence validates its
    /// checks, if it has any, against the check results; a clear takes its
    /// checks as they are.
    pub open spec fn after_resources(
        self,
        resources: Option<Seq<Seq<char>>>,
        checks: Option<Seq<Seq<char>>>,
    ) -> StepView {
        match (self, checks) {
            (Command::Silence(expire), Some(named)) => StepView {
                notices: Seq::empty(),
                action: ActionView::Ask(
                    RunView::Checking { expire, resources, named },
                    AskView::results(),
                ),
            },
            _ => self.after_checks(resources, checks),
        }
    }

    /// Takes a step of the resolution as a step of the command: goes on
    /// resolving while the resolution asks for exchanges, goes on with the
    /// resources once they are resolved, and fails as the resolution does.
    pub open spec fn resolving(self, checks: Option<Seq<Seq<char>>>, resolved: ResolveStepView) -> StepView {
        match resolved.outcome {
            ResolvedView::Ask(next, ask) => StepView {
                notices: resolved.notices,
                action: ActionView::Ask(
                    RunView::Resolving { command: self, checks, resolution: next },
                    ask,
                ),
            },
            ResolvedView::Done(resources) => self.after_resources(
                Some(resource_texts(resources)),
                checks,
            ).after(resolved.notices),
            ResolvedView::Failed(e) => StepView {
                notices: resolved.notices,
                action: ActionView::Failed(e),
            },
        }
    }

    /// The first step of the command: resolves the selector where one is
    /// given, else goes on without resources.
    pub open spec fn start(
        self,
        selector: Option<(ShushResourceType, Seq<Seq<char>>)>,
        checks: Option<Seq<Seq<char>>>,
    ) -> StepView {
        match selector {
            Some((res_type, names)) => self.resolving(
                checks,
                ResolutionView::start(res_type, names),
            ),
            None => self.after_resources(None, checks),
        }
    }
}

impl RunView {
    /// The step that the reply to the pending exchange leads to.
    pub open spec fn step(self, reply: Result<Option<JsonView>, ErrorView>) -> StepView {
        match self {
            RunView::Resolving { command, checks, resolution } => command.resolving(
                checks,
                resolution.step(reply),
            ),
            RunView::Checking { expire, resources, named } => Command::Silence(
                expire,
            ).after_checks(resources, Some(valid_checks(named, reply))).after(
                valid_checks_notices(named, reply),
            ),
            RunView::Dispatching { command, batch, next } => match reply {
                Ok(_) => command.dispatch_from(batch, next + 1),
                Err(e) => StepView {
                    notices: seq![e.text()],
                    action: ActionView::Exit(EXIT_FAILURE),
                },
            },
            RunView::Listing { sub, chk } => match reply {
                Ok(body) => StepView {
                    notices: listing_notices(body, sub, chk),
                    action: ActionView::Done,
                },
                Err(e) => StepView { notices: Seq::empty(), action: ActionView::Failed(e) },
            },
        }
    }
}

fn after(notices: Vec<String>, step: Step) -> (joined: Step)
    ensures
        joined@ == step@.after(texts(notices@)),
{
    let mut all = notices;
    let mut rest = step.notices;
    proof {
        lemma_texts_add(all@, rest@);
    }
    all.append(&mut rest);
    Step { notices: all, action: step.action }
}

fn texts_of(resources: &Vec<SensuResource>) -> (list: Vec<String>)
    ensures
        texts(list@) == resource_texts(resource_views(resources@)),
{
    let mut list: Vec<String> = Vec::new();
    let mut i: usize = 0;
    while i < resources.len()
        invariant
            i <= resources.len(),
            list@.len() == i,
            forall|k: int| 0 <= k < i ==> (#[trigger] list@[k])@ == resources@[k]@.text(),
        decreases resources.len() - i,
    {
        list.push(resources[i].text());
        i += 1;
    }
    list
}

fn copy_payload(payload: &SensuPayload) -> (copy: SensuPayload)
    ensures
        copy@ == payload@,
{
    SensuPayload {
        res: match &payload.res {
            Some(r) => Some(r.clone()),
            None => None,
        },
        chk: match &payload.chk {
            Some(c) => Some(c.clone()),
            None => None,
        },
        expire: payload.expire,
    }
}

impl Command {
    fn endpoint(&self) -> (e: SensuEndpoint)
        ensures
            e@ == match self {
                Command::Silence(_) => EndpointView::Silenced,
                Command::Clear => EndpointView::Clear,
            },
    {
        match self {
            Command::Silence(_) => SensuEndpoint::Silenced,
            Command::Clear => SensuEndpoint::Clear,
        }
    }

    fn do_dispatch_from(self, batch: Vec<Dispatch>, from: usize) -> (step: Step)
        ensures
            step@ == self.dispatch_from(dispatch_views(batch@), from as int),
    {
        if from < batch.len() {
            let line = batch[from].notice.clone();
            let ask = Ask {
                method: Method::Post,
                endpoint: self.endpoint(),
                body: Some(copy_payload(&batch[from].payload)),
            };
            Step {
                notices: one_text(line),
                action: Action::Ask(Run::Dispatching { command: self, batch, next: from }, ask),
            }
        } else {
            Step { notices: no_texts(), action: Action::Done }
        }
    }

    fn do_after_checks(self, resources: Option<Vec<String>>, checks: Option<Vec<String>>) -> (step:
        Step)
        ensures
            step@ == self.after_checks(opt_texts(resources), opt_texts(checks)),
    {
        match self.plan(&resources, &checks) {
            Some(batch) => self.do_dispatch_from(batch, 0),
            None => Step {
                notices: one_text(notice::no_targets()),
                action: Action::Exit(EXIT_FAILURE),
            },
        }
    }

    fn do_after_resources(self, resources: Option<Vec<String>>, checks: Option<Vec<String>>) -> (step:
        Step)
        ensures
            step@ == self.after_resources(opt_texts(resources), opt_texts(checks)),
    {
        match self {
            Command::Silence(expire) => match checks {
                Some(named) => Step {
                    notices: no_texts(),
                    action: Action::Ask(
                        Run::Checking { expire, resources, named },
                        Ask::results(),
                    ),
                },
                None => self.do_after_checks(resources, None),
            },
            Command::Clear => self.do_after_checks(resources, checks),
        }
    }

    fn do_resolving(self, checks: Option<Vec<String>>, resolved: ResolveStep) -> (step: Step)
        ensures
            step@ == self.resolving(opt_texts(checks), resolved@),
    {
        match resolved.outcome {
            Resolved::Ask(next, ask) => Step {
                notices: resolved.notices,
                action: Action::Ask(Run::Resolving { command: self, checks, resolution: next }, ask),
            },
            Resolved::Done(resources) => after(
                resolved.notices,
                self.do_after_resources(Some(texts_of(&resources)), checks),
            ),
            Resolved::Failed(e) => Step { notices: resolved.notices, action: Action::Failed(e) },
        }
    }

    /// Starts the command on the given targets.
    pub fn begin(self, selector: Option<ShushResources>, checks: Option<Vec<String>>) -> (step: Step)
        ensures
            step@ == self.start(
                match selector {
                    Some(s) => Some((s.res_type, texts(s.resources@))),
                    None => None,
                },
                opt_texts(checks),
            ),
    {
        match selector {
            Some(selector) => self.do_resolving(checks, Resolution::start(selector)),
            None => self.do_after_resources(None, checks),
        }
    }
}

impl Run {
    /// Resumes the command with the reply to the exchange it asked for.
    pub fn resume(self, reply: Result<Option<Json>, SensuError>) -> (step: Step)
        ensures
            step@ == self@.step(reply_view(reply)),
    {
        match self {
            Run::Resolving { command, checks, resolution } => command.do_resolving(
                checks,
                resolution.resume(reply),
            ),
            Run::Checking { expire, resources, named } => {
                let checked = validate_checks(named, &reply);
                after(
                    checked.notices,
                    Command::Silence(expire).do_after_checks(resources, Some(checked.kept)),
                )
            },
            Run::Dispatching { command, batch, next } => match reply {
                Ok(_) => if next < usize::MAX {
                    command.do_dispatch_from(batch, next + 1)
                } else {
                    Step { notices: no_texts(), action: Action::Done }
                },
                Err(e) => Step {
                    notices: one_text(e.text()),
                    action: Action::Exit(EXIT_FAILURE),
                },
            },
            Run::Listing { sub, chk } => match reply {
                Ok(body) => Step { notices: list_notices(&body, &sub, &chk), action: Action::Done },
                Err(e) => Step { notices: no_texts(), action: Action::Failed(e) },
            },
        }
    }
}

impl SensuClient {
    /// Starts a silence: resolves the selector, validates the checks, and
    /// dispatches one request for each target.
    pub fn silence(&self, s: SilenceOpts) -> (step: Step)
        ensures
            step@ == Command::Silence(s.expire).start(
                match s.resources {
                    Some(r) => Some((r.res_type, texts(r.resources@))),
                    None => None,
                },
                opt_texts(s.checks),
            ),
    {
        Command::Silence(s.expire).begin(s.resources, s.checks)
    }

    /// Starts a clear: resolves the selector and dispatches one request for
    /// each target; the checks are taken as they are.
    pub fn clear(&self, s: ClearOpts) -> (step: Step)
        ensures
            step@ == Command::Clear.start(
                match s.resources {
                    Some(r) => Some((r.res_type, texts(r.resources@))),
                    None => None,
                },
                opt_texts(s.checks),
            ),
    {
        Command::Clear.begin(s.resources, s.checks)
    }

    /// Starts a list: compiles the two filter patterns under the size limits,
    /// each `.*` where none is given, and goes on as [`start_list`] says.
    pub fn list(&self, s: ListOpts) -> (step: Step)
        ensures
            match step@.action {
                ActionView::Ask(run, ask) => {
                    &&& step@.notices == seq![header_text()]
                    &&& ask == AskView::silenced()
                    &&& run matches RunView::Listing { sub, chk }
                    &&& sub.source() == match s.sub {
                        Some(p) => p@,
                        None => ".*"@,
                    }
                    &&& chk.source() == match s.chk {
                        Some(p) => p@,
                        None => ".*"@,
                    }
                    &&& sub.limits() == (SIZE_LIMIT, DFA_SIZE_LIMIT)
                    &&& chk.limits() == (SIZE_LIMIT, DFA_SIZE_LIMIT)
                },
                ActionView::Failed(e) => e is Message && step@.notices == Seq::<Seq<char>>::empty(),
                _ => false,
            },
    {
        start_list(Pattern::compile_or_any(&s.sub), Pattern::compile_or_any(&s.chk))
    }
}

/// The first step of a list, from what compiling the two patterns gave.
pub open spec fn list_start(
    sub: Result<Pattern, ErrorView>,
    chk: Result<Pattern, ErrorView>,
) -> StepView {
    match (sub, chk) {
        (Err(e), _) => StepView { notices: Seq::empty(), action: ActionView::Failed(e) },
        (Ok(_), Err(e)) => StepView { notices: Seq::empty(), action: ActionView::Failed(e) },
        (Ok(sub), Ok(chk)) => StepView {
            notices: seq![header_text()],
            action: ActionView::Ask(RunView::Listing { sub, chk }, AskView::silenced()),
        },
    }
}

/// The model of what compiling a pattern gave.
pub open spec fn compiled_view(r: Result<Pattern, SensuError>) -> Result<Pattern, ErrorView> {
    match r {
        Ok(p) => Ok(p),
        Err(e) => Err(e@),
    }
}

/// Starts a list from what compiling the two patterns gave. Where both
/// compiled, the header is shown and the silenced entries are asked for. A
/// pattern that did not compile fails the command with its error, the
/// subscription pattern's first, before anything is shown.
pub fn start_list(sub: Result<Pattern, SensuError>, chk: Result<Pattern, SensuError>) -> (step: Step)
    ensures
        step@ == list_start(compiled_view(sub), compiled_view(chk)),
{
    let sub = match sub {
        Ok(p) => p,
        Err(e) => {
            return Step { notices: no_texts(), action: Action::Failed(e) };
        },
    };
    let chk = match chk {
        Ok(p) => p,
        Err(e) => {
            return Step { notices: no_texts(), action: Action::Failed(e) };
        },
    };
    Step {
        notices: one_text(String::from_str("Active silences:")),
        action: Action::Ask(Run::Listing { sub, chk }, Ask::silenced()),
    }
}

} // verus!
