//! The scan loop: pulls stations from the discovery pipeline, offers each to
//! the name filter, reads the state of those that the filter takes, reports
//! it, and, unless the operator only scans, commands the new state.
//!
//! Like the pipeline, the loop is a state machine that hands out one
//! [`Request`] at a time; the pipeline that it pulls from is part of it. One
//! station is dealt with at a time, in the order of the feed, and nothing is
//! tried twice: the first fault ends the run.

use crate::command::{target, Command};
use crate::discover::{stepped, Discovery, Lighthouse, Progress, Stage};
use crate::filter::{after_match, completed, takes, Filter};
use crate::power_state::{decode, encode, rendering, PowerState};
use crate::radio::{Fault, Reply, Request};
use vstd::prelude::*;
use vstd::string::StringExecFns;

verus! {

/// Where a run stands, seen from outside.
#[derive(Clone, Copy, Debug, PartialEq, Eq, Structural)]
pub enum RunState {
    /// The run goes on.
    Scanning,
    /// Every requested name was taken: the run ended well.
    Completed,
    /// The feed ended before that: the run ended well all the same.
    StreamExhausted,
    /// A request failed: the run was given up.
    Failed(Fault),
}

/// What the loop is doing.
#[derive(Debug, PartialEq, Eq)]
pub enum Phase {
    /// Not started.
    Created,
    /// The pipeline is at work, opening or on the way to the next station.
    Discovering,
    /// Asked to read the status byte of this station.
    Reading(Lighthouse),
    /// Asked to write the command byte.
    Writing,
    /// The run has ended in this state.
    Over(RunState),
}

/// What comes next for the driver.
#[derive(Debug, PartialEq, Eq)]
pub enum Next<I> {
    /// Carry this out and hand the reply to `step`.
    Ask(Request<I>),
    /// The run has ended in this state.
    Finish(RunState),
}

/// What one step of the loop has decided.
#[derive(Debug, PartialEq, Eq)]
pub struct Step<I> {
    /// A status line to print, before anything else is done.
    pub line: Option<String>,
    pub next: Next<I>,
}

/// A step with its status line as plain text.
pub struct Outcome<I> {
    pub line: Option<Seq<char>>,
    pub next: Next<I>,
}

impl<I> View for Step<I> {
    type V = Outcome<I>;

    open spec fn view(&self) -> Outcome<I> {
        Outcome {
            line: match self.line {
                Some(line) => Some(line@),
                None => None,
            },
            next: self.next,
        }
    }
}

/// All that a run's future depends on.
pub struct Model {
    pub command: Command,
    /// What the filter waits for.
    pub pending: Option<Set<Seq<char>>>,
    /// Where the pipeline stands.
    pub stage: Stage,
    pub phase: Phase,
}

/// The loop and its pipeline fit together: the pipeline is at work exactly
/// while the loop waits for it, and idle while the loop deals with a station.
/// A restricted filter no longer waits for the station that is being read. A
/// run that is over has ended in a state other than `Scanning`.
pub open spec fn consistent(model: Model) -> bool {
    match model.phase {
        Phase::Created => model.stage is Created,
        Phase::Discovering => !(model.stage is Created || model.stage is Idle
            || model.stage is Closed),
        Phase::Reading(lighthouse) => model.stage is Idle && (model.pending matches Some(names)
            ==> !names.contains(lighthouse.name@)),
        Phase::Writing => model.stage is Idle,
        Phase::Over(end) => !(end is Scanning),
    }
}

/// The line that reports a station: its name and the state it is in, and
/// behind an arrow the state it is commanded into, if it is commanded.
pub open spec fn status_line(
    name: Seq<char>,
    current: PowerState,
    commanded: Option<PowerState>,
) -> Seq<char> {
    match commanded {
        None => name + ": "@ + rendering(current),
        Some(state) => name + ": "@ + rendering(current) + " -> "@ + rendering(state),
    }
}

/// The run ends in `state`.
pub open spec fn finished<I>(model: Model, state: RunState) -> (Model, Outcome<I>) {
    (
        Model {
            command: model.command,
            pending: model.pending,
            stage: model.stage,
            phase: Phase::Over(state),
        },
        Outcome { line: None, next: Next::Finish(state) },
    )
}

/// The top of the loop, reached with `line` still to print: the run is over
/// if the filter is complete; else the next station is pulled, for which the
/// pipeline goes to the feed.
pub open spec fn iterated<I>(model: Model, line: Option<Seq<char>>) -> (Model, Outcome<I>) {
    if completed(model.pending) {
        (
            Model {
                command: model.command,
                pending: model.pending,
                stage: model.stage,
                phase: Phase::Over(RunState::Completed),
            },
            Outcome { line, next: Next::Finish(RunState::Completed) },
        )
    } else {
        (
            Model {
                command: model.command,
                pending: model.pending,
                stage: Stage::Listening,
                phase: Phase::Discovering,
            },
            Outcome { line, next: Next::Ask(Request::NextEvent) },
        )
    }
}

/// What the loop makes of what its pipeline has come to. A request of the
/// pipeline is passed on. Once the pipeline is open the loop is entered. A
/// station is offered to the filter: one that the filter takes is read, any
/// other is dropped. A fault or the end of the feed ends the run.
pub open spec fn relayed<I>(model: Model, progress: Progress<I>) -> (Model, Outcome<I>) {
    match progress {
        Progress::Ask(request) => (model, Outcome { line: None, next: Next::Ask(request) }),
        Progress::Opened => iterated(model, None),
        Progress::Found(lighthouse) => {
            let pending = after_match(model.pending, lighthouse.name@);
            if takes(model.pending, lighthouse.name@) {
                (
                    Model {
                        command: model.command,
                        pending,
                        stage: model.stage,
                        phase: Phase::Reading(lighthouse),
                    },
                    Outcome {
                        line: None,
                        next: Next::Ask(
                            Request::Read { characteristic: lighthouse.characteristic },
                        ),
                    },
                )
            } else {
                iterated(
                    Model {
                        command: model.command,
                        pending,
                        stage: model.stage,
                        phase: model.phase,
                    },
                    None,
                )
            }
        },
        Progress::Failed(fault) => finished(model, RunState::Failed(fault)),
        Progress::Exhausted => finished(model, RunState::StreamExhausted),
    }
}

/// What the loop makes of the bytes read from a station. Without a byte there
/// is no state to report, and the station is dropped. Else the first byte is
/// the station's state: a scan reports it; a command reports it with the
/// state commanded and writes that state's byte, whatever state the station
/// is in.
pub open spec fn after_read<I>(model: Model, lighthouse: Lighthouse, bytes: Seq<u8>) -> (
    Model,
    Outcome<I>,
) {
    if bytes.len() == 0 {
        iterated(model, None)
    } else {
        let current = decode(bytes[0]);
        match target(model.command) {
            None => iterated(model, Some(status_line(lighthouse.name@, current, None))),
            Some(state) => (
                Model {
                    command: model.command,
                    pending: model.pending,
                    stage: model.stage,
                    phase: Phase::Writing,
                },
                Outcome {
                    line: Some(status_line(lighthouse.name@, current, Some(state))),
                    next: Next::Ask(
                        Request::Write {
                            characteristic: lighthouse.characteristic,
                            byte: encode(state),
                        },
                    ),
                },
            ),
        }
    }
}

/// Starting a run: the pipeline is opened, which asks for the scan to start.
/// A run that was started before cannot be started again.
pub open spec fn scan_started<I>(model: Model) -> Option<(Model, Outcome<I>)> {
    match model.phase {
        Phase::Created => Some(
            (
                Model {
                    command: model.command,
                    pending: model.pending,
                    stage: Stage::Starting,
                    phase: Phase::Discovering,
                },
                Outcome { line: None, next: Next::Ask(Request::StartScan) },
            ),
        ),
        _ => None,
    }
}

/// The loop's rules: what follows once the request that is outstanding was
/// answered by `reply`; `None` where `reply` answers no request that the run
/// has outstanding.
pub open spec fn scan_stepped<I>(model: Model, reply: Reply<I>) -> Option<(Model, Outcome<I>)> {
    match model.phase {
        Phase::Discovering => match stepped(model.stage, reply) {
            Some((stage, progress)) => Some(
                relayed(
                    Model {
                        command: model.command,
                        pending: model.pending,
                        stage,
                        phase: model.phase,
                    },
                    progress,
                ),
            ),
            None => None,
        },
        Phase::Reading(lighthouse) => match reply {
            Reply::Bytes(bytes) => Some(after_read(model, lighthouse, bytes@)),
            Reply::Failed => Some(finished(model, RunState::Failed(Fault::Transport))),
            _ => None,
        },
        Phase::Writing => match reply {
            Reply::Done => Some(iterated(model, None)),
            Reply::Failed => Some(finished(model, RunState::Failed(Fault::Transport))),
            _ => None,
        },
        _ => None,
    }
}

/// The fault that a failed request means, by what the run was doing.
pub open spec fn fault_of(model: Model) -> Fault {
    match model.phase {
        Phase::Discovering => match model.stage {
            Stage::Starting => Fault::Adapter,
            Stage::Subscribing => Fault::Adapter,
            Stage::Resolving => Fault::Resolution,
            Stage::Describing => Fault::Resolution,
            Stage::Connecting(_) => Fault::Connection,
            Stage::Enumerating(_) => Fault::Enumeration,
            Stage::Disconnecting(_) => Fault::Connection,
            _ => Fault::Transport,
        },
        _ => Fault::Transport,
    }
}

/// The model of a run that stood at `start` and has since taken the given
/// replies, first to last; `None` if one of them answered nothing that was
/// outstanding by then.
pub open spec fn model_after<I>(start: Model, replies: Seq<Reply<I>>) -> Option<Model>
    decreases replies.len(),
{
    if replies.len() == 0 {
        Some(start)
    } else {
        match model_after(start, replies.drop_last()) {
            Some(model) => match scan_stepped(model, replies.last()) {
                Some((next, _)) => Some(next),
                None => None,
            },
            None => None,
        }
    }
}

/// Writes the line that reports a station.
pub fn format_status(name: &str, current: PowerState, commanded: Option<PowerState>) -> (line:
    String)
    ensures
        line@ == status_line(name@, current, commanded),
{
    let mut line = name.to_owned();
    line.append(": ");
    line.append(current.to_string().as_str());
    match commanded {
        None => {},
        Some(state) => {
            line.append(" -> ");
            line.append(state.to_string().as_str());
        },
    }
    line
}

/// One run of the scan loop.
#[derive(Debug)]
pub struct Scanner {
    command: Command,
    filter: Filter,
    discovery: Discovery,
    phase: Phase,
}

impl View for Scanner {
    type V = Model;

    closed spec fn view(&self) -> Model {
        Model {
            command: self.command,
            pending: self.filter@,
            stage: self.discovery@,
            phase: self.phase,
        }
    }
}

impl Scanner {
    #[verifier::type_invariant]
    spec fn fits_together(self) -> bool {
        consistent(self@)
    }

    /// A run for the given command, over the stations that the filter takes.
    pub fn new(command: Command, filter: Filter) -> (scanner: Scanner)
        ensures
            scanner@ == (Model {
                command,
                pending: filter@,
                stage: Stage::Created,
                phase: Phase::Created,
            }),
    {
        Scanner { command, filter, discovery: Discovery::new(), phase: Phase::Created }
    }

    /// Where the run stands: `Scanning` until it is over, then the state that
    /// it ended in.
    pub fn state(&self) -> (state: RunState)
        ensures
            state == match self@.phase {
                Phase::Over(end) => end,
                _ => RunState::Scanning,
            },
            state is Scanning <==> !(self@.phase is Over),
    {
        proof {
            use_type_invariant(self);
        }
        match self.phase {
            Phase::Over(end) => end,
            _ => RunState::Scanning,
        }
    }

    /// The filter as the run has left it.
    pub fn filter(&self) -> (filter: &Filter)
        ensures
            filter@ == self@.pending,
    {
        &self.filter
    }

    /// Starts the run. `None`, and nothing changes, if it was started before.
    pub fn start<I>(&mut self) -> (step: Option<Step<I>>)
        ensures
            consistent(final(self)@),
            match scan_started::<I>(old(self)@) {
                Some((model, outcome)) => {
                    &&& final(self)@ == model
                    &&& step matches Some(made) && made@ == outcome
                },
                None => final(self)@ == old(self)@ && step is None,
            },
    {
        // The run is taken out, worked on by value and put back.
        let mut run = Scanner::new(Command::Scan, Filter::new(Vec::new()));
        std::mem::swap(self, &mut run);
        let (run, step) = run.begun();
        *self = run;
        proof {
            use_type_invariant(&*self);
        }
        step
    }

    /// Takes the reply to the request that is outstanding and decides what
    /// comes next. `None`, and nothing changes, if the reply answers no
    /// request that the run has outstanding; that is so for every reply once
    /// the run has ended.
    pub fn step<I>(&mut self, reply: Reply<I>) -> (step: Option<Step<I>>)
        ensures
            consistent(final(self)@),
            match scan_stepped(old(self)@, reply) {
                Some((model, outcome)) => {
                    &&& final(self)@ == model
                    &&& step matches Some(made) && made@ == outcome
                },
                None => final(self)@ == old(self)@ && step is None,
            },
    {
        // The run is taken out, worked on by value and put back.
        let mut run = Scanner::new(Command::Scan, Filter::new(Vec::new()));
        std::mem::swap(self, &mut run);
        let (run, step) = run.answered(reply);
        *self = run;
        proof {
            use_type_invariant(&*self);
        }
        step
    }

    /// `start`, from the run before to the run after.
    fn begun<I>(self) -> (made: (Scanner, Option<Step<I>>))
        ensures
            match scan_started::<I>(self@) {
                Some((model, outcome)) => {
                    &&& made.0@ == model
                    &&& made.1 matches Some(step) && step@ == outcome
                },
                None => made.0@ == self@ && made.1 is None,
            },
    {
        proof {
            use_type_invariant(&self);
        }
        let Scanner { command, filter, mut discovery, phase } = self;
        match phase {
            Phase::Created => {
                match discovery.start::<I>() {
                    Some(Progress::Ask(request)) => (
                        Scanner { command, filter, discovery, phase: Phase::Discovering },
                        Some(Step { line: None, next: Next::Ask(request) }),
                    ),
                    _ => unreached(),
                }
            },
            phase => (Scanner { command, filter, discovery, phase }, None),
        }
    }

    /// `step`, from the run before to the run after.
    fn answered<I>(self, reply: Reply<I>) -> (made: (Scanner, Option<Step<I>>))
        ensures
            match scan_stepped(self@, reply) {
                Some((model, outcome)) => {
                    &&& made.0@ == model
                    &&& made.1 matches Some(step) && step@ == outcome
                },
                None => made.0@ == self@ && made.1 is None,
            },
    {
        proof {
            use_type_invariant(&self);
        }
        let Scanner { command, mut filter, mut discovery, phase } = self;
        match phase {
            Phase::Discovering => match discovery.step(reply) {
                None => (Scanner { command, filter, discovery, phase: Phase::Discovering }, None),
                Some(Progress::Ask(request)) => (
                    Scanner { command, filter, discovery, phase: Phase::Discovering },
                    Some(Step { line: None, next: Next::Ask(request) }),
                ),
                Some(Progress::Opened) => iterate(command, filter, discovery, None),
                Some(Progress::Found(lighthouse)) => {
                    if filter.is_matched(lighthouse.name.as_str()) {
                        let characteristic = lighthouse.characteristic;
                        (
                            Scanner {
                                command,
                                filter,
                                discovery,
                                phase: Phase::Reading(lighthouse),
                            },
                            Some(
                                Step {
                                    line: None,
                                    next: Next::Ask(Request::Read { characteristic }),
                                },
                            ),
                        )
                    } else {
                        iterate(command, filter, discovery, None)
                    }
                },
                Some(Progress::Failed(fault)) => finish(
                    command,
                    filter,
                    discovery,
                    RunState::Failed(fault),
                ),
                Some(Progress::Exhausted) => finish(
                    command,
                    filter,
                    discovery,
                    RunState::StreamExhausted,
                ),
            },
            Phase::Reading(lighthouse) => match reply {
                Reply::Bytes(bytes) => {
                    if bytes.len() == 0 {
                        iterate(command, filter, discovery, None)
                    } else {
                        let current = PowerState::from(bytes[0]);
                        match command.target() {
                            None => {
                                let line = format_status(lighthouse.name.as_str(), current, None);
                                iterate(command, filter, discovery, Some(line))
                            },
                            Some(state) => {
                                let line = format_status(
                                    lighthouse.name.as_str(),
                                    current,
                                    Some(state),
                                );
                                let characteristic = lighthouse.characteristic;
                                let byte = u8::from(state);
                                (
                                    Scanner { command, filter, discovery, phase: Phase::Writing },
                                    Some(
                                        Step {
                                            line: Some(line),
                                            next: Next::Ask(
                                                Request::Write { characteristic, byte },
                                            ),
                                        },
                                    ),
                                )
                            },
                        }
                    }
                },
                Reply::Failed => finish(
                    command,
                    filter,
                    discovery,
                    RunState::Failed(Fault::Transport),
                ),
                _ => (
                    Scanner { command, filter, discovery, phase: Phase::Reading(lighthouse) },
                    None,
                ),
            },
            Phase::Writing => match reply {
                Reply::Done => iterate(command, filter, discovery, None),
                Reply::Failed => finish(
                    command,
                    filter,
                    discovery,
                    RunState::Failed(Fault::Transport),
                ),
                _ => (Scanner { command, filter, discovery, phase: Phase::Writing }, None),
            },
            phase => (Scanner { command, filter, discovery, phase }, None),
        }
    }
}

/// Ends the run that is made of these parts in `state`. What the run was
/// doing before does not count.
fn finish<I>(command: Command, filter: Filter, discovery: Discovery, state: RunState) -> (made: (
    Scanner,
    Option<Step<I>>,
))
    requires
        !(state is Scanning),
    ensures
        made.1 matches Some(step) && (made.0@, step@) == finished::<I>(
            Model { command, pending: filter@, stage: discovery@, phase: Phase::Discovering },
            state,
        ),
{
    (
        Scanner { command, filter, discovery, phase: Phase::Over(state) },
        Some(Step { line: None, next: Next::Finish(state) }),
    )
}

/// Takes the run that is made of these parts back to the top of the loop,
/// with `line` still to print. What the run was doing before does not count.
fn iterate<I>(command: Command, filter: Filter, discovery: Discovery, line: Option<String>) -> (made:
    (Scanner, Option<Step<I>>))
    requires
        discovery@ is Idle,
    ensures
        made.1 matches Some(step) && (made.0@, step@) == iterated::<I>(
            Model { command, pending: filter@, stage: discovery@, phase: Phase::Discovering },
            match line {
                Some(line) => Some(line@),
                None => None,
            },
        ),
{
    let mut discovery = discovery;
    if filter.is_completed() {
        (
            Scanner { command, filter, discovery, phase: Phase::Over(RunState::Completed) },
            Some(Step { line, next: Next::Finish(RunState::Completed) }),
        )
    } else {
        match discovery.pull::<I>() {
            Some(Progress::Ask(request)) => (
                Scanner { command, filter, discovery, phase: Phase::Discovering },
                Some(Step { line, next: Next::Ask(request) }),
            ),
            _ => unreached(),
        }
    }
}

/// The loop and its pipeline stay fitted together through every step.
pub proof fn consistency_is_kept<I>(model: Model, reply: Reply<I>)
    requires
        consistent(model),
    ensures
        scan_started::<I>(model) matches Some((next, _)) ==> consistent(next),
        scan_stepped(model, reply) matches Some((next, _)) ==> consistent(next),
{
}

/// Only a station that the pipeline has just handed out and that the filter
/// takes is read, at its control characteristic; nothing else ever is.
pub proof fn read_only_what_was_found_and_taken<I>(model: Model, reply: Reply<I>)
    ensures
        scan_stepped(model, reply) matches Some((_, outcome)) ==> (outcome.next matches Next::Ask(
            Request::Read { characteristic },
        ) ==> {
            &&& model.phase is Discovering
            &&& stepped(model.stage, reply) matches Some((_, Progress::Found(lighthouse)))
                && lighthouse.characteristic == characteristic && takes(
                model.pending,
                lighthouse.name@,
            )
        }),
{
}

/// A scan only looks: whatever is answered, a run with the command `Scan`
/// never asks for a write.
pub proof fn scan_never_writes<I>(model: Model, reply: Reply<I>)
    requires
        model.command == Command::Scan,
    ensures
        scan_started::<I>(model) matches Some((next, outcome)) ==> next.command == Command::Scan
            && !(outcome.next matches Next::Ask(request) && request is Write),
        scan_stepped(model, reply) matches Some((next, outcome)) ==> next.command == Command::Scan
            && !(outcome.next matches Next::Ask(request) && request is Write),
{
}

/// A command is carried out on every station that is read, also on one that
/// is in the commanded state already: the step that takes the station's state
/// reports both states and asks for the commanded state's byte to be written
/// to the station's control characteristic.
pub proof fn command_is_always_written<I>(model: Model, lighthouse: Lighthouse, bytes: Vec<u8>)
    requires
        model.phase == Phase::Reading(lighthouse),
        model.command != Command::Scan,
        bytes@.len() > 0,
    ensures
        target(model.command) matches Some(state) && scan_stepped::<I>(model, Reply::Bytes(bytes))
            matches Some((next, outcome)) && next.phase == Phase::Writing && next.pending
            == model.pending && outcome.line == Some(
            status_line(lighthouse.name@, decode(bytes[0]), Some(state)),
        ) && outcome.next == Next::<I>::Ask(
            Request::Write { characteristic: lighthouse.characteristic, byte: encode(state) },
        ),
{
}

/// A read that brings no byte is no fault: nothing is printed, the filter
/// stays as it was when the read was asked for, and the run goes on with the
/// next station, or ends well if the filter is complete. With an unrestricted
/// filter the same station is taken again when it next comes by.
pub proof fn empty_read_is_skipped<I>(model: Model, lighthouse: Lighthouse, bytes: Vec<u8>)
    requires
        model.phase == Phase::Reading(lighthouse),
        bytes@.len() == 0,
    ensures
        scan_stepped::<I>(model, Reply::Bytes(bytes)) matches Some((next, outcome)) && {
            &&& outcome.line is None
            &&& next.pending == model.pending
            &&& outcome.next == if completed(model.pending) {
                Next::<I>::Finish(RunState::Completed)
            } else {
                Next::<I>::Ask(Request::NextEvent)
            }
            &&& model.pending is None ==> takes(next.pending, lighthouse.name@)
        },
{
}

/// A line is printed for a station's state and for nothing else: a step
/// prints only in answer to a read that brought at least one byte, and then
/// it always does.
pub proof fn line_only_for_state<I>(model: Model, reply: Reply<I>)
    ensures
        scan_stepped(model, reply) matches Some((_, outcome)) ==> (outcome.line is Some <==> {
            &&& model.phase is Reading
            &&& reply matches Reply::Bytes(bytes) && bytes@.len() > 0
        }),
{
}

/// How a run can end: as completed only with a complete filter, as exhausted
/// only on the end of the feed, as failed only on a request that failed, with
/// the fault of that request.
pub proof fn run_ends_for_a_reason<I>(model: Model, reply: Reply<I>)
    requires
        consistent(model),
    ensures
        scan_stepped(model, reply) matches Some((next, outcome)) ==> {
            &&& outcome.next == Next::<I>::Finish(RunState::Completed) ==> completed(next.pending)
            &&& outcome.next == Next::<I>::Finish(RunState::StreamExhausted) ==> reply
                == Reply::<I>::Event(None)
            &&& outcome.next matches Next::Finish(RunState::Failed(fault)) ==> reply
                == Reply::<I>::Failed && fault == fault_of(model)
            &&& outcome.next != Next::<I>::Finish(RunState::Scanning)
            &&& outcome.next is Finish <==> next.phase is Over
        },
{
}

/// Over one step a restricted filter stays restricted and waits for nothing
/// that it did not wait for before, and a station is taken for reading only if
/// the filter waited for it.
pub proof fn pending_only_shrinks<I>(model: Model, reply: Reply<I>)
    requires
        model.pending is Some,
    ensures
        scan_stepped(model, reply) matches Some((next, _)) ==> {
            &&& next.pending matches Some(left) && left.subset_of(model.pending->0)
            &&& next.phase matches Phase::Reading(lighthouse) ==> model.pending->0.contains(
                lighthouse.name@,
            )
        },
{
}

/// What `pending_only_shrinks` says of one step, said of any number of them:
/// a run that has taken `replies` had taken the first `k` of them before, and
/// its filter waits for nothing that it did not wait for then.
proof fn pending_shrinks_along<I>(start: Model, replies: Seq<Reply<I>>, k: int)
    requires
        consistent(start),
        start.pending is Some,
        0 <= k <= replies.len(),
        model_after(start, replies) is Some,
    ensures
        model_after(start, replies.take(k)) is Some,
        consistent(model_after(start, replies.take(k))->0),
        consistent(model_after(start, replies)->0),
        model_after(start, replies.take(k))->0.pending is Some,
        model_after(start, replies)->0.pending is Some,
        model_after(start, replies)->0.pending->0.subset_of(
            model_after(start, replies.take(k))->0.pending->0,
        ),
    decreases replies.len(),
{
    if replies.len() == 0 {
        assert(replies.take(k) =~= replies);
    } else {
        let shorter = replies.drop_last();
        let middle = model_after(start, shorter)->0;
        if k == replies.len() {
            assert(replies.take(k) =~= replies);
            pending_shrinks_along(start, shorter, 0);
        } else {
            assert(shorter.take(k) =~= replies.take(k));
            pending_shrinks_along(start, shorter, k);
        }
        pending_only_shrinks(middle, replies.last());
        consistency_is_kept(middle, replies.last());
    }
}

/// In a run with a restricted filter no station name is read twice: if a
/// station was being read after the first `earlier` replies, and a station is
/// being read after the first `later` ones, the two have different names.
pub proof fn no_name_is_read_twice<I>(
    start: Model,
    replies: Seq<Reply<I>>,
    earlier: int,
    later: int,
    first: Lighthouse,
    second: Lighthouse,
)
    requires
        consistent(start),
        start.pending is Some,
        0 <= earlier < later <= replies.len(),
        model_after(start, replies.take(earlier)) matches Some(model) && model.phase
            == Phase::Reading(first),
        model_after(start, replies.take(later)) matches Some(model) && model.phase
            == Phase::Reading(second),
    ensures
        first.name@ != second.name@,
{
    let until = replies.take(later);
    let before = until.drop_last();
    assert(before.take(earlier) =~= replies.take(earlier));
    assert(model_after(start, before) is Some);
    pending_shrinks_along(start, before, earlier);
    pending_only_shrinks(model_after(start, before)->0, until.last());
}

/// A run over every station never ends as completed: with an unrestricted
/// filter it goes on until the feed ends or a request fails.
pub proof fn unrestricted_run_never_completes<I>(model: Model, reply: Reply<I>)
    requires
        model.pending is None,
    ensures
        scan_stepped(model, reply) matches Some((next, outcome)) ==> next.pending is None
            && outcome.next != Next::<I>::Finish(RunState::Completed),
{
}

} // verus!
