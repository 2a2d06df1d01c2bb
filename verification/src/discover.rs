//! The discovery pipeline: from the adapter's raw event feed to base stations
//! that are ready to be read and commanded.
//!
//! The pipeline is a state machine. It never touches the radio: it hands out
//! one [`Request`] at a time and is told the [`Reply`]. It does the work for a
//! station only when asked for the next one, one event at a time, and it does
//! not remember what it has handed out: a station that is announced again is
//! looked at again.

use crate::radio::{announced, control_position, station_name};
use crate::radio::{find_control, Fault, Reply, Request};
use vstd::prelude::*;

verus! {

/// A base station that is ready: it was connected to, its services were
/// enumerated, it was disconnected from again, and it exposes the control
/// characteristic.
#[derive(Debug, PartialEq, Eq)]
pub struct Lighthouse {
    /// The local name that the station advertises.
    pub name: String,
    /// Where the control characteristic stands in the list of the station's
    /// characteristics.
    pub characteristic: usize,
}

/// Where the pipeline stands. The stages from `Connecting` on carry the name
/// of the station that is being made ready.
#[derive(Debug, PartialEq, Eq)]
pub enum Stage {
    /// Nothing has been asked of the radio yet.
    Created,
    /// Asked to start scanning.
    Starting,
    /// Asked for the event feed.
    Subscribing,
    /// Between two stations: nothing is asked of the radio until the next
    /// station is wanted.
    Idle,
    /// Asked for the next event.
    Listening,
    /// Asked for the peripheral of an event.
    Resolving,
    /// Asked for what the peripheral advertises.
    Describing,
    /// Asked to connect.
    Connecting(String),
    /// Asked to enumerate the services.
    Enumerating(String),
    /// Asked to disconnect.
    Disconnecting(String),
    /// Asked for the list of characteristics.
    Selecting(String),
    /// Scanning never started or the feed has ended: no station will come.
    Closed,
}

/// What the pipeline has come to.
#[derive(Debug, PartialEq, Eq)]
pub enum Progress<I> {
    /// The driver is to carry this out and hand the reply to `step`.
    Ask(Request<I>),
    /// Scanning runs and the feed is open: stations can be pulled.
    Opened,
    /// The next station.
    Found(Lighthouse),
    /// A request failed. After `Fault::Adapter` the pipeline is closed; after
    /// any other fault only the station at hand is lost.
    Failed(Fault),
    /// The feed has ended.
    Exhausted,
}

/// Opening the pipeline: a fresh pipeline asks for the scan to start. A
/// pipeline that was opened before cannot be opened again.
pub open spec fn started<I>(stage: Stage) -> Option<(Stage, Progress<I>)> {
    match stage {
        Stage::Created => Some((Stage::Starting, Progress::Ask(Request::StartScan))),
        _ => None,
    }
}

/// Asking for the next station: an idle pipeline goes to the feed for the
/// next event, a closed one has nothing more to give. In every other stage
/// the pipeline is at work or not open, and cannot be pulled.
pub open spec fn pulled<I>(stage: Stage) -> Option<(Stage, Progress<I>)> {
    match stage {
        Stage::Idle => Some((Stage::Listening, Progress::Ask(Request::NextEvent))),
        Stage::Closed => Some((Stage::Closed, Progress::Exhausted)),
        _ => None,
    }
}

/// The pipeline's rules: the stage that follows and what the pipeline has come
/// to, once the request that is outstanding in `stage` was answered by
/// `reply`; `None` where `reply` answers no request of that stage.
///
/// An event that announces no peripheral, a peripheral of which nothing is
/// known, one of another vendor, one without a name and one without the
/// control characteristic are passed over: the pipeline asks for the next
/// event. A failed request gives up the station at hand and shows as a fault.
pub open spec fn stepped<I>(stage: Stage, reply: Reply<I>) -> Option<(Stage, Progress<I>)> {
    match (stage, reply) {
        (Stage::Starting, Reply::Done) => Some(
            (Stage::Subscribing, Progress::Ask(Request::Subscribe)),
        ),
        (Stage::Starting, Reply::Failed) => Some((Stage::Closed, Progress::Failed(Fault::Adapter))),
        (Stage::Subscribing, Reply::Done) => Some((Stage::Idle, Progress::Opened)),
        (Stage::Subscribing, Reply::Failed) => Some(
            (Stage::Closed, Progress::Failed(Fault::Adapter)),
        ),
        (Stage::Listening, Reply::Event(None)) => Some((Stage::Closed, Progress::Exhausted)),
        (Stage::Listening, Reply::Event(Some(event))) => match announced(event) {
            Some(id) => Some((Stage::Resolving, Progress::Ask(Request::Resolve(id)))),
            None => Some((Stage::Listening, Progress::Ask(Request::NextEvent))),
        },
        (Stage::Resolving, Reply::Done) => Some(
            (Stage::Describing, Progress::Ask(Request::Properties)),
        ),
        (Stage::Resolving, Reply::Failed) => Some(
            (Stage::Idle, Progress::Failed(Fault::Resolution)),
        ),
        (Stage::Describing, Reply::Properties(None)) => Some(
            (Stage::Listening, Progress::Ask(Request::NextEvent)),
        ),
        (Stage::Describing, Reply::Properties(Some(properties))) => match station_name(
            properties,
        ) {
            Some(name) => Some((Stage::Connecting(name), Progress::Ask(Request::Connect))),
            None => Some((Stage::Listening, Progress::Ask(Request::NextEvent))),
        },
        (Stage::Describing, Reply::Failed) => Some(
            (Stage::Idle, Progress::Failed(Fault::Resolution)),
        ),
        (Stage::Connecting(name), Reply::Done) => Some(
            (Stage::Enumerating(name), Progress::Ask(Request::DiscoverServices)),
        ),
        (Stage::Connecting(_), Reply::Failed) => Some(
            (Stage::Idle, Progress::Failed(Fault::Connection)),
        ),
        (Stage::Enumerating(name), Reply::Done) => Some(
            (Stage::Disconnecting(name), Progress::Ask(Request::Disconnect)),
        ),
        (Stage::Enumerating(_), Reply::Failed) => Some(
            (Stage::Idle, Progress::Failed(Fault::Enumeration)),
        ),
        (Stage::Disconnecting(name), Reply::Done) => Some(
            (Stage::Selecting(name), Progress::Ask(Request::Characteristics)),
        ),
        (Stage::Disconnecting(_), Reply::Failed) => Some(
            (Stage::Idle, Progress::Failed(Fault::Connection)),
        ),
        (Stage::Selecting(name), Reply::Characteristics(uuids)) => match control_position(uuids@) {
            Some(characteristic) => Some(
                (Stage::Idle, Progress::Found(Lighthouse { name, characteristic })),
            ),
            None => Some((Stage::Listening, Progress::Ask(Request::NextEvent))),
        },
        _ => None,
    }
}

/// The discovery pipeline of one scan.
#[derive(Debug)]
pub struct Discovery {
    stage: Stage,
}

impl View for Discovery {
    type V = Stage;

    closed spec fn view(&self) -> Stage {
        self.stage
    }
}

impl Discovery {
    /// A pipeline that has not asked anything of the radio yet.
    pub fn new() -> (discovery: Discovery)
        ensures
            discovery@ == Stage::Created,
    {
        Discovery { stage: Stage::Created }
    }

    /// Where the pipeline stands.
    pub fn stage(&self) -> (stage: &Stage)
        ensures
            *stage == self@,
    {
        &self.stage
    }

    /// Opens the pipeline: asks for the scan to start. `None`, and nothing
    /// changes, if the pipeline was opened before.
    pub fn start<I>(&mut self) -> (progress: Option<Progress<I>>)
        ensures
            match started::<I>(old(self)@) {
                Some((stage, made)) => final(self)@ == stage && progress == Some(made),
                None => final(self)@ == old(self)@ && progress is None,
            },
    {
        match self.stage {
            Stage::Created => {
                self.stage = Stage::Starting;
                Some(Progress::Ask(Request::StartScan))
            },
            _ => None,
        }
    }

    /// Asks for the next station. `None`, and nothing changes, if the pipeline
    /// is not open or is still at work on the last pull.
    pub fn pull<I>(&mut self) -> (progress: Option<Progress<I>>)
        ensures
            match pulled::<I>(old(self)@) {
                Some((stage, made)) => final(self)@ == stage && progress == Some(made),
                None => final(self)@ == old(self)@ && progress is None,
            },
    {
        match self.stage {
            Stage::Idle => {
                self.stage = Stage::Listening;
                Some(Progress::Ask(Request::NextEvent))
            },
            Stage::Closed => Some(Progress::Exhausted),
            _ => None,
        }
    }

    /// Takes the reply to the request that is outstanding and says what the
    /// pipeline has come to. `None`, and nothing changes, if the reply answers
    /// no request of the stage that the pipeline is in.
    pub fn step<I>(&mut self, reply: Reply<I>) -> (progress: Option<Progress<I>>)
        ensures
            match stepped(old(self)@, reply) {
                Some((stage, made)) => final(self)@ == stage && progress == Some(made),
                None => final(self)@ == old(self)@ && progress is None,
            },
    {
        let mut stage = Stage::Closed;
        std::mem::swap(&mut self.stage, &mut stage);
        let (next, progress) = match (stage, reply) {
            (Stage::Starting, Reply::Done) => (
                Stage::Subscribing,
                Some(Progress::Ask(Request::Subscribe)),
            ),
            (Stage::Starting, Reply::Failed) => (
                Stage::Closed,
                Some(Progress::Failed(Fault::Adapter)),
            ),
            (Stage::Subscribing, Reply::Done) => (Stage::Idle, Some(Progress::Opened)),
            (Stage::Subscribing, Reply::Failed) => (
                Stage::Closed,
                Some(Progress::Failed(Fault::Adapter)),
            ),
            (Stage::Listening, Reply::Event(None)) => (Stage::Closed, Some(Progress::Exhausted)),
            (Stage::Listening, Reply::Event(Some(event))) => match event.announced() {
                Some(id) => (Stage::Resolving, Some(Progress::Ask(Request::Resolve(id)))),
                None => (Stage::Listening, Some(Progress::Ask(Request::NextEvent))),
            },
            (Stage::Resolving, Reply::Done) => (
                Stage::Describing,
                Some(Progress::Ask(Request::Properties)),
            ),
            (Stage::Resolving, Reply::Failed) => (
                Stage::Idle,
                Some(Progress::Failed(Fault::Resolution)),
            ),
            (Stage::Describing, Reply::Properties(None)) => (
                Stage::Listening,
                Some(Progress::Ask(Request::NextEvent)),
            ),
            (Stage::Describing, Reply::Properties(Some(properties))) => {
                match properties.station_name() {
                    Some(name) => (Stage::Connecting(name), Some(Progress::Ask(Request::Connect))),
                    None => (Stage::Listening, Some(Progress::Ask(Request::NextEvent))),
                }
            },
            (Stage::Describing, Reply::Failed) => (
                Stage::Idle,
                Some(Progress::Failed(Fault::Resolution)),
            ),
            (Stage::Connecting(name), Reply::Done) => (
                Stage::Enumerating(name),
                Some(Progress::Ask(Request::DiscoverServices)),
            ),
            (Stage::Connecting(_), Reply::Failed) => (
                Stage::Idle,
                Some(Progress::Failed(Fault::Connection)),
            ),
            (Stage::Enumerating(name), Reply::Done) => (
                Stage::Disconnecting(name),
                Some(Progress::Ask(Request::Disconnect)),
            ),
            (Stage::Enumerating(_), Reply::Failed) => (
                Stage::Idle,
                Some(Progress::Failed(Fault::Enumeration)),
            ),
            (Stage::Disconnecting(name), Reply::Done) => (
                Stage::Selecting(name),
                Some(Progress::Ask(Request::Characteristics)),
            ),
            (Stage::Disconnecting(_), Reply::Failed) => (
                Stage::Idle,
                Some(Progress::Failed(Fault::Connection)),
            ),
            (Stage::Selecting(name), Reply::Characteristics(uuids)) => match find_control(&uuids) {
                Some(characteristic) => (
                    Stage::Idle,
                    Some(Progress::Found(Lighthouse { name, characteristic })),
                ),
                None => (Stage::Listening, Some(Progress::Ask(Request::NextEvent))),
            },
            (stage, _) => (stage, None),
        };
        self.stage = next;
        progress
    }
}

/// One thing that can happen to a pipeline: it is opened, it is pulled, or the
/// request that it has outstanding is answered.
pub enum Turn<I> {
    Start,
    Pull,
    Answer(Reply<I>),
}

/// What a turn makes of a pipeline in `stage`; `None` where the turn does not
/// fit the stage.
pub open spec fn turned<I>(stage: Stage, turn: Turn<I>) -> Option<(Stage, Progress<I>)> {
    match turn {
        Turn::Start => started(stage),
        Turn::Pull => pulled(stage),
        Turn::Answer(reply) => stepped(stage, reply),
    }
}

/// The stage of a fresh pipeline after the given turns, first to last; `None`
/// if one of them did not fit the stage that the pipeline was in by then.
pub open spec fn stage_after<I>(turns: Seq<Turn<I>>) -> Option<Stage>
    decreases turns.len(),
{
    if turns.len() == 0 {
        Some(Stage::Created)
    } else {
        match stage_after(turns.drop_last()) {
            Some(stage) => match turned(stage, turns.last()) {
                Some((next, _)) => Some(next),
                None => None,
            },
            None => None,
        }
    }
}

/// What the last of the given turns made a fresh pipeline come to; `None` if
/// there is no turn or one of them did not fit.
pub open spec fn progress_after<I>(turns: Seq<Turn<I>>) -> Option<Progress<I>> {
    if turns.len() == 0 {
        None
    } else {
        match stage_after(turns.drop_last()) {
            Some(stage) => match turned(stage, turns.last()) {
                Some((_, progress)) => Some(progress),
                None => None,
            },
            None => None,
        }
    }
}

/// A peripheral whose manufacturer data has no entry of the vendor is passed
/// over as soon as its properties are known, whatever its name: the pipeline
/// does not connect to it and asks for the next event.
pub proof fn other_vendor_is_passed_over<I>(properties: crate::radio::Properties)
    requires
        !properties.manufacturer_data@.contains_key(crate::radio::VENDOR_ID),
    ensures
        stepped::<I>(Stage::Describing, Reply::Properties(Some(properties))) == Some(
            (Stage::Listening, Progress::<I>::Ask(Request::NextEvent)),
        ),
{
}

/// The pipeline leaves the control characteristic alone: whatever turn it
/// takes, it asks neither for a read nor for a write.
pub proof fn handshake_reads_and_writes_nothing<I>(stage: Stage, turn: Turn<I>)
    ensures
        turned(stage, turn) matches Some((_, Progress::Ask(request))) ==> !(request is Read
            || request is Write),
{
}

/// The pipeline keeps no record of what it has handed out: after a station,
/// and after a fault that did not close it, it stands where it stood when it
/// was opened, so a station that is announced again is made ready again.
pub proof fn nothing_is_remembered<I>(stage: Stage, turn: Turn<I>)
    ensures
        turned(stage, turn) matches Some((next, progress)) ==> (progress is Opened || progress
            is Found || (progress matches Progress::Failed(fault) && fault != Fault::Adapter)
            ==> next == Stage::Idle),
{
}

/// A pipeline hands out a station only at the end of the whole handshake.
/// Whatever happened before, the last five turns of a run that ends in a
/// station were: the properties of a peripheral of the vendor with the
/// station's name, a connect, an enumeration and a disconnect that all went
/// through, and a list of characteristics that holds the control
/// characteristic first at the place that the station names.
pub proof fn found_after_full_handshake<I>(turns: Seq<Turn<I>>, lighthouse: Lighthouse)
    requires
        progress_after(turns) == Some(Progress::<I>::Found(lighthouse)),
    ensures
        turns.len() >= 5,
        turns[turns.len() - 5] matches Turn::Answer(Reply::Properties(Some(properties)))
            && properties.manufacturer_data@.contains_key(crate::radio::VENDOR_ID)
            && properties.local_name == Some(lighthouse.name),
        turns[turns.len() - 4] == Turn::<I>::Answer(Reply::Done),
        turns[turns.len() - 3] == Turn::<I>::Answer(Reply::Done),
        turns[turns.len() - 2] == Turn::<I>::Answer(Reply::Done),
        turns[turns.len() - 1] matches Turn::Answer(Reply::Characteristics(uuids))
            && control_position(uuids@) == Some(lighthouse.characteristic),
{
    let name = lighthouse.name;
    let selecting = turns.drop_last();
    assert(stage_after(selecting) == Some(Stage::Selecting(name)));
    let disconnecting = selecting.drop_last();
    assert(stage_after(disconnecting) == Some(Stage::Disconnecting(name)));
    assert(selecting.last() == Turn::<I>::Answer(Reply::Done));
    let enumerating = disconnecting.drop_last();
    assert(stage_after(enumerating) == Some(Stage::Enumerating(name)));
    assert(disconnecting.last() == Turn::<I>::Answer(Reply::Done));
    let connecting = enumerating.drop_last();
    assert(stage_after(connecting) == Some(Stage::Connecting(name)));
    assert(enumerating.last() == Turn::<I>::Answer(Reply::Done));
    let describing = connecting.drop_last();
    assert(stage_after(describing) == Some(Stage::Describing));
}

} // verus!
