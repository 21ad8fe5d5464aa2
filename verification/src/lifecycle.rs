//! The course of the daemon on the bus: what it does next, whatever the bus says.
//!
//! The daemon opens a connection for subscriptions and one for publications, and
//! tries to hold a claim on a third. On each connection it announces itself before
//! anything else. Then it reads one line after another until the bus closes, and
//! gives its claim back before it ends.

use crate::bus::{
    decode_request, DecodeError, DecodeErrorView, ErrorEvent, ErrorEventView, Payload, Request,
    RequestView, AUDIO_TOPIC_PREFIX, STT_COMMAND_PREFIX,
};
use crate::text::decimal_text;
use vstd::prelude::*;

verus! {

/// What the daemon holds a claim on.
pub const CLAIM_PATH: &'static str = "agorabus://daemon/wm-stt";

/// Session of the connection that holds the claim.
pub const CLAIM_SESSION: &'static str = "wm-stt-claim";

/// Seconds after which a claim lapses that is not renewed.
pub const CLAIM_TTL_SECS: u64 = 30;

/// The connections of the daemon.
#[derive(Debug, Clone, Copy, PartialEq, Eq)]
pub enum Link {
    /// Where requests come in.
    Subscribe,
    /// Where events go out.
    Publish,
    /// Where the claim is held.
    Claim,
}

/// What the daemon waits for.
#[derive(Debug, Clone, Copy, PartialEq, Eq)]
pub enum Stage {
    /// A connection to open.
    Connecting(Link),
    /// A connection to be announced.
    Announcing(Link),
    /// The subscription to inbound speech.
    SubscribingAudio,
    /// The subscription to commands.
    SubscribingCommands,
    /// The heartbeat of a connection to start.
    StartingHeartbeat(Link),
    /// The claim.
    Claiming,
    /// A line from the bus.
    Reading,
    /// A request to be handled and its events to be published.
    Dispatching,
    /// An error event to be published.
    Reporting,
    /// The claim to be given back.
    Releasing,
    /// Nothing any more.
    Ended,
}

/// A line from the bus.
#[derive(Debug)]
pub enum Line {
    /// Not a line of the bus protocol.
    Undecodable,
    /// The reply to something that was sent.
    Reply,
    /// Something that was published.
    Event {
        /// Where it was published.
        topic: String,
        /// What was published.
        data: Payload,
    },
}

/// What the daemon hears of what it waits for.
#[derive(Debug)]
pub enum Event {
    /// It is done, or it failed.
    Answer(Result<(), String>),
    /// There is no bus to connect to.
    Unreachable,
    /// A line came in.
    Incoming(Line),
    /// No line will come any more.
    Closed,
}

/// What the daemon does next.
#[derive(Debug)]
pub enum Action {
    /// Open a connection.
    Connect(Link),
    /// Announce a connection.
    Announce {
        /// The connection.
        link: Link,
        /// The session that it stands for.
        session: String,
        /// The process that it belongs to.
        pid: u32,
        /// What it is for.
        purpose: &'static str,
    },
    /// Subscribe to the topics with a prefix.
    Subscribe(&'static str),
    /// Start the heartbeat of a connection.
    StartHeartbeat(Link),
    /// Take the claim.
    HoldClaim {
        /// The session that holds it.
        session: &'static str,
        /// What it is on.
        path: &'static str,
        /// Seconds after which it lapses.
        ttl_secs: u64,
    },
    /// Read the next line.
    ReadLine,
    /// Handle a request, and publish what comes of it.
    Dispatch {
        /// The request.
        request: Request,
        /// Unix milliseconds when it came in.
        now_ms: u64,
    },
    /// Publish an error event.
    Report(ErrorEvent),
    /// Give the claim back.
    ReleaseClaim,
    /// End, with the failure that made the daemon end, if there was one.
    Exit(Result<(), String>),
    /// Nothing: what was heard is not what was waited for.
    Wait,
}

/// An [`Action`] with its texts as sequences of characters.
pub enum ActionView {
    Connect(Link),
    Announce { link: Link, session: Seq<char>, pid: u32, purpose: Seq<char> },
    Subscribe(Seq<char>),
    StartHeartbeat(Link),
    HoldClaim { session: Seq<char>, path: Seq<char>, ttl_secs: u64 },
    ReadLine,
    Dispatch { request: RequestView, now_ms: u64 },
    Report(ErrorEventView),
    ReleaseClaim,
    Exit(Result<(), Seq<char>>),
    Wait,
}

impl View for Action {
    type V = ActionView;

    open spec fn view(&self) -> ActionView {
        match self {
            Action::Connect(link) => ActionView::Connect(*link),
            Action::Announce { link, session, pid, purpose } => ActionView::Announce {
                link: *link,
                session: session@,
                pid: *pid,
                purpose: purpose@,
            },
            Action::Subscribe(prefix) => ActionView::Subscribe(prefix@),
            Action::StartHeartbeat(link) => ActionView::StartHeartbeat(*link),
            Action::HoldClaim { session, path, ttl_secs } => ActionView::HoldClaim {
                session: session@,
                path: path@,
                ttl_secs: *ttl_secs,
            },
            Action::ReadLine => ActionView::ReadLine,
            Action::Dispatch { request, now_ms } => ActionView::Dispatch {
                request: request@,
                now_ms: *now_ms,
            },
            Action::Report(event) => ActionView::Report(event@),
            Action::ReleaseClaim => ActionView::ReleaseClaim,
            Action::Exit(Ok(_)) => ActionView::Exit(Ok(())),
            Action::Exit(Err(cause)) => ActionView::Exit(Err(cause@)),
            Action::Wait => ActionView::Wait,
        }
    }
}

/// The daemon's course so far: its process, what it waits for, and whether it
/// holds its claim.
#[derive(Debug)]
pub struct Lifecycle {
    pid: u32,
    stage: Stage,
    claimed: bool,
}

/// What a [`Lifecycle`] holds.
pub struct LifecycleView {
    pub pid: u32,
    pub stage: Stage,
    pub claimed: bool,
}

impl View for Lifecycle {
    type V = LifecycleView;

    closed spec fn view(&self) -> LifecycleView {
        LifecycleView { pid: self.pid, stage: self.stage, claimed: self.claimed }
    }
}

/// The session that a connection stands for.
pub open spec fn session_of(link: Link, pid: u32) -> Seq<char> {
    match link {
        Link::Subscribe => "wm-stt-"@ + crate::text::decimal(pid as nat) + "-sub"@,
        Link::Publish => "wm-stt-"@ + crate::text::decimal(pid as nat),
        Link::Claim => CLAIM_SESSION@,
    }
}

/// What a connection is for, as it is announced.
pub open spec fn purpose_of(link: Link) -> Seq<char> {
    match link {
        Link::Subscribe => "wm-stt control subscribe"@,
        Link::Publish => "wm-stt publish path"@,
        Link::Claim => "wm-stt claim holder"@,
    }
}

/// The session that a connection stands for.
pub fn session_name(link: Link, pid: u32) -> (session: String)
    ensures
        session@ == session_of(link, pid),
{
    match link {
        Link::Subscribe => String::from_str("wm-stt-").concat(
            decimal_text(pid as u64).as_str(),
        ).concat("-sub"),
        Link::Publish => String::from_str("wm-stt-").concat(decimal_text(pid as u64).as_str()),
        Link::Claim => CLAIM_SESSION.to_owned(),
    }
}

/// What a connection is for, as it is announced.
fn purpose_text(link: Link) -> (purpose: &'static str)
    ensures
        purpose@ == purpose_of(link),
{
    match link {
        Link::Subscribe => "wm-stt control subscribe",
        Link::Publish => "wm-stt publish path",
        Link::Claim => "wm-stt claim holder",
    }
}

/// Seconds between two heartbeats, on a bus that drops peers that are silent for
/// `timeout_secs`.
pub fn heartbeat_period_secs(timeout_secs: u64) -> (secs: u64)
    ensures
        secs == timeout_secs / 2,
{
    timeout_secs / 2
}

/// The error event for a failure on the bus.
pub open spec fn bus_error(message: Seq<char>, now_ms: u64) -> ErrorEventView {
    ErrorEventView { kind: "bus"@, message, ts: now_ms }
}

impl LifecycleView {
    /// The claim is held only by a daemon that is past claiming and has not given
    /// it back.
    pub open spec fn wf(self) -> bool {
        self.claimed ==> {
            ||| self.stage == Stage::StartingHeartbeat(Link::Subscribe)
            ||| self.stage is Reading
            ||| self.stage is Dispatching
            ||| self.stage is Reporting
            ||| self.stage is Releasing
        }
    }

    /// The same course, waiting for something else.
    pub open spec fn at(self, stage: Stage) -> LifecycleView {
        LifecycleView { stage, ..self }
    }

    /// Opens a connection.
    pub open spec fn connect(self, link: Link) -> (LifecycleView, ActionView) {
        (self.at(Stage::Connecting(link)), ActionView::Connect(link))
    }

    /// Announces a connection.
    pub open spec fn announce(self, link: Link) -> (LifecycleView, ActionView) {
        (
            self.at(Stage::Announcing(link)),
            ActionView::Announce {
                link,
                session: session_of(link, self.pid),
                pid: self.pid,
                purpose: purpose_of(link),
            },
        )
    }

    /// Starts the heartbeat of a connection.
    pub open spec fn beat(self, link: Link) -> (LifecycleView, ActionView) {
        (self.at(Stage::StartingHeartbeat(link)), ActionView::StartHeartbeat(link))
    }

    /// Reads the next line.
    pub open spec fn read(self) -> (LifecycleView, ActionView) {
        (self.at(Stage::Reading), ActionView::ReadLine)
    }

    /// Publishes an error event.
    pub open spec fn report(self, message: Seq<char>, now_ms: u64) -> (LifecycleView, ActionView) {
        (self.at(Stage::Reporting), ActionView::Report(bus_error(message, now_ms)))
    }

    /// Ends.
    pub open spec fn exit(self, outcome: Result<(), Seq<char>>) -> (LifecycleView, ActionView) {
        (LifecycleView { stage: Stage::Ended, claimed: false, ..self }, ActionView::Exit(outcome))
    }

    /// Ends in good order, after giving back the claim where it is held.
    pub open spec fn wind_up(self) -> (LifecycleView, ActionView) {
        if self.claimed {
            (self.at(Stage::Releasing), ActionView::ReleaseClaim)
        } else {
            self.exit(Ok(()))
        }
    }

    /// What is done about a line. Only an event on a topic that is handled is
    /// ever answered.
    pub open spec fn hear(self, line: Line, now_ms: u64) -> (LifecycleView, ActionView) {
        match line {
            Line::Undecodable => self.read(),
            Line::Reply => self.read(),
            Line::Event { topic, data } => match crate::bus::decoded(topic@, data) {
                Ok(request) => (
                    self.at(Stage::Dispatching),
                    ActionView::Dispatch { request, now_ms },
                ),
                Err(DecodeErrorView::UnknownTopic(_)) => self.read(),
                Err(e) => self.report("decode: "@ + e.message(), now_ms),
            },
        }
    }

    /// What is done when a stage is over.
    pub open spec fn proceed(self) -> (LifecycleView, ActionView) {
        match self.stage {
            Stage::Connecting(link) => self.announce(link),
            Stage::Announcing(Link::Subscribe) => (
                self.at(Stage::SubscribingAudio),
                ActionView::Subscribe(AUDIO_TOPIC_PREFIX@),
            ),
            Stage::SubscribingAudio => (
                self.at(Stage::SubscribingCommands),
                ActionView::Subscribe(STT_COMMAND_PREFIX@),
            ),
            Stage::SubscribingCommands => self.connect(Link::Publish),
            Stage::Announcing(Link::Publish) => self.beat(Link::Publish),
            Stage::StartingHeartbeat(Link::Publish) => self.connect(Link::Claim),
            Stage::Announcing(Link::Claim) => (
                self.at(Stage::Claiming),
                ActionView::HoldClaim {
                    session: CLAIM_SESSION@,
                    path: CLAIM_PATH@,
                    ttl_secs: CLAIM_TTL_SECS,
                },
            ),
            Stage::Claiming => (LifecycleView { claimed: true, ..self }).beat(Link::Subscribe),
            Stage::StartingHeartbeat(_) => self.read(),
            Stage::Dispatching => self.read(),
            Stage::Reporting => self.read(),
            Stage::Releasing => self.exit(Ok(())),
            Stage::Reading => (self, ActionView::Wait),
            Stage::Ended => (self, ActionView::Wait),
        }
    }

    /// What is done when a stage failed. The claim is optional: a daemon that
    /// cannot have it goes on without.
    pub open spec fn fail(self, cause: Seq<char>, now_ms: u64) -> (LifecycleView, ActionView) {
        match self.stage {
            Stage::Connecting(Link::Claim) => self.beat(Link::Subscribe),
            Stage::Announcing(Link::Claim) => self.beat(Link::Subscribe),
            Stage::Claiming => self.beat(Link::Subscribe),
            Stage::Reading => self.wind_up(),
            Stage::Dispatching => self.report("dispatch: "@ + cause, now_ms),
            Stage::Reporting => self.read(),
            Stage::Releasing => self.exit(Ok(())),
            Stage::StartingHeartbeat(_) => self.proceed(),
            Stage::Ended => (self, ActionView::Wait),
            Stage::Connecting(_) => self.exit(Err(cause)),
            Stage::Announcing(_) => self.exit(Err(cause)),
            Stage::SubscribingAudio => self.exit(Err(cause)),
            Stage::SubscribingCommands => self.exit(Err(cause)),
        }
    }

    /// What is done next. What is not waited for is passed over.
    pub open spec fn next(self, event: Event, now_ms: u64) -> (LifecycleView, ActionView) {
        match event {
            Event::Answer(Ok(_)) => self.proceed(),
            Event::Answer(Err(cause)) => self.fail(cause@, now_ms),
            Event::Unreachable => if self.stage == Stage::Connecting(Link::Subscribe) {
                self.exit(Ok(()))
            } else {
                (self, ActionView::Wait)
            },
            Event::Incoming(line) => if self.stage is Reading {
                self.hear(line, now_ms)
            } else {
                (self, ActionView::Wait)
            },
            Event::Closed => if self.stage is Reading {
                self.wind_up()
            } else {
                (self, ActionView::Wait)
            },
        }
    }
}

/// How a daemon starts.
pub open spec fn started(pid: u32) -> (LifecycleView, ActionView) {
    (LifecycleView { pid, stage: Stage::Ended, claimed: false }).connect(Link::Subscribe)
}

impl Lifecycle {
    /// A daemon that starts, and the first thing that it does.
    pub fn start(pid: u32) -> (result: (Lifecycle, Action))
        ensures
            (result.0@, result.1@) == started(pid),
            result.0@.wf(),
    {
        (
            Lifecycle { pid, stage: Stage::Connecting(Link::Subscribe), claimed: false },
            Action::Connect(Link::Subscribe),
        )
    }

    /// What the daemon waits for.
    pub fn stage(&self) -> (stage: Stage)
        ensures
            stage == self@.stage,
    {
        self.stage
    }

    /// Whether the daemon holds its claim.
    pub fn holds_claim(&self) -> (yes: bool)
        ensures
            yes == self@.claimed,
    {
        self.claimed
    }

    fn connect(&mut self, link: Link) -> (action: Action)
        ensures
            (final(self)@, action@) == old(self)@.connect(link),
    {
        self.stage = Stage::Connecting(link);
        Action::Connect(link)
    }

    fn announce(&mut self, link: Link) -> (action: Action)
        ensures
            (final(self)@, action@) == old(self)@.announce(link),
    {
        self.stage = Stage::Announcing(link);
        Action::Announce {
            link,
            session: session_name(link, self.pid),
            pid: self.pid,
            purpose: purpose_text(link),
        }
    }

    fn beat(&mut self, link: Link) -> (action: Action)
        ensures
            (final(self)@, action@) == old(self)@.beat(link),
    {
        self.stage = Stage::StartingHeartbeat(link);
        Action::StartHeartbeat(link)
    }

    fn read(&mut self) -> (action: Action)
        ensures
            (final(self)@, action@) == old(self)@.read(),
    {
        self.stage = Stage::Reading;
        Action::ReadLine
    }

    fn report(&mut self, message: String, now_ms: u64) -> (action: Action)
        ensures
            (final(self)@, action@) == old(self)@.report(message@, now_ms),
    {
        self.stage = Stage::Reporting;
        Action::Report(ErrorEvent::new("bus", message, now_ms))
    }

    fn exit(&mut self, outcome: Result<(), String>) -> (action: Action)
        ensures
            (final(self)@, action@) == old(self)@.exit(
                match outcome {
                    Ok(_) => Ok(()),
                    Err(cause) => Err(cause@),
                },
            ),
    {
        self.stage = Stage::Ended;
        self.claimed = false;
        Action::Exit(outcome)
    }

    fn wind_up(&mut self) -> (action: Action)
        ensures
            (final(self)@, action@) == old(self)@.wind_up(),
    {
        if self.claimed {
            self.stage = Stage::Releasing;
            Action::ReleaseClaim
        } else {
            self.exit(Ok(()))
        }
    }

    fn hear(&mut self, line: Line, now_ms: u64) -> (action: Action)
        ensures
            (final(self)@, action@) == old(self)@.hear(line, now_ms),
    {
        match line {
            Line::Undecodable => self.read(),
            Line::Reply => self.read(),
            Line::Event { topic, data } => match decode_request(topic.as_str(), data) {
                Ok(request) => {
                    self.stage = Stage::Dispatching;
                    Action::Dispatch { request, now_ms }
                },
                Err(DecodeError::UnknownTopic(_)) => self.read(),
                Err(e) => self.report(
                    String::from_str("decode: ").concat(e.message().as_str()),
                    now_ms,
                ),
            },
        }
    }

    fn proceed(&mut self) -> (action: Action)
        ensures
            (final(self)@, action@) == old(self)@.proceed(),
    {
        match self.stage {
            Stage::Connecting(link) => self.announce(link),
            Stage::Announcing(Link::Subscribe) => {
                self.stage = Stage::SubscribingAudio;
                Action::Subscribe(AUDIO_TOPIC_PREFIX)
            },
            Stage::SubscribingAudio => {
                self.stage = Stage::SubscribingCommands;
                Action::Subscribe(STT_COMMAND_PREFIX)
            },
            Stage::SubscribingCommands => self.connect(Link::Publish),
            Stage::Announcing(Link::Publish) => self.beat(Link::Publish),
            Stage::StartingHeartbeat(Link::Publish) => self.connect(Link::Claim),
            Stage::Announcing(Link::Claim) => {
                self.stage = Stage::Claiming;
                Action::HoldClaim {
                    session: CLAIM_SESSION,
                    path: CLAIM_PATH,
                    ttl_secs: CLAIM_TTL_SECS,
                }
            },
            Stage::Claiming => {
                self.claimed = true;
                self.beat(Link::Subscribe)
            },
            Stage::StartingHeartbeat(_) => self.read(),
            Stage::Dispatching => self.read(),
            Stage::Reporting => self.read(),
            Stage::Releasing => self.exit(Ok(())),
            Stage::Reading => Action::Wait,
            Stage::Ended => Action::Wait,
        }
    }

    fn fail(&mut self, cause: String, now_ms: u64) -> (action: Action)
        ensures
            (final(self)@, action@) == old(self)@.fail(cause@, now_ms),
    {
        match self.stage {
            Stage::Connecting(Link::Claim) => self.beat(Link::Subscribe),
            Stage::Announcing(Link::Claim) => self.beat(Link::Subscribe),
            Stage::Claiming => self.beat(Link::Subscribe),
            Stage::Reading => self.wind_up(),
            Stage::Dispatching => self.report(
                String::from_str("dispatch: ").concat(cause.as_str()),
                now_ms,
            ),
            Stage::Reporting => self.read(),
            Stage::Releasing => self.exit(Ok(())),
            Stage::StartingHeartbeat(_) => self.proceed(),
            Stage::Ended => Action::Wait,
            Stage::Connecting(_) => self.exit(Err(cause)),
            Stage::Announcing(_) => self.exit(Err(cause)),
            Stage::SubscribingAudio => self.exit(Err(cause)),
            Stage::SubscribingCommands => self.exit(Err(cause)),
        }
    }

    /// Hears of what the daemon waits for at `now_ms`, and says what it does next.
    /// What is not waited for is passed over.
    pub fn step(&mut self, event: Event, now_ms: u64) -> (action: Action)
        ensures
            (final(self)@, action@) == old(self)@.next(event, now_ms),
            old(self)@.wf() ==> final(self)@.wf(),
    {
        match event {
            Event::Answer(Ok(_)) => self.proceed(),
            Event::Answer(Err(cause)) => self.fail(cause, now_ms),
            Event::Unreachable => match self.stage {
                Stage::Connecting(Link::Subscribe) => self.exit(Ok(())),
                _ => Action::Wait,
            },
            Event::Incoming(line) => match self.stage {
                Stage::Reading => self.hear(line, now_ms),
                _ => Action::Wait,
            },
            Event::Closed => match self.stage {
                Stage::Reading => self.wind_up(),
                _ => Action::Wait,
            },
        }
    }
}

/// Something that the daemon hears, and when.
pub struct Moment {
    pub event: Event,
    pub now_ms: u64,
}

/// Where the daemon stands after what it has heard since its start, and what it
/// then does.
pub open spec fn after(pid: u32, moments: Seq<Moment>) -> (LifecycleView, ActionView)
    decreases moments.len(),
{
    if moments.len() == 0 {
        started(pid)
    } else {
        after(pid, moments.drop_last()).0.next(moments.last().event, moments.last().now_ms)
    }
}

/// The daemon has been through a stage, and it went well.
pub open spec fn succeeded(pid: u32, moments: Seq<Moment>, stage: Stage) -> bool {
    exists|k: int|
        0 <= k < moments.len() && (#[trigger] after(pid, moments.take(k))).0.stage == stage && (
        moments[k].event matches Event::Answer(Ok(_)))
}

/// The daemon has given its claim back.
pub open spec fn released(pid: u32, moments: Seq<Moment>) -> bool {
    exists|k: int|
        0 <= k <= moments.len() && (#[trigger] after(pid, moments.take(k))).1 is ReleaseClaim
}

/// A stage that comes after the announcement of a connection.
spec fn past_announcement(v: LifecycleView, link: Link) -> bool {
    let before_subscribing = v.stage == Stage::Connecting(Link::Subscribe) || v.stage
        == Stage::Announcing(Link::Subscribe);
    let before_publishing = before_subscribing || v.stage is SubscribingAudio
        || v.stage is SubscribingCommands || v.stage == Stage::Connecting(Link::Publish) || v.stage
        == Stage::Announcing(Link::Publish);
    match link {
        Link::Subscribe => !(v.stage is Ended) && !before_subscribing,
        Link::Publish => !(v.stage is Ended) && !before_publishing,
        Link::Claim => v.stage is Claiming,
    }
}

/// What has gone well before has still gone well later.
proof fn lemma_succeeded_stays(pid: u32, moments: Seq<Moment>, stage: Stage)
    requires
        moments.len() > 0,
    ensures
        succeeded(pid, moments.drop_last(), stage) ==> succeeded(pid, moments, stage),
        after(pid, moments.drop_last()).0.stage == stage && (moments.last().event
            matches Event::Answer(Ok(_))) ==> succeeded(pid, moments, stage),
{
    let before = moments.drop_last();
    if succeeded(pid, before, stage) {
        let k = choose|k: int|
            0 <= k < before.len() && (#[trigger] after(pid, before.take(k))).0.stage == stage && (
            before[k].event matches Event::Answer(Ok(_)));
        assert(before.take(k) =~= moments.take(k));
        assert(after(pid, moments.take(k)).0.stage == stage);
    }
    assert(moments.take(moments.len() - 1) =~= before);
}

/// A daemon past the announcement of a connection has announced it.
proof fn lemma_announced(pid: u32, moments: Seq<Moment>, link: Link)
    ensures
        past_announcement(after(pid, moments).0, link) ==> succeeded(
            pid,
            moments,
            Stage::Announcing(link),
        ),
    decreases moments.len(),
{
    if moments.len() > 0 {
        lemma_announced(pid, moments.drop_last(), link);
        lemma_succeeded_stays(pid, moments, Stage::Announcing(link));
    }
}

/// On each connection the announcement comes first, and it must have gone well:
/// before a subscription, before anything is handled or published, and before the
/// claim is taken.
pub proof fn announcement_comes_first(pid: u32, moments: Seq<Moment>)
    ensures
        after(pid, moments).1 is Subscribe ==> succeeded(
            pid,
            moments,
            Stage::Announcing(Link::Subscribe),
        ),
        after(pid, moments).1 is Dispatch || after(pid, moments).1 is Report ==> succeeded(
            pid,
            moments,
            Stage::Announcing(Link::Publish),
        ),
        after(pid, moments).1 is HoldClaim ==> succeeded(
            pid,
            moments,
            Stage::Announcing(Link::Claim),
        ),
{
    lemma_announced(pid, moments, Link::Subscribe);
    lemma_announced(pid, moments, Link::Publish);
    lemma_announced(pid, moments, Link::Claim);
}

/// The daemon holds its claim only where it may, all along.
pub proof fn lifecycle_invariant_is_kept(pid: u32, moments: Seq<Moment>)
    ensures
        after(pid, moments).0.wf(),
    decreases moments.len(),
{
    if moments.len() > 0 {
        lifecycle_invariant_is_kept(pid, moments.drop_last());
    }
}

/// A claim that was taken is held until it is given back.
proof fn lemma_claim_is_kept(pid: u32, moments: Seq<Moment>)
    ensures
        succeeded(pid, moments, Stage::Claiming) ==> after(pid, moments).0.claimed || released(
            pid,
            moments,
        ),
        after(pid, moments).0.stage is Releasing ==> released(pid, moments),
    decreases moments.len(),
{
    if moments.len() > 0 {
        let before = moments.drop_last();
        let last = moments.len() - 1;
        lemma_claim_is_kept(pid, before);
        lifecycle_invariant_is_kept(pid, before);
        assert(moments.take(moments.len() as int) =~= moments);
        if released(pid, before) {
            let k = choose|k: int|
                0 <= k <= before.len() && (#[trigger] after(
                    pid,
                    before.take(k),
                )).1 is ReleaseClaim;
            assert(before.take(k) =~= moments.take(k));
            assert(after(pid, moments.take(k)).1 is ReleaseClaim);
        }
        if succeeded(pid, moments, Stage::Claiming) {
            let k = choose|k: int|
                0 <= k < moments.len() && (#[trigger] after(pid, moments.take(k))).0.stage
                    == Stage::Claiming && (moments[k].event matches Event::Answer(Ok(_)));
            if k < last {
                assert(moments.take(k) =~= before.take(k));
                assert(after(pid, before.take(k)).0.stage == Stage::Claiming);
                assert(before[k] == moments[k]);
                assert(succeeded(pid, before, Stage::Claiming));
            } else {
                assert(moments.take(k) =~= before);
            }
        }
        if after(pid, moments).1 is ReleaseClaim {
            assert(after(pid, moments.take(moments.len() as int)).1 is ReleaseClaim);
        }
    }
}

/// A daemon that took its claim gives it back before it ends.
pub proof fn claim_is_given_back(pid: u32, moments: Seq<Moment>)
    requires
        succeeded(pid, moments, Stage::Claiming),
        after(pid, moments).1 is Exit,
    ensures
        released(pid, moments),
{
    lemma_claim_is_kept(pid, moments);
    lifecycle_invariant_is_kept(pid, moments);
}

/// Whatever becomes of the claim, the daemon starts: no failure on the way to the
/// claim makes it end, and the heartbeat of the subscriptions follows.
pub proof fn claim_is_optional(v: LifecycleView, cause: String, now_ms: u64)
    requires
        v.stage == Stage::Connecting(Link::Claim) || v.stage == Stage::Announcing(Link::Claim)
            || v.stage is Claiming,
    ensures
        v.next(Event::Answer(Err(cause)), now_ms) == v.beat(Link::Subscribe),
{
}

/// The daemon never answers its own events: one that comes back to it is passed
/// over, and the next line is read. So its error events cannot call forth more
/// error events.
pub proof fn own_events_are_not_answered(
    v: LifecycleView,
    emit: crate::processor::EmitView,
    topic: String,
    data: Payload,
    now_ms: u64,
)
    requires
        v.stage is Reading,
        topic@ == crate::daemon::emit_topic(emit),
    ensures
        v.next(Event::Incoming(Line::Event { topic, data }), now_ms) == v.read(),
{
    crate::daemon::own_events_are_not_handled(emit);
}

/// What may be heard of a stage.
pub open spec fn answers(stage: Stage, event: Event) -> bool {
    match stage {
        Stage::Ended => false,
        Stage::Reading => match event {
            Event::Incoming(_) => true,
            Event::Closed => true,
            Event::Answer(result) => result is Err,
            Event::Unreachable => false,
        },
        Stage::Connecting(Link::Subscribe) => event is Answer || event is Unreachable,
        _ => event is Answer,
    }
}

/// Whatever may be heard of a stage is acted on: the daemon never stands still
/// before it ends.
pub proof fn every_answer_is_acted_on(v: LifecycleView, event: Event, now_ms: u64)
    ensures
        v.next(event, now_ms).1 is Wait <==> !answers(v.stage, event),
        v.next(event, now_ms).1 is Wait ==> v.next(event, now_ms).0 == v,
{
}

/// The part of the course in which lines are read and requests handled.
pub open spec fn in_service(v: LifecycleView) -> bool {
    v.stage is Reading || v.stage is Dispatching || v.stage is Reporting
}

/// The heartbeat of a connection has been started.
pub open spec fn beating(pid: u32, moments: Seq<Moment>, link: Link) -> bool {
    exists|k: int|
        0 <= k <= moments.len() && (#[trigger] after(pid, moments.take(k))).1
            == ActionView::StartHeartbeat(link)
}

/// A daemon in service has heartbeats on the connections for subscriptions and
/// for publications.
pub proof fn service_has_heartbeats(pid: u32, moments: Seq<Moment>)
    ensures
        in_service(after(pid, moments).0) ==> beating(pid, moments, Link::Subscribe) && beating(
            pid,
            moments,
            Link::Publish,
        ),
{
    lemma_beating(pid, moments, Link::Subscribe);
    lemma_beating(pid, moments, Link::Publish);
}

/// A daemon past the start of a heartbeat has started it.
proof fn lemma_beating(pid: u32, moments: Seq<Moment>, link: Link)
    requires
        link != Link::Claim,
    ensures
        match after(pid, moments).0.stage {
            Stage::StartingHeartbeat(started) => started == link || started == Link::Subscribe,
            Stage::Connecting(started) => started == Link::Claim && link == Link::Publish,
            Stage::Announcing(started) => started == Link::Claim && link == Link::Publish,
            Stage::Claiming => link == Link::Publish,
            Stage::Reading => true,
            Stage::Dispatching => true,
            Stage::Reporting => true,
            _ => false,
        } ==> beating(pid, moments, link),
        after(pid, moments).0.stage != Stage::StartingHeartbeat(Link::Claim),
    decreases moments.len(),
{
    if moments.len() > 0 {
        let before = moments.drop_last();
        lemma_beating(pid, before, link);
        if beating(pid, before, link) {
            let k = choose|k: int|
                0 <= k <= before.len() && (#[trigger] after(pid, before.take(k))).1
                    == ActionView::StartHeartbeat(link);
            assert(before.take(k) =~= moments.take(k));
            assert(after(pid, moments.take(k)).1 == ActionView::StartHeartbeat(link));
        }
    }
    assert(moments.take(moments.len() as int) =~= moments);
    if after(pid, moments).1 == ActionView::StartHeartbeat(link) {
        assert(after(pid, moments.take(moments.len() as int)).1 == ActionView::StartHeartbeat(
            link,
        ));
    }
}

/// The daemon stays in service until the bus closes or reading fails. No line, no
/// request and no failure to publish makes it end.
pub proof fn service_lasts_until_the_bus_closes(v: LifecycleView, event: Event, now_ms: u64)
    requires
        in_service(v),
        !in_service(v.next(event, now_ms).0),
    ensures
        v.stage is Reading,
        event is Closed || (event matches Event::Answer(Err(_))),
        v.next(event, now_ms) == v.wind_up(),
{
}

/// Only a failure on the way to being announced and subscribed makes the daemon
/// end with a failure. That there is no bus is none.
pub proof fn only_the_start_can_fail(v: LifecycleView, event: Event, now_ms: u64, cause: Seq<char>)
    requires
        v.next(event, now_ms).1 == ActionView::Exit(Err(cause)),
    ensures
        event matches Event::Answer(Err(reason)) && reason@ == cause,
        match v.stage {
            Stage::Connecting(link) => link != Link::Claim,
            Stage::Announcing(link) => link != Link::Claim,
            Stage::SubscribingAudio => true,
            Stage::SubscribingCommands => true,
            _ => false,
        },
{
}

/// An event that decodes is dispatched: that very request, at that time, whatever kind
/// of request it is. The daemon stays what it was but for what it waits for.
pub proof fn decoded_event_is_dispatched(
    v: LifecycleView,
    topic: String,
    data: Payload,
    now_ms: u64,
    request: RequestView,
)
    requires
        v.stage is Reading,
        crate::bus::decoded(topic@, data) == Ok::<_, DecodeErrorView>(request),
    ensures
        v.next(Event::Incoming(Line::Event { topic, data }), now_ms).1 == (ActionView::Dispatch {
            request,
            now_ms,
        }),
        v.next(Event::Incoming(Line::Event { topic, data }), now_ms).0 == (LifecycleView {
            pid: v.pid,
            stage: Stage::Dispatching,
            claimed: v.claimed,
        }),
{
}

/// What a daemon that reads does with the events of speech and with the command: each
/// is dispatched with the fields of its payload.
pub proof fn speech_and_commands_are_dispatched(
    v: LifecycleView,
    topic: String,
    data: Payload,
    now_ms: u64,
)
    requires
        v.stage is Reading,
    ensures
        topic@ == "wm.audio.speech.start"@ && data.as_start is Ok ==> v.next(
            Event::Incoming(Line::Event { topic, data }),
            now_ms,
        ).1 == (ActionView::Dispatch {
            request: RequestView::SpeechStart { ts: data.as_start->Ok_0.ts },
            now_ms,
        }),
        topic@ == "wm.audio.speech.chunk"@ && data.as_chunk is Ok ==> v.next(
            Event::Incoming(Line::Event { topic, data }),
            now_ms,
        ).1 == (ActionView::Dispatch {
            request: RequestView::SpeechChunk {
                seq: data.as_chunk->Ok_0.seq,
                pcm_b64: data.as_chunk->Ok_0.pcm_b64@,
                ts: data.as_chunk->Ok_0.ts,
            },
            now_ms,
        }),
        topic@ == "wm.audio.speech.end"@ && data.as_end is Ok ==> v.next(
            Event::Incoming(Line::Event { topic, data }),
            now_ms,
        ).1 == (ActionView::Dispatch {
            request: RequestView::SpeechEnd {
                duration_ms: data.as_end->Ok_0.duration_ms,
                ts: data.as_end->Ok_0.ts,
                turn_id: data.as_end->Ok_0.turn_id.deep_view(),
            },
            now_ms,
        }),
        topic@ == "wm.stt.reload_model"@ && data.as_reload is Ok ==> v.next(
            Event::Incoming(Line::Event { topic, data }),
            now_ms,
        ).1 == (ActionView::Dispatch {
            request: RequestView::ReloadModel { model: data.as_reload->Ok_0.model@ },
            now_ms,
        }),
{
    crate::bus::each_topic_has_its_payload(topic@, data);
}

/// A line is passed over only when it is no line of the bus, a reply, or an event on a
/// topic that is not handled.
pub proof fn only_strange_lines_are_passed_over(v: LifecycleView, line: Line, now_ms: u64)
    requires
        v.stage is Reading,
        v.next(Event::Incoming(line), now_ms).1 is ReadLine,
    ensures
        v.next(Event::Incoming(line), now_ms).0 == v,
        line matches Line::Event { topic, .. } ==> topic@ != "wm.audio.speech.start"@ && topic@
            != "wm.audio.speech.chunk"@ && topic@ != "wm.audio.speech.end"@ && topic@
            != "wm.stt.reload_model"@,
{
    if let Line::Event { topic, data } = line {
        crate::bus::each_topic_has_its_payload(topic@, data);
    }
}

/// A payload that does not have the shape of its topic is reported, with the reason and
/// the time, and a request that could not be handled is reported in the same way.
pub proof fn failures_in_service_are_reported(
    v: LifecycleView,
    topic: String,
    data: Payload,
    cause: String,
    now_ms: u64,
    reason: Seq<char>,
)
    ensures
        v.stage is Reading && crate::bus::decoded(topic@, data) == Err::<RequestView, _>(
            DecodeErrorView::Json(reason),
        ) ==> {
            &&& v.next(Event::Incoming(Line::Event { topic, data }), now_ms).1
                matches ActionView::Report(e)
            &&& e.kind == "bus"@
            &&& e.ts == now_ms
            &&& crate::text::frames(
                e.message,
                "decode: "@,
                "payload decode failed: "@,
                reason,
            )
        },
        v.stage is Dispatching ==> {
            &&& v.next(Event::Answer(Err(cause)), now_ms).1 matches ActionView::Report(e)
            &&& e.kind == "bus"@
            &&& e.ts == now_ms
            &&& crate::text::frames(e.message, "dispatch: "@, cause@, Seq::empty())
        },
{
    crate::text::lemma_frames("decode: "@, "payload decode failed: "@, reason);
    crate::text::lemma_frames("dispatch: "@, cause@, Seq::empty());
    assert("dispatch: "@ + cause@ + Seq::<char>::empty() =~= "dispatch: "@ + cause@);
    assert("decode: "@ + ("payload decode failed: "@ + reason) =~= "decode: "@
        + "payload decode failed: "@ + reason);
}

/// After a request was handled, or an error event was published or could not be, the
/// next line is read.
pub proof fn next_line_is_read_after_a_request(v: LifecycleView, cause: String, now_ms: u64)
    ensures
        v.stage is Dispatching || v.stage is Reporting ==> {
            let step = v.next(Event::Answer(Ok(())), now_ms);
            &&& step.1 is ReadLine
            &&& step.0 == (LifecycleView {
                pid: v.pid,
                stage: Stage::Reading,
                claimed: v.claimed,
            })
        },
        v.stage is Reporting ==> v.next(Event::Answer(Err(cause)), now_ms) == v.next(
            Event::Answer(Ok(())),
            now_ms,
        ),
{
}

/// A daemon for which everything goes well does the same things in the same order,
/// whatever its process: it connects, announces itself and subscribes to speech and
/// commands, connects, announces and beats for publications, takes its claim, beats for
/// the subscriptions, and reads.
pub proof fn start_goes_in_order(pid: u32, moments: Seq<Moment>)
    requires
        forall|k: int|
            0 <= k < moments.len() ==> ((#[trigger] moments[k]).event matches Event::Answer(Ok(_))),
    ensures
        moments.len() == 0 ==> after(pid, moments).1 == ActionView::Connect(Link::Subscribe),
        moments.len() == 1 ==> (after(pid, moments).1 matches ActionView::Announce {
            link,
            session,
            pid: process,
            purpose,
        } && link == Link::Subscribe && process == pid && purpose == "wm-stt control subscribe"@
            && crate::text::frames(
            session,
            "wm-stt-"@,
            crate::text::decimal(pid as nat),
            "-sub"@,
        )),
        moments.len() == 2 ==> after(pid, moments).1 == ActionView::Subscribe("wm.audio.speech."@),
        moments.len() == 3 ==> after(pid, moments).1 == ActionView::Subscribe("wm.stt."@),
        moments.len() == 4 ==> after(pid, moments).1 == ActionView::Connect(Link::Publish),
        moments.len() == 5 ==> (after(pid, moments).1 matches ActionView::Announce {
            link,
            session,
            pid: process,
            purpose,
        } && link == Link::Publish && process == pid && purpose == "wm-stt publish path"@
            && crate::text::frames(
            session,
            "wm-stt-"@,
            crate::text::decimal(pid as nat),
            Seq::empty(),
        )),
        moments.len() == 6 ==> after(pid, moments).1 == ActionView::StartHeartbeat(Link::Publish),
        moments.len() == 7 ==> after(pid, moments).1 == ActionView::Connect(Link::Claim),
        moments.len() == 8 ==> after(pid, moments).1 == (ActionView::Announce {
            link: Link::Claim,
            session: "wm-stt-claim"@,
            pid,
            purpose: "wm-stt claim holder"@,
        }),
        moments.len() == 9 ==> after(pid, moments).1 == (ActionView::HoldClaim {
            session: "wm-stt-claim"@,
            path: "agorabus://daemon/wm-stt"@,
            ttl_secs: 30,
        }),
        moments.len() == 10 ==> after(pid, moments).1 == ActionView::StartHeartbeat(
            Link::Subscribe,
        ) && after(pid, moments).0.claimed,
        moments.len() == 11 ==> after(pid, moments).1 is ReadLine && after(pid, moments).0 == (
        LifecycleView { pid, stage: Stage::Reading, claimed: true }),
{
    lemma_start(pid, moments);
    let n = crate::text::decimal(pid as nat);
    crate::text::lemma_frames("wm-stt-"@, n, "-sub"@);
    crate::text::lemma_frames("wm-stt-"@, n, Seq::empty());
    assert("wm-stt-"@ + n + Seq::<char>::empty() =~= "wm-stt-"@ + n);
}

/// What a daemon waits for while everything goes well.
spec fn start_stage(steps: nat) -> Stage {
    if steps == 0 {
        Stage::Connecting(Link::Subscribe)
    } else if steps == 1 {
        Stage::Announcing(Link::Subscribe)
    } else if steps == 2 {
        Stage::SubscribingAudio
    } else if steps == 3 {
        Stage::SubscribingCommands
    } else if steps == 4 {
        Stage::Connecting(Link::Publish)
    } else if steps == 5 {
        Stage::Announcing(Link::Publish)
    } else if steps == 6 {
        Stage::StartingHeartbeat(Link::Publish)
    } else if steps == 7 {
        Stage::Connecting(Link::Claim)
    } else if steps == 8 {
        Stage::Announcing(Link::Claim)
    } else if steps == 9 {
        Stage::Claiming
    } else if steps == 10 {
        Stage::StartingHeartbeat(Link::Subscribe)
    } else {
        Stage::Reading
    }
}

proof fn lemma_start(pid: u32, moments: Seq<Moment>)
    requires
        forall|k: int|
            0 <= k < moments.len() ==> ((#[trigger] moments[k]).event matches Event::Answer(Ok(_))),
    ensures
        moments.len() <= 11 ==> after(pid, moments).0 == (LifecycleView {
            pid,
            stage: start_stage(moments.len()),
            claimed: moments.len() >= 10,
        }),
        0 < moments.len() ==> after(pid, moments) == after(pid, moments.drop_last()).0.proceed(),
        0 < moments.len() <= 12 ==> after(pid, moments.drop_last()).0 == (LifecycleView {
            pid,
            stage: start_stage((moments.len() - 1) as nat),
            claimed: moments.len() >= 11,
        }),
    decreases moments.len(),
{
    if moments.len() > 0 {
        let before = moments.drop_last();
        assert forall|k: int| 0 <= k < before.len() implies ((#[trigger] before[k]).event matches
            Event::Answer(Ok(_))) by {
            assert(before[k] == moments[k]);
        }
        lemma_start(pid, before);
        assert(moments[moments.len() - 1].event is Answer);
    }
}

/// A claim that cannot be had is not missed: the next things that the daemon does are to
/// beat for the subscriptions and to read, without a claim.
pub proof fn service_without_a_claim(v: LifecycleView, cause: String, now_ms: u64)
    requires
        v.stage == Stage::Connecting(Link::Claim) || v.stage == Stage::Announcing(Link::Claim)
            || v.stage is Claiming,
    ensures
        ({
            let first = v.next(Event::Answer(Err(cause)), now_ms);
            let second = first.0.next(Event::Answer(Ok(())), now_ms);
            &&& first.1 == ActionView::StartHeartbeat(Link::Subscribe)
            &&& first.0.claimed == v.claimed
            &&& second.1 is ReadLine
            &&& second.0 == (LifecycleView {
                pid: v.pid,
                stage: Stage::Reading,
                claimed: v.claimed,
            })
        }),
{
}

/// How a daemon ends: with the claim given back first where it holds one, and in good
/// order, whether the bus closed or reading failed, and whatever becomes of the claim.
pub proof fn daemon_ends_in_good_order(
    v: LifecycleView,
    cause: String,
    answer: Result<(), String>,
    now_ms: u64,
)
    ensures
        v.stage is Reading ==> v.next(Event::Closed, now_ms) == v.next(
            Event::Answer(Err(cause)),
            now_ms,
        ),
        v.stage is Reading && v.claimed ==> v.next(Event::Closed, now_ms).1 is ReleaseClaim
            && v.next(Event::Closed, now_ms).0.stage is Releasing,
        v.stage is Reading && !v.claimed ==> v.next(Event::Closed, now_ms).1 == ActionView::Exit(
            Ok(()),
        ) && v.next(Event::Closed, now_ms).0.stage is Ended,
        v.stage is Releasing ==> v.next(Event::Answer(answer), now_ms).1 == ActionView::Exit(Ok(()))
            && !v.next(Event::Answer(answer), now_ms).0.claimed,
        v.stage == Stage::Connecting(Link::Subscribe) ==> v.next(Event::Unreachable, now_ms).1
            == ActionView::Exit(Ok(())),
{
}

/// A failure to connect, to be announced or to subscribe ends the daemon with that
/// failure, on the connections that it cannot do without.
pub proof fn failed_start_ends_the_daemon(v: LifecycleView, cause: String, now_ms: u64)
    requires
        match v.stage {
            Stage::Connecting(link) => link != Link::Claim,
            Stage::Announcing(link) => link != Link::Claim,
            Stage::SubscribingAudio => true,
            Stage::SubscribingCommands => true,
            _ => false,
        },
    ensures
        v.next(Event::Answer(Err(cause)), now_ms).1 == ActionView::Exit(Err(cause@)),
        v.next(Event::Answer(Err(cause)), now_ms).0.stage is Ended,
{
}

/// Heartbeats come twice within the time after which the bus drops a silent peer.
pub proof fn heartbeats_come_in_time(timeout_secs: u64, period: u64)
    requires
        call_ensures(heartbeat_period_secs, (timeout_secs,), period),
    ensures
        2 * period <= timeout_secs < 2 * period + 2,
{
}

} // verus!
