//! One connection's life, as a machine that is told what happened and says
//! what to do next.
//!
//! The machine never touches the transport or an effector. Whoever drives it
//! reports each event (the backend handle acquired or not, a frame read, an
//! operation's result, the connection lost) and carries out the commands it
//! gets back, in their order. The last command of a step is the one whose
//! result is the next event; a step that returns no command has closed the
//! session.

use vstd::prelude::*;
use crate::action::{Action, ActionView, ResponseView};
use crate::codec::{
    Frame, FrameView, codec_error_text, decode_error_text, decode_frame, decoded, decoded_frame,
    encode_response, response_text,
};
use crate::dispatch::{
    ApplicationView, Axis, DispatchErrorView, Effect, EffectResult, EffectResultView, EffectView,
    Outcome, OutcomeView, dispatch_error_text, key_symbol, launch_target, lemma_plan_is_short,
    names_of, plan, planned, settle, settled,
};
use crate::model::views;

verus! {

/// Where a session stands in its life.
#[derive(Debug, Clone, Copy, PartialEq, Eq)]
pub enum Phase {
    /// The connection is there, the backend handle not yet.
    Connected,
    /// The backend handle is held and messages are processed.
    Active,
    /// Over; nothing more is processed.
    Closed,
}

/// The state of one connection.
#[derive(Debug, PartialEq, Eq)]
pub enum Session {
    /// Waiting to hear whether the backend handle could be acquired.
    Connected,
    /// Active, waiting for the next frame.
    Idle,
    /// Active, waiting for the result of an operation; `pending` holds the
    /// operations of the same action that are still to come, in their order.
    Busy { pending: Vec<Effect> },
    /// Closed.
    Closed,
}

/// The mathematical model of a [`Session`].
pub ghost enum SessionView {
    Connected,
    Idle,
    Busy { pending: Seq<EffectView> },
    Closed,
}

impl View for Session {
    type V = SessionView;

    open spec fn view(&self) -> SessionView {
        match *self {
            Session::Connected => SessionView::Connected,
            Session::Idle => SessionView::Idle,
            Session::Busy { pending } => SessionView::Busy { pending: views(pending@) },
            Session::Closed => SessionView::Closed,
        }
    }
}

/// What the driver reports to the machine.
#[derive(Debug, Clone, PartialEq, Eq)]
pub enum Event {
    /// The backend handle was acquired.
    HandleAcquired,
    /// The backend handle could not be acquired.
    HandleUnavailable,
    /// A frame was read.
    Frame(Frame),
    /// The operation last asked for was attempted, with this result.
    Performed(EffectResult),
    /// The connection is gone: closed by the peer, or a read or a write
    /// failed.
    Disconnected,
}

/// The mathematical model of an [`Event`].
pub ghost enum EventView {
    HandleAcquired,
    HandleUnavailable,
    Frame(FrameView),
    Performed(EffectResultView),
    Disconnected,
}

impl View for Event {
    type V = EventView;

    open spec fn view(&self) -> EventView {
        match *self {
            Event::HandleAcquired => EventView::HandleAcquired,
            Event::HandleUnavailable => EventView::HandleUnavailable,
            Event::Frame(frame) => EventView::Frame(frame@),
            Event::Performed(result) => EventView::Performed(result@),
            Event::Disconnected => EventView::Disconnected,
        }
    }
}

/// What the machine asks of the driver.
#[derive(Debug, Clone, PartialEq, Eq)]
pub enum Command {
    /// Read the next frame and report it.
    Receive,
    /// Perform this operation and report its result.
    Perform(Effect),
    /// Write this text to the client.
    Send(String),
}

/// The mathematical model of a [`Command`].
pub ghost enum CommandView {
    Receive,
    Perform(EffectView),
    Send(Seq<char>),
}

impl View for Command {
    type V = CommandView;

    open spec fn view(&self) -> CommandView {
        match *self {
            Command::Receive => CommandView::Receive,
            Command::Perform(effect) => CommandView::Perform(effect@),
            Command::Send(text) => CommandView::Send(text@),
        }
    }
}

/// A state with the commands to carry out on entering it.
pub type Turn = (SessionView, Seq<CommandView>);

/// The phase that a state belongs to.
pub open spec fn phase_of(session: SessionView) -> Phase {
    match session {
        SessionView::Connected => Phase::Connected,
        SessionView::Idle => Phase::Active,
        SessionView::Busy { .. } => Phase::Active,
        SessionView::Closed => Phase::Closed,
    }
}

/// The plain text that confirms a message once its action was carried out.
pub open spec fn acknowledgement() -> Seq<char> {
    "I understood your message!"@
}

/// The session closes, with nothing more to do.
pub open spec fn ended() -> Turn {
    (SessionView::Closed, Seq::empty())
}

/// A message that came to nothing: the client is told why, and the session
/// goes on to the next frame.
pub open spec fn refused(reason: Seq<char>) -> Turn {
    (SessionView::Idle, seq![CommandView::Send(reason), CommandView::Receive])
}

/// A decoded action is taken up: its first operation is asked for and the
/// others wait; an action that asks for none is refused with the reason.
pub open spec fn begun(action: ActionView) -> Turn {
    match planned(action) {
        Err(error) => refused(dispatch_error_text(error)),
        Ok(effects) => (
            SessionView::Busy { pending: effects.drop_first() },
            seq![CommandView::Perform(effects[0])],
        ),
    }
}

/// A frame is taken up: decoded and begun, or refused with the reason.
pub open spec fn received(frame: FrameView) -> Turn {
    match decoded_frame(frame) {
        Err(error) => refused(codec_error_text(error)),
        Ok(action) => begun(action),
    }
}

/// What an outcome gives the client besides the acknowledgement: the encoded
/// response where there is one.
pub open spec fn data_sends(outcome: OutcomeView) -> Seq<CommandView> {
    match outcome {
        OutcomeView::Response(response) => seq![CommandView::Send(response_text(response))],
        _ => Seq::empty(),
    }
}

/// An operation's result is taken up. A failure ends the action: the client
/// is told and the operations still pending are dropped. Otherwise any data
/// goes to the client; then the next pending operation is asked for, or, when
/// none is left, the action is acknowledged and the next frame awaited.
pub open spec fn reported(pending: Seq<EffectView>, result: EffectResultView) -> Turn {
    match settled(result) {
        OutcomeView::Failure(error) => refused(dispatch_error_text(error)),
        outcome => if pending.len() > 0 {
            (
                SessionView::Busy { pending: pending.drop_first() },
                data_sends(outcome).push(CommandView::Perform(pending[0])),
            )
        } else {
            (
                SessionView::Idle,
                data_sends(outcome).push(CommandView::Send(acknowledgement())).push(
                    CommandView::Receive,
                ),
            )
        },
    }
}

/// The machine's one rule: the state after an event, and the commands that
/// the event calls for.
///
/// A closed session stays closed. Losing the connection closes any session.
/// Acquiring the handle makes a connected session active. An active session
/// takes a frame when it waits for one and a result when it waits for one. Any
/// other event in any other state closes the session: failing to acquire the
/// handle, and whatever the driver reports out of turn.
pub open spec fn stepped(session: SessionView, event: EventView) -> Turn {
    match (session, event) {
        (SessionView::Closed, _) => ended(),
        (_, EventView::Disconnected) => ended(),
        (SessionView::Connected, EventView::HandleAcquired) => (
            SessionView::Idle,
            seq![CommandView::Receive],
        ),
        (SessionView::Idle, EventView::Frame(frame)) => received(frame),
        (SessionView::Busy { pending }, EventView::Performed(result)) => reported(pending, result),
        _ => ended(),
    }
}

fn end() -> (r: (Session, Vec<Command>))
    ensures
        (r.0@, views(r.1@)) == ended(),
{
    let commands: Vec<Command> = Vec::new();
    assert(views(commands@) =~= Seq::empty());
    (Session::Closed, commands)
}

fn refuse(reason: String) -> (r: (Session, Vec<Command>))
    ensures
        (r.0@, views(r.1@)) == refused(reason@),
{
    let mut commands: Vec<Command> = Vec::new();
    commands.push(Command::Send(reason));
    commands.push(Command::Receive);
    assert(views(commands@) =~= seq![CommandView::Send(reason@), CommandView::Receive]);
    (Session::Idle, commands)
}

fn begin(action: &Action) -> (r: (Session, Vec<Command>))
    ensures
        (r.0@, views(r.1@)) == begun(action@),
{
    match plan(action) {
        Err(error) => refuse(error.message()),
        Ok(effects) => {
            let mut effects = effects;
            let ghost all = views(effects@);
            proof {
                lemma_plan_is_short(action@);
            }
            let first = effects.remove(0);
            let mut commands: Vec<Command> = Vec::new();
            commands.push(Command::Perform(first));
            proof {
                assert(views(effects@) =~= all.drop_first());
                assert(views(commands@) =~= seq![CommandView::Perform(all[0])]);
            }
            (Session::Busy { pending: effects }, commands)
        },
    }
}

fn receive(frame: &Frame) -> (r: (Session, Vec<Command>))
    ensures
        (r.0@, views(r.1@)) == received(frame@),
{
    match decode_frame(frame) {
        Err(error) => refuse(error.message()),
        Ok(action) => begin(&action),
    }
}

fn report(pending: Vec<Effect>, result: &EffectResult) -> (r: (Session, Vec<Command>))
    ensures
        (r.0@, views(r.1@)) == reported(views(pending@), result@),
{
    let outcome = settle(result);
    let mut commands: Vec<Command> = Vec::new();
    match outcome {
        Outcome::Failure(error) => {
            return refuse(error.message());
        },
        Outcome::Response(response) => {
            commands.push(Command::Send(encode_response(&response)));
        },
        Outcome::Ack => {},
    }
    assert(views(commands@) =~= data_sends(outcome@));
    let mut pending = pending;
    let ghost waiting = views(pending@);
    if pending.len() > 0 {
        let next = pending.remove(0);
        commands.push(Command::Perform(next));
        proof {
            assert(views(pending@) =~= waiting.drop_first());
            assert(views(commands@) =~= data_sends(outcome@).push(
                CommandView::Perform(waiting[0]),
            ));
        }
        (Session::Busy { pending }, commands)
    } else {
        commands.push(Command::Send(String::from_str("I understood your message!")));
        commands.push(Command::Receive);
        proof {
            assert(views(commands@) =~= data_sends(outcome@).push(
                CommandView::Send(acknowledgement()),
            ).push(CommandView::Receive));
        }
        (Session::Idle, commands)
    }
}

impl Session {
    /// A session for a connection that was just accepted.
    pub fn new() -> (r: Session)
        ensures
            r@ == SessionView::Connected,
    {
        Session::Connected
    }

    /// The phase that the session is in.
    pub fn phase(&self) -> (r: Phase)
        ensures
            r == phase_of(self@),
    {
        match self {
            Session::Connected => Phase::Connected,
            Session::Idle => Phase::Active,
            Session::Busy { .. } => Phase::Active,
            Session::Closed => Phase::Closed,
        }
    }

    /// Takes one event: returns the state after it and the commands it calls
    /// for, exactly as [`stepped`] gives them.
    pub fn step(self, event: Event) -> (r: (Session, Vec<Command>))
        ensures
            (r.0@, views(r.1@)) == stepped(self@, event@),
    {
        match (self, event) {
            (Session::Closed, _) => end(),
            (_, Event::Disconnected) => end(),
            (Session::Connected, Event::HandleAcquired) => {
                let mut commands: Vec<Command> = Vec::new();
                commands.push(Command::Receive);
                assert(views(commands@) =~= seq![CommandView::Receive]);
                (Session::Idle, commands)
            },
            (Session::Idle, Event::Frame(frame)) => receive(&frame),
            (Session::Busy { pending }, Event::Performed(result)) => report(pending, &result),
            _ => end(),
        }
    }
}

/// Whether the event is the one that the session waits for.
pub open spec fn awaited(session: SessionView, event: EventView) -> bool {
    match (session, event) {
        (SessionView::Connected, EventView::HandleAcquired) => true,
        (SessionView::Connected, EventView::HandleUnavailable) => true,
        (SessionView::Idle, EventView::Frame(_)) => true,
        (SessionView::Busy { .. }, EventView::Performed(_)) => true,
        _ => false,
    }
}

/// No message closes a session. Whatever frame an active session reads and
/// whatever result an operation has (a payload that does not decode, a frame
/// without text, an unsupported action, a failing effector), the session is
/// active afterwards, and the commands it gives end with the one whose result
/// it waits for next.
pub proof fn lemma_messages_keep_session_active(session: SessionView, event: EventView)
    requires
        phase_of(session) == Phase::Active,
        awaited(session, event),
    ensures
        phase_of(stepped(session, event).0) == Phase::Active,
        stepped(session, event).1.len() > 0,
        stepped(session, event).0 is Idle ==> stepped(session, event).1.last()
            == CommandView::Receive,
        stepped(session, event).0 is Busy ==> stepped(session, event).1.last() is Perform,
{
}

/// A session that is not active processes nothing: from a connected or a
/// closed session no event draws an operation or a text for the client, and
/// only acquiring the handle makes a connected session active.
pub proof fn lemma_inactive_session_processes_nothing(session: SessionView, event: EventView)
    requires
        phase_of(session) != Phase::Active,
    ensures
        forall|i: int|
            0 <= i < stepped(session, event).1.len() ==> stepped(session, event).1[i]
                == CommandView::Receive,
        phase_of(stepped(session, event).0) == Phase::Active <==> (session is Connected
            && event is HandleAcquired),
        event is HandleUnavailable ==> stepped(session, event) == ended(),
{
}

/// A payload that does not decode is answered, not dropped: the client gets
/// the reason as a plain text, and the session waits for the next frame.
pub proof fn lemma_malformed_payload_is_answered(payload: Seq<char>)
    requires
        decoded(payload) is Err,
    ensures
        stepped(SessionView::Idle, EventView::Frame(FrameView::Text(payload))) == refused(
            decode_error_text(decoded(payload)->Err_0),
        ),
{
}

/// Pressing a named key. A name outside the table is refused as an
/// unsupported key, with no operation asked for. A name in the table asks for
/// exactly one operation, the press of the key it stands for, and once that is
/// done the action is acknowledged.
pub proof fn lemma_named_key_press(name: Seq<char>)
    ensures
        key_symbol(name) is None ==> {
            &&& planned(ActionView::KeyCode { value: name }) == Err::<
                Seq<EffectView>,
                DispatchErrorView,
            >(DispatchErrorView::UnsupportedKey(name))
            &&& begun(ActionView::KeyCode { value: name }) == refused(
                "Unrecognized key code: "@ + name,
            )
        },
        key_symbol(name) matches Some(key) ==> {
            &&& begun(ActionView::KeyCode { value: name }) == (
                SessionView::Busy { pending: Seq::empty() },
                seq![CommandView::Perform(EffectView::PressKey(key))],
            )
            &&& settled(EffectResultView::Done) == OutcomeView::Ack
            &&& reported(Seq::empty(), EffectResultView::Done) == (
                SessionView::Idle,
                seq![CommandView::Send(acknowledgement()), CommandView::Receive],
            )
        },
{
    match key_symbol(name) {
        Some(key) => {
            assert(seq![EffectView::PressKey(key)].drop_first() =~= Seq::empty());
        },
        None => {},
    }
    assert(Seq::<CommandView>::empty().push(CommandView::Send(acknowledgement())).push(
        CommandView::Receive,
    ) =~= seq![CommandView::Send(acknowledgement()), CommandView::Receive]);
}

/// Turning the wheel. The horizontal movement is asked for first and the
/// vertical one once the first is done, each with its own amount; after the
/// second the action is acknowledged.
pub proof fn lemma_wheel_moves_in_order(x: i32, y: i32)
    ensures
        begun(ActionView::Scroll { x, y }) == (
            SessionView::Busy {
                pending: seq![EffectView::Scroll { axis: Axis::Vertical, amount: y }],
            },
            seq![CommandView::Perform(EffectView::Scroll { axis: Axis::Horizontal, amount: x })],
        ),
        reported(
            seq![EffectView::Scroll { axis: Axis::Vertical, amount: y }],
            EffectResultView::Done,
        ) == (
            SessionView::Busy { pending: Seq::empty() },
            seq![CommandView::Perform(EffectView::Scroll { axis: Axis::Vertical, amount: y })],
        ),
        reported(Seq::empty(), EffectResultView::Done) == (
            SessionView::Idle,
            seq![CommandView::Send(acknowledgement()), CommandView::Receive],
        ),
{
    let second = EffectView::Scroll { axis: Axis::Vertical, amount: y };
    let first = EffectView::Scroll { axis: Axis::Horizontal, amount: x };
    assert(seq![first, second].drop_first() =~= seq![second]);
    assert(seq![second].drop_first() =~= Seq::empty());
    assert(Seq::<CommandView>::empty().push(CommandView::Perform(second)) =~= seq![
        CommandView::Perform(second),
    ]);
    assert(Seq::<CommandView>::empty().push(CommandView::Send(acknowledgement())).push(
        CommandView::Receive,
    ) =~= seq![CommandView::Send(acknowledgement()), CommandView::Receive]);
}

/// Opening an application. A name outside the table is refused as an
/// unrecognized target, with no operation asked for. A name in the table asks
/// for exactly one operation, the launch of the application it stands for.
pub proof fn lemma_open_target(name: Seq<char>)
    ensures
        launch_target(name) is None ==> {
            &&& planned(ActionView::Open { value: name }) == Err::<
                Seq<EffectView>,
                DispatchErrorView,
            >(DispatchErrorView::UnrecognizedTarget(name))
            &&& begun(ActionView::Open { value: name }) == refused(
                "Unrecognized target: "@ + name,
            )
        },
        launch_target(name) matches Some(target) ==> begun(ActionView::Open { value: name }) == (
            SessionView::Busy { pending: Seq::empty() },
            seq![CommandView::Perform(EffectView::Launch(target))],
        ),
{
    match launch_target(name) {
        Some(target) => {
            assert(seq![EffectView::Launch(target)].drop_first() =~= Seq::empty());
        },
        None => {},
    }
}

/// Asking for the capabilities. The one operation asked for is the
/// enumeration; its result goes to the client as a response that lists the name
/// of every application enumerated, one for one and in the enumeration's order,
/// and the acknowledgement follows it.
pub proof fn lemma_capabilities_are_listed(apps: Seq<ApplicationView>)
    ensures
        begun(ActionView::GetCapabilities) == (
            SessionView::Busy { pending: Seq::empty() },
            seq![CommandView::Perform(EffectView::ListApplications)],
        ),
        reported(Seq::empty(), EffectResultView::Applications(apps)) == (
            SessionView::Idle,
            seq![
                CommandView::Send(
                    response_text(ResponseView::Capabilities { apps: names_of(apps) }),
                ),
                CommandView::Send(acknowledgement()),
                CommandView::Receive,
            ],
        ),
        names_of(apps).len() == apps.len(),
        forall|i: int| 0 <= i < apps.len() ==> names_of(apps)[i] == apps[i].name,
{
    assert(seq![EffectView::ListApplications].drop_first() =~= Seq::empty());
    let listing = CommandView::Send(
        response_text(ResponseView::Capabilities { apps: names_of(apps) }),
    );
    assert(seq![listing].push(CommandView::Send(acknowledgement())).push(CommandView::Receive)
        =~= seq![listing, CommandView::Send(acknowledgement()), CommandView::Receive]);
}

} // verus!
