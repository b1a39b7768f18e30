//! From an action to the operations that carry it out, and from what an
//! operation reports to the outcome of the action.
//!
//! The operations themselves belong to the effectors: an input simulator, a
//! window-manager bridge, an application launcher, a volume controller and an
//! application lister. This module names each operation as a value, so that
//! which operations an action asks for, and in what order, is a plain function.

use vstd::prelude::*;
use crate::action::{Action, ActionView, Response, ResponseView};
use crate::json::same_text;
use crate::model::{texts, views};

verus! {

/// A key that the input simulator knows by name.
#[derive(Debug, Clone, Copy, PartialEq, Eq)]
pub enum KeySymbol {
    Backspace,
    Return,
    Escape,
}

/// A wheel axis.
#[derive(Debug, Clone, Copy, PartialEq, Eq)]
pub enum Axis {
    Horizontal,
    Vertical,
}

/// A pointer button.
#[derive(Debug, Clone, Copy, PartialEq, Eq)]
pub enum Button {
    Left,
    Middle,
    Right,
}

/// An application that the launcher knows how to start.
#[derive(Debug, Clone, Copy, PartialEq, Eq)]
pub enum LaunchTarget {
    Firefox,
}

/// One operation of an effector.
#[derive(Debug, Clone, PartialEq, Eq)]
pub enum Effect {
    /// Input simulator: press and release a named key.
    PressKey(KeySymbol),
    /// Input simulator: type a character.
    TypeChar(char),
    /// Input simulator: move the pointer by an offset from where it is.
    MoveRelative { dx: i32, dy: i32 },
    /// Input simulator: turn the wheel along one axis.
    Scroll { axis: Axis, amount: i32 },
    /// Input simulator: press and release a pointer button.
    Click(Button),
    /// Window-manager bridge: pass a command on.
    Invoke(String),
    /// Application launcher: start an application.
    Launch(LaunchTarget),
    /// Volume controller: one step up.
    IncreaseVolume,
    /// Volume controller: one step down.
    DecreaseVolume,
    /// Volume controller: mute or unmute.
    ToggleMute,
    /// Application lister: enumerate the installed applications.
    ListApplications,
}

/// The mathematical model of an [`Effect`].
pub ghost enum EffectView {
    PressKey(KeySymbol),
    TypeChar(char),
    MoveRelative { dx: i32, dy: i32 },
    Scroll { axis: Axis, amount: i32 },
    Click(Button),
    Invoke(Seq<char>),
    Launch(LaunchTarget),
    IncreaseVolume,
    DecreaseVolume,
    ToggleMute,
    ListApplications,
}

impl View for Effect {
    type V = EffectView;

    open spec fn view(&self) -> EffectView {
        match *self {
            Effect::PressKey(key) => EffectView::PressKey(key),
            Effect::TypeChar(c) => EffectView::TypeChar(c),
            Effect::MoveRelative { dx, dy } => EffectView::MoveRelative { dx, dy },
            Effect::Scroll { axis, amount } => EffectView::Scroll { axis, amount },
            Effect::Click(button) => EffectView::Click(button),
            Effect::Invoke(command) => EffectView::Invoke(command@),
            Effect::Launch(target) => EffectView::Launch(target),
            Effect::IncreaseVolume => EffectView::IncreaseVolume,
            Effect::DecreaseVolume => EffectView::DecreaseVolume,
            Effect::ToggleMute => EffectView::ToggleMute,
            Effect::ListApplications => EffectView::ListApplications,
        }
    }
}

/// Why an action was not carried out.
#[derive(Debug, Clone, PartialEq, Eq)]
pub enum DispatchError {
    /// No key is known under this name.
    UnsupportedKey(String),
    /// No application is known under this name.
    UnrecognizedTarget(String),
    /// An effector reported a failure, with this message.
    Backend(String),
}

/// The mathematical model of a [`DispatchError`].
pub ghost enum DispatchErrorView {
    UnsupportedKey(Seq<char>),
    UnrecognizedTarget(Seq<char>),
    Backend(Seq<char>),
}

impl View for DispatchError {
    type V = DispatchErrorView;

    open spec fn view(&self) -> DispatchErrorView {
        match *self {
            DispatchError::UnsupportedKey(name) => DispatchErrorView::UnsupportedKey(name@),
            DispatchError::UnrecognizedTarget(name) => DispatchErrorView::UnrecognizedTarget(name@),
            DispatchError::Backend(message) => DispatchErrorView::Backend(message@),
        }
    }
}

/// The key that a name stands for, in the closed table of named keys.
pub open spec fn key_symbol(name: Seq<char>) -> Option<KeySymbol> {
    if name == "Backspace"@ {
        Some(KeySymbol::Backspace)
    } else if name == "Return"@ {
        Some(KeySymbol::Return)
    } else if name == "Escape"@ {
        Some(KeySymbol::Escape)
    } else {
        None
    }
}

/// The application that a name stands for, in the closed table of launch
/// targets.
pub open spec fn launch_target(name: Seq<char>) -> Option<LaunchTarget> {
    if name == "firefox"@ {
        Some(LaunchTarget::Firefox)
    } else {
        None
    }
}

/// The operations that an action asks for, in the order in which they are to
/// be performed, or the reason for which it asks for none.
///
/// A wheel movement is two operations, the horizontal one first. A drag is
/// carried out as a wheel movement.
pub open spec fn planned(action: ActionView) -> Result<Seq<EffectView>, DispatchErrorView> {
    match action {
        ActionView::KeyCode { value } => match key_symbol(value) {
            Some(key) => Ok(seq![EffectView::PressKey(key)]),
            None => Err(DispatchErrorView::UnsupportedKey(value)),
        },
        ActionView::Unicode { value } => Ok(seq![EffectView::TypeChar(value)]),
        ActionView::MouseMove { x, y } => Ok(seq![EffectView::MoveRelative { dx: x, dy: y }]),
        ActionView::Scroll { x, y } => Ok(
            seq![
                EffectView::Scroll { axis: Axis::Horizontal, amount: x },
                EffectView::Scroll { axis: Axis::Vertical, amount: y },
            ],
        ),
        ActionView::Drag { x, y } => Ok(
            seq![
                EffectView::Scroll { axis: Axis::Horizontal, amount: x },
                EffectView::Scroll { axis: Axis::Vertical, amount: y },
            ],
        ),
        ActionView::LeftClick => Ok(seq![EffectView::Click(Button::Left)]),
        ActionView::MiddleClick => Ok(seq![EffectView::Click(Button::Middle)]),
        ActionView::RightClick => Ok(seq![EffectView::Click(Button::Right)]),
        ActionView::Compositor { value } => Ok(seq![EffectView::Invoke(value)]),
        ActionView::Open { value } => match launch_target(value) {
            Some(target) => Ok(seq![EffectView::Launch(target)]),
            None => Err(DispatchErrorView::UnrecognizedTarget(value)),
        },
        ActionView::IncreaseVolume => Ok(seq![EffectView::IncreaseVolume]),
        ActionView::DecreaseVolume => Ok(seq![EffectView::DecreaseVolume]),
        ActionView::ToggleMuteVolume => Ok(seq![EffectView::ToggleMute]),
        ActionView::GetCapabilities => Ok(seq![EffectView::ListApplications]),
    }
}

/// Looks a key name up in the table of named keys.
pub fn resolve_key(name: &str) -> (r: Option<KeySymbol>)
    ensures
        r == key_symbol(name@),
{
    if same_text(name, "Backspace") {
        Some(KeySymbol::Backspace)
    } else if same_text(name, "Return") {
        Some(KeySymbol::Return)
    } else if same_text(name, "Escape") {
        Some(KeySymbol::Escape)
    } else {
        None
    }
}

/// Looks an application name up in the table of launch targets.
pub fn resolve_target(name: &str) -> (r: Option<LaunchTarget>)
    ensures
        r == launch_target(name@),
{
    if same_text(name, "firefox") {
        Some(LaunchTarget::Firefox)
    } else {
        None
    }
}

fn one(effect: Effect) -> (r: Vec<Effect>)
    ensures
        views(r@) == seq![effect@],
{
    let mut effects: Vec<Effect> = Vec::new();
    effects.push(effect);
    assert(views(effects@) =~= seq![effect@]);
    effects
}

fn wheel(x: i32, y: i32) -> (r: Vec<Effect>)
    ensures
        views(r@) == seq![
            EffectView::Scroll { axis: Axis::Horizontal, amount: x },
            EffectView::Scroll { axis: Axis::Vertical, amount: y },
        ],
{
    let mut effects: Vec<Effect> = Vec::new();
    effects.push(Effect::Scroll { axis: Axis::Horizontal, amount: x });
    effects.push(Effect::Scroll { axis: Axis::Vertical, amount: y });
    assert(views(effects@) =~= seq![
        EffectView::Scroll { axis: Axis::Horizontal, amount: x },
        EffectView::Scroll { axis: Axis::Vertical, amount: y },
    ]);
    effects
}

/// Maps an action to the operations that carry it out.
///
/// The result is [`planned`] of the action. A key name outside the table is
/// refused as an unsupported key and an application name outside the table as
/// an unrecognized target, each with the name, and with no operation asked for.
pub fn plan(action: &Action) -> (r: Result<Vec<Effect>, DispatchError>)
    ensures
        match r {
            Ok(effects) => planned(action@) == Ok::<Seq<EffectView>, DispatchErrorView>(
                views(effects@),
            ),
            Err(error) => planned(action@) == Err::<Seq<EffectView>, DispatchErrorView>(error@),
        },
{
    match action {
        Action::KeyCode { value } => match resolve_key(value.as_str()) {
            Some(key) => Ok(one(Effect::PressKey(key))),
            None => Err(DispatchError::UnsupportedKey(value.clone())),
        },
        Action::Unicode { value } => Ok(one(Effect::TypeChar(*value))),
        Action::MouseMove { x, y } => Ok(one(Effect::MoveRelative { dx: *x, dy: *y })),
        Action::Scroll { x, y } => Ok(wheel(*x, *y)),
        Action::Drag { x, y } => Ok(wheel(*x, *y)),
        Action::LeftClick => Ok(one(Effect::Click(Button::Left))),
        Action::MiddleClick => Ok(one(Effect::Click(Button::Middle))),
        Action::RightClick => Ok(one(Effect::Click(Button::Right))),
        Action::Compositor { value } => Ok(one(Effect::Invoke(value.clone()))),
        Action::Open { value } => match resolve_target(value.as_str()) {
            Some(target) => Ok(one(Effect::Launch(target))),
            None => Err(DispatchError::UnrecognizedTarget(value.clone())),
        },
        Action::IncreaseVolume => Ok(one(Effect::IncreaseVolume)),
        Action::DecreaseVolume => Ok(one(Effect::DecreaseVolume)),
        Action::ToggleMuteVolume => Ok(one(Effect::ToggleMute)),
        Action::GetCapabilities => Ok(one(Effect::ListApplications)),
    }
}

/// Every action that asks for operations asks for at least one and at most
/// two.
pub proof fn lemma_plan_is_short(action: ActionView)
    ensures
        planned(action) matches Ok(effects) ==> 1 <= effects.len() <= 2,
{
}

/// An installed application, as the lister reports it.
#[derive(Debug, Clone, PartialEq, Eq)]
pub struct Application {
    /// The name to show.
    pub name: String,
    /// Where the lister found it; of no concern to the relay.
    pub locator: String,
}

/// The mathematical model of an [`Application`].
pub ghost struct ApplicationView {
    pub name: Seq<char>,
    pub locator: Seq<char>,
}

impl View for Application {
    type V = ApplicationView;

    open spec fn view(&self) -> ApplicationView {
        ApplicationView { name: self.name@, locator: self.locator@ }
    }
}

/// What an effector reports after an operation.
#[derive(Debug, Clone, PartialEq, Eq)]
pub enum EffectResult {
    /// The operation was performed.
    Done,
    /// The lister's enumeration, in its order.
    Applications(Vec<Application>),
    /// The operation failed, with this message.
    Failed(String),
}

/// The mathematical model of an [`EffectResult`].
pub ghost enum EffectResultView {
    Done,
    Applications(Seq<ApplicationView>),
    Failed(Seq<char>),
}

impl View for EffectResult {
    type V = EffectResultView;

    open spec fn view(&self) -> EffectResultView {
        match *self {
            EffectResult::Done => EffectResultView::Done,
            EffectResult::Applications(apps) => EffectResultView::Applications(views(apps@)),
            EffectResult::Failed(message) => EffectResultView::Failed(message@),
        }
    }
}

/// The outcome of an action.
#[derive(Debug, Clone, PartialEq, Eq)]
pub enum Outcome {
    /// Carried out, with nothing to tell.
    Ack,
    /// Carried out, with data for the client.
    Response(Response),
    /// Not carried out.
    Failure(DispatchError),
}

/// The mathematical model of an [`Outcome`].
pub ghost enum OutcomeView {
    Ack,
    Response(ResponseView),
    Failure(DispatchErrorView),
}

impl View for Outcome {
    type V = OutcomeView;

    open spec fn view(&self) -> OutcomeView {
        match *self {
            Outcome::Ack => OutcomeView::Ack,
            Outcome::Response(response) => OutcomeView::Response(response@),
            Outcome::Failure(error) => OutcomeView::Failure(error@),
        }
    }
}

/// The names of the applications, one for one and in their order.
pub open spec fn names_of(apps: Seq<ApplicationView>) -> Seq<Seq<char>> {
    Seq::new(apps.len(), |i: int| apps[i].name)
}

/// The outcome that an effector's report amounts to: an enumeration becomes
/// the response that lists its names, a failure becomes a failure with its
/// message, and anything else is an acknowledgement.
pub open spec fn settled(result: EffectResultView) -> OutcomeView {
    match result {
        EffectResultView::Done => OutcomeView::Ack,
        EffectResultView::Applications(apps) => OutcomeView::Response(
            ResponseView::Capabilities { apps: names_of(apps) },
        ),
        EffectResultView::Failed(message) => OutcomeView::Failure(
            DispatchErrorView::Backend(message),
        ),
    }
}

/// Takes the names out of an enumeration: as many as there are applications,
/// in the same order, with nothing removed.
pub fn application_names(apps: &Vec<Application>) -> (r: Vec<String>)
    ensures
        texts(r@) == names_of(views(apps@)),
{
    let mut names: Vec<String> = Vec::new();
    let mut i: usize = 0;
    while i < apps.len()
        invariant
            i <= apps.len(),
            names@.len() == i,
            forall|j: int| 0 <= j < i ==> names@[j]@ == apps@[j].name@,
        decreases apps.len() - i,
    {
        names.push(apps[i].name.clone());
        i += 1;
    }
    assert(texts(names@) =~= names_of(views(apps@)));
    names
}

/// Turns an effector's report into the outcome of the action.
pub fn settle(result: &EffectResult) -> (r: Outcome)
    ensures
        r@ == settled(result@),
{
    match result {
        EffectResult::Done => Outcome::Ack,
        EffectResult::Applications(apps) => Outcome::Response(
            Response::Capabilities { apps: application_names(apps) },
        ),
        EffectResult::Failed(message) => Outcome::Failure(DispatchError::Backend(message.clone())),
    }
}

/// What the client is told of an action that was not carried out.
pub open spec fn dispatch_error_text(error: DispatchErrorView) -> Seq<char> {
    match error {
        DispatchErrorView::UnsupportedKey(name) => "Unrecognized key code: "@ + name,
        DispatchErrorView::UnrecognizedTarget(name) => "Unrecognized target: "@ + name,
        DispatchErrorView::Backend(message) => "Backend failure: "@ + message,
    }
}

impl DispatchError {
    /// The error in words, as the client is told it.
    pub fn message(&self) -> (r: String)
        ensures
            r@ == dispatch_error_text(self@),
    {
        match self {
            DispatchError::UnsupportedKey(name) => String::from_str(
                "Unrecognized key code: ",
            ).concat(name.as_str()),
            DispatchError::UnrecognizedTarget(name) => String::from_str(
                "Unrecognized target: ",
            ).concat(name.as_str()),
            DispatchError::Backend(message) => String::from_str("Backend failure: ").concat(
                message.as_str(),
            ),
        }
    }
}

} // verus!
