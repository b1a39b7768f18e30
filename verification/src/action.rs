//! What a client can ask for, and what the relay can answer with.

use vstd::prelude::*;
use crate::model::texts;

verus! {

/// One client intent. It carries no connection state: its fields are all
/// there is to it.
#[derive(Debug, Clone, PartialEq, Eq)]
pub enum Action {
    /// Press the key with this symbolic name.
    KeyCode { value: String },
    /// Type this character.
    Unicode { value: char },
    /// Move the pointer by these offsets from where it is.
    MouseMove { x: i32, y: i32 },
    /// Turn the wheel: horizontally by `x`, vertically by `y`.
    Scroll { x: i32, y: i32 },
    /// A two-axis drag gesture, of the same shape as a scroll.
    Drag { x: i32, y: i32 },
    LeftClick,
    MiddleClick,
    RightClick,
    /// A command for the window manager, passed on as it is.
    Compositor { value: String },
    /// Start the application known under this name.
    Open { value: String },
    IncreaseVolume,
    DecreaseVolume,
    ToggleMuteVolume,
    /// Ask which applications are installed.
    GetCapabilities,
}

/// The mathematical model of an [`Action`].
pub ghost enum ActionView {
    KeyCode { value: Seq<char> },
    Unicode { value: char },
    MouseMove { x: i32, y: i32 },
    Scroll { x: i32, y: i32 },
    Drag { x: i32, y: i32 },
    LeftClick,
    MiddleClick,
    RightClick,
    Compositor { value: Seq<char> },
    Open { value: Seq<char> },
    IncreaseVolume,
    DecreaseVolume,
    ToggleMuteVolume,
    GetCapabilities,
}

impl View for Action {
    type V = ActionView;

    open spec fn view(&self) -> ActionView {
        match *self {
            Action::KeyCode { value } => ActionView::KeyCode { value: value@ },
            Action::Unicode { value } => ActionView::Unicode { value },
            Action::MouseMove { x, y } => ActionView::MouseMove { x, y },
            Action::Scroll { x, y } => ActionView::Scroll { x, y },
            Action::Drag { x, y } => ActionView::Drag { x, y },
            Action::LeftClick => ActionView::LeftClick,
            Action::MiddleClick => ActionView::MiddleClick,
            Action::RightClick => ActionView::RightClick,
            Action::Compositor { value } => ActionView::Compositor { value: value@ },
            Action::Open { value } => ActionView::Open { value: value@ },
            Action::IncreaseVolume => ActionView::IncreaseVolume,
            Action::DecreaseVolume => ActionView::DecreaseVolume,
            Action::ToggleMuteVolume => ActionView::ToggleMuteVolume,
            Action::GetCapabilities => ActionView::GetCapabilities,
        }
    }
}

/// A structured answer to the client.
#[derive(Debug, Clone, PartialEq, Eq)]
pub enum Response {
    /// The names of the installed applications, in the order in which they
    /// were enumerated; a name that came twice stays twice.
    Capabilities { apps: Vec<String> },
}

/// The mathematical model of a [`Response`].
pub ghost enum ResponseView {
    Capabilities { apps: Seq<Seq<char>> },
}

impl View for Response {
    type V = ResponseView;

    open spec fn view(&self) -> ResponseView {
        match *self {
            Response::Capabilities { apps } => ResponseView::Capabilities { apps: texts(apps@) },
        }
    }
}

} // verus!
