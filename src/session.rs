use vstd::prelude::*;
use crate::results::{SearchResult, ContextOption, ranked, MAX_RESULTS};
use crate::protocol::{Request, RequestModel, ResponseModel, LauncherEvent};

verus! {

/// Events of the main overlay surface.
#[derive(Debug, Clone, Copy, PartialEq, Eq)]
pub enum LayerEvent {
    Focused,
    Unfocused,
    Done,
}

/// Keyboard navigation actions.
#[derive(Debug, Clone, Copy, PartialEq, Eq)]
pub enum KeyboardNav {
    FocusNext,
    FocusPrevious,
    Unfocus,
    Other,
}

/// What the host's activation mechanism delivers.
#[derive(Debug, Clone, Copy, PartialEq, Eq)]
pub enum DbusActivation {
    /// The launcher's single "activate" signal, which toggles it.
    Activate,
    /// Any other activation request; the launcher ignores it.
    Other,
}

/// An action handed to the session controller.
#[derive(Debug, PartialEq, Eq)]
pub enum Message {
    InputChanged(String),
    Activate(usize),
    Context(usize),
    MenuButton(u32, u32),
    CloseContextMenu,
    /// The pointer moved to this position, rounded to whole units.
    CursorMoved(i32, i32),
    /// Escape.
    Hide,
    LauncherEvent(LauncherEvent),
    Layer(LayerEvent),
    KeyboardNav(KeyboardNav),
    /// What a desktop entry resolved to: its command line, if it has one.
    DesktopEntryResolved(Option<String>),
    /// An activation token (if the host gave one) for the command line to spawn.
    ActivationToken(Option<String>, String),
}

/// What the controller asks its surroundings to do, in order.
#[derive(Debug, PartialEq, Eq)]
pub enum Effect {
    /// Send a request to the backend.
    Send(Request),
    /// Create the main surface.
    CreateMain,
    /// Destroy the main surface.
    DestroyMain,
    /// Create the menu surface, anchored at a 1x1 rectangle at this position.
    CreateMenu(i32, i32),
    /// Destroy the menu surface.
    DestroyMenu,
    FocusInput,
    FocusNext,
    FocusPrevious,
    Unfocus,
    /// Resolve the desktop entry at this path to a command line.
    LoadDesktopEntry(String),
    /// Ask the host for an activation token for this command line.
    RequestToken(String),
    /// Spawn this command line, with the activation token if there is one.
    Spawn { command: String, token: Option<String> },
}

/// The mathematical form of an effect.
pub enum EffectModel {
    Send(RequestModel),
    CreateMain,
    DestroyMain,
    CreateMenu(i32, i32),
    DestroyMenu,
    FocusInput,
    FocusNext,
    FocusPrevious,
    Unfocus,
    LoadDesktopEntry(Seq<char>),
    RequestToken(Seq<char>),
    Spawn { command: Seq<char>, token: Option<Seq<char>> },
}

pub open spec fn opt_view(o: Option<String>) -> Option<Seq<char>> {
    match o {
        Some(s) => Some(s@),
        None => None,
    }
}

impl View for Effect {
    type V = EffectModel;

    open spec fn view(&self) -> EffectModel {
        match self {
            Effect::Send(r) => EffectModel::Send(r@),
            Effect::CreateMain => EffectModel::CreateMain,
            Effect::DestroyMain => EffectModel::DestroyMain,
            Effect::CreateMenu(x, y) => EffectModel::CreateMenu(*x, *y),
            Effect::DestroyMenu => EffectModel::DestroyMenu,
            Effect::FocusInput => EffectModel::FocusInput,
            Effect::FocusNext => EffectModel::FocusNext,
            Effect::FocusPrevious => EffectModel::FocusPrevious,
            Effect::Unfocus => EffectModel::Unfocus,
            Effect::LoadDesktopEntry(p) => EffectModel::LoadDesktopEntry(p@),
            Effect::RequestToken(e) => EffectModel::RequestToken(e@),
            Effect::Spawn { command, token } => EffectModel::Spawn { command: command@, token: opt_view(*token) },
        }
    }
}

/// The mathematical form of an action.
pub enum MessageModel {
    InputChanged(Seq<char>),
    Activate(usize),
    Context(usize),
    MenuButton(u32, u32),
    CloseContextMenu,
    CursorMoved(i32, i32),
    Hide,
    Started,
    Response(ResponseModel),
    Layer(LayerEvent),
    KeyboardNav(KeyboardNav),
    DesktopEntryResolved(Option<Seq<char>>),
    ActivationToken(Option<Seq<char>>, Seq<char>),
}

impl View for Message {
    type V = MessageModel;

    open spec fn view(&self) -> MessageModel {
        match self {
            Message::InputChanged(v) => MessageModel::InputChanged(v@),
            Message::Activate(i) => MessageModel::Activate(*i),
            Message::Context(i) => MessageModel::Context(*i),
            Message::MenuButton(i, o) => MessageModel::MenuButton(*i, *o),
            Message::CloseContextMenu => MessageModel::CloseContextMenu,
            Message::CursorMoved(x, y) => MessageModel::CursorMoved(*x, *y),
            Message::Hide => MessageModel::Hide,
            Message::LauncherEvent(LauncherEvent::Started) => MessageModel::Started,
            Message::LauncherEvent(LauncherEvent::Response(r)) => MessageModel::Response(r@),
            Message::Layer(e) => MessageModel::Layer(*e),
            Message::KeyboardNav(n) => MessageModel::KeyboardNav(*n),
            Message::DesktopEntryResolved(e) => MessageModel::DesktopEntryResolved(opt_view(*e)),
            Message::ActivationToken(t, e) => MessageModel::ActivationToken(opt_view(*t), e@),
        }
    }
}

/// The session state of the launcher, as a mathematical value.
pub struct SessionModel {
    pub input: Seq<char>,
    pub active: bool,
    pub items: Seq<SearchResult>,
    pub connected: bool,
    pub wait_for_result: bool,
    pub menu: Option<(u32, Seq<ContextOption>)>,
    pub cursor: Option<(i32, i32)>,
}

/// The main surface exists: the launcher is active and its first result has come.
pub open spec fn main_shown(s: SessionModel) -> bool {
    s.active && !s.wait_for_result
}

/// The session is hidden.
pub open spec fn is_hidden(s: SessionModel) -> bool {
    !s.active
}

/// The invariant of every reachable session state.
pub open spec fn session_wf(s: SessionModel) -> bool {
    &&& s.items.len() <= MAX_RESULTS
    &&& s.wait_for_result ==> s.active
    &&& s.menu is Some ==> main_shown(s) && s.menu.unwrap().1.len() > 0
}

pub open spec fn search_all() -> EffectModel {
    EffectModel::Send(RequestModel::Search(Seq::empty()))
}

/// A request goes out only once the backend has started.
pub open spec fn sent(s: SessionModel, r: RequestModel) -> Seq<EffectModel> {
    if s.connected {
        seq![EffectModel::Send(r)]
    } else {
        Seq::empty()
    }
}

/// Closing the menu, if one is open.
pub open spec fn menu_closed(s: SessionModel) -> (SessionModel, Seq<EffectModel>) {
    if s.menu is Some {
        (SessionModel { menu: None, ..s }, seq![EffectModel::DestroyMenu])
    } else {
        (s, Seq::empty())
    }
}

/// The composite hide: input cleared, backend reset, surfaces destroyed.
pub open spec fn hidden(s: SessionModel) -> (SessionModel, Seq<EffectModel>) {
    (
        SessionModel { input: Seq::empty(), active: false, wait_for_result: false, menu: None, ..s },
        sent(s, RequestModel::Close) + sent(s, RequestModel::Search(Seq::empty()))
            + (if s.menu is Some { seq![EffectModel::DestroyMenu] } else { Seq::empty() })
            + (if main_shown(s) { seq![EffectModel::DestroyMain] } else { Seq::empty() }),
    )
}

/// The external activation signal: open when hidden, hide otherwise.
pub open spec fn activated(s: SessionModel) -> (SessionModel, Seq<EffectModel>) {
    if s.active {
        hidden(s)
    } else {
        (
            SessionModel { input: Seq::empty(), active: true, wait_for_result: true, ..s },
            sent(s, RequestModel::Search(Seq::empty())),
        )
    }
}

/// What a backend response does to the session.
pub open spec fn responded(s: SessionModel, r: ResponseModel) -> (SessionModel, Seq<EffectModel>) {
    match r {
        ResponseModel::Close => hidden(s),
        ResponseModel::Context { id, options } => {
            if options.len() == 0 || !main_shown(s) || s.cursor is None {
                (s, Seq::empty())
            } else {
                let (x, y) = s.cursor.unwrap();
                let c = menu_closed(s);
                (
                    SessionModel { menu: Some((id, options)), ..c.0 },
                    c.1.push(EffectModel::CreateMenu(x, y)),
                )
            }
        },
        ResponseModel::DesktopEntry(p) => (s, seq![EffectModel::LoadDesktopEntry(p)]),
        ResponseModel::Update(l) => {
            if s.wait_for_result {
                (
                    SessionModel { items: ranked(l), wait_for_result: false, ..s },
                    seq![EffectModel::CreateMain],
                )
            } else {
                (SessionModel { items: ranked(l), ..s }, Seq::empty())
            }
        },
        ResponseModel::Fill(t) => (SessionModel { input: t, ..s }, seq![EffectModel::FocusInput]),
    }
}

/// The session controller's transition: the next state and the effects, in order.
pub open spec fn transition(s: SessionModel, m: MessageModel) -> (SessionModel, Seq<EffectModel>) {
    match m {
        MessageModel::InputChanged(v) => (SessionModel { input: v, ..s }, sent(s, RequestModel::Search(v))),
        MessageModel::Activate(i) => {
            if i < s.items.len() {
                (s, sent(s, RequestModel::Activate(s.items[i as int].id)))
            } else {
                (s, Seq::empty())
            }
        },
        MessageModel::Context(i) => {
            if s.menu is Some {
                menu_closed(s)
            } else if i < s.items.len() && s.cursor is Some {
                (s, sent(s, RequestModel::Context(s.items[i as int].id)))
            } else {
                (s, Seq::empty())
            }
        },
        MessageModel::MenuButton(i, o) => {
            let c = menu_closed(s);
            (c.0, c.1 + sent(s, RequestModel::ActivateContext(i, o)))
        },
        MessageModel::CloseContextMenu => menu_closed(s),
        MessageModel::CursorMoved(x, y) => (SessionModel { cursor: Some((x, y)), ..s }, Seq::empty()),
        MessageModel::Hide => {
            if s.menu is Some {
                menu_closed(s)
            } else {
                hidden(s)
            }
        },
        MessageModel::Started => (
            SessionModel { connected: true, ..s },
            seq![search_all()],
        ),
        MessageModel::Response(r) => responded(s, r),
        MessageModel::Layer(e) => match e {
            LayerEvent::Focused => (s, seq![EffectModel::FocusInput]),
            LayerEvent::Unfocused => hidden(s),
            LayerEvent::Done => (s, Seq::empty()),
        },
        MessageModel::KeyboardNav(n) => match n {
            KeyboardNav::FocusNext => (s, seq![EffectModel::FocusNext]),
            KeyboardNav::FocusPrevious => (s, seq![EffectModel::FocusPrevious]),
            KeyboardNav::Unfocus => (
                SessionModel { input: Seq::empty(), ..s },
                sent(s, RequestModel::Search(Seq::empty())).push(EffectModel::Unfocus),
            ),
            KeyboardNav::Other => (s, Seq::empty()),
        },
        MessageModel::DesktopEntryResolved(e) => match e {
            Some(command) => (s, seq![EffectModel::RequestToken(command)]),
            None => (s, Seq::empty()),
        },
        MessageModel::ActivationToken(t, command) => {
            let h = hidden(s);
            (h.0, seq![EffectModel::Spawn { command, token: t }] + h.1)
        },
    }
}

pub open spec fn effects_of(v: Seq<Effect>) -> Seq<EffectModel> {
    v.map_values(|e: Effect| e@)
}

/// Every action keeps the session invariant: at most ten results, a first result
/// awaited only while active, and a menu, never empty, only over a shown main surface.
pub proof fn lemma_transition_wf(s: SessionModel, m: MessageModel)
    requires
        session_wf(s),
    ensures
        session_wf(transition(s, m).0),
{
    match m {
        MessageModel::Response(ResponseModel::Update(l)) => {
            crate::results::lemma_ranked_len(l);
        },
        _ => {},
    }
}

} // verus!
