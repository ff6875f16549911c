use vstd::prelude::*;
use crate::results::{SearchResult, ContextOption, rank_results};
use crate::protocol::{Request, Response, LauncherEvent};
use crate::session::{
    Effect, Message, LayerEvent, KeyboardNav, DbusActivation, SessionModel, session_wf, sent,
    menu_closed, hidden, activated, transition, effects_of,
};

verus! {

/// The launcher's session controller. It owns the session state, decides which
/// requests go to the backend and which surfaces should exist, and hands those
/// decisions out as effects.
pub struct CosmicLauncher {
    pub input_value: String,
    pub active_surface: bool,
    pub launcher_items: Vec<SearchResult>,
    /// The backend has started and takes requests.
    pub connected: bool,
    pub wait_for_result: bool,
    pub menu: Option<(u32, Vec<ContextOption>)>,
    pub cursor_position: Option<(i32, i32)>,
}

impl View for CosmicLauncher {
    type V = SessionModel;

    open spec fn view(&self) -> SessionModel {
        SessionModel {
            input: self.input_value@,
            active: self.active_surface,
            items: self.launcher_items@,
            connected: self.connected,
            wait_for_result: self.wait_for_result,
            menu: match self.menu {
                Some((id, o)) => Some((id, o@)),
                None => None,
            },
            cursor: self.cursor_position,
        }
    }
}

/// The state of a launcher that has just started: hidden, empty, not yet connected.
pub open spec fn initial_session() -> SessionModel {
    SessionModel {
        input: Seq::empty(),
        active: false,
        items: Seq::empty(),
        connected: false,
        wait_for_result: false,
        menu: None,
        cursor: None,
    }
}

fn push_effect(out: &mut Vec<Effect>, e: Effect)
    ensures
        effects_of(final(out)@) == effects_of(old(out)@).push(e@),
{
    out.push(e);
    assert(effects_of(out@) =~= effects_of(old(out)@).push(e@));
}

impl CosmicLauncher {
    pub fn init() -> (r: CosmicLauncher)
        ensures
            r@ == initial_session(),
            session_wf(r@),
    {
        CosmicLauncher {
            input_value: String::new(),
            active_surface: false,
            launcher_items: Vec::new(),
            connected: false,
            wait_for_result: false,
            menu: None,
            cursor_position: None,
        }
    }

    fn send(&self, out: &mut Vec<Effect>, r: Request)
        ensures
            effects_of(final(out)@) == effects_of(old(out)@) + sent(self@, r@),
    {
        if self.connected {
            push_effect(out, Effect::Send(r));
        }
        assert(effects_of(out@) =~= effects_of(old(out)@) + sent(self@, r@));
    }

    fn close_menu(&mut self, out: &mut Vec<Effect>)
        ensures
            final(self)@ == menu_closed(old(self)@).0,
            effects_of(final(out)@) == effects_of(old(out)@) + menu_closed(old(self)@).1,
    {
        if self.menu.is_some() {
            self.menu = None;
            push_effect(out, Effect::DestroyMenu);
        }
        assert(effects_of(out@) =~= effects_of(old(out)@) + menu_closed(old(self)@).1);
    }

    /// The composite hide: clears the input, resets the backend with `Close` and
    /// an empty search, and destroys the menu and the main surface where they exist.
    pub fn hide_launcher(&mut self) -> (r: Vec<Effect>)
        ensures
            final(self)@ == hidden(old(self)@).0,
            effects_of(r@) == hidden(old(self)@).1,
    {
        let ghost s = self@;
        let mut out: Vec<Effect> = Vec::new();
        self.input_value = String::new();
        self.send(&mut out, Request::Close);
        self.send(&mut out, Request::Search(String::new()));
        if self.menu.is_some() {
            self.menu = None;
            push_effect(&mut out, Effect::DestroyMenu);
        }
        if self.active_surface && !self.wait_for_result {
            push_effect(&mut out, Effect::DestroyMain);
        }
        self.active_surface = false;
        self.wait_for_result = false;
        assert(effects_of(out@) =~= hidden(s).1);
        out
    }

    /// The host's activation signal: opens a hidden launcher, hides a shown one.
    pub fn dbus_activation(&mut self, details: DbusActivation) -> (r: Vec<Effect>)
        ensures
            details == DbusActivation::Activate ==> final(self)@ == activated(old(self)@).0
                && effects_of(r@) == activated(old(self)@).1,
            details == DbusActivation::Other ==> final(self)@ == old(self)@ && r@.len() == 0,
    {
        match details {
            DbusActivation::Activate => {
                if self.active_surface {
                    self.hide_launcher()
                } else {
                    let ghost s = self@;
                    let mut out: Vec<Effect> = Vec::new();
                    self.send(&mut out, Request::Search(String::new()));
                    self.input_value = String::new();
                    self.active_surface = true;
                    self.wait_for_result = true;
                    assert(effects_of(out@) =~= activated(s).1);
                    out
                }
            },
            DbusActivation::Other => Vec::new(),
        }
    }

    fn respond(&mut self, response: Response, out: &mut Vec<Effect>)
        requires
            old(out)@.len() == 0,
        ensures
            final(self)@ == transition(old(self)@, crate::session::MessageModel::Response(response@)).0,
            effects_of(final(out)@) == transition(old(self)@, crate::session::MessageModel::Response(response@)).1,
    {
        let ghost s = self@;
        match response {
            Response::Close => {
                *out = self.hide_launcher();
            },
            Response::Context { id, options } => {
                if options.len() > 0 && self.active_surface && !self.wait_for_result {
                    match self.cursor_position {
                        Some((x, y)) => {
                            self.close_menu(out);
                            self.menu = Some((id, options));
                            push_effect(out, Effect::CreateMenu(x, y));
                        },
                        None => {},
                    }
                }
                assert(effects_of(out@) =~= transition(s, crate::session::MessageModel::Response(response@)).1);
            },
            Response::DesktopEntry(path) => {
                push_effect(out, Effect::LoadDesktopEntry(path));
                assert(effects_of(out@) =~= transition(s, crate::session::MessageModel::Response(response@)).1);
            },
            Response::Update(list) => {
                self.launcher_items = rank_results(list);
                if self.wait_for_result {
                    self.wait_for_result = false;
                    push_effect(out, Effect::CreateMain);
                }
                assert(effects_of(out@) =~= transition(s, crate::session::MessageModel::Response(response@)).1);
            },
            Response::Fill(text) => {
                self.input_value = text;
                push_effect(out, Effect::FocusInput);
                assert(effects_of(out@) =~= transition(s, crate::session::MessageModel::Response(response@)).1);
            },
        }
    }

    /// Handles one action: updates the session and returns what is to be done,
    /// in order, exactly as `transition` describes.
    pub fn update(&mut self, message: Message) -> (r: Vec<Effect>)
        requires
            session_wf(old(self)@),
        ensures
            final(self)@ == transition(old(self)@, message@).0,
            effects_of(r@) == transition(old(self)@, message@).1,
            session_wf(final(self)@),
    {
        let ghost s = self@;
        let ghost m = message@;
        proof {
            crate::session::lemma_transition_wf(s, m);
        }
        let mut out: Vec<Effect> = Vec::new();
        match message {
            Message::InputChanged(value) => {
                let v = value.clone();
                self.input_value = value;
                self.send(&mut out, Request::Search(v));
            },
            Message::Activate(i) => {
                if i < self.launcher_items.len() {
                    let id = self.launcher_items[i].id;
                    self.send(&mut out, Request::Activate(id));
                }
            },
            Message::Context(i) => {
                if self.menu.is_some() {
                    self.close_menu(&mut out);
                } else if i < self.launcher_items.len() && self.cursor_position.is_some() {
                    let id = self.launcher_items[i].id;
                    self.send(&mut out, Request::Context(id));
                }
            },
            Message::MenuButton(i, o) => {
                let ghost s0 = self@;
                self.close_menu(&mut out);
                proof {
                    assert(sent(self@, crate::protocol::RequestModel::ActivateContext(i, o))
                        == sent(s0, crate::protocol::RequestModel::ActivateContext(i, o)));
                }
                self.send(&mut out, Request::ActivateContext(i, o));
            },
            Message::CloseContextMenu => {
                self.close_menu(&mut out);
            },
            Message::CursorMoved(x, y) => {
                self.cursor_position = Some((x, y));
            },
            Message::Hide => {
                if self.menu.is_some() {
                    self.close_menu(&mut out);
                } else {
                    out = self.hide_launcher();
                }
            },
            Message::LauncherEvent(LauncherEvent::Started) => {
                self.connected = true;
                push_effect(&mut out, Effect::Send(Request::Search(String::new())));
            },
            Message::LauncherEvent(LauncherEvent::Response(response)) => {
                self.respond(response, &mut out);
            },
            Message::Layer(e) => match e {
                LayerEvent::Focused => {
                    push_effect(&mut out, Effect::FocusInput);
                },
                LayerEvent::Unfocused => {
                    out = self.hide_launcher();
                },
                LayerEvent::Done => {},
            },
            Message::KeyboardNav(n) => match n {
                KeyboardNav::FocusNext => {
                    push_effect(&mut out, Effect::FocusNext);
                },
                KeyboardNav::FocusPrevious => {
                    push_effect(&mut out, Effect::FocusPrevious);
                },
                KeyboardNav::Unfocus => {
                    self.input_value = String::new();
                    self.send(&mut out, Request::Search(String::new()));
                    push_effect(&mut out, Effect::Unfocus);
                },
                KeyboardNav::Other => {},
            },
            Message::DesktopEntryResolved(entry) => match entry {
                Some(command) => {
                    push_effect(&mut out, Effect::RequestToken(command));
                },
                None => {},
            },
            Message::ActivationToken(token, command) => {
                push_effect(&mut out, Effect::Spawn { command, token });
                let mut rest = self.hide_launcher();
                proof {
                    assert(effects_of(out@ + rest@) =~= effects_of(out@) + effects_of(rest@));
                }
                out.append(&mut rest);
            },
        }
        assert(effects_of(out@) =~= transition(s, m).1);
        out
    }
}

} // verus!
