//! The window controller and the decisions of its event loop.
//!
//! A window is created idle. Starting it yields what the native loop needs
//! for the first paint and makes it running; a close request from the user
//! or a close command ends it. The native loop itself runs elsewhere: it
//! hands each event to `handle` and carries out the action that comes back.
//! Commands from the controller are values to be queued for the loop; they
//! are handed out only while the window is running.

use crate::color::{hex_color, parse_hex_color, Rgba};
use crate::ident::{dec_text, push_dec};
use crate::page::{
    get_initial_html, initial_html, root_update, root_update_script,
};
use crate::registry::CallbackRegistry;
use crate::tree::{referenced_ids, Element, ElementView};
use vstd::prelude::*;

verus! {

/// A command from the controller to the running event loop.
#[derive(Debug, Clone, PartialEq, Eq)]
pub enum UserEvent {
    /// Replace the content of the root by this markup.
    UpdateRoot(String),
    /// Set the title of the native window.
    SetTitle(String),
    /// End the loop.
    Close,
}

/// A command, as specifications see it.
pub ghost enum UserEventView {
    UpdateRoot(Seq<char>),
    SetTitle(Seq<char>),
    Close,
}

impl View for UserEvent {
    type V = UserEventView;

    open spec fn view(&self) -> UserEventView {
        match self {
            UserEvent::UpdateRoot(markup) => UserEventView::UpdateRoot(markup@),
            UserEvent::SetTitle(title) => UserEventView::SetTitle(title@),
            UserEvent::Close => UserEventView::Close,
        }
    }
}

/// The view of an optional command.
pub open spec fn command_view(command: Option<UserEvent>) -> Option<UserEventView> {
    match command {
        Some(c) => Some(c@),
        None => None,
    }
}

/// An event that the shown page reports: its kind, `click` or `input`, the
/// identifier of the handler it is for, and for an input the current value.
#[derive(Debug, Clone, PartialEq, Eq)]
pub struct IpcEvent {
    pub event_type: String,
    pub callback_id: Option<String>,
    pub value: Option<String>,
}

/// A reported event, as specifications see it.
pub ghost struct IpcEventView {
    pub event_type: Seq<char>,
    pub callback_id: Option<Seq<char>>,
    pub value: Option<Seq<char>>,
}

impl View for IpcEvent {
    type V = IpcEventView;

    open spec fn view(&self) -> IpcEventView {
        IpcEventView {
            event_type: self.event_type@,
            callback_id: crate::element::text_view(self.callback_id),
            value: crate::element::text_view(self.value),
        }
    }
}

/// What a reported event leads to: nothing, or one call of a handler.
pub enum Dispatch<'a, H> {
    /// The event is dropped.
    Ignore,
    /// The handler is to be called once, without arguments.
    Click(&'a H),
    /// The handler is to be called once, with the value.
    Input(&'a H, String),
}

/// What a reported event leads to, as specifications see it.
pub ghost enum Outcome<H> {
    Ignore,
    Click(H),
    Input(H, Seq<char>),
}

impl<'a, H> View for Dispatch<'a, H> {
    type V = Outcome<H>;

    open spec fn view(&self) -> Outcome<H> {
        match self {
            Dispatch::Ignore => Outcome::Ignore,
            Dispatch::Click(handler) => Outcome::Click(**handler),
            Dispatch::Input(handler, value) => Outcome::Input(**handler, value@),
        }
    }
}

/// What a reported event leads to, given the handlers that a window holds. A
/// click for an identifier that the window holds calls that handler; an
/// input for such an identifier, with a value, calls it with the value.
/// Every other event is dropped: another kind, no identifier, an identifier
/// that the window does not hold, an input without a value.
pub open spec fn dispatched<H>(callbacks: Map<Seq<char>, H>, event: IpcEventView) -> Outcome<H> {
    if event.event_type == "click"@ {
        match event.callback_id {
            Some(id) => if callbacks.contains_key(id) {
                Outcome::Click(callbacks[id])
            } else {
                Outcome::Ignore
            },
            None => Outcome::Ignore,
        }
    } else if event.event_type == "input"@ {
        match (event.callback_id, event.value) {
            (Some(id), Some(value)) => if callbacks.contains_key(id) {
                Outcome::Input(callbacks[id], value)
            } else {
                Outcome::Ignore
            },
            _ => Outcome::Ignore,
        }
    } else {
        Outcome::Ignore
    }
}

/// Where a window stands in its life.
#[derive(Debug, Clone, Copy, PartialEq, Eq, Structural)]
pub enum Lifecycle {
    /// Created; the loop has not started.
    Idle,
    /// The loop runs and takes commands.
    Running,
    /// The loop was told to end.
    Closing,
    /// The loop has ended.
    Closed,
}

/// Why an operation on a window failed.
#[derive(Debug, Clone, PartialEq, Eq)]
pub enum WindowError {
    /// The renderer failed; the message is its own.
    Render(String),
    /// The native window or the web view could not be created; the message
    /// is that of the native layer.
    Init(String),
}

/// A failure, as specifications see it.
pub ghost enum WindowErrorView {
    Render(Seq<char>),
    Init(Seq<char>),
}

impl View for WindowError {
    type V = WindowErrorView;

    open spec fn view(&self) -> WindowErrorView {
        match self {
            WindowError::Render(message) => WindowErrorView::Render(message@),
            WindowError::Init(message) => WindowErrorView::Init(message@),
        }
    }
}

impl WindowErrorView {
    /// The message that the failure carries.
    pub open spec fn message(self) -> Seq<char> {
        match self {
            WindowErrorView::Render(message) => message,
            WindowErrorView::Init(message) => message,
        }
    }
}

impl WindowError {
    /// The message that the failure carries: the renderer's own, or that of
    /// the native layer.
    pub fn message(&self) -> (r: &String)
        ensures
            r@ == self@.message(),
    {
        match self {
            WindowError::Render(message) => message,
            WindowError::Init(message) => message,
        }
    }
}

/// An event of the native loop.
#[derive(Debug, Clone, PartialEq, Eq)]
pub enum LoopEvent {
    /// The user asked to close the window.
    CloseRequested,
    /// A command from the controller arrived.
    Command(UserEvent),
    /// Any other native event.
    Other,
}

/// An event of the native loop, as specifications see it.
pub ghost enum LoopEventView {
    CloseRequested,
    Command(UserEventView),
    Other,
}

impl View for LoopEvent {
    type V = LoopEventView;

    open spec fn view(&self) -> LoopEventView {
        match self {
            LoopEvent::CloseRequested => LoopEventView::CloseRequested,
            LoopEvent::Command(command) => LoopEventView::Command(command@),
            LoopEvent::Other => LoopEventView::Other,
        }
    }
}

/// What the native loop is to do after an event.
#[derive(Debug, Clone, PartialEq, Eq)]
pub enum LoopAction {
    /// Nothing; wait for the next event.
    Wait,
    /// Run this script in the page.
    Evaluate(String),
    /// Set the title of the native window.
    Retitle(String),
    /// End the loop.
    Exit,
}

/// An action of the native loop, as specifications see it.
pub ghost enum LoopActionView {
    Wait,
    Evaluate(Seq<char>),
    Retitle(Seq<char>),
    Exit,
}

impl View for LoopAction {
    type V = LoopActionView;

    open spec fn view(&self) -> LoopActionView {
        match self {
            LoopAction::Wait => LoopActionView::Wait,
            LoopAction::Evaluate(script) => LoopActionView::Evaluate(script@),
            LoopAction::Retitle(title) => LoopActionView::Retitle(title@),
            LoopAction::Exit => LoopActionView::Exit,
        }
    }
}

/// What the native loop needs to open the window and paint it first.
#[derive(Debug, PartialEq, Eq)]
pub struct Startup {
    pub title: String,
    pub width: u32,
    pub height: u32,
    pub background_color: Rgba,
    /// The page to load.
    pub page: String,
    /// The script to run once the page is loaded, if content was set.
    pub script: Option<String>,
}

/// The start of a loop, as specifications see it.
pub ghost struct StartupView {
    pub title: Seq<char>,
    pub width: u32,
    pub height: u32,
    pub background_color: Rgba,
    pub page: Seq<char>,
    pub script: Option<Seq<char>>,
}

impl View for Startup {
    type V = StartupView;

    open spec fn view(&self) -> StartupView {
        StartupView {
            title: self.title@,
            width: self.width,
            height: self.height,
            background_color: self.background_color,
            page: self.page@,
            script: crate::element::text_view(self.script),
        }
    }
}

/// The background of a window for which none is given, or none that can be
/// read: `#1a1a1a`, opaque.
pub open spec fn default_background() -> Rgba {
    (26u8, 26u8, 26u8, 255u8)
}

/// A window, as specifications see it.
pub ghost struct WindowView<H> {
    pub title: Seq<char>,
    pub width: u32,
    pub height: u32,
    pub background_color: Rgba,
    /// The handlers that the window has adopted.
    pub callbacks: Map<Seq<char>, H>,
    /// The markup set last, which seeds the first paint.
    pub pending_html: Option<Seq<char>>,
    pub lifecycle: Lifecycle,
}

impl<H> WindowView<H> {
    /// Whether the loop runs.
    pub open spec fn is_running(self) -> bool {
        self.lifecycle == Lifecycle::Running
    }

    /// The window after it took a root: it holds the adopted handlers beside
    /// its own, an adopted one in place of one of its own with the same
    /// identifier, and the markup is pending.
    pub open spec fn with_root(self, adopted: Map<Seq<char>, H>, markup: Seq<char>) -> Self {
        WindowView {
            callbacks: self.callbacks.union_prefer_right(adopted),
            pending_html: Some(markup),
            ..self
        }
    }

    /// The command handed out for the loop: the given one while the window
    /// is running, none otherwise.
    pub open spec fn command(self, command: UserEventView) -> Option<UserEventView> {
        if self.is_running() {
            Some(command)
        } else {
            None
        }
    }

    /// What the loop starts with: the window's title, size and background,
    /// the first page around the pending markup, and the script that sets
    /// the root's content to the pending markup, handed over as a string
    /// literal. Without pending markup there is no script.
    pub open spec fn startup(self) -> StartupView {
        StartupView {
            title: self.title,
            width: self.width,
            height: self.height,
            background_color: self.background_color,
            page: initial_html(self.pending_html, self.background_color),
            script: match self.pending_html {
                Some(markup) => Some(root_update(markup)),
                None => None,
            },
        }
    }

    /// The window in another place of its life.
    pub open spec fn at(self, lifecycle: Lifecycle) -> Self {
        WindowView { lifecycle, ..self }
    }

    /// The window after an event of the loop, and what the loop is to do. A
    /// window that is not running ignores every event. A running one ends on
    /// a close request and on a close command, sets the title on a title
    /// command, and on an update command runs the script that sets the
    /// root's content to the markup.
    pub open spec fn step(self, event: LoopEventView) -> (Self, LoopActionView) {
        if !self.is_running() {
            (self, LoopActionView::Wait)
        } else {
            match event {
                LoopEventView::CloseRequested => (
                    self.at(Lifecycle::Closing),
                    LoopActionView::Exit,
                ),
                LoopEventView::Command(UserEventView::Close) => (
                    self.at(Lifecycle::Closing),
                    LoopActionView::Exit,
                ),
                LoopEventView::Command(UserEventView::SetTitle(title)) => (
                    self,
                    LoopActionView::Retitle(title),
                ),
                LoopEventView::Command(UserEventView::UpdateRoot(markup)) => (
                    self,
                    LoopActionView::Evaluate(root_update(markup)),
                ),
                LoopEventView::Other => (self, LoopActionView::Wait),
            }
        }
    }
}

/// The text that describes a window of the given title and size.
pub open spec fn window_repr(title: Seq<char>, width: u32, height: u32) -> Seq<char> {
    "UiWindow(title='"@ + title + "', size="@ + dec_text(width as nat) + "x"@ + dec_text(
        height as nat,
    ) + ")"@
}

/// The controller of one native window.
pub struct UiWindow<H> {
    title: String,
    width: u32,
    height: u32,
    background_color: Rgba,
    callbacks: CallbackRegistry<H>,
    pending_html: Option<String>,
    lifecycle: Lifecycle,
}

impl<H> View for UiWindow<H> {
    type V = WindowView<H>;

    closed spec fn view(&self) -> WindowView<H> {
        WindowView {
            title: self.title@,
            width: self.width,
            height: self.height,
            background_color: self.background_color,
            callbacks: self.callbacks@,
            pending_html: crate::element::text_view(self.pending_html),
            lifecycle: self.lifecycle,
        }
    }
}

impl<H> UiWindow<H> {
    /// Whether the window is well formed: its handler table is.
    pub closed spec fn wf(&self) -> bool {
        self.callbacks.wf()
    }

    /// An idle window. The title is `untitled app` where none is given, the
    /// size 800 by 600 where none is given, and the background `#1a1a1a`,
    /// opaque, where none is given or the given text writes no color.
    pub fn new(
        title: Option<String>,
        width: Option<u32>,
        height: Option<u32>,
        background_color: Option<String>,
    ) -> (r: Self)
        ensures
            r.wf(),
            r@ == (WindowView::<H> {
                title: match title {
                    Some(t) => t@,
                    None => "untitled app"@,
                },
                width: match width {
                    Some(w) => w,
                    None => 800u32,
                },
                height: match height {
                    Some(h) => h,
                    None => 600u32,
                },
                background_color: match background_color {
                    Some(text) => match hex_color(text@) {
                        Some(color) => color,
                        None => default_background(),
                    },
                    None => default_background(),
                },
                callbacks: Map::empty(),
                pending_html: None,
                lifecycle: Lifecycle::Idle,
            }),
    {
        let background: Rgba = match background_color {
            Some(text) => match parse_hex_color(text.as_str()) {
                Some(color) => color,
                None => (26, 26, 26, 255),
            },
            None => (26, 26, 26, 255),
        };
        UiWindow {
            title: match title {
                Some(t) => t,
                None => String::from_str("untitled app"),
            },
            width: match width {
                Some(w) => w,
                None => 800,
            },
            height: match height {
                Some(h) => h,
                None => 600,
            },
            background_color: background,
            callbacks: CallbackRegistry::new(),
            pending_html: None,
            lifecycle: Lifecycle::Idle,
        }
    }

    /// Takes a root. Given the markup that the renderer made of the element,
    /// the window adopts from the registry the handlers whose identifiers the
    /// element tracks, keeps the markup as pending, and hands out the update
    /// command if it is running. Given the renderer's failure, nothing
    /// changes and the failure is returned.
    pub fn set_root(
        &mut self,
        element: &Element,
        registry: &mut CallbackRegistry<H>,
        rendered: Result<String, String>,
    ) -> (r: Result<Option<UserEvent>, WindowError>)
        requires
            old(self).wf(),
            old(registry).wf(),
        ensures
            final(self).wf(),
            final(registry).wf(),
            match rendered {
                Ok(markup) => {
                    let ids = element@.callback_ids.to_set();
                    &&& final(self)@ == old(self)@.with_root(
                        old(registry)@.restrict(ids),
                        markup@,
                    )
                    &&& final(registry)@ == old(registry)@.remove_keys(ids)
                    &&& r matches Ok(command)
                    &&& command_view(command) == old(self)@.command(
                        UserEventView::UpdateRoot(markup@),
                    )
                },
                Err(message) => {
                    &&& final(self)@ == old(self)@
                    &&& final(registry)@ == old(registry)@
                    &&& r matches Err(failure)
                    &&& failure@ == WindowErrorView::Render(message@)
                },
            },
    {
        match rendered {
            Ok(markup) => {
                let adopted = element.collect_callbacks(registry);
                self.callbacks.adopt(adopted);
                self.pending_html = Some(markup.clone());
                if self.is_running() {
                    Ok(Some(UserEvent::UpdateRoot(markup)))
                } else {
                    Ok(None)
                }
            },
            Err(message) => Err(WindowError::Render(message)),
        }
    }

    /// The command that sets the title of the native window, handed out
    /// while the window is running. Otherwise there is none, and the title
    /// is not kept for a later start.
    pub fn set_title(&self, title: String) -> (r: Option<UserEvent>)
        ensures
            command_view(r) == self@.command(UserEventView::SetTitle(title@)),
    {
        if self.is_running() {
            Some(UserEvent::SetTitle(title))
        } else {
            None
        }
    }

    /// The command that ends the loop, handed out while the window is
    /// running; none otherwise.
    pub fn close(&self) -> (r: Option<UserEvent>)
        ensures
            command_view(r) == self@.command(UserEventView::Close),
    {
        if self.is_running() {
            Some(UserEvent::Close)
        } else {
            None
        }
    }

    /// Whether the loop runs.
    pub fn is_running(&self) -> (r: bool)
        ensures
            r == self@.is_running(),
    {
        match self.lifecycle {
            Lifecycle::Running => true,
            _ => false,
        }
    }

    /// Where the window stands in its life.
    pub fn lifecycle(&self) -> (r: Lifecycle)
        ensures
            r == self@.lifecycle,
    {
        self.lifecycle
    }

    /// The markup set last, if any.
    pub fn pending_html(&self) -> (r: Option<&String>)
        ensures
            match r {
                Some(markup) => self@.pending_html == Some(markup@),
                None => self@.pending_html is None,
            },
    {
        match &self.pending_html {
            Some(markup) => Some(markup),
            None => None,
        }
    }

    /// A short description of the window: its title and size.
    pub fn repr(&self) -> (r: String)
        ensures
            r@ == window_repr(self@.title, self@.width, self@.height),
    {
        let mut out = String::from_str("UiWindow(title='");
        out.append(self.title.as_str());
        out.append("', size=");
        push_dec(&mut out, self.width as u64);
        out.append("x");
        push_dec(&mut out, self.height as u64);
        out.append(")");
        out
    }

    /// Starts the loop of an idle window: the window is running from now on,
    /// and the result is what the loop opens and paints first. A window that
    /// is not idle stays as it is, and there is no result.
    pub fn start(&mut self) -> (r: Option<Startup>)
        ensures
            final(self).wf() == old(self).wf(),
            match r {
                Some(startup) => {
                    &&& old(self)@.lifecycle == Lifecycle::Idle
                    &&& final(self)@ == old(self)@.at(Lifecycle::Running)
                    &&& startup@ == old(self)@.startup()
                },
                None => old(self)@.lifecycle != Lifecycle::Idle && final(self)@ == old(self)@,
            },
    {
        match self.lifecycle {
            Lifecycle::Idle => {
                let (page, script) = match &self.pending_html {
                    Some(markup) => (
                        get_initial_html(Some(markup.as_str()), self.background_color),
                        Some(root_update_script(markup.as_str())),
                    ),
                    None => (get_initial_html(None, self.background_color), None),
                };
                self.lifecycle = Lifecycle::Running;
                Some(
                    Startup {
                        title: self.title.clone(),
                        width: self.width,
                        height: self.height,
                        background_color: self.background_color,
                        page,
                        script,
                    },
                )
            },
            _ => None,
        }
    }

    /// Records that the native window or the web view could not be created:
    /// a running window is idle again, and the failure carries the message.
    pub fn init_failed(&mut self, message: String) -> (r: WindowError)
        ensures
            final(self).wf() == old(self).wf(),
            final(self)@ == if old(self)@.is_running() {
                old(self)@.at(Lifecycle::Idle)
            } else {
                old(self)@
            },
            r@ == WindowErrorView::Init(message@),
    {
        if self.is_running() {
            self.lifecycle = Lifecycle::Idle;
        }
        WindowError::Init(message)
    }

    /// Decides what the loop does after an event, as `step` says.
    pub fn handle(&mut self, event: LoopEvent) -> (r: LoopAction)
        ensures
            final(self).wf() == old(self).wf(),
            final(self)@ == old(self)@.step(event@).0,
            r@ == old(self)@.step(event@).1,
    {
        if !self.is_running() {
            return LoopAction::Wait;
        }
        match event {
            LoopEvent::CloseRequested => {
                self.lifecycle = Lifecycle::Closing;
                LoopAction::Exit
            },
            LoopEvent::Command(UserEvent::Close) => {
                self.lifecycle = Lifecycle::Closing;
                LoopAction::Exit
            },
            LoopEvent::Command(UserEvent::SetTitle(title)) => LoopAction::Retitle(title),
            LoopEvent::Command(UserEvent::UpdateRoot(markup)) => {
                LoopAction::Evaluate(root_update_script(markup.as_str()))
            },
            LoopEvent::Other => LoopAction::Wait,
        }
    }

    /// Records that the loop has ended: a window that was running or closing
    /// is closed.
    pub fn finish(&mut self)
        ensures
            final(self).wf() == old(self).wf(),
            final(self)@ == if old(self)@.lifecycle == Lifecycle::Running || old(
                self,
            )@.lifecycle == Lifecycle::Closing {
                old(self)@.at(Lifecycle::Closed)
            } else {
                old(self)@
            },
    {
        match self.lifecycle {
            Lifecycle::Running => {
                self.lifecycle = Lifecycle::Closed;
            },
            Lifecycle::Closing => {
                self.lifecycle = Lifecycle::Closed;
            },
            _ => {},
        }
    }

    /// Decides what an event reported by the page leads to, as `dispatched`
    /// says. The window and its handlers stay as they are.
    pub fn dispatch<'a>(&'a self, event: &IpcEvent) -> (r: Dispatch<'a, H>)
        requires
            self.wf(),
        ensures
            r@ == dispatched(self@.callbacks, event@),
    {
        if event.event_type == String::from_str("click") {
            match &event.callback_id {
                Some(id) => match self.callbacks.get(id) {
                    Some(handler) => Dispatch::Click(handler),
                    None => Dispatch::Ignore,
                },
                None => Dispatch::Ignore,
            }
        } else if event.event_type == String::from_str("input") {
            match (&event.callback_id, &event.value) {
                (Some(id), Some(value)) => match self.callbacks.get(id) {
                    Some(handler) => Dispatch::Input(handler, value.clone()),
                    None => Dispatch::Ignore,
                },
                _ => Dispatch::Ignore,
            }
        } else {
            Dispatch::Ignore
        }
    }
}

/// Markup set as root while the window is idle is what the window paints
/// first: the window stays idle until it is started, and the start carries
/// the first page with that markup in its root, and the script that sets
/// the root's content to that same markup.
pub proof fn lemma_root_set_before_start_is_first_paint<H>(
    window: WindowView<H>,
    adopted: Map<Seq<char>, H>,
    markup: Seq<char>,
)
    requires
        window.lifecycle == Lifecycle::Idle,
    ensures
        !window.with_root(adopted, markup).is_running(),
        window.with_root(adopted, markup).command(UserEventView::UpdateRoot(markup)) is None,
        window.with_root(adopted, markup).startup().page == initial_html(
            Some(markup),
            window.background_color,
        ),
        window.with_root(adopted, markup).startup().script == Some(root_update(markup)),
{
}

/// A click for an identifier that the window does not hold calls nothing.
pub proof fn lemma_unregistered_click_is_dropped<H>(
    callbacks: Map<Seq<char>, H>,
    event: IpcEventView,
)
    requires
        event.event_type == "click"@,
        event.callback_id matches Some(id) ==> !callbacks.contains_key(id),
    ensures
        dispatched(callbacks, event) == Outcome::<H>::Ignore,
{
}

/// An input for an identifier that the window holds, with a value, calls
/// that handler once with that value. The outcome depends on the handlers
/// and the event alone, so the same event reported again calls the handler
/// again.
pub proof fn lemma_registered_input_calls_handler<H>(
    callbacks: Map<Seq<char>, H>,
    event: IpcEventView,
    again: IpcEventView,
)
    requires
        event.event_type == "input"@,
        event.callback_id matches Some(id) && callbacks.contains_key(id),
        event.value is Some,
        again == event,
    ensures
        dispatched(callbacks, event) == Outcome::Input(
            callbacks[event.callback_id->0],
            event.value->0,
        ),
        dispatched(callbacks, again) == dispatched(callbacks, event),
{
    reveal_strlit("input");
    reveal_strlit("click");
    assert("input"@.len() != "click"@.len() || "input"@[0] != "click"@[0]);
}

/// Closing a window that is not running does nothing: no command is handed
/// out. Closing a running one hands out the close command, and on that
/// command the window stops running and the loop is told to end.
pub proof fn lemma_close<H>(window: WindowView<H>)
    ensures
        !window.is_running() ==> window.command(UserEventView::Close) is None,
        window.is_running() ==> {
            &&& window.command(UserEventView::Close) == Some(UserEventView::Close)
            &&& !window.step(LoopEventView::Command(UserEventView::Close)).0.is_running()
            &&& window.step(LoopEventView::Command(UserEventView::Close)).1
                == LoopActionView::Exit
        },
{
}

/// A window that took a tree holds a handler for every identifier that the
/// tree references, provided the element tracks what its tree references
/// and each tracked identifier was in the registry or already with the
/// window.
pub proof fn lemma_adopted_tree_resolves<H>(
    window: WindowView<H>,
    element: ElementView,
    registry: Map<Seq<char>, H>,
    markup: Seq<char>,
    id: Seq<char>,
)
    requires
        element.tracks_references(),
        forall|k: Seq<char>|
            element.callback_ids.contains(k) ==> registry.contains_key(k)
                || window.callbacks.contains_key(k),
        referenced_ids(element.def).contains(id),
    ensures
        window.with_root(
            registry.restrict(element.callback_ids.to_set()),
            markup,
        ).callbacks.contains_key(id),
{
    broadcast use vstd::seq_lib::group_to_multiset_ensures;

    assert(referenced_ids(element.def).to_multiset().count(id) > 0);
    assert(element.callback_ids.to_multiset().count(id) > 0);
    assert(element.callback_ids.contains(id));
}

/// A window keeps the handlers it holds: taking a root adds to them or
/// replaces one by its namesake, and no event of the loop and no change of
/// place in the window's life takes one away.
pub proof fn lemma_registrations_persist<H>(
    window: WindowView<H>,
    adopted: Map<Seq<char>, H>,
    markup: Seq<char>,
    event: LoopEventView,
    lifecycle: Lifecycle,
    id: Seq<char>,
)
    requires
        window.callbacks.contains_key(id),
    ensures
        window.with_root(adopted, markup).callbacks.contains_key(id),
        window.step(event).0.callbacks == window.callbacks,
        window.at(lifecycle).callbacks == window.callbacks,
{
}

/// No event of the loop makes a window run that does not run: only a start
/// does, and a window that was told to end stays ended.
pub proof fn lemma_events_never_start<H>(window: WindowView<H>, event: LoopEventView)
    requires
        !window.is_running(),
    ensures
        window.step(event).0 == window,
        window.step(event).1 == LoopActionView::Wait,
{
}

} // verus!
