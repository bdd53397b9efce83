use vstd::prelude::*;

use crate::messages::UIMessage;
use crate::theme::MyTheme;

verus! {

/// The library's handle of a toolkit window.
#[derive(Clone, Copy, Debug, PartialEq, Eq, Structural)]
pub struct WindowHandle {
    pub id: u64,
}

/// The main window: none, asked of the toolkit under a handle, or open.
#[derive(Clone, Copy, Debug, PartialEq, Eq, Structural)]
pub enum WindowState {
    Closed,
    Pending(WindowHandle),
    Open(WindowHandle),
}

/// What the content pane shows: a device, by identifier, or the settings.
#[derive(Clone, Debug, PartialEq, Eq, Hash)]
pub enum Tab {
    Device(String),
    Settings,
}

/// The two panes of the main window.
#[derive(Clone, Copy, Debug, PartialEq, Eq, Structural)]
pub enum Pane {
    Sidebar,
    Content,
}

/// What the update loop is handed.
#[derive(Clone, Debug)]
pub enum Message {
    WindowOpened(WindowHandle),
    WindowClosed(WindowHandle),
    SelectTab(Tab),
    ThemeSelected(MyTheme),
    CopyToClipboard(String),
    UIMessage(UIMessage),
}

/// Work that an update asks of the toolkit and the host.
#[derive(Clone, Debug)]
pub enum Effect {
    /// Ask the toolkit for the main window, under this handle.
    CreateWindow(WindowHandle),
    /// Give the window focus.
    FocusWindow(WindowHandle),
    /// Wait for the next event of the device layer.
    AwaitNext,
    /// Write the preference file for this theme.
    WriteSettings(MyTheme),
    /// Put this text on the clipboard.
    CopyToClipboard(String),
}

/// The identifiers of the devices that are connected, each once.
pub struct BluetoothState {
    pub connected_devices: Vec<String>,
}

/// The state of the user interface, threaded through every update.
pub struct App {
    pub window: WindowState,
    pub next_window: u64,
    pub selected_tab: Tab,
    pub selected_theme: MyTheme,
    pub bluetooth_state: BluetoothState,
}

/// Guards the one consumer of the device layer's queue: at most one wait
/// for the next event is outstanding.
pub struct EventBridge {
    pub waiting: bool,
}

/// Whether `mac` is among `devices`.
pub open spec fn holds_device(devices: Seq<String>, mac: Seq<char>) -> bool {
    exists|i: int| 0 <= i < devices.len() && devices[i]@ == mac
}

/// The handle number that follows `n`, wrapping after the largest.
pub open spec fn following_id(n: u64) -> u64 {
    if n == u64::MAX { 0 } else { (n + 1) as u64 }
}

/// The window after message `m`; `fresh` is the handle a new window gets.
pub open spec fn window_after(w: WindowState, fresh: WindowHandle, m: Message) -> WindowState {
    match m {
        Message::WindowOpened(h) => WindowState::Open(h),
        Message::WindowClosed(h) => if w == WindowState::Open(h) || w == WindowState::Pending(h) {
            WindowState::Closed
        } else {
            w
        },
        Message::UIMessage(UIMessage::OpenWindow) => if w == WindowState::Closed { WindowState::Pending(fresh) } else { w },
        _ => w,
    }
}

/// The next handle number after message `m` on window state `w`: it moves
/// on only when a window is asked for.
pub open spec fn next_after(n: u64, w: WindowState, m: Message) -> u64 {
    if m == Message::UIMessage(UIMessage::OpenWindow) && w == WindowState::Closed {
        following_id(n)
    } else {
        n
    }
}

/// The effects of message `m` on window state `w`, in order; `fresh` is the
/// handle a new window gets. Every event of the device layer ends in
/// exactly one new wait for the next. Only an explicit request opens the
/// window: a device that connects does not.
pub open spec fn effects_after(w: WindowState, fresh: WindowHandle, m: Message) -> Seq<Effect> {
    match m {
        Message::ThemeSelected(t) => seq![Effect::WriteSettings(t)],
        Message::CopyToClipboard(d) => seq![Effect::CopyToClipboard(d)],
        Message::UIMessage(UIMessage::OpenWindow) => match w {
            WindowState::Closed => seq![Effect::CreateWindow(fresh), Effect::AwaitNext],
            WindowState::Pending(h) => seq![Effect::FocusWindow(h), Effect::AwaitNext],
            WindowState::Open(h) => seq![Effect::FocusWindow(h), Effect::AwaitNext],
        },
        Message::UIMessage(_) => seq![Effect::AwaitNext],
        _ => seq![],
    }
}

/// `d` without the entries equal to `mac`, in order.
pub open spec fn without_device(d: Seq<String>, mac: Seq<char>) -> Seq<String>
    decreases d.len(),
{
    if d.len() == 0 {
        d
    } else if d.last()@ == mac {
        without_device(d.drop_last(), mac)
    } else {
        without_device(d.drop_last(), mac).push(d.last())
    }
}

/// The connected devices after message `m`: a connect adds the device where
/// it is missing, a disconnect removes it.
pub open spec fn devices_after(d: Seq<String>, m: Message) -> Seq<String> {
    match m {
        Message::UIMessage(UIMessage::DeviceConnected(mac)) => if holds_device(d, mac@) { d } else { d.push(mac) },
        Message::UIMessage(UIMessage::DeviceDisconnected(mac)) => without_device(d, mac@),
        _ => d,
    }
}

/// The selected tab after message `m`.
pub open spec fn tab_after(t: Tab, m: Message) -> Tab {
    match m {
        Message::SelectTab(n) => n,
        _ => t,
    }
}

/// The selected theme after message `m`.
pub open spec fn theme_after(t: MyTheme, m: Message) -> MyTheme {
    match m {
        Message::ThemeSelected(n) => n,
        _ => t,
    }
}

/// Whether `e` is a wait for the next event.
pub open spec fn is_await(e: Effect) -> bool {
    e is AwaitNext
}

/// Every message from the device layer, whatever it is and whatever the
/// window's state, is followed by exactly one new wait for the next event,
/// as the last effect; no other message starts one.
pub proof fn lemma_every_event_rearms(w: WindowState, fresh: WindowHandle, m: Message)
    ensures
        m is UIMessage ==> {
            let e = effects_after(w, fresh, m);
            &&& e.len() >= 1
            &&& is_await(e.last())
            &&& forall|i: int| 0 <= i < e.len() - 1 ==> !is_await(#[trigger] e[i])
        },
        !(m is UIMessage) ==> forall|i: int| 0 <= i < effects_after(w, fresh, m).len()
            ==> !is_await(#[trigger] effects_after(w, fresh, m)[i]),
{
}

/// The number of waits for the next event among `e`.
pub open spec fn await_count(e: Seq<Effect>) -> nat
    decreases e.len(),
{
    if e.len() == 0 {
        0
    } else {
        await_count(e.drop_last()) + if is_await(e.last()) { 1nat } else { 0nat }
    }
}

/// The waits for the next event that the messages `ms` start, handled one
/// after another from window state `w` and next handle number `n`.
pub open spec fn waits_started(w: WindowState, n: u64, ms: Seq<Message>) -> nat
    decreases ms.len(),
{
    if ms.len() == 0 {
        0
    } else {
        let fresh = WindowHandle { id: n };
        await_count(effects_after(w, fresh, ms[0]))
            + waits_started(window_after(w, fresh, ms[0]), next_after(n, w, ms[0]), ms.drop_first())
    }
}

/// A run of `k` events of the device layer, handled in turn from any state,
/// starts exactly `k` waits for the next event: one per event.
pub proof fn lemma_waits_match_events(w: WindowState, n: u64, ms: Seq<Message>)
    requires
        forall|i: int| 0 <= i < ms.len() ==> #[trigger] ms[i] is UIMessage,
    ensures
        waits_started(w, n, ms) == ms.len(),
    decreases ms.len(),
{
    if ms.len() > 0 {
        let fresh = WindowHandle { id: n };
        let e = effects_after(w, fresh, ms[0]);
        reveal_with_fuel(await_count, 3);
        assert(ms[0] is UIMessage);
        if e.len() == 2 {
            assert(e.drop_last() =~= seq![e[0]]);
            assert(seq![e[0]].drop_last() =~= Seq::<Effect>::empty());
        } else {
            assert(e.drop_last() =~= Seq::<Effect>::empty());
        }
        assert forall|i: int| 0 <= i < ms.drop_first().len() implies #[trigger] ms.drop_first()[i] is UIMessage by {
            assert(ms.drop_first()[i] == ms[i + 1]);
        }
        lemma_waits_match_events(window_after(w, fresh, ms[0]), next_after(n, w, ms[0]), ms.drop_first());
    }
}

/// From a closed window, a request to open asks the toolkit for a window
/// under a new handle, and the toolkit's confirmation leaves it open.
pub proof fn lemma_open_from_closed(fresh: WindowHandle)
    ensures
        window_after(WindowState::Closed, fresh, Message::UIMessage(UIMessage::OpenWindow)) == WindowState::Pending(fresh),
        effects_after(WindowState::Closed, fresh, Message::UIMessage(UIMessage::OpenWindow))[0] == Effect::CreateWindow(fresh),
        window_after(
            window_after(WindowState::Closed, fresh, Message::UIMessage(UIMessage::OpenWindow)),
            fresh,
            Message::WindowOpened(fresh),
        ) == WindowState::Open(fresh),
{
}

/// While a window is open, or asked for, a request to open creates no
/// second window; that window gets focus instead.
pub proof fn lemma_open_while_open(w: WindowState, fresh: WindowHandle)
    requires
        w != WindowState::Closed,
    ensures
        window_after(w, fresh, Message::UIMessage(UIMessage::OpenWindow)) == w,
        forall|i: int| 0 <= i < effects_after(w, fresh, Message::UIMessage(UIMessage::OpenWindow)).len()
            ==> !(#[trigger] effects_after(w, fresh, Message::UIMessage(UIMessage::OpenWindow))[i] is CreateWindow),
        w matches WindowState::Open(h) ==> effects_after(w, fresh, Message::UIMessage(UIMessage::OpenWindow))[0]
            == Effect::FocusWindow(h),
        w matches WindowState::Pending(h) ==> effects_after(w, fresh, Message::UIMessage(UIMessage::OpenWindow))[0]
            == Effect::FocusWindow(h),
{
}

/// The toolkit's report that a window closed ends the window, open or asked
/// for, only where the handle is the window's own.
pub proof fn lemma_close_matches_handle(w: WindowState, fresh: WindowHandle, h: WindowHandle)
    ensures
        window_after(w, fresh, Message::WindowClosed(h)) == (if w == WindowState::Open(h) || w == WindowState::Pending(h) {
            WindowState::Closed
        } else {
            w
        }),
{
}

/// After a connect and then a disconnect of the same device, the device is
/// not connected.
pub proof fn lemma_disconnect_removes(d: Seq<String>, a: String, b: String)
    requires
        a@ == b@,
    ensures
        !holds_device(
            devices_after(
                devices_after(d, Message::UIMessage(UIMessage::DeviceConnected(a))),
                Message::UIMessage(UIMessage::DeviceDisconnected(b)),
            ),
            b@,
        ),
{
    lemma_without_device(devices_after(d, Message::UIMessage(UIMessage::DeviceConnected(a))), b@);
}

/// Removing `mac` keeps every other entry, in order, and leaves no `mac`.
pub proof fn lemma_without_device(d: Seq<String>, mac: Seq<char>)
    ensures
        !holds_device(without_device(d, mac), mac),
        forall|x: String| #[trigger] without_device(d, mac).contains(x) <==> (d.contains(x) && x@ != mac),
    decreases d.len(),
{
    if d.len() > 0 {
        lemma_without_device(d.drop_last(), mac);
        let r = without_device(d.drop_last(), mac);
        let p = d.drop_last();
        let l = d.last();
        assert(d =~= p.push(l));
        assert forall|x: String| #[trigger] without_device(d, mac).contains(x) <==> (d.contains(x) && x@ != mac) by {
            assert(d.contains(x) <==> (p.contains(x) || x == l)) by {
                if d.contains(x) {
                    let i = choose|i: int| 0 <= i < d.len() && d[i] == x;
                    if i < p.len() {
                        assert(p[i] == x);
                    }
                }
                if p.contains(x) {
                    let i = choose|i: int| 0 <= i < p.len() && p[i] == x;
                    assert(d[i] == x);
                }
                if x == l {
                    assert(d[d.len() - 1] == x);
                }
            }
            if l@ != mac {
                assert(r.push(l).contains(x) <==> (r.contains(x) || x == l)) by {
                    if r.push(l).contains(x) {
                        let i = choose|i: int| 0 <= i < r.push(l).len() && r.push(l)[i] == x;
                        if i < r.len() {
                            assert(r[i] == x);
                        }
                    }
                    if r.contains(x) {
                        let i = choose|i: int| 0 <= i < r.len() && r[i] == x;
                        assert(r.push(l)[i] == x);
                    }
                    if x == l {
                        assert(r.push(l)[r.len() as int] == x);
                    }
                }
            }
        }
        if holds_device(without_device(d, mac), mac) {
            let i = choose|i: int| 0 <= i < without_device(d, mac).len() && without_device(d, mac)[i]@ == mac;
            assert(without_device(d, mac).contains(without_device(d, mac)[i]));
        }
    }
}

impl BluetoothState {
    /// No device connected.
    pub fn new() -> (r: Self)
        ensures
            r.connected_devices@.len() == 0,
    {
        BluetoothState { connected_devices: Vec::new() }
    }

    /// Whether `mac` is connected.
    pub fn is_connected(&self, mac: &String) -> (r: bool)
        ensures
            r == holds_device(self.connected_devices@, mac@),
    {
        let mut i: usize = 0;
        while i < self.connected_devices.len()
            invariant
                forall|j: int| 0 <= j < i ==> self.connected_devices@[j]@ != mac@,
            decreases self.connected_devices.len() - i,
        {
            if self.connected_devices[i] == *mac {
                return true;
            }
            i = i + 1;
        }
        false
    }

    /// Adds `mac` to the connected devices where it is not there yet.
    pub fn connect(&mut self, mac: String)
        ensures
            final(self).connected_devices@ == (if holds_device(old(self).connected_devices@, mac@) {
                old(self).connected_devices@
            } else {
                old(self).connected_devices@.push(mac)
            }),
    {
        if !self.is_connected(&mac) {
            self.connected_devices.push(mac);
        }
    }

    /// Removes every entry equal to `mac`, keeping the others in order.
    pub fn disconnect(&mut self, mac: &String)
        ensures
            final(self).connected_devices@ == without_device(old(self).connected_devices@, mac@),
    {
        let ghost d = self.connected_devices@;
        let mut kept: Vec<String> = Vec::new();
        let mut i: usize = 0;
        while i < self.connected_devices.len()
            invariant
                self.connected_devices@ == d,
                i <= d.len(),
                kept@ == without_device(d.subrange(0, i as int), mac@),
            decreases d.len() - i,
        {
            assert(d.subrange(0, i + 1).drop_last() =~= d.subrange(0, i as int));
            if self.connected_devices[i] != *mac {
                kept.push(self.connected_devices[i].clone());
            }
            i = i + 1;
        }
        assert(d.subrange(0, i as int) =~= d);
        self.connected_devices = kept;
    }
}

impl EventBridge {
    /// No wait outstanding.
    pub fn new() -> (r: Self)
        ensures
            !r.waiting,
    {
        EventBridge { waiting: false }
    }

    /// Starts a wait for the next event; refused, with `false`, while one is
    /// outstanding.
    pub fn begin_wait(&mut self) -> (r: bool)
        ensures
            r == !old(self).waiting,
            final(self).waiting,
    {
        if self.waiting {
            false
        } else {
            self.waiting = true;
            true
        }
    }

    /// Ends the outstanding wait with what the queue gave: the event, or,
    /// where the queue is closed for good, `NoOp`.
    pub fn deliver(&mut self, received: Option<UIMessage>) -> (r: Message)
        requires
            old(self).waiting,
        ensures
            !final(self).waiting,
            r == Message::UIMessage(
                match received {
                    Some(m) => m,
                    None => UIMessage::NoOp,
                },
            ),
    {
        self.waiting = false;
        match received {
            Some(m) => Message::UIMessage(m),
            None => Message::UIMessage(UIMessage::NoOp),
        }
    }
}

impl App {
    /// The starting state, with the effects that begin it: the window is
    /// asked for unless the application starts minimized, and the first wait
    /// for an event starts.
    pub fn new(start_minimized: bool, selected_theme: MyTheme) -> (r: (App, Vec<Effect>))
        ensures
            r.0.window == (if start_minimized { WindowState::Closed } else { WindowState::Pending(WindowHandle { id: 1 }) }),
            r.0.next_window == (if start_minimized { 1u64 } else { 2u64 }),
            r.0.selected_tab matches Tab::Device(id) && id@ == "none"@,
            r.0.selected_theme == selected_theme,
            r.0.bluetooth_state.connected_devices@.len() == 0,
            r.1@ == (if start_minimized {
                seq![Effect::AwaitNext]
            } else {
                seq![Effect::CreateWindow(WindowHandle { id: 1 }), Effect::AwaitNext]
            }),
    {
        let mut effects: Vec<Effect> = Vec::new();
        let first = WindowHandle { id: 1 };
        let (window, next_window) = if start_minimized {
            (WindowState::Closed, 1u64)
        } else {
            effects.push(Effect::CreateWindow(first));
            (WindowState::Pending(first), 2u64)
        };
        effects.push(Effect::AwaitNext);
        let app = App {
            window,
            next_window,
            selected_tab: Tab::Device(String::from_str("none")),
            selected_theme,
            bluetooth_state: BluetoothState::new(),
        };
        proof {
            if start_minimized {
                assert(effects@ =~= seq![Effect::AwaitNext]);
            } else {
                assert(effects@ =~= seq![Effect::CreateWindow(first), Effect::AwaitNext]);
            }
        }
        (app, effects)
    }

    /// One step of the update loop: the new state, and the effects to carry
    /// out, in order.
    pub fn update(&mut self, message: Message) -> (r: Vec<Effect>)
        ensures
            final(self).window == window_after(old(self).window, WindowHandle { id: old(self).next_window }, message),
            final(self).next_window == next_after(old(self).next_window, old(self).window, message),
            r@ == effects_after(old(self).window, WindowHandle { id: old(self).next_window }, message),
            final(self).selected_tab == tab_after(old(self).selected_tab, message),
            final(self).selected_theme == theme_after(old(self).selected_theme, message),
            final(self).bluetooth_state.connected_devices@ == devices_after(
                old(self).bluetooth_state.connected_devices@,
                message,
            ),
    {
        let mut effects: Vec<Effect> = Vec::new();
        match message {
            Message::WindowOpened(h) => {
                self.window = WindowState::Open(h);
            },
            Message::WindowClosed(h) => {
                match self.window {
                    WindowState::Open(cur) | WindowState::Pending(cur) => {
                        if cur.id == h.id {
                            self.window = WindowState::Closed;
                        }
                    },
                    WindowState::Closed => {},
                }
            },
            Message::SelectTab(tab) => {
                self.selected_tab = tab;
            },
            Message::ThemeSelected(theme) => {
                self.selected_theme = theme;
                effects.push(Effect::WriteSettings(theme));
            },
            Message::CopyToClipboard(data) => {
                effects.push(Effect::CopyToClipboard(data));
            },
            Message::UIMessage(ui_message) => {
                match ui_message {
                    UIMessage::OpenWindow => {
                        match self.window {
                            WindowState::Closed => {
                                let fresh = WindowHandle { id: self.next_window };
                                self.window = WindowState::Pending(fresh);
                                self.next_window = if self.next_window == u64::MAX { 0 } else { self.next_window + 1 };
                                effects.push(Effect::CreateWindow(fresh));
                            },
                            WindowState::Pending(h) | WindowState::Open(h) => {
                                effects.push(Effect::FocusWindow(h));
                            },
                        }
                    },
                    UIMessage::DeviceConnected(mac) => {
                        self.bluetooth_state.connect(mac);
                    },
                    UIMessage::DeviceDisconnected(mac) => {
                        self.bluetooth_state.disconnect(&mac);
                    },
                    _ => {},
                }
                effects.push(Effect::AwaitNext);
            },
        }
        proof {
            assert(effects@ =~= effects_after(old(self).window, WindowHandle { id: old(self).next_window }, message));
        }
        effects
    }
}

} // verus!
