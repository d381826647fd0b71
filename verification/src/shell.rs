//! The shell's state and its decisions: each event that the app receives
//! (a message from the planner, a click, a window losing focus, a timer
//! tick) goes through one method here, which updates the state and returns
//! the window, tray and sound operations for the app to perform, in order.
use vstd::prelude::*;
use crate::text::{alnum_only, opt_text, clean_sound_name, fmt_tray, same_text, sound_file, sound_path, tray_text};

verus! {

/// Width of the timer window, in logical pixels.
pub const TIMER_WIDTH: u32 = 334;

/// Distance from the timer window's left edge to the right edge of the
/// screen, in logical pixels: the window's width less its shadow margin,
/// plus the lane that macOS keeps for its own notification banners.
pub const TIMER_RIGHT_INSET: u32 = 708;

/// Distance of the timer window from the top of the screen: a little lower
/// when pinned, right under the menu bar otherwise.
pub open spec fn timer_top(pinned: bool) -> u32 {
    if pinned {
        24
    } else {
        12
    }
}

/// How long a freshly shown unpinned timer window ignores losing focus (ms).
pub const SHOW_BLUR_GUARD_MS: u64 = 600;

/// The shell's state between events.
pub struct Shell {
    /// The timer window is pinned: it floats above everything and does not
    /// hide when it loses focus.
    pub pinned: bool,
    /// A work block was running at the last planner update.
    pub was_active: bool,
    /// Losing focus is ignored for a moment after the timer window appears.
    pub suppress_blur: bool,
    /// A reminder is on screen in the timer window and stays there until
    /// the user answers it.
    pub notif_active: bool,
    /// Reminders play a sound.
    pub sound_on: bool,
    /// The system sound that reminders play; empty means the default.
    pub sound_name: String,
    /// End of the current block, in milliseconds since the epoch.
    pub tray_end_ms: i64,
    /// The current block is paused.
    pub tray_paused: bool,
    /// Seconds left in the current block while it is paused.
    pub tray_paused_rem: i64,
    /// The countdown is shown in the menu bar.
    pub tray_on: bool,
}

/// The mathematical view of a [`Shell`].
pub struct ShellView {
    pub pinned: bool,
    pub was_active: bool,
    pub suppress_blur: bool,
    pub notif_active: bool,
    pub sound_on: bool,
    pub sound_name: Seq<char>,
    pub tray_end_ms: i64,
    pub tray_paused: bool,
    pub tray_paused_rem: i64,
    pub tray_on: bool,
}

impl View for Shell {
    type V = ShellView;

    open spec fn view(&self) -> ShellView {
        ShellView {
            pinned: self.pinned,
            was_active: self.was_active,
            suppress_blur: self.suppress_blur,
            notif_active: self.notif_active,
            sound_on: self.sound_on,
            sound_name: self.sound_name@,
            tray_end_ms: self.tray_end_ms,
            tray_paused: self.tray_paused,
            tray_paused_rem: self.tray_paused_rem,
            tray_on: self.tray_on,
        }
    }
}

/// The state of the shell when the app starts.
pub open spec fn initial_shell() -> ShellView {
    ShellView {
        pinned: false,
        was_active: false,
        suppress_blur: false,
        notif_active: false,
        sound_on: true,
        sound_name: Seq::empty(),
        tray_end_ms: 0,
        tray_paused: false,
        tray_paused_rem: 0,
        tray_on: true,
    }
}

/// What the app sees of its windows when an event arrives.
#[derive(Clone, Copy, Debug, PartialEq, Eq)]
pub struct Windows {
    /// The planner window is on screen (taken as on screen when the app
    /// cannot tell).
    pub main_visible: bool,
    /// The timer window, if it exists, and whether it is on screen.
    pub timer: Option<bool>,
}

/// A message passed on, unchanged, to one of the web views.
#[derive(Clone, Copy, Debug, PartialEq, Eq)]
pub enum Relay {
    /// A reminder's content, to the timer window (`pt-notify`).
    NotifyToTimer,
    /// The planner's timer state, to the timer window (`pt-state`).
    StateToTimer,
    /// A "yes" answered in the timer window, to the planner (`pt-notif-yes`).
    NotifYesToMain,
    /// A command from the timer window, to the planner (`pt-cmd`).
    CmdToMain,
}

/// One operation for the app to perform. Operations on a window or on the
/// tray icon that does not exist are skipped.
#[derive(Clone, Debug, PartialEq, Eq)]
pub enum Action {
    /// Show, restore and focus the planner window.
    ShowMain,
    /// Show and focus the planner window.
    RevealMain,
    /// Hide the planner window.
    HideMain,
    /// Close the splash window.
    CloseSplash,
    /// Show the timer window.
    ShowTimerWindow,
    /// Hide the timer window.
    HideTimer,
    /// Focus the timer window.
    FocusTimer,
    /// Keep the timer window above all others, or not.
    TimerOnTop(bool),
    /// Move the timer window to the top right of the primary screen, at
    /// `top` pixels from the top and [`TIMER_RIGHT_INSET`] from the right.
    PlaceTimer { top: u32 },
    /// Give the timer window width [`TIMER_WIDTH`] and the height that the
    /// command carried.
    ResizeTimer,
    /// After the given milliseconds, tell the shell to stop ignoring blur.
    ReleaseBlurAfter(u64),
    /// Set or clear the text beside the tray icon.
    TrayTitle(Option<String>),
    /// Show or hide the tray icon.
    TrayVisible(bool),
    /// Set or clear the planner's Dock badge.
    Badge(Option<i64>),
    /// Play the sound file at this path.
    PlaySound(String),
    /// Pass the event's message on.
    Relay(Relay),
    /// Show the same reminder again after the delay that the command asked.
    ScheduleNotif,
    /// Quit the app.
    Exit,
}

/// The mathematical view of an [`Action`].
pub enum ActionView {
    ShowMain,
    RevealMain,
    HideMain,
    CloseSplash,
    ShowTimerWindow,
    HideTimer,
    FocusTimer,
    TimerOnTop(bool),
    PlaceTimer { top: u32 },
    ResizeTimer,
    ReleaseBlurAfter(u64),
    TrayTitle(Option<Seq<char>>),
    TrayVisible(bool),
    Badge(Option<i64>),
    PlaySound(Seq<char>),
    Relay(Relay),
    ScheduleNotif,
    Exit,
}

/// The view of an optional string.
pub open spec fn opt_string(s: Option<String>) -> Option<Seq<char>> {
    match s {
        Some(t) => Some(t@),
        None => None,
    }
}

impl View for Action {
    type V = ActionView;

    open spec fn view(&self) -> ActionView {
        match self {
            Action::ShowMain => ActionView::ShowMain,
            Action::RevealMain => ActionView::RevealMain,
            Action::HideMain => ActionView::HideMain,
            Action::CloseSplash => ActionView::CloseSplash,
            Action::ShowTimerWindow => ActionView::ShowTimerWindow,
            Action::HideTimer => ActionView::HideTimer,
            Action::FocusTimer => ActionView::FocusTimer,
            Action::TimerOnTop(b) => ActionView::TimerOnTop(*b),
            Action::PlaceTimer { top } => ActionView::PlaceTimer { top: *top },
            Action::ResizeTimer => ActionView::ResizeTimer,
            Action::ReleaseBlurAfter(ms) => ActionView::ReleaseBlurAfter(*ms),
            Action::TrayTitle(t) => ActionView::TrayTitle(opt_string(*t)),
            Action::TrayVisible(b) => ActionView::TrayVisible(*b),
            Action::Badge(n) => ActionView::Badge(*n),
            Action::PlaySound(p) => ActionView::PlaySound(p@),
            Action::Relay(r) => ActionView::Relay(*r),
            Action::ScheduleNotif => ActionView::ScheduleNotif,
            Action::Exit => ActionView::Exit,
        }
    }
}

/// The views of a list of actions.
pub open spec fn plan(v: Seq<Action>) -> Seq<ActionView> {
    v.map_values(|a: Action| a@)
}

fn push_action(out: &mut Vec<Action>, a: Action)
    ensures
        plan(final(out)@) == plan(old(out)@).push(a@),
{
    out.push(a);
    proof {
        assert(plan(out@) =~= plan(old(out)@).push(a@));
    }
}

/// The top offset of the timer window for a pin state.
pub fn timer_top_for(pinned: bool) -> (r: u32)
    ensures
        r == timer_top(pinned),
{
    if pinned {
        24
    } else {
        12
    }
}

/// Operations that bring the planner to the front: the timer window goes
/// away, since the planner's own bar shows the countdown.
pub open spec fn show_main_plan(win: Windows) -> Seq<ActionView> {
    if win.timer is Some {
        seq![ActionView::ShowMain, ActionView::HideTimer]
    } else {
        seq![ActionView::ShowMain]
    }
}

fn push_show_main(win: &Windows, out: &mut Vec<Action>)
    ensures
        plan(final(out)@) == plan(old(out)@) + show_main_plan(*win),
{
    push_action(out, Action::ShowMain);
    if win.timer.is_some() {
        push_action(out, Action::HideTimer);
    }
    assert(plan(out@) =~= plan(old(out)@) + show_main_plan(*win));
}

/// Brings the planner window to the front and puts the timer window away.
pub fn show_main(win: &Windows) -> (r: Vec<Action>)
    ensures
        plan(r@) == show_main_plan(*win),
{
    let mut out = Vec::new();
    push_show_main(win, &mut out);
    assert(plan(out@) =~= show_main_plan(*win));
    out
}

/// Showing the timer window: nothing while the planner is on screen; else
/// the window takes its pin state and place and appears. An unpinned window
/// that was hidden also takes the focus, so that it can hide again when the
/// focus leaves, and ignores that for a moment; a pinned one never takes it.
pub open spec fn show_timer_step(s: ShellView, win: Windows) -> (ShellView, Seq<ActionView>) {
    if win.main_visible {
        (s, seq![])
    } else {
        match win.timer {
            None => (s, seq![]),
            Some(visible) => {
                let base = seq![
                    ActionView::TimerOnTop(s.pinned),
                    ActionView::PlaceTimer { top: timer_top(s.pinned) },
                ];
                let shown = if visible {
                    base
                } else {
                    base.push(ActionView::ShowTimerWindow)
                };
                if !s.pinned && !visible {
                    (
                        ShellView { suppress_blur: true, ..s },
                        shown + seq![
                            ActionView::FocusTimer,
                            ActionView::ReleaseBlurAfter(SHOW_BLUR_GUARD_MS),
                        ],
                    )
                } else {
                    (s, shown)
                }
            },
        }
    }
}

/// Toggling the timer from the tray icon: with no block running it opens
/// the planner; otherwise it hides a visible timer window and shows a
/// hidden one.
pub open spec fn toggle_timer_step(s: ShellView, win: Windows) -> (ShellView, Seq<ActionView>) {
    if !s.was_active {
        (s, show_main_plan(win))
    } else {
        match win.timer {
            None => (s, seq![]),
            Some(true) => (s, seq![ActionView::HideTimer]),
            Some(false) => show_timer_step(s, win),
        }
    }
}

/// The sound that a reminder plays: the chosen system sound, when sounds
/// are on or the sound is asked for explicitly.
pub open spec fn sound_plan(s: ShellView, force: bool) -> Seq<ActionView> {
    if force || s.sound_on {
        seq![ActionView::PlaySound(sound_file(s.sound_name))]
    } else {
        seq![]
    }
}

/// Showing a reminder: it plays its sound and marks a reminder as on
/// screen; the timer window gets the reminder's content (when it is valid
/// JSON), floats above everything and appears, even over the planner. It
/// does not take the focus, so the user can keep working in another app;
/// and while the reminder is on screen, losing the focus does not hide it.
pub open spec fn show_notif_step(s: ShellView, win: Windows, payload_is_json: bool) -> (ShellView, Seq<ActionView>) {
    let s1 = ShellView { notif_active: true, ..s };
    let sound = sound_plan(s, false);
    match win.timer {
        None => (s1, sound),
        Some(visible) => {
            let relay = if payload_is_json {
                seq![ActionView::Relay(Relay::NotifyToTimer)]
            } else {
                seq![]
            };
            let shown = if visible {
                seq![]
            } else {
                seq![ActionView::ShowTimerWindow]
            };
            (
                s1,
                sound + relay + seq![
                    ActionView::PlaceTimer { top: timer_top(s.pinned) },
                    ActionView::TimerOnTop(true),
                ] + shown,
            )
        },
    }
}

impl Shell {
    /// The state at start-up: nothing running, nothing pinned, sounds on
    /// with the default sound, countdown in the menu bar on.
    pub fn new() -> (r: Shell)
        ensures
            r@ == initial_shell(),
    {
        Shell {
            pinned: false,
            was_active: false,
            suppress_blur: false,
            notif_active: false,
            sound_on: true,
            sound_name: String::new(),
            tray_end_ms: 0,
            tray_paused: false,
            tray_paused_rem: 0,
            tray_on: true,
        }
    }

    fn push_show_timer(&mut self, win: &Windows, out: &mut Vec<Action>)
        ensures
            final(self)@ == show_timer_step(old(self)@, *win).0,
            plan(final(out)@) == plan(old(out)@) + show_timer_step(old(self)@, *win).1,
    {
        if win.main_visible {
            assert(plan(out@) =~= plan(old(out)@) + show_timer_step(old(self)@, *win).1);
            return;
        }
        match win.timer {
            None => {
                assert(plan(out@) =~= plan(old(out)@) + show_timer_step(old(self)@, *win).1);
            },
            Some(visible) => {
                let pinned = self.pinned;
                push_action(out, Action::TimerOnTop(pinned));
                push_action(out, Action::PlaceTimer { top: timer_top_for(pinned) });
                if !visible {
                    push_action(out, Action::ShowTimerWindow);
                }
                if !pinned && !visible {
                    push_action(out, Action::FocusTimer);
                    self.suppress_blur = true;
                    push_action(out, Action::ReleaseBlurAfter(SHOW_BLUR_GUARD_MS));
                }
                assert(plan(out@) =~= plan(old(out)@) + show_timer_step(old(self)@, *win).1);
            },
        }
    }

    /// Shows the detached timer window, as the pin state wants it.
    pub fn show_timer(&mut self, win: &Windows) -> (r: Vec<Action>)
        ensures
            final(self)@ == show_timer_step(old(self)@, *win).0,
            plan(r@) == show_timer_step(old(self)@, *win).1,
    {
        let mut out = Vec::new();
        self.push_show_timer(win, &mut out);
        assert(plan(out@) =~= show_timer_step(old(self)@, *win).1);
        out
    }

    /// A left click on the tray icon.
    pub fn toggle_timer(&mut self, win: &Windows) -> (r: Vec<Action>)
        ensures
            final(self)@ == toggle_timer_step(old(self)@, *win).0,
            plan(r@) == toggle_timer_step(old(self)@, *win).1,
    {
        if !self.was_active {
            return show_main(win);
        }
        match win.timer {
            None => Vec::new(),
            Some(true) => {
                let mut out = Vec::new();
                push_action(&mut out, Action::HideTimer);
                assert(plan(out@) =~= seq![ActionView::HideTimer]);
                out
            },
            Some(false) => self.show_timer(win),
        }
    }

    /// The sound file to play for a reminder, if any: sounds can be off,
    /// unless `force` asks for the sound anyway (a preview in the settings).
    pub fn play_notif_sound(&self, force: bool) -> (r: Option<String>)
        ensures
            r is Some <==> (force || self.sound_on),
            r matches Some(p) ==> p@ == sound_file(self.sound_name@),
    {
        if !force && !self.sound_on {
            return None;
        }
        Some(sound_path(self.sound_name.as_str()))
    }

    /// Shows a reminder in the timer window, over everything, even while the
    /// planner is open, without taking the focus; `payload_is_json` tells
    /// whether the reminder's message can be passed on to the timer window.
    pub fn show_notif(&mut self, win: &Windows, payload_is_json: bool) -> (r: Vec<Action>)
        ensures
            final(self)@ == show_notif_step(old(self)@, *win, payload_is_json).0,
            plan(r@) == show_notif_step(old(self)@, *win, payload_is_json).1,
    {
        let mut out = Vec::new();
        self.notif_active = true;
        match self.play_notif_sound(false) {
            Some(path) => push_action(&mut out, Action::PlaySound(path)),
            None => {},
        }
        match win.timer {
            None => {},
            Some(visible) => {
                if payload_is_json {
                    push_action(&mut out, Action::Relay(Relay::NotifyToTimer));
                }
                push_action(&mut out, Action::PlaceTimer { top: timer_top_for(self.pinned) });
                push_action(&mut out, Action::TimerOnTop(true));
                if !visible {
                    push_action(&mut out, Action::ShowTimerWindow);
                }
            },
        }
        assert(plan(out@) =~= show_notif_step(old(self)@, *win, payload_is_json).1);
        out
    }
}

/// An update that the planner sends for the menu bar and the Dock
/// (`pt-app`). Each field is there only when the message carries that key
/// with a value of the expected kind; `title` and `badge` are there
/// whenever their key is, their inner value only when it is a string, an
/// integer respectively.
pub struct AppUpdate {
    pub sound: Option<bool>,
    pub sound_name: Option<String>,
    pub title: Option<Option<String>>,
    pub visible: Option<bool>,
    pub badge: Option<Option<i64>>,
}

/// The mathematical view of an [`AppUpdate`].
pub struct AppUpdateView {
    pub sound: Option<bool>,
    pub sound_name: Option<Seq<char>>,
    pub title: Option<Option<Seq<char>>>,
    pub visible: Option<bool>,
    pub badge: Option<Option<i64>>,
}

impl View for AppUpdate {
    type V = AppUpdateView;

    open spec fn view(&self) -> AppUpdateView {
        AppUpdateView {
            sound: self.sound,
            sound_name: opt_string(self.sound_name),
            title: match self.title {
                Some(t) => Some(opt_string(t)),
                None => None,
            },
            visible: self.visible,
            badge: self.badge,
        }
    }
}

/// The text beside the tray icon for a title the planner sent: none while
/// the timer window is on screen (it shows the countdown itself) or when
/// the title is empty or not a string.
pub open spec fn tray_title(title: Option<Seq<char>>, box_visible: bool) -> Option<Seq<char>> {
    match title {
        Some(t) => if box_visible || t.len() == 0 {
            None
        } else {
            Some(t)
        },
        None => None,
    }
}

/// The Dock badge for a count the planner sent: only a positive integer
/// shows.
pub open spec fn badge_count(n: Option<i64>) -> Option<i64> {
    match n {
        Some(k) => if k > 0 {
            Some(k)
        } else {
            None
        },
        None => None,
    }
}

/// Applying a planner update: the sound preference and the sound's name
/// (cleaned to letters and digits) are kept; the tray title, the tray
/// icon's visibility and the badge are set when the update names them.
pub open spec fn apply_pt_step(s: ShellView, u: AppUpdateView, win: Windows) -> (ShellView, Seq<ActionView>) {
    let s1 = match u.sound {
        Some(b) => ShellView { sound_on: b, ..s },
        None => s,
    };
    let s2 = match u.sound_name {
        Some(n) => ShellView { sound_name: alnum_only(n), ..s1 },
        None => s1,
    };
    let box_visible = win.timer == Some(true);
    let title = match u.title {
        Some(t) => seq![ActionView::TrayTitle(tray_title(t, box_visible))],
        None => seq![],
    };
    let shown = match u.visible {
        Some(v) => seq![ActionView::TrayVisible(v)],
        None => seq![],
    };
    let badge = match u.badge {
        Some(n) => seq![ActionView::Badge(badge_count(n))],
        None => seq![],
    };
    (s2, title + shown + badge)
}

/// The planner's timer state (`pt-timer`). The end time and the paused
/// remainder are whole milliseconds and seconds, already taken from the
/// message's numbers (zero where the message has none).
#[derive(Clone, Copy, Debug, PartialEq, Eq)]
pub struct TimerUpdate {
    pub active: Option<bool>,
    pub end_ms: i64,
    pub paused_rem: i64,
    pub paused: Option<bool>,
    pub tray: Option<bool>,
}

/// Receiving the planner's timer state: while a block runs, the countdown
/// data is kept, and the timer window appears only when the day starts (the
/// first active update after an inactive one), so that a window the user
/// closed stays closed; when no block runs, the countdown leaves the menu
/// bar and the timer window hides, unless a reminder is on screen. The
/// state goes on to the timer window in every case.
pub open spec fn timer_update_step(s: ShellView, ev: TimerUpdate, win: Windows) -> (ShellView, Seq<ActionView>) {
    let active = ev.active == Some(true);
    if active {
        let s1 = ShellView {
            tray_end_ms: ev.end_ms,
            tray_paused: ev.paused == Some(true),
            tray_paused_rem: ev.paused_rem,
            tray_on: ev.tray != Some(false),
            was_active: true,
            ..s
        };
        if s.was_active {
            (s1, seq![ActionView::Relay(Relay::StateToTimer)])
        } else {
            let (s2, shown) = show_timer_step(s1, win);
            (s2, shown.push(ActionView::Relay(Relay::StateToTimer)))
        }
    } else {
        let s1 = ShellView { tray_on: false, was_active: false, ..s };
        let hide = if !s.notif_active && win.timer is Some {
            seq![ActionView::HideTimer]
        } else {
            seq![]
        };
        (
            s1,
            seq![ActionView::TrayTitle(None)] + hide + seq![ActionView::Relay(Relay::StateToTimer)],
        )
    }
}

/// A command from the timer window (`pt-timer-action`).
#[derive(Clone, Copy, Debug, PartialEq, Eq)]
pub enum TimerCommand {
    /// The window fits itself to its content; `has_height` tells whether the
    /// command carried a numeric height.
    Resize { has_height: bool },
    /// "Got it" on a reminder.
    NotifClose,
    /// "Yes" to a reminder's question.
    NotifYes,
    /// "Later" on a reminder.
    NotifSnooze,
    /// Hide the window.
    Hide,
    /// Open the planner.
    Open,
    /// Pin or unpin the window; the flag is there when the command carried a
    /// boolean `on`.
    Pin(Option<bool>),
    /// Anything else.
    Other,
}

/// The command that a `pt-timer-action` message names with its `a` field.
pub open spec fn command_of(kind: Option<Seq<char>>, has_height: bool, pin: Option<bool>) -> TimerCommand {
    match kind {
        Some(k) => if k == "resize"@ {
            TimerCommand::Resize { has_height }
        } else if k == "notif-close"@ {
            TimerCommand::NotifClose
        } else if k == "notif-yes"@ {
            TimerCommand::NotifYes
        } else if k == "notif-snooze"@ {
            TimerCommand::NotifSnooze
        } else if k == "hide"@ {
            TimerCommand::Hide
        } else if k == "open"@ {
            TimerCommand::Open
        } else if k == "pin"@ {
            TimerCommand::Pin(pin)
        } else {
            TimerCommand::Other
        },
        None => TimerCommand::Other,
    }
}

/// Reads the command of a `pt-timer-action` message from its `a` field.
pub fn timer_command(kind: Option<&str>, has_height: bool, pin: Option<bool>) -> (r: TimerCommand)
    ensures
        r == command_of(opt_text(kind), has_height, pin),
{
    match kind {
        None => TimerCommand::Other,
        Some(k) => {
            if same_text(k, "resize") {
                TimerCommand::Resize { has_height }
            } else if same_text(k, "notif-close") {
                TimerCommand::NotifClose
            } else if same_text(k, "notif-yes") {
                TimerCommand::NotifYes
            } else if same_text(k, "notif-snooze") {
                TimerCommand::NotifSnooze
            } else if same_text(k, "hide") {
                TimerCommand::Hide
            } else if same_text(k, "open") {
                TimerCommand::Open
            } else if same_text(k, "pin") {
                TimerCommand::Pin(pin)
            } else {
                TimerCommand::Other
            }
        },
    }
}

/// Putting a reminder away ("got it" or "later"): the window goes back to
/// its pin state and hides if the planner is on screen or no block runs.
pub open spec fn dismiss_notif_step(s: ShellView, win: Windows) -> (ShellView, Seq<ActionView>) {
    let s1 = ShellView { notif_active: false, ..s };
    match win.timer {
        None => (s1, seq![]),
        Some(_) => {
            let hide = if win.main_visible || !s.was_active {
                seq![ActionView::HideTimer]
            } else {
                seq![]
            };
            (s1, seq![ActionView::TimerOnTop(s.pinned)] + hide)
        },
    }
}

/// Carrying out a command from the timer window; the command then goes on
/// to the planner in every case.
pub open spec fn timer_action_step(s: ShellView, cmd: TimerCommand, win: Windows) -> (ShellView, Seq<ActionView>) {
    let (s1, acts) = match cmd {
        TimerCommand::Resize { has_height } => (
            s,
            if win.timer is Some && has_height {
                seq![ActionView::ResizeTimer, ActionView::PlaceTimer { top: timer_top(s.pinned) }]
            } else {
                seq![]
            },
        ),
        TimerCommand::NotifClose => dismiss_notif_step(s, win),
        TimerCommand::NotifYes => {
            let on_top = if win.timer is Some {
                seq![ActionView::TimerOnTop(s.pinned)]
            } else {
                seq![]
            };
            (
                ShellView { notif_active: false, ..s },
                on_top + show_main_plan(win) + seq![ActionView::Relay(Relay::NotifYesToMain)],
            )
        },
        TimerCommand::NotifSnooze => {
            let (s2, a) = dismiss_notif_step(s, win);
            (s2, a.push(ActionView::ScheduleNotif))
        },
        TimerCommand::Hide => (
            s,
            if win.timer is Some {
                seq![ActionView::HideTimer]
            } else {
                seq![]
            },
        ),
        TimerCommand::Open => (s, show_main_plan(win)),
        TimerCommand::Pin(flag) => {
            let on = flag == Some(true);
            let s2 = ShellView { pinned: on, ..s };
            match win.timer {
                None => (s2, seq![]),
                Some(visible) => {
                    let base = seq![
                        ActionView::TimerOnTop(on),
                        ActionView::PlaceTimer { top: timer_top(on) },
                    ];
                    (s2, if visible {
                        base
                    } else {
                        base.push(ActionView::ShowTimerWindow)
                    })
                },
            }
        },
        TimerCommand::Other => (s, seq![]),
    };
    (s1, acts.push(ActionView::Relay(Relay::CmdToMain)))
}

/// The timer window lost the focus: an unpinned window hides, unless it has
/// just appeared or shows a reminder.
pub open spec fn blur_plan(s: ShellView) -> Seq<ActionView> {
    if !s.pinned && !s.suppress_blur && !s.notif_active {
        seq![ActionView::HideTimer]
    } else {
        seq![]
    }
}

/// Closing the planner window only hides it; with a block running the
/// timer window then takes its place.
pub open spec fn main_close_step(s: ShellView, win: Windows) -> (ShellView, Seq<ActionView>) {
    if s.was_active {
        let (s1, shown) = show_timer_step(s, Windows { main_visible: false, ..win });
        (s1, seq![ActionView::HideMain] + shown)
    } else {
        (s, seq![ActionView::HideMain])
    }
}

/// `a / b` rounded toward zero, as Rust's integer division does.
pub open spec fn div_toward_zero(a: int, b: int) -> int {
    if a >= 0 {
        a / b
    } else {
        -((-a) / b)
    }
}

/// The seconds that the menu-bar countdown shows at `now_ms`: the kept
/// remainder while paused, else the whole seconds to the end of the block.
pub open spec fn countdown_secs(s: ShellView, now_ms: i64) -> int {
    if s.tray_paused {
        s.tray_paused_rem as int
    } else {
        div_toward_zero(s.tray_end_ms - now_ms, 1000)
    }
}

/// Whether the countdown can be computed at `now_ms` without leaving `i64`.
pub open spec fn countdown_fits(s: ShellView, now_ms: i64) -> bool {
    s.tray_paused || (i64::MIN <= s.tray_end_ms - now_ms <= i64::MAX)
}

/// The once-a-second countdown in the menu bar: it shows while a block runs
/// with the countdown on, and the timer window is not on screen.
pub open spec fn tray_tick_plan(s: ShellView, win: Windows, now_ms: i64) -> Seq<ActionView> {
    if !s.was_active || !s.tray_on || win.timer == Some(true) {
        seq![]
    } else {
        seq![ActionView::TrayTitle(Some(tray_text(countdown_secs(s, now_ms))))]
    }
}

/// An entry of the tray icon's menu.
#[derive(Clone, Copy, Debug, PartialEq, Eq)]
pub enum MenuItem {
    /// "Apri PIM Tomato": open the planner.
    Open,
    /// "Mostra timer": show the timer window.
    Timer,
    /// "Esci": quit.
    Quit,
    /// Any other id.
    Other,
}

/// The menu entry with a given id.
pub open spec fn menu_item_of(id: Seq<char>) -> MenuItem {
    if id == "open"@ {
        MenuItem::Open
    } else if id == "timer"@ {
        MenuItem::Timer
    } else if id == "quit"@ {
        MenuItem::Quit
    } else {
        MenuItem::Other
    }
}

/// Reads the menu entry of a menu event's id.
pub fn menu_item(id: &str) -> (r: MenuItem)
    ensures
        r == menu_item_of(id@),
{
    if same_text(id, "open") {
        MenuItem::Open
    } else if same_text(id, "timer") {
        MenuItem::Timer
    } else if same_text(id, "quit") {
        MenuItem::Quit
    } else {
        MenuItem::Other
    }
}

/// Choosing an entry of the tray icon's menu.
pub open spec fn menu_step(s: ShellView, item: MenuItem, win: Windows) -> (ShellView, Seq<ActionView>) {
    match item {
        MenuItem::Open => (s, show_main_plan(win)),
        MenuItem::Timer => show_timer_step(s, win),
        MenuItem::Quit => (s, seq![ActionView::Exit]),
        MenuItem::Other => (s, seq![]),
    }
}

/// Leaving the splash screen: the planner appears and the splash closes.
pub open spec fn finish_splash_plan() -> Seq<ActionView> {
    seq![ActionView::RevealMain, ActionView::CloseSplash]
}

/// The splash screen said it is done.
pub fn finish_splash() -> (r: Vec<Action>)
    ensures
        plan(r@) == finish_splash_plan(),
{
    let mut out = Vec::new();
    push_action(&mut out, Action::RevealMain);
    push_action(&mut out, Action::CloseSplash);
    assert(plan(out@) =~= finish_splash_plan());
    out
}

/// The splash screen's time ran out: if it is still open, the planner
/// appears anyway.
pub fn splash_timeout(splash_open: bool) -> (r: Vec<Action>)
    ensures
        plan(r@) == (if splash_open {
            finish_splash_plan()
        } else {
            Seq::<ActionView>::empty()
        }),
{
    if splash_open {
        finish_splash()
    } else {
        let out = Vec::new();
        assert(plan(out@) =~= Seq::<ActionView>::empty());
        out
    }
}

impl Shell {
    /// Applies an update from the planner (`pt-app`): sound preferences,
    /// the tray's countdown title and visibility, the Dock badge.
    pub fn apply_update(&mut self, u: &AppUpdate, win: &Windows) -> (r: Vec<Action>)
        ensures
            final(self)@ == apply_pt_step(old(self)@, u@, *win).0,
            plan(r@) == apply_pt_step(old(self)@, u@, *win).1,
    {
        let mut out = Vec::new();
        match u.sound {
            Some(b) => self.sound_on = b,
            None => {},
        }
        match &u.sound_name {
            Some(n) => self.sound_name = clean_sound_name(n.as_str()),
            None => {},
        }
        let box_visible = match win.timer {
            Some(v) => v,
            None => false,
        };
        match &u.title {
            Some(t) => {
                let shown = match t {
                    Some(text) => {
                        if box_visible || text.as_str().unicode_len() == 0 {
                            None
                        } else {
                            Some(text.clone())
                        }
                    },
                    None => None,
                };
                push_action(&mut out, Action::TrayTitle(shown));
            },
            None => {},
        }
        match u.visible {
            Some(v) => push_action(&mut out, Action::TrayVisible(v)),
            None => {},
        }
        match u.badge {
            Some(n) => {
                let count = match n {
                    Some(k) => if k > 0 {
                        Some(k)
                    } else {
                        None
                    },
                    None => None,
                };
                push_action(&mut out, Action::Badge(count));
            },
            None => {},
        }
        assert(plan(out@) =~= apply_pt_step(old(self)@, u@, *win).1);
        out
    }

    /// Receives the planner's timer state (`pt-timer`).
    pub fn on_timer_update(&mut self, ev: &TimerUpdate, win: &Windows) -> (r: Vec<Action>)
        ensures
            final(self)@ == timer_update_step(old(self)@, *ev, *win).0,
            plan(r@) == timer_update_step(old(self)@, *ev, *win).1,
    {
        let mut out = Vec::new();
        let active = match ev.active {
            Some(b) => b,
            None => false,
        };
        if active {
            self.tray_end_ms = ev.end_ms;
            self.tray_paused = match ev.paused {
                Some(b) => b,
                None => false,
            };
            self.tray_paused_rem = ev.paused_rem;
            self.tray_on = match ev.tray {
                Some(b) => b,
                None => true,
            };
            let was = self.was_active;
            self.was_active = true;
            if !was {
                self.push_show_timer(win, &mut out);
            }
        } else {
            self.tray_on = false;
            self.was_active = false;
            push_action(&mut out, Action::TrayTitle(None));
            if !self.notif_active && win.timer.is_some() {
                push_action(&mut out, Action::HideTimer);
            }
        }
        push_action(&mut out, Action::Relay(Relay::StateToTimer));
        assert(plan(out@) =~= timer_update_step(old(self)@, *ev, *win).1);
        out
    }

    fn push_dismiss_notif(&mut self, win: &Windows, out: &mut Vec<Action>)
        ensures
            final(self)@ == dismiss_notif_step(old(self)@, *win).0,
            plan(final(out)@) == plan(old(out)@) + dismiss_notif_step(old(self)@, *win).1,
    {
        self.notif_active = false;
        match win.timer {
            None => {},
            Some(_) => {
                push_action(out, Action::TimerOnTop(self.pinned));
                if win.main_visible || !self.was_active {
                    push_action(out, Action::HideTimer);
                }
            },
        }
        assert(plan(out@) =~= plan(old(out)@) + dismiss_notif_step(old(self)@, *win).1);
    }

    /// Carries out a command from the timer window (`pt-timer-action`).
    pub fn on_timer_action(&mut self, cmd: TimerCommand, win: &Windows) -> (r: Vec<Action>)
        ensures
            final(self)@ == timer_action_step(old(self)@, cmd, *win).0,
            plan(r@) == timer_action_step(old(self)@, cmd, *win).1,
    {
        let mut out = Vec::new();
        match cmd {
            TimerCommand::Resize { has_height } => {
                if win.timer.is_some() && has_height {
                    push_action(&mut out, Action::ResizeTimer);
                    push_action(&mut out, Action::PlaceTimer { top: timer_top_for(self.pinned) });
                }
            },
            TimerCommand::NotifClose => {
                self.push_dismiss_notif(win, &mut out);
            },
            TimerCommand::NotifYes => {
                self.notif_active = false;
                if win.timer.is_some() {
                    push_action(&mut out, Action::TimerOnTop(self.pinned));
                }
                push_show_main(win, &mut out);
                push_action(&mut out, Action::Relay(Relay::NotifYesToMain));
            },
            TimerCommand::NotifSnooze => {
                self.push_dismiss_notif(win, &mut out);
                push_action(&mut out, Action::ScheduleNotif);
            },
            TimerCommand::Hide => {
                if win.timer.is_some() {
                    push_action(&mut out, Action::HideTimer);
                }
            },
            TimerCommand::Open => {
                push_show_main(win, &mut out);
            },
            TimerCommand::Pin(flag) => {
                let on = match flag {
                    Some(b) => b,
                    None => false,
                };
                self.pinned = on;
                match win.timer {
                    None => {},
                    Some(visible) => {
                        push_action(&mut out, Action::TimerOnTop(on));
                        push_action(&mut out, Action::PlaceTimer { top: timer_top_for(on) });
                        if !visible {
                            push_action(&mut out, Action::ShowTimerWindow);
                        }
                    },
                }
            },
            TimerCommand::Other => {},
        }
        push_action(&mut out, Action::Relay(Relay::CmdToMain));
        assert(plan(out@) =~= timer_action_step(old(self)@, cmd, *win).1);
        out
    }

    /// The timer window lost the focus.
    pub fn on_timer_blur(&self) -> (r: Vec<Action>)
        ensures
            plan(r@) == blur_plan(self@),
    {
        let mut out = Vec::new();
        if !self.pinned && !self.suppress_blur && !self.notif_active {
            push_action(&mut out, Action::HideTimer);
        }
        assert(plan(out@) =~= blur_plan(self@));
        out
    }

    /// The moment after the timer window appeared is over: losing the
    /// focus counts again.
    pub fn release_blur(&mut self)
        ensures
            final(self)@ == (ShellView { suppress_blur: false, ..old(self)@ }),
    {
        self.suppress_blur = false;
    }

    /// The user closed the planner window.
    pub fn on_main_close(&mut self, win: &Windows) -> (r: Vec<Action>)
        ensures
            final(self)@ == main_close_step(old(self)@, *win).0,
            plan(r@) == main_close_step(old(self)@, *win).1,
    {
        let mut out = Vec::new();
        push_action(&mut out, Action::HideMain);
        if self.was_active {
            let hidden = Windows { main_visible: false, timer: win.timer };
            self.push_show_timer(&hidden, &mut out);
        }
        assert(plan(out@) =~= main_close_step(old(self)@, *win).1);
        out
    }

    /// The seconds left in the current block at `now_ms`.
    pub fn countdown(&self, now_ms: i64) -> (r: i64)
        requires
            countdown_fits(self@, now_ms),
        ensures
            r == countdown_secs(self@, now_ms),
    {
        if self.tray_paused {
            self.tray_paused_rem
        } else {
            (self.tray_end_ms - now_ms) / 1000
        }
    }

    /// Whether [`Shell::countdown`] can be computed at `now_ms`.
    pub fn can_count_down(&self, now_ms: i64) -> (r: bool)
        ensures
            r == countdown_fits(self@, now_ms),
    {
        self.tray_paused || self.tray_end_ms.checked_sub(now_ms).is_some()
    }

    /// The menu-bar countdown's tick, once a second.
    pub fn tray_tick(&self, win: &Windows, now_ms: i64) -> (r: Vec<Action>)
        requires
            countdown_fits(self@, now_ms),
        ensures
            plan(r@) == tray_tick_plan(self@, *win, now_ms),
    {
        let mut out = Vec::new();
        let box_visible = match win.timer {
            Some(v) => v,
            None => false,
        };
        if !self.was_active || !self.tray_on || box_visible {
            assert(plan(out@) =~= tray_tick_plan(self@, *win, now_ms));
            return out;
        }
        let sec = self.countdown(now_ms);
        push_action(&mut out, Action::TrayTitle(Some(fmt_tray(sec))));
        assert(plan(out@) =~= tray_tick_plan(self@, *win, now_ms));
        out
    }

    /// An entry of the tray icon's menu was chosen.
    pub fn on_menu(&mut self, item: MenuItem, win: &Windows) -> (r: Vec<Action>)
        ensures
            final(self)@ == menu_step(old(self)@, item, *win).0,
            plan(r@) == menu_step(old(self)@, item, *win).1,
    {
        match item {
            MenuItem::Open => show_main(win),
            MenuItem::Timer => self.show_timer(win),
            MenuItem::Quit => {
                let mut out = Vec::new();
                push_action(&mut out, Action::Exit);
                assert(plan(out@) =~= seq![ActionView::Exit]);
                out
            },
            MenuItem::Other => {
                let out = Vec::new();
                assert(plan(out@) =~= Seq::<ActionView>::empty());
                out
            },
        }
    }
}

} // verus!
