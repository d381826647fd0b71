//! What each event does to the shell, stated field by field and operation
//! by operation in terms of the event's inputs.
use vstd::prelude::*;
use crate::shell::{
    apply_pt_step, blur_plan, main_close_step, menu_step, show_main_plan, show_notif_step,
    show_timer_step, timer_action_step, timer_update_step, toggle_timer_step, tray_tick_plan,
    ActionView, AppUpdateView, MenuItem, Relay, ShellView, TimerCommand, TimerUpdate, Windows,
};
use crate::text::{alnum_only, is_ascii_alnum, sound_file};

verus! {

/// The path of the sound file that a reminder plays: the system sound of
/// that name, or "Glass" when no name is set.
pub proof fn lemma_sound_file_path(name: Seq<char>)
    ensures
        name.len() > 0 ==> sound_file(name) == "/System/Library/Sounds/"@ + name + ".aiff"@,
        name.len() == 0 ==> sound_file(name) == "/System/Library/Sounds/"@ + "Glass"@ + ".aiff"@,
{
}

/// Bringing the planner to the front shows the planner first, then hides
/// the timer window whenever there is one, and does nothing else.
pub proof fn lemma_show_main_ops(win: Windows)
    ensures
        show_main_plan(win)[0] == ActionView::ShowMain,
        win.timer is Some ==> show_main_plan(win) == seq![ActionView::ShowMain, ActionView::HideTimer],
        win.timer is None ==> show_main_plan(win) == seq![ActionView::ShowMain],
{
}

/// Showing the timer window with the planner on screen, or without a timer
/// window, changes nothing.
pub proof fn lemma_show_timer_nothing(s: ShellView, win: Windows)
    requires
        win.main_visible || win.timer is None,
    ensures
        show_timer_step(s, win).0 == s,
        show_timer_step(s, win).1.len() == 0,
{
}

/// Showing the timer window: it first takes the pin state's float and
/// place, appears when it was hidden, and takes the focus exactly when it
/// was hidden and is not pinned; only then does losing the focus start
/// being ignored. Nothing else in the state changes.
pub proof fn lemma_show_timer_ops(s: ShellView, win: Windows, visible: bool)
    requires
        !win.main_visible,
        win.timer == Some(visible),
    ensures
        ({
            let (t, a) = show_timer_step(s, win);
            &&& a[0] == ActionView::TimerOnTop(s.pinned)
            &&& a[1] == (ActionView::PlaceTimer { top: if s.pinned { 24 } else { 12 } })
            &&& a.contains(ActionView::ShowTimerWindow) <==> !visible
            &&& a.contains(ActionView::FocusTimer) <==> (!s.pinned && !visible)
            &&& !a.contains(ActionView::HideTimer)
            &&& t == ShellView { suppress_blur: s.suppress_blur || (!s.pinned && !visible), ..s }
        }),
{
    let a = show_timer_step(s, win).1;
    if !visible {
        assert(a[2] == ActionView::ShowTimerWindow);
        if !s.pinned {
            assert(a[3] == ActionView::FocusTimer);
        } else {
            assert forall|i: int| 0 <= i < a.len() implies a[i] != ActionView::FocusTimer by {}
        }
    } else {
        assert forall|i: int| 0 <= i < a.len() implies a[i] != ActionView::ShowTimerWindow by {}
        assert forall|i: int| 0 <= i < a.len() implies a[i] != ActionView::FocusTimer by {}
    }
    assert forall|i: int| 0 <= i < a.len() implies a[i] != ActionView::HideTimer by {}
}

/// An update saying a block runs keeps exactly the countdown data it
/// carries, whatever was kept before: the end time, the paused remainder,
/// paused only when it says `paused: true`, the countdown in the menu bar
/// unless it says `tray: false`. The pin state, the reminder and the sound
/// settings stay.
pub proof fn lemma_active_update_keeps_countdown(s: ShellView, ev: TimerUpdate, win: Windows)
    requires
        ev.active == Some(true),
    ensures
        ({
            let t = timer_update_step(s, ev, win).0;
            &&& t.was_active
            &&& t.tray_end_ms == ev.end_ms
            &&& t.tray_paused_rem == ev.paused_rem
            &&& (t.tray_paused <==> ev.paused == Some(true))
            &&& (t.tray_on <==> ev.tray != Some(false))
            &&& t.pinned == s.pinned
            &&& t.notif_active == s.notif_active
            &&& t.sound_on == s.sound_on
            &&& t.sound_name == s.sound_name
        }),
        s.was_active ==> timer_update_step(s, ev, win).1 == seq![ActionView::Relay(Relay::StateToTimer)],
        !s.was_active ==> timer_update_step(s, ev, win).1 == show_timer_step(
            ShellView { suppress_blur: s.suppress_blur, ..timer_update_step(s, ev, win).0 },
            win,
        ).1.push(ActionView::Relay(Relay::StateToTimer)),
{
}

/// An update saying no block runs ends the day: no block is running, the
/// countdown leaves the menu bar, the kept countdown data and everything
/// else stay; the operations are clearing the tray title, hiding the timer
/// window when there is one and no reminder is up, and passing the state on.
pub proof fn lemma_inactive_update(s: ShellView, ev: TimerUpdate, win: Windows)
    requires
        ev.active != Some(true),
    ensures
        timer_update_step(s, ev, win).0 == (ShellView { was_active: false, tray_on: false, ..s }),
        (!s.notif_active && win.timer is Some) ==> timer_update_step(s, ev, win).1 == seq![
            ActionView::TrayTitle(None),
            ActionView::HideTimer,
            ActionView::Relay(Relay::StateToTimer),
        ],
        !(!s.notif_active && win.timer is Some) ==> timer_update_step(s, ev, win).1 == seq![
            ActionView::TrayTitle(None),
            ActionView::Relay(Relay::StateToTimer),
        ],
{
}

/// A planner update sets the sound switch to what it carries and keeps it
/// otherwise; a sound name it carries replaces the kept one, cleaned to its
/// letters and digits; nothing else in the state changes.
pub proof fn lemma_update_sound_settings(s: ShellView, u: AppUpdateView, win: Windows)
    ensures
        ({
            let t = apply_pt_step(s, u, win).0;
            &&& (u.sound matches Some(b) ==> t.sound_on == b)
            &&& (u.sound is None ==> t.sound_on == s.sound_on)
            &&& (u.sound_name matches Some(n) ==> t.sound_name == alnum_only(n))
            &&& (u.sound_name is None ==> t.sound_name == s.sound_name)
            &&& t == ShellView { sound_on: t.sound_on, sound_name: t.sound_name, ..s }
        }),
{
}

/// A planner update with a count shows that count on the Dock badge when it
/// is positive, and clears the badge otherwise; a badge that is not an
/// integer clears it; without a badge the Dock is left alone. The badge is
/// the last operation.
pub proof fn lemma_update_badge(s: ShellView, u: AppUpdateView, win: Windows, k: i64)
    ensures
        (u.badge == Some(Some(k)) && k > 0) ==> (apply_pt_step(s, u, win).1.last() == ActionView::Badge(Some(k))),
        (u.badge == Some(Some(k)) && k <= 0) ==> (apply_pt_step(s, u, win).1.last() == ActionView::Badge(None)),
        (u.badge == Some(Option::<i64>::None)) ==> (apply_pt_step(s, u, win).1.last() == ActionView::Badge(None)),
        (u.badge is None) ==> (forall|i: int|
            0 <= i < apply_pt_step(s, u, win).1.len() ==> !(#[trigger] apply_pt_step(s, u, win).1[i] is Badge)),
{
}

/// A planner update with a title sets the tray title first: the text
/// itself when it is a non-empty string and the timer window is not on
/// screen, no title otherwise; the icon is shown or hidden as the update
/// says.
pub proof fn lemma_update_title_and_icon(s: ShellView, u: AppUpdateView, win: Windows, t: Seq<char>, v: bool)
    ensures
        (u.title == Some(Some(t))) ==> (apply_pt_step(s, u, win).1[0] == ActionView::TrayTitle(
            if win.timer != Some(true) && t.len() > 0 { Some(t) } else { None },
        )),
        (u.title == Some(Option::<Seq<char>>::None)) ==> (apply_pt_step(s, u, win).1[0] == ActionView::TrayTitle(None)),
        (u.visible == Some(v)) ==> (apply_pt_step(s, u, win).1.contains(ActionView::TrayVisible(v))),
        (u.title is None && u.visible is None && u.badge is None) ==> (apply_pt_step(s, u, win).1.len() == 0),
{
    let a = apply_pt_step(s, u, win).1;
    if u.visible == Some(v) {
        if u.title is Some {
            assert(a[1] == ActionView::TrayVisible(v));
        } else {
            assert(a[0] == ActionView::TrayVisible(v));
        }
    }
}

/// A pin command sets the pin state to exactly the flag it carries (not
/// pinned when it carries none); an existing timer window floats and is
/// placed as that new state says, and appears if hidden. Nothing else in
/// the state changes.
pub proof fn lemma_pin_command(s: ShellView, flag: Option<bool>, win: Windows)
    ensures
        timer_action_step(s, TimerCommand::Pin(flag), win).0 == (ShellView { pinned: flag == Some(true), ..s }),
        win.timer is Some ==> timer_action_step(s, TimerCommand::Pin(flag), win).1[0]
            == ActionView::TimerOnTop(flag == Some(true)),
        win.timer is Some ==> timer_action_step(s, TimerCommand::Pin(flag), win).1[1]
            == (ActionView::PlaceTimer { top: if flag == Some(true) { 24 } else { 12 } }),
        win.timer == Some(false) ==> timer_action_step(s, TimerCommand::Pin(flag), win).1[2]
            == ActionView::ShowTimerWindow,
        win.timer is None ==> timer_action_step(s, TimerCommand::Pin(flag), win).1
            == seq![ActionView::Relay(Relay::CmdToMain)],
{
}

/// "Got it" on a reminder: no reminder is up any more and nothing else in
/// the state changes; an existing timer window goes back to floating as the
/// pin state says, and hides exactly when the planner is on screen or no
/// block runs.
pub proof fn lemma_notif_close(s: ShellView, win: Windows)
    ensures
        timer_action_step(s, TimerCommand::NotifClose, win).0 == (ShellView { notif_active: false, ..s }),
        win.timer is Some ==> timer_action_step(s, TimerCommand::NotifClose, win).1[0]
            == ActionView::TimerOnTop(s.pinned),
        win.timer is Some ==> (timer_action_step(s, TimerCommand::NotifClose, win).1.contains(ActionView::HideTimer)
            <==> (win.main_visible || !s.was_active)),
        win.timer is None ==> timer_action_step(s, TimerCommand::NotifClose, win).1
            == seq![ActionView::Relay(Relay::CmdToMain)],
{
    let a = timer_action_step(s, TimerCommand::NotifClose, win).1;
    if win.timer is Some {
        if win.main_visible || !s.was_active {
            assert(a[1] == ActionView::HideTimer);
        } else {
            assert forall|i: int| 0 <= i < a.len() implies a[i] != ActionView::HideTimer by {}
        }
    }
}

/// "Yes" on a reminder: no reminder is up any more, the planner comes to
/// the front, and the answer goes to the planner before the command.
pub proof fn lemma_notif_yes(s: ShellView, win: Windows)
    ensures
        timer_action_step(s, TimerCommand::NotifYes, win).0 == (ShellView { notif_active: false, ..s }),
        timer_action_step(s, TimerCommand::NotifYes, win).1.contains(ActionView::ShowMain),
        timer_action_step(s, TimerCommand::NotifYes, win).1.drop_last().last()
            == ActionView::Relay(Relay::NotifYesToMain),
        win.timer is Some ==> timer_action_step(s, TimerCommand::NotifYes, win).1[0]
            == ActionView::TimerOnTop(s.pinned),
        win.timer is Some ==> timer_action_step(s, TimerCommand::NotifYes, win).1.contains(ActionView::HideTimer),
{
    let a = timer_action_step(s, TimerCommand::NotifYes, win).1;
    if win.timer is Some {
        assert(a[1] == ActionView::ShowMain);
        assert(a[2] == ActionView::HideTimer);
    } else {
        assert(a[0] == ActionView::ShowMain);
    }
}

/// The other commands of the timer window: "open" does what bringing the
/// planner to the front does, "hide" hides an existing window, a resize
/// with a height resizes and re-places it, and an unknown command does
/// nothing; none of them changes the state, and each is passed on.
pub proof fn lemma_other_commands(s: ShellView, win: Windows, has_height: bool)
    ensures
        timer_action_step(s, TimerCommand::Open, win) == (s, show_main_plan(win).push(
            ActionView::Relay(Relay::CmdToMain),
        )),
        timer_action_step(s, TimerCommand::Hide, win) == (s, if win.timer is Some {
            seq![ActionView::HideTimer, ActionView::Relay(Relay::CmdToMain)]
        } else {
            seq![ActionView::Relay(Relay::CmdToMain)]
        }),
        timer_action_step(s, TimerCommand::Resize { has_height }, win) == (s, if win.timer is Some && has_height {
            seq![
                ActionView::ResizeTimer,
                (ActionView::PlaceTimer { top: if s.pinned { 24 } else { 12 } }),
                ActionView::Relay(Relay::CmdToMain),
            ]
        } else {
            seq![ActionView::Relay(Relay::CmdToMain)]
        }),
        timer_action_step(s, TimerCommand::Other, win) == (s, seq![ActionView::Relay(Relay::CmdToMain)]),
{
}

/// A reminder marks itself as up and changes nothing else in the state. It
/// first plays the sound file of the kept sound name when sounds are on,
/// and plays nothing when they are off; its content goes to the timer
/// window exactly when it is JSON and the window exists; the window floats,
/// takes the pin state's place and appears if hidden.
pub proof fn lemma_reminder_ops(s: ShellView, win: Windows, payload_is_json: bool)
    ensures
        show_notif_step(s, win, payload_is_json).0 == (ShellView { notif_active: true, ..s }),
        s.sound_on ==> show_notif_step(s, win, payload_is_json).1[0]
            == ActionView::PlaySound(sound_file(s.sound_name)),
        !s.sound_on ==> forall|i: int|
            0 <= i < show_notif_step(s, win, payload_is_json).1.len()
                ==> !(#[trigger] show_notif_step(s, win, payload_is_json).1[i] is PlaySound),
        show_notif_step(s, win, payload_is_json).1.contains(ActionView::Relay(Relay::NotifyToTimer))
            <==> (payload_is_json && win.timer is Some),
        win.timer is Some ==> show_notif_step(s, win, payload_is_json).1.contains(ActionView::TimerOnTop(true)),
        win.timer is Some ==> show_notif_step(s, win, payload_is_json).1.contains(
            (ActionView::PlaceTimer { top: if s.pinned { 24 } else { 12 } }),
        ),
        win.timer == Some(false) ==> show_notif_step(s, win, payload_is_json).1.contains(
            ActionView::ShowTimerWindow,
        ),
        win.timer is None ==> show_notif_step(s, win, payload_is_json).1.len() == (if s.sound_on {
            1int
        } else {
            0int
        }),
{
    let a = show_notif_step(s, win, payload_is_json).1;
    let k: int = if s.sound_on { 1 } else { 0 };
    match win.timer {
        Some(visible) => {
            let r: int = if payload_is_json { 1 } else { 0 };
            if payload_is_json {
                assert(a[k] == ActionView::Relay(Relay::NotifyToTimer));
            } else {
                assert forall|i: int| 0 <= i < a.len() implies a[i] != ActionView::Relay(Relay::NotifyToTimer) by {}
            }
            assert(a[k + r] == (ActionView::PlaceTimer { top: if s.pinned { 24 } else { 12 } }));
            assert(a[k + r + 1] == ActionView::TimerOnTop(true));
            if !visible {
                assert(a[k + r + 2] == ActionView::ShowTimerWindow);
            }
        },
        None => {
            assert forall|i: int| 0 <= i < a.len() implies a[i] != ActionView::Relay(Relay::NotifyToTimer) by {}
        },
    }
}

/// The tray menu: "open" shows the planner and hides an existing timer
/// window, the same as bringing the planner to the front from anywhere
/// else; "show timer" shows the timer window; "quit" quits; anything else
/// does nothing.
pub proof fn lemma_menu_entries(s: ShellView, win: Windows)
    ensures
        menu_step(s, MenuItem::Open, win) == (s, if win.timer is Some {
            seq![ActionView::ShowMain, ActionView::HideTimer]
        } else {
            seq![ActionView::ShowMain]
        }),
        menu_step(s, MenuItem::Open, win).1 == timer_action_step(s, TimerCommand::Open, win).1.drop_last(),
        menu_step(s, MenuItem::Timer, win) == show_timer_step(s, win),
        menu_step(s, MenuItem::Quit, win) == (s, seq![ActionView::Exit]),
        menu_step(s, MenuItem::Other, win) == (s, Seq::<ActionView>::empty()),
{
    assert(timer_action_step(s, TimerCommand::Open, win).1.drop_last() =~= show_main_plan(win));
}

/// The timer window losing the focus hides it exactly when it is not
/// pinned, has not just appeared, and shows no reminder.
pub proof fn lemma_blur(s: ShellView)
    ensures
        (!s.pinned && !s.suppress_blur && !s.notif_active) ==> blur_plan(s) == seq![ActionView::HideTimer],
        !(!s.pinned && !s.suppress_blur && !s.notif_active) ==> blur_plan(s).len() == 0,
{
}

/// Closing the planner hides it first; during a day the timer window then
/// shows as it would with the planner off screen.
pub proof fn lemma_main_close(s: ShellView, win: Windows)
    ensures
        main_close_step(s, win).1[0] == ActionView::HideMain,
        !s.was_active ==> main_close_step(s, win) == (s, seq![ActionView::HideMain]),
        s.was_active ==> main_close_step(s, win).0 == show_timer_step(s, Windows { main_visible: false, ..win }).0,
        s.was_active ==> main_close_step(s, win).1.drop_first() == show_timer_step(
            s,
            Windows { main_visible: false, ..win },
        ).1,
{
    if s.was_active {
        let a = show_timer_step(s, Windows { main_visible: false, ..win }).1;
        assert((seq![ActionView::HideMain] + a).drop_first() =~= a);
    }
}

/// The tray icon during a day with no timer window does nothing, with a
/// visible one hides it (whether the planner is on screen or not), and with
/// a hidden one does what showing the timer window does.
pub proof fn lemma_toggle_hidden(s: ShellView, win: Windows)
    requires
        s.was_active,
    ensures
        win.timer is None ==> toggle_timer_step(s, win) == (s, Seq::<ActionView>::empty()),
        win.timer == Some(true) ==> toggle_timer_step(s, win) == (s, seq![ActionView::HideTimer]),
        win.timer == Some(false) ==> toggle_timer_step(s, win) == show_timer_step(s, win),
{
}

/// The menu-bar countdown is left alone when no block runs, when the
/// countdown is off, and while the timer window is on screen.
pub proof fn lemma_countdown_quiet(s: ShellView, win: Windows, now_ms: i64)
    requires
        !s.was_active || !s.tray_on || win.timer == Some(true),
    ensures
        tray_tick_plan(s, win, now_ms).len() == 0,
{
}

/// Cleaning a sound name keeps exactly its ASCII letters and digits: one
/// already made of them stays as it is.
pub proof fn lemma_clean_keeps_alnum(n: Seq<char>)
    requires
        forall|i: int| 0 <= i < n.len() ==> is_ascii_alnum(#[trigger] n[i]),
    ensures
        alnum_only(n) == n,
    decreases n.len(),
{
    reveal(Seq::filter);
    if n.len() > 0 {
        let m = n.drop_last();
        assert forall|i: int| 0 <= i < m.len() implies is_ascii_alnum(#[trigger] m[i]) by {
            assert(m[i] == n[i]);
        }
        lemma_clean_keeps_alnum(m);
        assert(is_ascii_alnum(n[n.len() - 1]));
        assert(m.push(n.last()) =~= n);
    }
}

/// "Later" on a reminder puts it away as "got it" does, then asks for it
/// again before passing the command on; only the reminder flag changes.
pub proof fn lemma_snooze(s: ShellView, win: Windows)
    ensures
        timer_action_step(s, TimerCommand::NotifSnooze, win).0 == (ShellView { notif_active: false, ..s }),
        timer_action_step(s, TimerCommand::NotifSnooze, win).1.drop_last().last() == ActionView::ScheduleNotif,
        timer_action_step(s, TimerCommand::NotifSnooze, win).1.drop_last().drop_last()
            == timer_action_step(s, TimerCommand::NotifClose, win).1.drop_last(),
{
    let a = timer_action_step(s, TimerCommand::NotifSnooze, win).1;
    let b = timer_action_step(s, TimerCommand::NotifClose, win).1;
    assert(a.drop_last().drop_last() =~= b.drop_last());
}

} // verus!
