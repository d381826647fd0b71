//! Properties of the shell that span events: what every event keeps, and
//! what a sequence of events leads to.
use vstd::prelude::*;
use crate::shell::{
    apply_pt_step, blur_plan, dismiss_notif_step, main_close_step, menu_step, show_main_plan,
    show_notif_step, show_timer_step, timer_action_step, timer_update_step, toggle_timer_step,
    tray_tick_plan, countdown_secs, div_toward_zero, ActionView, AppUpdateView, MenuItem, Relay, ShellView, TimerCommand,
    TimerUpdate, Windows, initial_shell,
};
use crate::text::{alnum_only, is_ascii_alnum, tray_text};

verus! {

/// The timer window appears only when the day starts: after an update that
/// says a block is running, a further such update shows nothing and only
/// passes the state on to the timer window.
pub proof fn lemma_timer_shows_once_per_day(s: ShellView, ev1: TimerUpdate, win1: Windows, ev2: TimerUpdate, win2: Windows)
    requires
        ev1.active == Some(true),
        ev2.active == Some(true),
    ensures
        timer_update_step(s, ev1, win1).0.was_active,
        timer_update_step(timer_update_step(s, ev1, win1).0, ev2, win2).1
            == seq![ActionView::Relay(Relay::StateToTimer)],
{
}

/// When the day starts with the planner hidden and the timer window
/// closed, the timer window appears.
pub proof fn lemma_day_start_shows_timer(s: ShellView, ev: TimerUpdate, win: Windows)
    requires
        !s.was_active,
        ev.active == Some(true),
        !win.main_visible,
        win.timer == Some(false),
    ensures
        timer_update_step(s, ev, win).1.contains(ActionView::ShowTimerWindow),
{
    let acts = timer_update_step(s, ev, win).1;
    assert(acts[2] == ActionView::ShowTimerWindow);
}

/// When no block runs any more, the countdown leaves the menu bar, and the
/// timer window hides exactly when it exists and shows no reminder.
pub proof fn lemma_day_end(s: ShellView, ev: TimerUpdate, win: Windows)
    requires
        ev.active != Some(true),
    ensures
        !timer_update_step(s, ev, win).0.was_active,
        !timer_update_step(s, ev, win).0.tray_on,
        timer_update_step(s, ev, win).1[0] == ActionView::TrayTitle(None),
        timer_update_step(s, ev, win).1.contains(ActionView::HideTimer)
            <==> (!s.notif_active && win.timer is Some),
{
    let acts = timer_update_step(s, ev, win).1;
    if !s.notif_active && win.timer is Some {
        assert(acts[1] == ActionView::HideTimer);
    } else {
        assert(acts =~= seq![ActionView::TrayTitle(None), ActionView::Relay(Relay::StateToTimer)]);
    }
}

/// A reminder stays on screen until it is answered: losing the focus does
/// not hide it, and neither does the end of the day.
pub proof fn lemma_reminder_stays(s: ShellView, ev: TimerUpdate, win: Windows)
    requires
        s.notif_active,
    ensures
        blur_plan(s) == Seq::<ActionView>::empty(),
        !timer_update_step(s, ev, win).1.contains(ActionView::HideTimer),
{
    lemma_no_hide_in_update_with_reminder(s, ev, win);
}

proof fn lemma_no_hide_in_update_with_reminder(s: ShellView, ev: TimerUpdate, win: Windows)
    requires
        s.notif_active,
    ensures
        !timer_update_step(s, ev, win).1.contains(ActionView::HideTimer),
{
    let acts = timer_update_step(s, ev, win).1;
    if ev.active == Some(true) {
        if !s.was_active {
            let s1 = ShellView {
                tray_end_ms: ev.end_ms,
                tray_paused: ev.paused == Some(true),
                tray_paused_rem: ev.paused_rem,
                tray_on: ev.tray != Some(false),
                was_active: true,
                ..s
            };
            lemma_show_timer_never_hides(s1, win);
        }
        assert forall|i: int| 0 <= i < acts.len() implies acts[i] != ActionView::HideTimer by {}
    } else {
        assert(acts =~= seq![ActionView::TrayTitle(None), ActionView::Relay(Relay::StateToTimer)]);
        assert(acts[0] != ActionView::HideTimer);
        assert(acts[1] != ActionView::HideTimer);
    }
}

/// Showing the timer window never hides anything.
pub proof fn lemma_show_timer_never_hides(s: ShellView, win: Windows)
    ensures
        !show_timer_step(s, win).1.contains(ActionView::HideTimer),
{
    let acts = show_timer_step(s, win).1;
    assert forall|i: int| 0 <= i < acts.len() implies acts[i] != ActionView::HideTimer by {}
}

/// A pinned timer window never takes the focus, so it never steals the
/// keyboard from the app the user works in.
pub proof fn lemma_pinned_never_takes_focus(s: ShellView, win: Windows)
    requires
        s.pinned,
    ensures
        show_timer_step(s, win).0 == s,
        !show_timer_step(s, win).1.contains(ActionView::FocusTimer),
{
    let acts = show_timer_step(s, win).1;
    assert forall|i: int| 0 <= i < acts.len() implies acts[i] != ActionView::FocusTimer by {}
}

/// While the planner is on screen, the timer window is not shown.
pub proof fn lemma_planner_on_screen_no_timer(s: ShellView, win: Windows)
    requires
        win.main_visible,
    ensures
        show_timer_step(s, win) == (s, Seq::<ActionView>::empty()),
{
}

/// A timer window that has just appeared unpinned does not hide when the
/// focus leaves, until the moment is over.
pub proof fn lemma_fresh_timer_ignores_blur(s: ShellView, win: Windows)
    requires
        !win.main_visible,
        win.timer == Some(false),
        !s.pinned,
    ensures
        show_timer_step(s, win).0.suppress_blur,
        blur_plan(show_timer_step(s, win).0) == Seq::<ActionView>::empty(),
        blur_plan(ShellView { suppress_blur: false, ..show_timer_step(s, win).0 }) == (
        if s.notif_active {
            Seq::<ActionView>::empty()
        } else {
            seq![ActionView::HideTimer]
        }),
{
}

/// A pinned timer window stays when the focus leaves.
pub proof fn lemma_pinned_stays_on_blur(s: ShellView, flag: Option<bool>, win: Windows)
    requires
        flag == Some(true),
    ensures
        timer_action_step(s, TimerCommand::Pin(flag), win).0.pinned,
        blur_plan(timer_action_step(s, TimerCommand::Pin(flag), win).0) == Seq::<ActionView>::empty(),
{
}

/// The tray icon toggles the timer window during a day: a visible window
/// hides, and a hidden one shows again.
pub proof fn lemma_toggle_switches(s: ShellView, main_visible: bool)
    requires
        s.was_active,
        !main_visible,
    ensures
        toggle_timer_step(s, Windows { main_visible, timer: Some(true) })
            == (s, seq![ActionView::HideTimer]),
        toggle_timer_step(s, Windows { main_visible, timer: Some(false) }).1.contains(
            ActionView::ShowTimerWindow,
        ),
{
    let acts = toggle_timer_step(s, Windows { main_visible, timer: Some(false) }).1;
    assert(acts[2] == ActionView::ShowTimerWindow);
}

/// With no block running, the tray icon opens the planner instead of an
/// empty timer window.
pub proof fn lemma_idle_click_opens_planner(s: ShellView, win: Windows)
    requires
        !s.was_active,
    ensures
        toggle_timer_step(s, win) == (s, show_main_plan(win)),
{
}

/// The countdown never shows in the menu bar while the timer window is on
/// screen, neither from the app's own tick nor from the planner's title.
pub proof fn lemma_no_countdown_beside_timer(s: ShellView, u: AppUpdateView, win: Windows, now_ms: i64)
    requires
        win.timer == Some(true),
    ensures
        tray_tick_plan(s, win, now_ms) == Seq::<ActionView>::empty(),
        u.title is Some ==> apply_pt_step(s, u, win).1[0] == ActionView::TrayTitle(None),
{
}

/// The countdown shows in the menu bar every second while a block runs,
/// the countdown is on and the timer window is hidden: the remainder kept
/// for a paused block, else the whole seconds left to its end.
pub proof fn lemma_countdown_shows(s: ShellView, win: Windows, now_ms: i64)
    requires
        s.was_active,
        s.tray_on,
        win.timer != Some(true),
    ensures
        tray_tick_plan(s, win, now_ms) == seq![ActionView::TrayTitle(Some(tray_text(countdown_secs(s, now_ms))))],
        s.tray_paused ==> countdown_secs(s, now_ms) == s.tray_paused_rem as int,
        !s.tray_paused ==> countdown_secs(s, now_ms) == div_toward_zero(s.tray_end_ms - now_ms, 1000),
{
}

/// A reminder never takes the focus from the app the user works in, and
/// leaves the moment of ignored blur as it was.
pub proof fn lemma_reminder_keeps_focus_away(s: ShellView, win: Windows, payload_is_json: bool)
    ensures
        !show_notif_step(s, win, payload_is_json).1.contains(ActionView::FocusTimer),
        show_notif_step(s, win, payload_is_json).0 == (ShellView { notif_active: true, ..s }),
{
    let acts = show_notif_step(s, win, payload_is_json).1;
    assert forall|i: int| 0 <= i < acts.len() implies acts[i] != ActionView::FocusTimer by {}
}

/// The sound name is made of ASCII letters and digits only.
pub open spec fn clean_name(s: ShellView) -> bool {
    forall|i: int| 0 <= i < s.sound_name.len() ==> is_ascii_alnum(#[trigger] s.sound_name[i])
}

proof fn lemma_alnum_only_clean(n: Seq<char>)
    ensures
        forall|i: int| 0 <= i < alnum_only(n).len() ==> is_ascii_alnum(#[trigger] alnum_only(n)[i]),
{
    let p = |c: char| is_ascii_alnum(c);
    assert forall|i: int| 0 <= i < alnum_only(n).len() implies is_ascii_alnum(#[trigger] alnum_only(n)[i]) by {
        n.lemma_filter_pred(p, i);
    }
}

/// The sound name stays letters and digits through every event: it starts
/// empty, and the only event that sets it cleans it first.
pub proof fn lemma_sound_name_stays_clean(
    s: ShellView,
    win: Windows,
    u: AppUpdateView,
    ev: TimerUpdate,
    cmd: TimerCommand,
    item: MenuItem,
    payload_is_json: bool,
)
    requires
        clean_name(s),
    ensures
        clean_name(initial_shell()),
        clean_name(apply_pt_step(s, u, win).0),
        clean_name(show_timer_step(s, win).0),
        clean_name(toggle_timer_step(s, win).0),
        clean_name(show_notif_step(s, win, payload_is_json).0),
        clean_name(timer_update_step(s, ev, win).0),
        clean_name(timer_action_step(s, cmd, win).0),
        clean_name(main_close_step(s, win).0),
        clean_name(menu_step(s, item, win).0),
        clean_name(ShellView { suppress_blur: false, ..s }),
{
    match u.sound_name {
        Some(n) => lemma_alnum_only_clean(n),
        None => {},
    }
}

/// Answering a reminder ("got it") after it appeared puts it away: no
/// reminder is on screen any more, the pin state is what it was, and the
/// timer window floats only as the pin state says.
pub proof fn lemma_reminder_answered(s: ShellView, win: Windows, payload_is_json: bool)
    requires
        win.timer is Some,
    ensures
        ({
            let shown = show_notif_step(s, win, payload_is_json).0;
            let (after, acts) = timer_action_step(shown, TimerCommand::NotifClose, win);
            &&& shown.notif_active
            &&& !after.notif_active
            &&& after.pinned == s.pinned
            &&& acts[0] == ActionView::TimerOnTop(s.pinned)
        }),
{
}

/// "Later" puts the reminder away and asks for it again.
pub proof fn lemma_snooze_reschedules(s: ShellView, win: Windows)
    ensures
        !timer_action_step(s, TimerCommand::NotifSnooze, win).0.notif_active,
        timer_action_step(s, TimerCommand::NotifSnooze, win).1
            == dismiss_notif_step(s, win).1.push(ActionView::ScheduleNotif).push(
            ActionView::Relay(Relay::CmdToMain),
        ),
{
}

/// Every planner timer state reaches the timer window, and every command
/// from the timer window reaches the planner, as the last operation.
pub proof fn lemma_messages_forwarded(s: ShellView, ev: TimerUpdate, cmd: TimerCommand, win: Windows)
    ensures
        timer_update_step(s, ev, win).1.last() == ActionView::Relay(Relay::StateToTimer),
        timer_action_step(s, cmd, win).1.last() == ActionView::Relay(Relay::CmdToMain),
{
}

/// A negative remainder shows as zero.
pub proof fn lemma_negative_countdown_is_zero(sec: int)
    requires
        sec < 0,
    ensures
        tray_text(sec) == tray_text(0),
{
}

} // verus!
