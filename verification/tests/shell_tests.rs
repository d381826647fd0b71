use pim_tomato::shell::{
    finish_splash, menu_item, show_main, splash_timeout, timer_command, Action, AppUpdate, MenuItem, Relay, Shell,
    TimerCommand, TimerUpdate, Windows,
};

fn hidden_planner(timer: Option<bool>) -> Windows {
    Windows { main_visible: false, timer }
}

fn active_update() -> TimerUpdate {
    TimerUpdate { active: Some(true), end_ms: 1_000_000, paused_rem: 0, paused: None, tray: None }
}

fn no_update() -> AppUpdate {
    AppUpdate { sound: None, sound_name: None, title: None, visible: None, badge: None }
}

#[test]
fn new_shell_defaults() {
    let s = Shell::new();
    assert!(!s.pinned && !s.was_active && !s.suppress_blur && !s.notif_active);
    assert!(s.sound_on && s.tray_on && !s.tray_paused);
    assert_eq!(s.sound_name, "");
    assert_eq!(s.tray_end_ms, 0);
    assert_eq!(s.tray_paused_rem, 0);
}

#[test]
fn show_main_hides_timer() {
    assert_eq!(show_main(&hidden_planner(Some(true))), vec![Action::ShowMain, Action::HideTimer]);
    assert_eq!(show_main(&hidden_planner(None)), vec![Action::ShowMain]);
}

#[test]
fn show_timer_unpinned_takes_focus() {
    let mut s = Shell::new();
    let acts = s.show_timer(&hidden_planner(Some(false)));
    assert_eq!(
        acts,
        vec![
            Action::TimerOnTop(false),
            Action::PlaceTimer { top: 12 },
            Action::ShowTimerWindow,
            Action::FocusTimer,
            Action::ReleaseBlurAfter(600),
        ]
    );
    assert!(s.suppress_blur);
    assert!(s.on_timer_blur().is_empty());
    s.release_blur();
    assert_eq!(s.on_timer_blur(), vec![Action::HideTimer]);
}

#[test]
fn show_timer_pinned_never_focuses() {
    let mut s = Shell::new();
    s.pinned = true;
    let acts = s.show_timer(&hidden_planner(Some(false)));
    assert_eq!(acts, vec![Action::TimerOnTop(true), Action::PlaceTimer { top: 24 }, Action::ShowTimerWindow]);
    assert!(!s.suppress_blur);
    assert!(s.on_timer_blur().is_empty());
}

#[test]
fn show_timer_already_visible() {
    let mut s = Shell::new();
    let acts = s.show_timer(&hidden_planner(Some(true)));
    assert_eq!(acts, vec![Action::TimerOnTop(false), Action::PlaceTimer { top: 12 }]);
    assert!(!s.suppress_blur);
}

#[test]
fn show_timer_with_planner_on_screen_does_nothing() {
    let mut s = Shell::new();
    let acts = s.show_timer(&Windows { main_visible: true, timer: Some(false) });
    assert!(acts.is_empty());
    assert!(s.show_timer(&hidden_planner(None)).is_empty());
}

#[test]
fn day_start_shows_timer_once() {
    let mut s = Shell::new();
    let win = hidden_planner(Some(false));
    let first = s.on_timer_update(&active_update(), &win);
    assert!(s.was_active);
    assert!(first.contains(&Action::ShowTimerWindow));
    assert_eq!(first.last(), Some(&Action::Relay(Relay::StateToTimer)));
    let second = s.on_timer_update(&active_update(), &win);
    assert_eq!(second, vec![Action::Relay(Relay::StateToTimer)]);
}

#[test]
fn timer_update_keeps_countdown_data() {
    let mut s = Shell::new();
    let ev = TimerUpdate { active: Some(true), end_ms: 5000, paused_rem: 42, paused: Some(true), tray: Some(false) };
    s.on_timer_update(&ev, &Windows { main_visible: true, timer: Some(false) });
    assert_eq!(s.tray_end_ms, 5000);
    assert_eq!(s.tray_paused_rem, 42);
    assert!(s.tray_paused);
    assert!(!s.tray_on);
}

#[test]
fn day_end_clears_tray_and_hides() {
    let mut s = Shell::new();
    s.was_active = true;
    let ev = TimerUpdate { active: Some(false), end_ms: 0, paused_rem: 0, paused: None, tray: None };
    let acts = s.on_timer_update(&ev, &hidden_planner(Some(true)));
    assert_eq!(acts, vec![Action::TrayTitle(None), Action::HideTimer, Action::Relay(Relay::StateToTimer)]);
    assert!(!s.was_active);
    assert!(!s.tray_on);
}

#[test]
fn day_end_keeps_reminder_on_screen() {
    let mut s = Shell::new();
    s.was_active = true;
    s.notif_active = true;
    let ev = TimerUpdate { active: None, end_ms: 0, paused_rem: 0, paused: None, tray: None };
    let acts = s.on_timer_update(&ev, &hidden_planner(Some(true)));
    assert_eq!(acts, vec![Action::TrayTitle(None), Action::Relay(Relay::StateToTimer)]);
    assert!(s.on_timer_blur().is_empty());
}

#[test]
fn toggle_without_day_opens_planner() {
    let mut s = Shell::new();
    assert_eq!(s.toggle_timer(&hidden_planner(Some(false))), vec![Action::ShowMain, Action::HideTimer]);
}

#[test]
fn toggle_during_day_switches_timer() {
    let mut s = Shell::new();
    s.was_active = true;
    assert_eq!(s.toggle_timer(&hidden_planner(Some(true))), vec![Action::HideTimer]);
    let acts = s.toggle_timer(&hidden_planner(Some(false)));
    assert!(acts.contains(&Action::ShowTimerWindow));
    assert!(s.toggle_timer(&hidden_planner(None)).is_empty());
}

#[test]
fn reminder_plays_sound_without_focus() {
    let mut s = Shell::new();
    let acts = s.show_notif(&Windows { main_visible: true, timer: Some(false) }, true);
    assert_eq!(
        acts,
        vec![
            Action::PlaySound("/System/Library/Sounds/Glass.aiff".to_string()),
            Action::Relay(Relay::NotifyToTimer),
            Action::PlaceTimer { top: 12 },
            Action::TimerOnTop(true),
            Action::ShowTimerWindow,
        ]
    );
    assert!(s.notif_active && !s.suppress_blur);
    assert!(s.on_timer_blur().is_empty());
}

#[test]
fn reminder_silent_without_timer_window() {
    let mut s = Shell::new();
    s.sound_on = false;
    let acts = s.show_notif(&hidden_planner(None), false);
    assert!(acts.is_empty());
    assert!(s.notif_active);
    assert!(!s.suppress_blur);
}

#[test]
fn sound_preview_plays_even_when_off() {
    let mut s = Shell::new();
    s.sound_on = false;
    assert_eq!(s.play_notif_sound(false), None);
    assert_eq!(s.play_notif_sound(true), Some("/System/Library/Sounds/Glass.aiff".to_string()));
    s.sound_name = "Ping".to_string();
    assert_eq!(s.play_notif_sound(true), Some("/System/Library/Sounds/Ping.aiff".to_string()));
}

#[test]
fn apply_pt_sound_preferences() {
    let mut s = Shell::new();
    let mut u = no_update();
    u.sound = Some(false);
    u.sound_name = Some("Sub/../marine!".to_string());
    let acts = s.apply_update(&u, &hidden_planner(None));
    assert!(acts.is_empty());
    assert!(!s.sound_on);
    assert_eq!(s.sound_name, "Submarine");
}

#[test]
fn apply_pt_title_visible_badge() {
    let mut s = Shell::new();
    let u = AppUpdate {
        sound: None,
        sound_name: None,
        title: Some(Some("01:59".to_string())),
        visible: Some(true),
        badge: Some(Some(3)),
    };
    let acts = s.apply_update(&u, &hidden_planner(Some(false)));
    assert_eq!(
        acts,
        vec![Action::TrayTitle(Some("01:59".to_string())), Action::TrayVisible(true), Action::Badge(Some(3))]
    );
}

#[test]
fn apply_pt_title_hidden_when_box_visible_or_empty() {
    let mut s = Shell::new();
    let mut u = no_update();
    u.title = Some(Some("01:59".to_string()));
    assert_eq!(s.apply_update(&u, &hidden_planner(Some(true))), vec![Action::TrayTitle(None)]);
    u.title = Some(Some(String::new()));
    assert_eq!(s.apply_update(&u, &hidden_planner(Some(false))), vec![Action::TrayTitle(None)]);
    u.title = Some(None);
    assert_eq!(s.apply_update(&u, &hidden_planner(None)), vec![Action::TrayTitle(None)]);
}

#[test]
fn apply_pt_badge_only_positive() {
    let mut s = Shell::new();
    let mut u = no_update();
    u.badge = Some(Some(0));
    assert_eq!(s.apply_update(&u, &hidden_planner(None)), vec![Action::Badge(None)]);
    u.badge = Some(Some(-2));
    assert_eq!(s.apply_update(&u, &hidden_planner(None)), vec![Action::Badge(None)]);
    u.badge = Some(None);
    assert_eq!(s.apply_update(&u, &hidden_planner(None)), vec![Action::Badge(None)]);
}

#[test]
fn timer_command_names() {
    assert_eq!(timer_command(Some("resize"), true, None), TimerCommand::Resize { has_height: true });
    assert_eq!(timer_command(Some("notif-close"), false, None), TimerCommand::NotifClose);
    assert_eq!(timer_command(Some("notif-yes"), false, None), TimerCommand::NotifYes);
    assert_eq!(timer_command(Some("notif-snooze"), false, None), TimerCommand::NotifSnooze);
    assert_eq!(timer_command(Some("hide"), false, None), TimerCommand::Hide);
    assert_eq!(timer_command(Some("open"), false, None), TimerCommand::Open);
    assert_eq!(timer_command(Some("pin"), false, Some(true)), TimerCommand::Pin(Some(true)));
    assert_eq!(timer_command(Some("done"), false, None), TimerCommand::Other);
    assert_eq!(timer_command(None, false, None), TimerCommand::Other);
}

#[test]
fn resize_places_timer() {
    let mut s = Shell::new();
    let acts = s.on_timer_action(TimerCommand::Resize { has_height: true }, &hidden_planner(Some(true)));
    assert_eq!(acts, vec![Action::ResizeTimer, Action::PlaceTimer { top: 12 }, Action::Relay(Relay::CmdToMain)]);
    let acts = s.on_timer_action(TimerCommand::Resize { has_height: false }, &hidden_planner(Some(true)));
    assert_eq!(acts, vec![Action::Relay(Relay::CmdToMain)]);
}

#[test]
fn reminder_answered_restores_pin_state() {
    let mut s = Shell::new();
    s.was_active = true;
    s.pinned = true;
    let win = hidden_planner(Some(true));
    s.show_notif(&win, true);
    let acts = s.on_timer_action(TimerCommand::NotifClose, &win);
    assert_eq!(acts, vec![Action::TimerOnTop(true), Action::Relay(Relay::CmdToMain)]);
    assert!(!s.notif_active);
    assert!(s.pinned);
}

#[test]
fn reminder_answered_hides_when_planner_open_or_idle() {
    let mut s = Shell::new();
    s.notif_active = true;
    let acts = s.on_timer_action(TimerCommand::NotifClose, &hidden_planner(Some(true)));
    assert_eq!(acts, vec![Action::TimerOnTop(false), Action::HideTimer, Action::Relay(Relay::CmdToMain)]);
    s.was_active = true;
    s.notif_active = true;
    let acts = s.on_timer_action(TimerCommand::NotifClose, &Windows { main_visible: true, timer: Some(true) });
    assert_eq!(acts, vec![Action::TimerOnTop(false), Action::HideTimer, Action::Relay(Relay::CmdToMain)]);
}

#[test]
fn reminder_yes_opens_planner() {
    let mut s = Shell::new();
    s.notif_active = true;
    let acts = s.on_timer_action(TimerCommand::NotifYes, &hidden_planner(Some(true)));
    assert_eq!(
        acts,
        vec![
            Action::TimerOnTop(false),
            Action::ShowMain,
            Action::HideTimer,
            Action::Relay(Relay::NotifYesToMain),
            Action::Relay(Relay::CmdToMain),
        ]
    );
    assert!(!s.notif_active);
}

#[test]
fn reminder_snooze_reschedules() {
    let mut s = Shell::new();
    s.notif_active = true;
    s.was_active = true;
    let acts = s.on_timer_action(TimerCommand::NotifSnooze, &hidden_planner(Some(true)));
    assert_eq!(acts, vec![Action::TimerOnTop(false), Action::ScheduleNotif, Action::Relay(Relay::CmdToMain)]);
    assert!(!s.notif_active);
}

#[test]
fn hide_and_open_commands() {
    let mut s = Shell::new();
    assert_eq!(
        s.on_timer_action(TimerCommand::Hide, &hidden_planner(Some(true))),
        vec![Action::HideTimer, Action::Relay(Relay::CmdToMain)]
    );
    assert_eq!(
        s.on_timer_action(TimerCommand::Open, &hidden_planner(Some(true))),
        vec![Action::ShowMain, Action::HideTimer, Action::Relay(Relay::CmdToMain)]
    );
    assert_eq!(s.on_timer_action(TimerCommand::Other, &hidden_planner(Some(true))), vec![Action::Relay(Relay::CmdToMain)]);
}

#[test]
fn pin_command() {
    let mut s = Shell::new();
    let acts = s.on_timer_action(TimerCommand::Pin(Some(true)), &hidden_planner(Some(false)));
    assert_eq!(
        acts,
        vec![
            Action::TimerOnTop(true),
            Action::PlaceTimer { top: 24 },
            Action::ShowTimerWindow,
            Action::Relay(Relay::CmdToMain),
        ]
    );
    assert!(s.pinned);
    assert!(s.on_timer_blur().is_empty());
    let acts = s.on_timer_action(TimerCommand::Pin(None), &hidden_planner(Some(true)));
    assert_eq!(acts, vec![Action::TimerOnTop(false), Action::PlaceTimer { top: 12 }, Action::Relay(Relay::CmdToMain)]);
    assert!(!s.pinned);
}

#[test]
fn main_close_shows_timer_during_day() {
    let mut s = Shell::new();
    assert_eq!(s.on_main_close(&Windows { main_visible: true, timer: Some(false) }), vec![Action::HideMain]);
    s.was_active = true;
    let acts = s.on_main_close(&Windows { main_visible: true, timer: Some(false) });
    assert_eq!(acts[0], Action::HideMain);
    assert!(acts.contains(&Action::ShowTimerWindow));
}

#[test]
fn tray_tick_countdown() {
    let mut s = Shell::new();
    let win = hidden_planner(Some(false));
    assert!(s.tray_tick(&win, 0).is_empty());
    s.on_timer_update(&TimerUpdate { active: Some(true), end_ms: 100_000, paused_rem: 0, paused: None, tray: None }, &win);
    assert_eq!(s.tray_tick(&win, 1_000), vec![Action::TrayTitle(Some("1:39".to_string()))]);
    assert_eq!(s.tray_tick(&win, 100_500), vec![Action::TrayTitle(Some("0:00".to_string()))]);
    assert!(s.tray_tick(&hidden_planner(Some(true)), 1_000).is_empty());
    s.tray_paused = true;
    s.tray_paused_rem = 3725;
    assert_eq!(s.tray_tick(&win, 1_000), vec![Action::TrayTitle(Some("1:02:05".to_string()))]);
    s.tray_on = false;
    assert!(s.tray_tick(&win, 1_000).is_empty());
}

#[test]
fn countdown_rounds_toward_zero() {
    let mut s = Shell::new();
    s.tray_end_ms = 10_000;
    assert_eq!(s.countdown(8_500), 1);
    assert_eq!(s.countdown(11_500), -1);
    assert!(s.can_count_down(0));
    s.tray_end_ms = i64::MIN;
    assert!(!s.can_count_down(1));
}

#[test]
fn menu_entries() {
    assert_eq!(menu_item("open"), MenuItem::Open);
    assert_eq!(menu_item("timer"), MenuItem::Timer);
    assert_eq!(menu_item("quit"), MenuItem::Quit);
    assert_eq!(menu_item("other"), MenuItem::Other);
    let mut s = Shell::new();
    assert_eq!(s.on_menu(MenuItem::Quit, &hidden_planner(None)), vec![Action::Exit]);
    assert_eq!(s.on_menu(MenuItem::Open, &hidden_planner(None)), vec![Action::ShowMain]);
    assert!(s.on_menu(MenuItem::Other, &hidden_planner(None)).is_empty());
    assert!(s.on_menu(MenuItem::Timer, &hidden_planner(Some(false))).contains(&Action::ShowTimerWindow));
}

#[test]
fn splash_transitions() {
    assert_eq!(finish_splash(), vec![Action::RevealMain, Action::CloseSplash]);
    assert_eq!(splash_timeout(true), vec![Action::RevealMain, Action::CloseSplash]);
    assert!(splash_timeout(false).is_empty());
}
