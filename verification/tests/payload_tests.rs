use pim_tomato::payload::{app_update, open_external};
use pim_tomato::shell::{Action, Relay, Shell, Windows};

fn hidden_planner(timer: Option<bool>) -> Windows {
    Windows { main_visible: false, timer }
}

#[test]
fn app_update_reads_fields() {
    let u = app_update(r#"{"title":"01:59","visible":true,"badge":3,"sound":false,"soundName":"Ping"}"#);
    assert_eq!(u.title, Some(Some("01:59".to_string())));
    assert_eq!(u.visible, Some(true));
    assert_eq!(u.badge, Some(Some(3)));
    assert_eq!(u.sound, Some(false));
    assert_eq!(u.sound_name, Some("Ping".to_string()));
}

#[test]
fn app_update_wrong_kinds() {
    let u = app_update(r#"{"title":5,"visible":"yes","badge":"x","sound":1,"soundName":false}"#);
    assert_eq!(u.title, Some(None));
    assert_eq!(u.visible, None);
    assert_eq!(u.badge, Some(None));
    assert_eq!(u.sound, None);
    assert_eq!(u.sound_name, None);
    let u = app_update(r#"{}"#);
    assert_eq!(u.title, None);
    assert_eq!(u.badge, None);
    let u = app_update(r#"{"badge":2.5}"#);
    assert_eq!(u.badge, Some(None));
}

#[test]
fn apply_pt_message() {
    let mut s = Shell::new();
    let acts = s.apply_pt(r#"{"title":"01:59","visible":true,"badge":3,"soundName":"../Sub marine"}"#, &hidden_planner(Some(false)));
    assert_eq!(
        acts,
        vec![Action::TrayTitle(Some("01:59".to_string())), Action::TrayVisible(true), Action::Badge(Some(3))]
    );
    assert_eq!(s.sound_name, "Submarine");
}

#[test]
fn apply_pt_not_json_changes_nothing() {
    let mut s = Shell::new();
    assert!(s.apply_pt("not json", &hidden_planner(Some(false))).is_empty());
    assert!(s.sound_on);
    assert_eq!(s.sound_name, "");
}

#[test]
fn open_external_message() {
    assert_eq!(
        open_external(r#"{"url":"https://app.clickup.com/t/86abc"}"#),
        vec!["clickup://t/86abc".to_string(), "https://app.clickup.com/t/86abc".to_string()]
    );
    assert_eq!(open_external(r#"{"url":"https://example.com"}"#), vec!["https://example.com".to_string()]);
    assert!(open_external(r#"{"url":""}"#).is_empty());
    assert!(open_external(r#"{"url":3}"#).is_empty());
    assert!(open_external(r#"{"href":"https://example.com"}"#).is_empty());
    assert!(open_external("https://example.com").is_empty());
}

#[test]
fn show_notif_box_message() {
    let mut s = Shell::new();
    s.sound_on = false;
    let acts = s.show_notif_box(&hidden_planner(Some(true)), r#"{"title":"Pausa"}"#);
    assert_eq!(acts, vec![Action::Relay(Relay::NotifyToTimer), Action::PlaceTimer { top: 12 }, Action::TimerOnTop(true)]);
    assert!(s.notif_active);
    let mut s = Shell::new();
    s.sound_on = false;
    let acts = s.show_notif_box(&hidden_planner(Some(true)), "{broken");
    assert_eq!(acts, vec![Action::PlaceTimer { top: 12 }, Action::TimerOnTop(true)]);
    assert!(s.notif_active);
}

#[test]
fn timer_message_starts_day() {
    let mut s = Shell::new();
    let win = hidden_planner(Some(false));
    let acts = s.on_timer_message(r#"{"active":true,"paused":true,"tray":false}"#, 5000, 42, &win);
    assert!(acts.contains(&Action::ShowTimerWindow));
    assert!(s.was_active && s.tray_paused && !s.tray_on);
    assert_eq!(s.tray_end_ms, 5000);
    assert_eq!(s.tray_paused_rem, 42);
    let acts = s.on_timer_message(r#"{"active":false}"#, 0, 0, &win);
    assert_eq!(acts, vec![Action::TrayTitle(None), Action::HideTimer, Action::Relay(Relay::StateToTimer)]);
    assert!(!s.was_active);
}

#[test]
fn timer_message_not_json_changes_nothing() {
    let mut s = Shell::new();
    assert!(s.on_timer_message("active", 5000, 42, &hidden_planner(Some(false))).is_empty());
    assert!(!s.was_active);
    assert_eq!(s.tray_end_ms, 0);
}

#[test]
fn timer_action_messages() {
    let mut s = Shell::new();
    let win = hidden_planner(Some(true));
    assert_eq!(
        s.on_timer_action_message(r#"{"a":"resize","h":180.5}"#, &win),
        vec![Action::ResizeTimer, Action::PlaceTimer { top: 12 }, Action::Relay(Relay::CmdToMain)]
    );
    assert_eq!(
        s.on_timer_action_message(r#"{"a":"resize","h":"tall"}"#, &win),
        vec![Action::Relay(Relay::CmdToMain)]
    );
    assert_eq!(
        s.on_timer_action_message(r#"{"a":"pin","on":true}"#, &win),
        vec![Action::TimerOnTop(true), Action::PlaceTimer { top: 24 }, Action::Relay(Relay::CmdToMain)]
    );
    assert!(s.pinned);
    assert_eq!(s.on_timer_action_message(r#"{"a":"done"}"#, &win), vec![Action::Relay(Relay::CmdToMain)]);
    assert!(s.on_timer_action_message("[1,", &win).is_empty());
    assert!(s.pinned);
}
