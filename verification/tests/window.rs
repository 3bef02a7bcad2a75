use cs2_buttplug::config::{Config, Setting};
use cs2_buttplug::game::{game_labels, MatchStats, Player, PlayerState, Team, Weapon, WeaponState};
use cs2_buttplug::log::GuiLog;
use cs2_buttplug::tasks::{Stage, Turn};
use cs2_buttplug::ui::{status_to_label, CsButtplugUi, DeviceRow, Order, RunButton, Status, CHANNEL_CAPACITY};
use cs2_buttplug::{ClientEvent, GuiEvent};

fn window() -> CsButtplugUi {
    CsButtplugUi::new(Config::default())
}

fn rows(ui: &CsButtplugUi) -> Vec<DeviceRow> {
    let mut rows = ui.device_rows();
    rows.sort_by_key(|row| row.index);
    rows
}

fn row(index: u32, label: &str, checked: bool, changeable: bool) -> DeviceRow {
    DeviceRow { index, label: label.to_string(), checked, changeable }
}

#[test]
fn a_new_window() {
    let ui = window();
    assert!(!ui.running && !ui.connected && !ui.autostarted);
    assert_eq!(ui.editor_port, "");
    assert!(ui.device_rows().is_empty());
    assert_eq!(ui.run_button(), RunButton::Launch);
    assert!(ui.settings_changeable());
    assert!(!ui.stop_usable());
    assert_eq!(CHANNEL_CAPACITY, 64);
}

#[test]
fn work_starts_by_itself_once() {
    let mut ui = window();
    assert_eq!(ui.use_run_button(false), vec![Order::Launch(Config::default())]);
    assert!(ui.running && ui.connected && ui.autostarted);
    assert_eq!(ui.run_button(), RunButton::Relaunch);
    assert!(!ui.settings_changeable());
    assert!(ui.stop_usable());
    assert!(ui.use_run_button(false).is_empty());
    assert_eq!(ui.use_stop_button(true), vec![Order::Close(true)]);
    assert!(!ui.running && ui.connected);
    assert!(ui.use_run_button(false).is_empty());
    assert!(!ui.running);
    assert_eq!(ui.use_run_button(true), vec![Order::Launch(Config::default())]);
    assert!(ui.running);
}

#[test]
fn a_click_on_the_first_picture_starts_the_work_twice() {
    let mut ui = window();
    let launch = Order::Launch(Config::default());
    assert_eq!(ui.use_run_button(true), vec![launch.clone(), launch]);
}

#[test]
fn running_work_ends_before_it_starts_anew() {
    let mut ui = window();
    let _ = ui.use_run_button(false);
    assert_eq!(ui.use_run_button(true), vec![Order::Close(true), Order::Launch(Config::default())]);
    assert!(ui.running);
}

#[test]
fn launching_and_closing() {
    let mut ui = window();
    assert_eq!(ui.close(), Order::Close(false));
    assert_eq!(ui.launch_main(), Order::Launch(Config::default()));
    assert!(ui.running && ui.connected && !ui.autostarted);
    assert_eq!(ui.close(), Order::Close(true));
    assert!(!ui.running);
}

#[test]
fn leaving() {
    let mut ui = window();
    let _ = ui.use_run_button(false);
    assert!(ui.leave(false).is_empty());
    assert!(ui.running);
    assert_eq!(ui.leave(true), vec![Order::Close(true)]);
    assert_eq!(ui.leave(true), vec![Order::Close(false)]);
    assert!(ui.use_stop_button(false).is_empty());
}

#[test]
fn devices_are_listed() {
    let mut ui = window();
    ui.hear(ClientEvent::DeviceFound("one".to_string(), 1));
    ui.hear(ClientEvent::DeviceFound("two".to_string(), 2));
    ui.hear(ClientEvent::DeviceLost("two".to_string(), 2));
    ui.hear(ClientEvent::DeviceLost("three".to_string(), 3));
    assert_eq!(
        rows(&ui),
        vec![
            row(1, "one: Enabled", true, true),
            row(2, "two: Disconnected", false, false),
            row(3, "three: Disconnected", false, false),
        ]
    );
    ui.hear(ClientEvent::DeviceFound("renamed".to_string(), 2));
    assert_eq!(rows(&ui)[1], row(2, "renamed: Enabled", true, true));
}

#[test]
fn devices_are_toggled() {
    let mut ui = window();
    ui.hear(ClientEvent::DeviceFound("one".to_string(), 1));
    ui.hear(ClientEvent::DeviceFound("two".to_string(), 2));
    assert_eq!(ui.toggle(1, false), None);
    let _ = ui.launch_main();
    assert_eq!(ui.toggle(1, true), Some(GuiEvent::DeviceToggle(1, true)));
    assert_eq!(ui.toggle(1, false), Some(GuiEvent::DeviceToggle(1, false)));
    assert_eq!(rows(&ui), vec![row(1, "one: Disabled", false, true), row(2, "two: Enabled", true, true)]);
}

#[test]
fn lost_devices_stay_absent_until_they_are_found() {
    let mut ui = window();
    ui.hear(ClientEvent::DeviceFound("one".to_string(), 1));
    ui.hear(ClientEvent::DeviceFound("two".to_string(), 2));
    ui.hear(ClientEvent::DeviceLost("one".to_string(), 1));
    let _ = ui.toggle(2, false);
    let _ = ui.toggle(2, true);
    ui.hear(ClientEvent::DeviceLost("two".to_string(), 2));
    ui.hear(ClientEvent::DeviceFound("two".to_string(), 2));
    assert_eq!(
        rows(&ui),
        vec![row(1, "one: Disconnected", false, false), row(2, "two: Enabled", true, true)]
    );
    ui.hear(ClientEvent::DeviceFound("one".to_string(), 1));
    assert_eq!(rows(&ui)[0], row(1, "one: Enabled", true, true));
}

#[test]
fn settings_stay_while_the_work_runs() {
    let mut ui = window();
    let _ = ui.edit_port("81".to_string());
    let config = ui.config.clone();
    let _ = ui.use_run_button(false);
    assert!(!ui.settings_changeable());
    ui.hear(ClientEvent::DeviceFound("one".to_string(), 1));
    let _ = ui.toggle(1, false);
    let _ = ui.use_run_button(true);
    assert!(!ui.settings_changeable());
    let _ = ui.use_stop_button(true);
    assert!(ui.settings_changeable());
    let _ = ui.leave(true);
    assert_eq!(ui.config, config);
    assert_eq!(ui.editor_port, "81");
}

#[test]
fn statuses_are_shown() {
    assert_eq!(status_to_label(&Status::Enabled), "Enabled");
    assert_eq!(status_to_label(&Status::Disabled), "Disabled");
    assert_eq!(status_to_label(&Status::Absent), "Disconnected");
}

#[test]
fn settings_are_edited() {
    let mut ui = window();
    assert_eq!(ui.edit_port("80x".to_string()), None);
    assert_eq!(ui.editor_port, "80x");
    assert_eq!(ui.config, Config::default());
    let saved = ui.edit_port("0080".to_string()).unwrap();
    assert_eq!((saved.setting, saved.text.as_str()), (Setting::IntegrationPort, "80"));
    assert_eq!(ui.config.cs_integration_port, 80);
    assert_eq!(ui.edit_server_url(String::new()), None);
    let saved = ui.edit_server_url("ws://h".to_string()).unwrap();
    assert_eq!((saved.setting, saved.text.as_str()), (Setting::ServerUrl, "ws://h"));
    let saved = ui.pick_script_dir("/d".to_string());
    assert_eq!((saved.setting, saved.text.as_str()), (Setting::ScriptDir, "/d"));
    assert_eq!(ui.config.cs_script_dir, Some("/d".to_string()));
}

#[test]
fn the_log_is_kept() {
    let mut log = GuiLog::new();
    assert_eq!(log.text(), "");
    assert_eq!(log.write("first\n".as_bytes()), 6);
    assert_eq!(log.write("zw\u{f6}lf \u{1F980}".as_bytes()), 11);
    assert_eq!(log.write(b""), 0);
    assert_eq!(log.text(), "first\nzw\u{f6}lf \u{1F980}");
}

fn state() -> PlayerState {
    PlayerState {
        health: 87,
        armor: 50,
        helmet: true,
        money: 16000,
        flashed: 0,
        smoked: 3,
        burning: 0,
        defuse_kit: None,
    }
}

fn weapon(name: &str, state: WeaponState, ammo_clip: Option<u64>, ammo_clip_max: Option<u64>) -> Weapon {
    Weapon { name: name.to_string(), state, ammo_clip, ammo_clip_max }
}

#[test]
fn the_game_is_shown() {
    let player = Player {
        name: "Kim".to_string(),
        team: Some(Team::T),
        match_stats: Some(MatchStats { kills: -1, deaths: 4, assists: 12, mvps: 0 }),
        state: Some(state()),
        weapons: vec![
            weapon("weapon_knife", WeaponState::Active, None, None),
            weapon("weapon_ak47", WeaponState::Active, Some(25), Some(30)),
            weapon("weapon_glock", WeaponState::Holstered, Some(20), Some(20)),
            weapon("weapon_awp", WeaponState::Reloading, Some(0), Some(5)),
            weapon("weapon_odd", WeaponState::Active, Some(1), None),
        ],
    };
    assert_eq!(
        game_labels(&Some(player)),
        vec![
            "name: Kim team: Terrorists",
            "kills: -1 deaths: 4 assists: 12 mvps: 0",
            "health: 87 armour: 50 helmet: yes cash: 16000",
            "flashed: no smoked: yes burning: no defuse kit: no",
            "active weapon: weapon_ak47 ammo: 25/30",
        ]
    );
}

#[test]
fn what_is_not_known_of_the_game_is_not_shown() {
    assert!(game_labels(&None).is_empty());
    let mut player =
        Player { name: "Kim".to_string(), team: None, match_stats: None, state: None, weapons: vec![] };
    assert_eq!(game_labels(&Some(player.clone())), vec!["name: Kim team: "]);
    player.team = Some(Team::CT);
    player.state = Some(PlayerState { defuse_kit: Some(true), helmet: false, flashed: 255, burning: 1, ..state() });
    assert_eq!(
        game_labels(&Some(player)),
        vec![
            "name: Kim team: CTs",
            "health: 87 armour: 50 helmet: no cash: 16000",
            "flashed: yes smoked: yes burning: yes defuse kit: yes",
        ]
    );
}

#[test]
fn a_program_runs_its_course() {
    let stages = [
        Stage::BuildServer,
        Stage::SpawnTimer,
        Stage::StartScripts,
        Stage::AwaitSession,
        Stage::SendClose,
        Stage::AwaitServer,
        Stage::SendTimerClose,
        Stage::AwaitTimer,
    ];
    assert_eq!(Stage::first(), stages[0]);
    for pair in stages.windows(2) {
        assert_eq!(pair[0].turn(true), Turn::GoOn(pair[1]));
    }
    assert_eq!(stages[7].turn(true), Turn::Finished);
}

#[test]
fn a_failed_start_is_reported_and_a_failed_end_is_not_survived() {
    for stage in [Stage::BuildServer, Stage::SpawnTimer, Stage::StartScripts] {
        assert_eq!(stage.turn(false), Turn::NotStarted(stage));
    }
    for stage in [
        Stage::AwaitSession,
        Stage::SendClose,
        Stage::AwaitServer,
        Stage::SendTimerClose,
        Stage::AwaitTimer,
    ] {
        assert_eq!(stage.turn(false), Turn::BreakDown(stage));
    }
}

#[test]
fn words_on_failed_work() {
    assert_eq!(Stage::BuildServer.failure_words(), Some("couldn't set up CS integration server"));
    assert_eq!(Stage::SpawnTimer.failure_words(), None);
    assert_eq!(Stage::StartScripts.failure_words(), Some("couldn't start script host"));
    assert_eq!(Stage::AwaitSession.failure_words(), None);
    assert_eq!(Stage::SendClose.failure_words(), Some("Critical: Crashed sending close event."));
    assert_eq!(Stage::AwaitServer.failure_words(), Some("Critical: Crashed stopping GSI server."));
    assert_eq!(
        Stage::SendTimerClose.failure_words(),
        Some("Critical: Crashed sending close to event processing thread.")
    );
    assert_eq!(Stage::AwaitTimer.failure_words(), Some("Critical: failed to join timer thread"));
}
