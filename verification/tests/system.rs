//! Tests of the host, input, gesture, sleep, lifecycle, settings, audio,
//! variable and hardware-access logic.

use retrohost::audio::AudioHandoff;
use retrohost::games::{group_games, Console, Game};
use retrohost::geometry::{frame_budget_nanos, frame_interval_nanos, AvInfo};
use retrohost::gesture::{Gesture, GestureTracker, LONG_PRESS_MS};
use retrohost::hal::{
    audio_format_supported, audio_fragment_spec, clamp_volume, gpio_file_path, next_power_of_2,
    parse_enabled, pwm_file_path, volume_update_plan, Direction, Input, Model, Output, Polarity,
    PwmParseError,
};
use retrohost::host::{EnvAction, HostError, HostState};
use retrohost::input::{Button, ButtonEvent, EventValue, InputState};
use retrohost::lifecycle::{
    battery_report, classify_exit, emulator_args, menu_gesture_plan, power_gesture_plan,
    route_event, EventRoute, ExitClass, PlayState, StopError, SystemMessage,
};
use retrohost::settings::Settings;
use retrohost::sleep::{
    is_excluded, processes_to_continue, processes_to_stop, should_stop, ProcStatus, ProcessInfo,
    SleepController,
};
use retrohost::variables::VariableDef;

fn proc(pid: u64, parent: Option<u64>, name: &str, status: ProcStatus) -> ProcessInfo {
    ProcessInfo { pid, parent, name: name.to_string(), status }
}

#[test]
fn gesture_short_press_fires_one_short_action() {
    let mut t = GestureTracker::new();
    t.press(1000);
    let (gesture, cancel) = t.release(1100); // held 100 ms, threshold 500 ms
    assert_eq!(gesture, Some(Gesture::Short));
    assert!(cancel);
    // The press is cleared: a stray second release fires nothing.
    assert_eq!(t.release(1200), (None, false));
}

#[test]
fn gesture_long_hold_fires_one_long_action() {
    let mut t = GestureTracker::new();
    t.press(0);
    let (gesture, _) = t.release(600); // held 600 ms
    assert_eq!(gesture, Some(Gesture::Long));
    assert_eq!(t.release(700), (None, false));
}

#[test]
fn gesture_exact_threshold_is_long() {
    let mut t = GestureTracker::new();
    t.press(0);
    let (gesture, _) = t.release(LONG_PRESS_MS);
    assert_eq!(gesture, Some(Gesture::Long));
}

#[test]
fn gesture_fired_feedback_is_not_cancelled_again() {
    let mut t = GestureTracker::new();
    t.press(0);
    t.feedback_fired();
    let (gesture, cancel) = t.release(600);
    assert_eq!(gesture, Some(Gesture::Long));
    assert!(!cancel);
}

#[test]
fn sleep_twice_signals_only_once() {
    let table = vec![
        proc(100, Some(10), "game", ProcStatus::Run),
        proc(101, Some(10), "other", ProcStatus::Sleep),
    ];
    let mut c = SleepController::new();
    let first = c.sleep(&table, false);
    assert_eq!(first.signal_pids, vec![100, 101]);
    assert!(first.set_backlight);
    // Already suspended: the second sleep stops nothing.
    let second = c.sleep(&table, false);
    assert!(second.signal_pids.is_empty());
    assert!(!second.set_backlight);
    assert!(c.sleeping());
}

#[test]
fn wake_when_not_asleep_signals_nothing() {
    let table = vec![proc(100, Some(10), "game", ProcStatus::Stop)];
    let mut c = SleepController::new();
    let plan = c.wake(&table, true);
    assert!(plan.signal_pids.is_empty());
    assert!(!plan.notify_emulator);
    assert!(!plan.set_backlight);
    assert!(!c.sleeping());
}

#[test]
fn wake_continues_exactly_the_stopped_processes() {
    let table = vec![
        proc(100, Some(10), "a", ProcStatus::Stop),
        proc(101, Some(10), "b", ProcStatus::Run),
        proc(102, Some(10), "c", ProcStatus::Stop),
    ];
    let mut c = SleepController::new();
    c.sleep(&vec![], true);
    let plan = c.wake(&table, true);
    assert_eq!(plan.signal_pids, vec![100, 102]);
    assert!(plan.notify_emulator);
    assert!(plan.set_backlight);
    assert_eq!(processes_to_continue(&table), vec![100, 102]);
}

#[test]
fn process_partition_respects_exclusions_and_low_pids() {
    assert!(is_excluded("sh"));
    assert!(is_excluded("emulator"));
    assert!(is_excluded("tee"));
    assert!(!is_excluded("games"));
    let table = vec![
        proc(100, Some(10), "stopme", ProcStatus::Run),
        proc(101, Some(10), "sh", ProcStatus::Run),       // excluded by name
        proc(2, Some(10), "lowpid", ProcStatus::Run),     // pid too low
        proc(102, Some(2), "kernelkid", ProcStatus::Run), // parent too low
        proc(103, None, "orphan", ProcStatus::Dead),      // no parent: eligible
        proc(104, Some(10), "stopped", ProcStatus::Stop), // already stopped
        proc(105, Some(10), "zombie", ProcStatus::Other),
    ];
    assert_eq!(processes_to_stop(&table), vec![100, 103]);
    assert!(should_stop(&proc(50, Some(40), "x", ProcStatus::Sleep)));
    assert!(!should_stop(&proc(50, Some(40), "updater", ProcStatus::Run)));
}

#[test]
fn host_checks_the_interface_version() {
    assert!(HostState::check_api_version(1).is_ok());
    assert_eq!(
        HostState::check_api_version(2),
        Err(HostError::ApiVersionMismatch)
    );
    assert_eq!(
        HostState::check_api_version(0),
        Err(HostError::ApiVersionMismatch)
    );
}

#[test]
fn environment_dispatch_matches_the_protocol() {
    let mut h = HostState::new();
    assert_eq!(
        h.environment_call(3, 0),
        Ok((false, EnvAction::WriteBool(true)))
    );
    assert_eq!(
        h.environment_call(9, 0),
        Ok((true, EnvAction::ProvideDirectory))
    );
    assert_eq!(
        h.environment_call(31, 0),
        Ok((true, EnvAction::ProvideDirectory))
    );
    assert_eq!(h.environment_call(16, 0), Ok((true, EnvAction::StoreVariables)));
    assert_eq!(h.environment_call(15, 0), Ok((false, EnvAction::Nothing)));
    assert_eq!(
        h.environment_call(17, 0),
        Ok((true, EnvAction::WriteBool(false)))
    );
    assert_eq!(h.environment_call(27, 0), Ok((true, EnvAction::InstallLogger)));
    assert_eq!(h.environment_call(63, 0), Ok((true, EnvAction::Nothing)));
    assert_eq!(h.environment_call(64, 0), Ok((true, EnvAction::Nothing)));
    assert_eq!(h.environment_call(65583, 0), Ok((false, EnvAction::Nothing)));
    assert_eq!(h.environment_call(9999, 0), Ok((false, EnvAction::Nothing)));
}

#[test]
fn pixel_format_negotiation_sets_bytes_per_pixel() {
    let mut h = HostState::new();
    assert_eq!(h.bytes_per_pixel(), 4);
    assert_eq!(
        h.environment_call(10, 1),
        Ok((true, EnvAction::AcceptPixelFormat))
    );
    assert_eq!(h.bytes_per_pixel(), 2);
    assert_eq!(
        h.environment_call(10, 2),
        Ok((true, EnvAction::AcceptPixelFormat))
    );
    assert_eq!(h.bytes_per_pixel(), 4);
    // An unknown format id is fatal.
    assert_eq!(h.environment_call(10, 7), Err(HostError::UnknownPixelFormat));
}

#[test]
fn av_info_is_cached_once() {
    let mut h = HostState::new();
    let first = AvInfo {
        base_width: 160,
        base_height: 144,
        max_width: 160,
        max_height: 144,
        aspect_num: 10,
        aspect_den: 9,
        fps_mhz: 59_727,
        sample_rate_hz: 32768,
    };
    h.set_av_info(first);
    let mut second = first;
    second.base_width = 999;
    h.set_av_info(second);
    assert_eq!(h.av_info().unwrap().base_width, 160);
}

#[test]
fn joypad_poll_reads_the_held_set() {
    let mut h = HostState::new();
    let mut input = InputState::new();
    input.apply_event(&ButtonEvent::new(Button::A, EventValue::Pressed));
    input.apply_event(&ButtonEvent::new(Button::Up, EventValue::Pressed));
    h.set_input(input);
    assert_eq!(h.input_state_response(8), 1); // A
    assert_eq!(h.input_state_response(4), 1); // Up
    assert_eq!(h.input_state_response(0), 0); // B not held
    assert_eq!(h.input_state_response(99), 0); // unknown id
}

#[test]
fn input_state_tracks_presses_and_releases() {
    let mut s = InputState::new();
    assert!(!s.is_held(Button::A));
    s.apply_event(&ButtonEvent::new(Button::A, EventValue::Pressed));
    assert!(s.is_held(Button::A));
    s.apply_event(&ButtonEvent::new(Button::B, EventValue::Pressed));
    s.apply_event(&ButtonEvent::new(Button::A, EventValue::Released));
    assert!(!s.is_held(Button::A));
    assert!(s.is_held(Button::B));
}

#[test]
fn button_codes_decode_to_buttons() {
    assert_eq!(Button::from_raw(1), Some(Button::Menu));
    assert_eq!(Button::from_raw(116), Some(Button::Power));
    assert_eq!(Button::from_raw(57), Some(Button::A));
    assert_eq!(Button::from_raw(29), Some(Button::B));
    assert_eq!(Button::from_raw(42), Some(Button::X));
    assert_eq!(Button::from_raw(56), Some(Button::Y));
    assert_eq!(Button::from_raw(200), None);
    let ev = ButtonEvent::from_raw(116, EventValue::Pressed).unwrap();
    assert!(ev.is_pressed(Button::Power));
    assert!(!ev.is_released(Button::Power));
    assert!(!ev.is_held(Button::Power));
    assert!(ButtonEvent::from_raw(200, EventValue::Pressed).is_none());
    assert_eq!(*ev.button(), Button::Power);
    assert_eq!(*ev.value(), EventValue::Pressed);
    assert!(ev.pressed());
    assert!(!ev.released());
    assert!(!ev.held());
}

#[test]
fn event_routing_depends_on_sleep_and_play() {
    let power = ButtonEvent::new(Button::Power, EventValue::Pressed);
    let menu = ButtonEvent::new(Button::Menu, EventValue::Pressed);
    let a = ButtonEvent::new(Button::A, EventValue::Pressed);
    assert_eq!(route_event(&power, true, true), EventRoute::Power);
    assert_eq!(route_event(&menu, false, true), EventRoute::Menu);
    assert_eq!(route_event(&menu, true, false), EventRoute::Drop);
    assert_eq!(route_event(&a, false, false), EventRoute::Forward);
    assert_eq!(route_event(&a, false, true), EventRoute::Drop);
    assert_eq!(route_event(&a, true, false), EventRoute::Drop);
}

#[test]
fn power_gestures_plan_sleep_wake_and_shutdown() {
    assert_eq!(
        power_gesture_plan(Gesture::Long, false, true),
        (true, SystemMessage::Shutdown)
    );
    assert_eq!(
        power_gesture_plan(Gesture::Long, false, false),
        (false, SystemMessage::Shutdown)
    );
    assert_eq!(
        power_gesture_plan(Gesture::Short, true, true),
        (false, SystemMessage::Wake)
    );
    assert_eq!(
        power_gesture_plan(Gesture::Short, false, true),
        (true, SystemMessage::Sleep)
    );
}

#[test]
fn menu_gestures_plan_menu_and_switcher() {
    assert_eq!(
        menu_gesture_plan(Gesture::Long, true),
        (true, SystemMessage::MainMenu)
    );
    assert_eq!(
        menu_gesture_plan(Gesture::Short, false),
        (false, SystemMessage::Switcher)
    );
}

#[test]
fn stop_sequence_saves_then_kills() {
    let mut p = PlayState::new();
    assert!(!p.playing());
    p.play_started();
    assert!(p.playing());
    assert!(p.begin_stop());
    // A failed save leaves the emulator running and reports the error.
    assert_eq!(p.finish_stop(false), Err(StopError::SaveFailed));
    assert!(p.playing());
    // A successful save leads to the kill.
    assert_eq!(p.finish_stop(true), Ok(true));
    assert!(!p.playing());
    // Stopping while nothing plays is a harmless no-op.
    assert_eq!(p.finish_stop(true), Ok(false));
}

#[test]
fn exit_with_code_is_a_crash() {
    assert_eq!(classify_exit(Some(1)), ExitClass::Crashed(1));
    assert_eq!(classify_exit(Some(0)), ExitClass::Crashed(0));
    assert_eq!(classify_exit(None), ExitClass::Intentional);
}

#[test]
fn battery_reports_are_suppressed_while_asleep() {
    assert_eq!(battery_report(false, 87), Some(87));
    assert_eq!(battery_report(true, 87), None);
}

#[test]
fn emulator_spawn_arguments() {
    let game = Game::new("/mnt/SDCARD/Games/GameBoy/mario.gb").unwrap();
    let args = emulator_args(&game);
    assert_eq!(args.len(), 3);
    assert_eq!(args[0], "/mnt/SDCARD/Cores/gambatte_libretro.so");
    assert_eq!(args[1], "/mnt/SDCARD/Games/GameBoy/mario.gb");
    assert_eq!(args[2], "--load-auto");
}

#[test]
fn consoles_recognise_extensions_and_cores() {
    assert_eq!(Console::from_str("fc"), Some(Console::NES));
    assert_eq!(Console::from_str("sfc"), Some(Console::Snes));
    assert_eq!(Console::from_str("gb"), Some(Console::GB));
    assert_eq!(Console::from_str("gbc"), Some(Console::GBC));
    assert_eq!(Console::from_str("gba"), Some(Console::GBA));
    assert_eq!(Console::from_str("txt"), None);
    assert_eq!(Console::GBA.name(), "GBA");
    assert_eq!(Console::GB.default_core(), "gambatte");
    assert_eq!(Console::all().len(), 5);
}

#[test]
fn games_classify_and_group() {
    let g = Game::new("/games/zelda.gba").unwrap();
    assert_eq!(*g.console(), Console::GBA);
    assert_eq!(g.core_name(), "vbam");
    assert_eq!(g.full_name(), "zelda");
    assert_eq!(g.as_path(), "/games/zelda.gba");
    assert!(Game::new("/games/._zelda.gba").is_none());
    assert!(Game::new("/games/readme.txt").is_none());
    assert!(Game::new("/games/noext").is_none());

    let games = vec![
        Game::new("/g/a.gb").unwrap(),
        Game::new("/g/b.gba").unwrap(),
        Game::new("/g/c.gb").unwrap(),
    ];
    let cache = group_games(games);
    assert_eq!(cache.list(Console::GB).len(), 2);
    assert_eq!(cache.list(Console::GBA).len(), 1);
    assert_eq!(cache.list(Console::NES).len(), 0);
    assert_eq!(cache.list(Console::GB)[0].full_name(), "a");
}

#[test]
fn settings_defaults_and_updates() {
    let s = Settings::default();
    assert_eq!((s.brightness, s.volume), (6, 8));
    assert_eq!(Settings::settings_or_default(Some(s)), (s, false));
    assert_eq!(Settings::settings_or_default(None), (s, true));
    let mut cur = s;
    let sent = cur.update(Settings { brightness: 9, volume: 2 });
    assert_eq!(cur, sent);
    assert_eq!(cur.brightness, 9);
    assert_eq!(
        Settings::changed_fields(Some(9), Some(8), &cur),
        (false, true)
    );
    assert_eq!(Settings::changed_fields(None, None, &cur), (true, true));
}

#[test]
fn audio_handoff_drops_on_backpressure() {
    let mut h = AudioHandoff::new();
    assert!(h.offer(vec![1, 2, 3]));
    // The playback thread has not drained yet: the new batch is dropped.
    assert!(!h.offer(vec![4, 5, 6]));
    assert_eq!(h.take(), Some(vec![1, 2, 3]));
    assert_eq!(h.take(), None);
    assert!(h.offer(vec![4, 5, 6]));
}

#[test]
fn frame_timing_from_millihertz() {
    // Sixty frames per second: 16,666,666 ns per frame.
    assert_eq!(frame_interval_nanos(60_000), 16_666_666);
    assert_eq!(frame_budget_nanos(60_000), 16_666_666 - 300_000);
    // Absurdly fast frame rates clamp the budget at zero.
    assert_eq!(frame_budget_nanos(10_000_000_000), 0);
}

#[test]
fn volume_plans_clamp_and_mute() {
    assert_eq!(clamp_volume(25), 20);
    assert_eq!(clamp_volume(-3), 0);
    assert_eq!(clamp_volume(11), 11);

    // From mute upward: set the value and unmute.
    let p = volume_update_plan(-60, 30);
    assert_eq!(p.set_value, Some(-30));
    assert_eq!(p.set_mute, Some(false));
    // Down to the mute point: set and mute.
    let p2 = volume_update_plan(-30, 0);
    assert_eq!(p2.set_value, Some(-60));
    assert_eq!(p2.set_mute, Some(true));
    // Already there: write nothing.
    let p3 = volume_update_plan(-30, 30);
    assert_eq!(p3.set_value, None);
    assert_eq!(p3.set_mute, None);
    // Above the raw ceiling: clamped.
    let p4 = volume_update_plan(0, 1000);
    assert_eq!(p4.set_value, Some(30));
    assert_eq!(p4.set_mute, None);
}

#[test]
fn next_power_of_two_values() {
    assert_eq!(next_power_of_2(-5), 1);
    assert_eq!(next_power_of_2(0), 1);
    assert_eq!(next_power_of_2(1), 1);
    assert_eq!(next_power_of_2(3), 4);
    assert_eq!(next_power_of_2(1024), 1024);
    assert_eq!(next_power_of_2(1025), 2048);
    assert_eq!(next_power_of_2(0x40000000), 0x40000000);
}

#[test]
fn audio_device_format_word_is_checked() {
    assert!(audio_format_supported(0x10));
    assert!(audio_format_supported(0x3F));
    assert!(!audio_format_supported(0x0F));
    assert!(!audio_format_supported(0));
}

#[test]
fn audio_fragment_spec_requests_two_fragments() {
    // 2048 bytes need the eleventh power of two; the high half asks for two
    // fragments.
    assert_eq!(audio_fragment_spec(2048), 0x0002000B);
    assert_eq!(audio_fragment_spec(1), 0x00020000);
    assert_eq!(audio_fragment_spec(3), 0x00020002);
}

#[test]
fn pwm_and_gpio_paths_and_values() {
    assert_eq!(
        pwm_file_path(0, 1, "duty_cycle"),
        "/sys/class/pwm/pwmchip0/pwm1/duty_cycle"
    );
    assert_eq!(gpio_file_path(48, "value"), "/sys/class/gpio/gpio48/value");
    assert_eq!(Polarity::Normal.as_str(), "normal");
    assert_eq!(Polarity::Inverse.as_str(), "inversed");
    assert_eq!(Input::dir(), "in");
    assert_eq!(Output::dir(), "out");
    assert_eq!(parse_enabled("1"), Ok(true));
    assert_eq!(parse_enabled("0"), Ok(false));
    assert_eq!(parse_enabled("2"), Err(PwmParseError::Invalid));
    assert_eq!(parse_enabled(""), Err(PwmParseError::Invalid));
}

#[test]
fn model_geometry_and_probe() {
    assert_eq!(Model::from_probe(true), Model::MiniPlus);
    assert_eq!(Model::from_probe(false), Model::Mini);
    assert_eq!(Model::Mini.width(), 640);
    assert_eq!(Model::MiniPlus.height(), 480);
}

#[test]
fn variable_definitions_parse_key_desc_and_options() {
    let d = VariableDef::parse("gb_palette".to_string(), "Palette; red|green|blue").unwrap();
    assert_eq!(d.key, "gb_palette");
    assert_eq!(d.desc, "Palette");
    assert_eq!(d.opts, vec!["red", "green", "blue"]);
    let single = VariableDef::parse("k".to_string(), "Desc; only").unwrap();
    assert_eq!(single.opts, vec!["only"]);
    assert!(VariableDef::parse("k".to_string(), "malformed").is_none());
}
