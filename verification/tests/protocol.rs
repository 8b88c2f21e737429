//! Tests of the save protocol, slot paths, IPC codec and argument parsing.

use std::collections::HashMap;

use retrohost::args::Args;
use retrohost::ipc::{
    encode_empty_args, encode_save_state_args, parse_save_state_args, parse_start_args,
    parse_stop_args, response_status, route, socket_path, IpcCall, SaveState, SaveStateArgs,
    Start, Stop,
};
use retrohost::save::{save_path, screenshot_path, SaveManager, SaveOutcome, SaveStep};
use retrohost::text::{decimal_string, parse_decimal, str_eq};

#[test]
fn save_coalescing_second_request_changes_nothing() {
    let mut m = SaveManager::new();
    assert_eq!(m.request_save(), SaveOutcome::Started);
    // First request raised the pause token; a second request while the save
    // is in flight succeeds at once and must not touch the handshake.
    assert_eq!(m.request_save(), SaveOutcome::Coalesced);
    // The run loop parks exactly once: one token was raised.
    assert!(m.poll_pause());
    assert!(!m.poll_pause());
    assert!(m.main_parked());
}

#[test]
fn save_cycle_resumes_loop_before_files_are_written() {
    let mut m = SaveManager::new();
    assert_eq!(m.request_save(), SaveOutcome::Started);
    assert!(m.poll_pause());
    let step = m.serialize_result(true);
    assert_eq!(step, SaveStep::Write);
    // Resumed before any file is written.
    assert!(!m.main_parked());
    m.complete_save();
    // A new save may begin afterwards.
    assert_eq!(m.request_save(), SaveOutcome::Started);
}

#[test]
fn save_retries_once_then_aborts() {
    let mut m = SaveManager::new();
    assert_eq!(m.request_save(), SaveOutcome::Started);
    assert!(m.poll_pause());
    assert_eq!(m.serialize_result(false), SaveStep::Retry);
    // Still parked for the retry.
    assert!(m.main_parked());
    assert_eq!(m.serialize_result(false), SaveStep::Abort);
    assert!(!m.main_parked());
    // The failed operation is over; the next request starts fresh.
    assert_eq!(m.request_save(), SaveOutcome::Started);
}

#[test]
fn ipc_stop_and_start_drive_the_pause_token() {
    let mut m = SaveManager::new();
    m.park_main();
    assert!(m.poll_pause());
    assert!(m.main_parked());
    m.unpark_main();
    assert!(!m.main_parked());
    // Waking twice is harmless.
    m.unpark_main();
    assert!(!m.main_parked());
}

#[test]
fn slot_paths_use_auto_and_numbers() {
    let dir = "/mnt/SDCARD/Saves/gambatte/saves";
    assert_eq!(save_path(dir, "mario", None), format!("{dir}/mario-auto.sav"));
    assert_eq!(save_path(dir, "mario", Some(3)), format!("{dir}/mario-3.sav"));
    assert_eq!(
        screenshot_path(dir, "mario", Some(12)),
        format!("{dir}/mario-12.sav.png")
    );
}

#[test]
fn save_then_load_round_trips_in_a_store() {
    // The slot path is deterministic, so what save writes is what load
    // reads back, byte for byte.
    let mut store: HashMap<String, Vec<u8>> = HashMap::new();
    let dir = "/saves";
    let data = vec![1u8, 2, 3, 4, 5];
    store.insert(save_path(dir, "zelda", None), data.clone());
    let loaded = store.get(&save_path(dir, "zelda", None)).unwrap();
    assert_eq!(loaded, &data);
}

#[test]
fn missing_slot_file_is_distinguishable() {
    let store: HashMap<String, Vec<u8>> = HashMap::new();
    assert!(store.get(&save_path("/saves", "zelda", None)).is_none());
}

#[test]
fn ipc_paths_and_routing() {
    assert_eq!(SaveState::path(), "/save-state");
    assert_eq!(Stop::path(), "/stop");
    assert_eq!(Start::path(), "/start");
    assert_eq!(socket_path(), "/tmp/ipc.sock");
    assert_eq!(route("/save-state"), Some(IpcCall::SaveState));
    assert_eq!(route("/stop"), Some(IpcCall::Stop));
    assert_eq!(route("/start"), Some(IpcCall::Start));
    assert_eq!(route("/nope"), None);
}

#[test]
fn save_args_encode_matches_json() {
    assert_eq!(
        encode_save_state_args(&SaveStateArgs { slot: None }),
        "{\"slot\":null}"
    );
    assert_eq!(
        encode_save_state_args(&SaveStateArgs { slot: Some(12) }),
        "{\"slot\":12}"
    );
    assert_eq!(encode_empty_args(), "{}");
}

#[test]
fn save_args_parse_round_trips() {
    for slot in [None, Some(0), Some(7), Some(12345), Some(u64::MAX)] {
        let body = encode_save_state_args(&SaveStateArgs { slot });
        assert_eq!(parse_save_state_args(&body), Some(SaveStateArgs { slot }));
    }
}

#[test]
fn save_args_parse_rejects_malformed_bodies() {
    assert_eq!(parse_save_state_args(""), None);
    assert_eq!(parse_save_state_args("{}"), None);
    assert_eq!(parse_save_state_args("{\"slot\":}"), None);
    assert_eq!(parse_save_state_args("{\"slot\":01}"), None);
    assert_eq!(parse_save_state_args("{\"slot\":12"), None);
    assert_eq!(parse_save_state_args("{\"slot\":18446744073709551616}"), None);
    assert_eq!(parse_save_state_args("{\"slot\":nul}"), None);
}

#[test]
fn empty_object_bodies_parse_for_stop_and_start() {
    assert!(parse_stop_args("{}").is_some());
    assert!(parse_start_args("{}").is_some());
    assert!(parse_stop_args("{ }").is_none());
    assert!(parse_start_args("x").is_none());
}

#[test]
fn response_status_maps_handler_outcome() {
    assert_eq!(response_status(true), 200);
    assert_eq!(response_status(false), 500);
}

#[test]
fn args_parse_flag_and_positionals() {
    let argv = vec![
        "--load-auto".to_string(),
        "/cores/gambatte_libretro.so".to_string(),
        "/games/mario.gb".to_string(),
    ];
    let a = Args::parse(&argv).unwrap();
    assert!(a.load_auto);
    assert_eq!(a.core_path, "/cores/gambatte_libretro.so");
    assert_eq!(a.game_path, "/games/mario.gb");

    let argv2 = vec!["/c.so".to_string(), "/g.gb".to_string()];
    let a2 = Args::parse(&argv2).unwrap();
    assert!(!a2.load_auto);

    assert!(Args::parse(&vec!["/only-one".to_string()]).is_none());
}

#[test]
fn core_name_trims_the_plugin_suffix() {
    let a = Args {
        load_auto: false,
        core_path: "/mnt/SDCARD/Cores/gambatte_libretro.so".to_string(),
        game_path: "/mnt/SDCARD/Games/GameBoy/mario.gb".to_string(),
    };
    assert_eq!(a.core_name(), "gambatte");
    assert_eq!(a.game_name(), "mario");
    assert_eq!(a.sys_dir(), "/mnt/SDCARD/Saves/gambatte");
    assert_eq!(a.save_dir(), "/mnt/SDCARD/Saves/gambatte/saves");
}

#[test]
fn decimal_rendering_and_parsing() {
    assert_eq!(decimal_string(0), "0");
    assert_eq!(decimal_string(12345), "12345");
    assert_eq!(decimal_string(u64::MAX), "18446744073709551615");
    assert_eq!(parse_decimal("0"), Some(0));
    assert_eq!(parse_decimal("12345"), Some(12345));
    assert_eq!(parse_decimal("18446744073709551615"), Some(u64::MAX));
    assert_eq!(parse_decimal("18446744073709551616"), None);
    assert_eq!(parse_decimal("01"), None);
    assert_eq!(parse_decimal(""), None);
    assert_eq!(parse_decimal("12x"), None);
}

#[test]
fn str_eq_compares_by_characters() {
    assert!(str_eq("abc", "abc"));
    assert!(!str_eq("abc", "abd"));
    assert!(!str_eq("abc", "ab"));
    assert!(str_eq("", ""));
}
