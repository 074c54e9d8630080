use ccdi::capacity::{check_storage, parse_free_space, DfProbe};
use ccdi::config::ServiceConfig;
use ccdi::device::ExposureParams;
use ccdi::frame::{FrameData, RawImage};
use ccdi::geom::ExposureArea;
use ccdi::messages::{StateMessage, StorageMessage};
use ccdi::status::{StorageLogStatus, StorageState};
use ccdi::storage::Storage;

const TEST_DF_OUTPUT: &str = "Filesystem           1K-blocks  Used      Available  Use% Mounted on\n/dev/mapper/luks-a6e 1967861712 111750632 1756075448   6% /media/x/759\n";

#[test]
fn parse_df_output() {
    let details =
        parse_free_space(&TEST_DF_OUTPUT.as_bytes().to_vec()).expect("Parse details failed");
    assert_eq!(
        details.total_kilobytes as f64 / 1024.0 / 1024.0,
        1967861712.0 / 1024.0 / 1024.0
    );
    assert_eq!(
        details.free_kilobytes as f64 / 1024.0 / 1024.0,
        1756075448.0 / 1024.0 / 1024.0
    );
}

#[test]
fn parse_df_output_gigabytes() {
    let details =
        parse_free_space(&TEST_DF_OUTPUT.as_bytes().to_vec()).expect("Parse details failed");
    let total_gb = details.total_kilobytes as f64 / 1024.0 / 1024.0;
    let free_gb = details.free_kilobytes as f64 / 1024.0 / 1024.0;
    assert!((total_gb - 1876.699).abs() < 0.001);
    assert!((free_gb - 1674.724).abs() < 0.001);
}

#[test]
fn parse_df_missing_second_line() {
    assert!(parse_free_space(&b"Filesystem 1K-blocks\n".to_vec()).is_err());
    assert!(parse_free_space(&b"".to_vec()).is_err());
}

#[test]
fn parse_df_non_numeric_column() {
    let text = b"header\n/dev/sda what 3 4 5\n".to_vec();
    assert!(parse_free_space(&text).is_err());
}

#[test]
fn parse_df_too_few_columns() {
    let text = b"header\n/dev/sda 123\n".to_vec();
    assert!(parse_free_space(&text).is_err());
}

#[test]
fn parse_df_huge_number_is_rejected() {
    let text = b"header\n/dev/sda 99999999999999999999999 0 1 0%\n".to_vec();
    assert!(parse_free_space(&text).is_err());
}

#[test]
fn check_storage_classifies_outcomes() {
    let ok = DfProbe {
        exit_code: Some(0),
        stdout: TEST_DF_OUTPUT.as_bytes().to_vec(),
        stderr: String::new(),
    };
    match check_storage(Ok(ok)) {
        StorageState::Available(c) => {
            assert_eq!(c.total_kilobytes, 1967861712);
            assert_eq!(c.free_kilobytes, 1756075448);
        }
        other => panic!("expected an available state, got {:?}", other),
    }

    let failed = DfProbe {
        exit_code: Some(1),
        stdout: Vec::new(),
        stderr: String::from("no such directory"),
    };
    assert!(matches!(check_storage(Ok(failed)), StorageState::Error(_)));
    assert!(matches!(
        check_storage(Err(String::from("spawn failed"))),
        StorageState::Error(_)
    ));

    let no_code = DfProbe {
        exit_code: None,
        stdout: Vec::new(),
        stderr: String::new(),
    };
    assert!(matches!(check_storage(Ok(no_code)), StorageState::Error(_)));
}

fn test_config() -> ServiceConfig {
    let mut config = ServiceConfig::default();
    config.storage = String::from("/data/frames");
    config.savecadence_ms = 1000;
    config
}

fn frame() -> RawImage {
    RawImage {
        params: ExposureParams {
            gain: 0,
            time_us: 1000,
            area: ExposureArea {
                x: 0,
                y: 0,
                width: 2,
                height: 2,
            },
            autoexp: false,
            flipx: false,
            flipy: false,
            percentile_pix_ppm: 0,
            pixel_tgt: 0,
            pixel_tol: 0,
            save: false,
        },
        data: FrameData {
            width: 2,
            height: 2,
            pixels: vec![1, 2, 3, 4],
        },
    }
}

#[test]
fn first_image_saves_immediately() {
    let mut storage = Storage::new(&test_config());
    let out = storage.process(StorageMessage::EnableStore, 0);
    assert!(out.save.is_none());
    let out = storage.process(StorageMessage::ProcessImage(frame()), 5000);
    let request = out.save.expect("first frame must be saved");
    assert_eq!(request.file_name, "/data/frames/default/00000.fits");
}

#[test]
fn cadence_skips_until_elapsed() {
    // Cadence of 1000 ms, frames at 0, 400, 900, 1000, 1500, 2600:
    // saves at 0, 1000 and 2600.
    let mut storage = Storage::new(&test_config());
    storage.process(StorageMessage::EnableStore, 0);
    let times = [0u64, 400, 900, 1000, 1500, 2600];
    let mut saved = Vec::new();
    for t in times {
        let out = storage.process(StorageMessage::ProcessImage(frame()), t);
        if let Some(request) = out.save {
            saved.push(t);
            storage.record_save_result(request.file_name, None);
        }
    }
    assert_eq!(saved, vec![0, 1000, 2600]);
}

#[test]
fn disable_then_enable_saves_at_once() {
    let mut storage = Storage::new(&test_config());
    storage.process(StorageMessage::EnableStore, 0);
    let out = storage.process(StorageMessage::ProcessImage(frame()), 0);
    assert!(out.save.is_some());
    // 1 ms later a frame is skipped by the cadence.
    let out = storage.process(StorageMessage::ProcessImage(frame()), 1);
    assert!(out.save.is_none());
    // Disabling and re-enabling clears the timer: the very next frame saves
    // although no time has passed at all.
    storage.process(StorageMessage::DisableStore, 1);
    storage.process(StorageMessage::EnableStore, 1);
    let out = storage.process(StorageMessage::ProcessImage(frame()), 1);
    assert!(out.save.is_some());
}

#[test]
fn disabled_storage_ignores_frames() {
    let mut storage = Storage::new(&test_config());
    let out = storage.process(StorageMessage::ProcessImage(frame()), 0);
    assert!(out.save.is_none());
    // A disabled manager still reports its detail snapshot.
    assert_eq!(out.messages.len(), 1);
}

#[test]
fn log_keeps_twenty_entries_and_evicts_oldest() {
    let mut storage = Storage::new(&test_config());
    for i in 0..21u32 {
        let name = format!("frame-{}", i);
        let messages = storage.record_save_result(name, None);
        assert_eq!(messages.len(), 1);
        match messages.into_iter().next().unwrap() {
            StateMessage::UpdateStorageDetail(detail) => {
                assert!(detail.storage_log.len() <= 20);
                assert_eq!(detail.counter, (i + 1) as usize);
            }
            other => panic!("expected a storage detail update, got {:?}", other),
        }
    }
    let detail = storage.get_details();
    assert_eq!(detail.storage_log.len(), 20);
    // The oldest entry, frame-0, was evicted by the twenty-first.
    assert_eq!(detail.storage_log[0].name, "frame-1");
    assert_eq!(detail.storage_log[19].name, "frame-20");
}

#[test]
fn failed_saves_advance_counter_and_log_errors() {
    let mut storage = Storage::new(&test_config());
    storage.record_save_result(
        String::from("/data/frames/default/00000.fits"),
        Some(String::from("permission denied")),
    );
    let detail = storage.get_details();
    assert_eq!(detail.counter, 1);
    assert_eq!(detail.storage_log.len(), 1);
    match &detail.storage_log[0].status {
        StorageLogStatus::Error(reason) => assert_eq!(reason, "permission denied"),
        StorageLogStatus::Success => panic!("a failed save must be logged as an error"),
    }
}

#[test]
fn set_directory_resets_counter() {
    let mut storage = Storage::new(&test_config());
    storage.record_save_result(String::from("a"), None);
    storage.record_save_result(String::from("b"), None);
    assert_eq!(storage.get_details().counter, 2);
    storage.process(StorageMessage::SetDirectory(String::from("run2")), 0);
    let detail = storage.get_details();
    assert_eq!(detail.counter, 0);
    assert_eq!(detail.storage_name, "run2");
    storage.process(StorageMessage::EnableStore, 0);
    let out = storage.process(StorageMessage::ProcessImage(frame()), 0);
    assert_eq!(
        out.save.expect("must save").file_name,
        "/data/frames/run2/00000.fits"
    );
}

#[test]
fn file_names_pad_counter_to_five_digits() {
    let mut storage = Storage::new(&test_config());
    for _ in 0..123 {
        storage.record_save_result(String::from("x"), None);
    }
    assert_eq!(storage.current_file_name(), "/data/frames/default/00123.fits");
}

#[test]
fn trailing_slash_in_root_is_kept_clean() {
    let mut config = test_config();
    config.storage = String::from("~/storage/");
    let storage = Storage::new(&config);
    assert_eq!(storage.current_file_name(), "~/storage/default/00000.fits");
    assert_eq!(storage.probe_directory(), "~/storage/");
}

#[test]
fn update_cadence_changes_the_interval() {
    let mut storage = Storage::new(&test_config());
    storage.process(StorageMessage::EnableStore, 0);
    storage.process(StorageMessage::UpdateCadence(10), 0);
    let out = storage.process(StorageMessage::ProcessImage(frame()), 100);
    assert!(out.save.is_some());
    let out = storage.process(StorageMessage::ProcessImage(frame()), 105);
    assert!(out.save.is_none());
    let out = storage.process(StorageMessage::ProcessImage(frame()), 110);
    assert!(out.save.is_some());
}

#[test]
fn periodic_reports_capacity_state_and_snapshot() {
    let mut storage = Storage::new(&test_config());
    let probe = DfProbe {
        exit_code: Some(0),
        stdout: TEST_DF_OUTPUT.as_bytes().to_vec(),
        stderr: String::new(),
    };
    let messages = storage.periodic_tasks(Ok(probe));
    assert_eq!(messages.len(), 2);
    let mut messages = messages.into_iter();
    match messages.next().unwrap() {
        StateMessage::UpdateStorageState(StorageState::Available(c)) => {
            assert_eq!(c.total_kilobytes, 1967861712);
        }
        other => panic!("expected an available storage state, got {:?}", other),
    }
    match messages.next().unwrap() {
        StateMessage::UpdateStorageDetail(detail) => {
            assert!(matches!(detail.state, StorageState::Available(_)));
        }
        other => panic!("expected a storage detail snapshot, got {:?}", other),
    }
}

#[test]
fn skipped_frame_still_reports_a_snapshot() {
    // Under the cadence every processed message reports the snapshot, a
    // silently dropped frame included.
    let mut storage = Storage::new(&test_config());
    storage.process(StorageMessage::EnableStore, 0);
    let out = storage.process(StorageMessage::ProcessImage(frame()), 0);
    assert!(out.save.is_some());
    storage.record_save_result(String::from("first"), None);
    let out = storage.process(StorageMessage::ProcessImage(frame()), 1);
    assert!(out.save.is_none());
    assert_eq!(out.messages.len(), 1);
    match out.messages.into_iter().next().unwrap() {
        StateMessage::UpdateStorageDetail(detail) => {
            // The snapshot reflects the unchanged state: one recorded save.
            assert_eq!(detail.counter, 1);
        }
        other => panic!("expected a storage detail snapshot, got {:?}", other),
    }
}
