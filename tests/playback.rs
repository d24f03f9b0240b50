use radar_vis::instance::{InstanceBatch, InstanceRecord, Tint};
use radar_vis::radar::{scan_from_fields, Gate, SweepFields, SWEEP_DURATION_NS};
use radar_vis::scan::{
    is_visible, keyboard_input, move_time, scan_failed, scan_loaded, update_filter_system, visible_scans,
    InfoChanged, KeyInput, Progress, ScanInfo, ScanLoader, ScanType, DEFAULT_WINDOW_NS,
};

const NOMINAL_NS: i64 = 1_370_041_924_000_000_000;

fn no_keys() -> KeyInput {
    KeyInput {
        velocity: false,
        reflectivity: false,
        narrow: false,
        back: false,
        forward: false,
        toggle_pause: false,
        filter_up: false,
        filter_down: false,
    }
}

fn info_at(t: i64) -> ScanInfo {
    let mut info = ScanInfo::default();
    info.time = Some(t);
    info
}

#[test]
fn defaults() {
    let info = ScanInfo::default();
    assert_eq!(info.time, None);
    assert_eq!(info.scan_type, ScanType::Reflectivity);
    assert_eq!(info.filter, 1);
    assert_eq!(info.visible_window, 8_000_000_000);
    assert_eq!(info.time_ratio, 1);
    assert!(info.paused);
    assert_eq!(info.loaded_scans, 0);
}

#[test]
fn visibility_window_bounds() {
    let t = 1_000_000_000_000;
    let info = info_at(t);
    let w = info.visible_window;
    assert!(is_visible(&info, t, ScanType::Reflectivity));
    assert!(!is_visible(&info, t - w, ScanType::Reflectivity));
    assert!(is_visible(&info, t - w + 1, ScanType::Reflectivity));
    assert!(!is_visible(&info, t + 1, ScanType::Reflectivity));
    assert!(!is_visible(&info, t, ScanType::Velocity));
    assert!(!is_visible(&ScanInfo::default(), t, ScanType::Reflectivity));
}

#[test]
fn playback_advances_only_when_playing() {
    let mut info = info_at(0);
    move_time(&mut info, 1_500_000_000);
    assert_eq!(info.time, Some(0));
    info.paused = false;
    move_time(&mut info, 1_500_000_000);
    assert_eq!(info.time, Some(2_000_000_000));
    move_time(&mut info, 1_400_000_000);
    assert_eq!(info.time, Some(3_000_000_000));
    move_time(&mut info, 16_000_000);
    assert_eq!(info.time, Some(3_000_000_000));
    info.time_ratio = 4;
    move_time(&mut info, 250_000_000);
    assert_eq!(info.time, Some(4_000_000_000));
}

#[test]
fn commands_of_a_tick() {
    let mut info = info_at(100_000_000_000);
    let mut changed = InfoChanged(false);
    let keys = KeyInput { velocity: true, back: true, toggle_pause: true, ..no_keys() };
    keyboard_input(&mut changed, &keys, &mut info);
    assert_eq!(info.scan_type, ScanType::Velocity);
    assert_eq!(info.time, Some(100_000_000_000 - DEFAULT_WINDOW_NS));
    assert!(!info.paused);
    assert!(!changed.0);

    let keys = KeyInput { narrow: true, forward: true, reflectivity: true, velocity: true, ..no_keys() };
    keyboard_input(&mut changed, &keys, &mut info);
    assert_eq!(info.scan_type, ScanType::Reflectivity);
    assert_eq!(info.visible_window, SWEEP_DURATION_NS);
    assert_eq!(info.time, Some(100_000_000_000 - DEFAULT_WINDOW_NS + SWEEP_DURATION_NS));

    keyboard_input(&mut changed, &no_keys(), &mut info);
    assert_eq!(info.visible_window, DEFAULT_WINDOW_NS);
}

#[test]
fn filter_exponent_is_clamped() {
    let mut info = ScanInfo::default();
    let mut changed = InfoChanged(false);
    let down = KeyInput { filter_down: true, ..no_keys() };
    keyboard_input(&mut changed, &down, &mut info);
    assert_eq!(info.filter, 0);
    assert!(changed.0);
    keyboard_input(&mut changed, &down, &mut info);
    assert_eq!(info.filter, 0);
    let up = KeyInput { filter_up: true, ..no_keys() };
    for _ in 0..45 {
        keyboard_input(&mut changed, &up, &mut info);
    }
    assert_eq!(info.filter, 40);
}

#[test]
fn filter_exponent_reaches_every_record() {
    let mut info = ScanInfo::default();
    info.filter = 7;
    let g = Gate { reflectivity: 4000, doppler_velocity: 0, azimuth: 0, elevation: 0, range: 4_000_000 };
    let r = InstanceRecord {
        gate: g,
        scale: 16_000_000,
        tint: Tint::Ramp(8),
        alpha_num: 4000,
        alpha_den: 5000,
        footprint: 0,
        depth: 0,
        alpha_pow: 0,
    };
    let mut records = vec![r, r];
    update_filter_system(&info, &mut records);
    assert_eq!(records.len(), 2);
    assert!(records.iter().all(|x| x.alpha_pow == 7 && x.gate == g && x.alpha_num == 4000));
}

fn grid(sweep: i32) -> SweepFields {
    SweepFields {
        name: format!("sweep{}", sweep),
        sweep_number: sweep,
        start_text: "2013-05-31T23:12:04Z".to_string(),
        azimuth: vec![0, 1_000_000, 2_000_000, 3_000_000],
        elevation: vec![0, 0, 0, 0],
        range: vec![2_000_000, 4_000_000, 6_000_000, 8_000_000],
        reflectivity: vec![vec![4000; 4], vec![1000; 4], vec![6000; 4], vec![0; 4]],
        velocity: vec![vec![2500; 4], vec![-3000; 4], vec![0; 4], vec![100; 4]],
    }
}

#[test]
fn three_sweeps_end_to_end() {
    let mut info = ScanInfo::default();
    let loader = ScanLoader { total_scans: 3, failed_scans: 0 };
    assert_eq!(info.loaded_scans, 0);
    let mut batches: Vec<InstanceBatch> = Vec::new();
    let expected_offsets = [0, 177_777_777, 355_555_554];
    for k in 0..3 {
        let scan = scan_from_fields(grid(k)).unwrap();
        assert_eq!(scan.meta.start_time, NOMINAL_NS + expected_offsets[k as usize]);
        let loaded = scan_loaded(&mut info, &loader, scan);
        assert_eq!(info.loaded_scans, k as usize + 1);
        match loaded.progress {
            Progress::Loading { loaded, total, last_name } => {
                assert!(k < 2);
                assert_eq!((loaded, total), (k as usize + 1, 3));
                assert_eq!(last_name, format!("sweep{}", k));
            }
            Progress::AllLoaded => assert_eq!(k, 2),
        }
        assert_eq!(loaded.reflectivity.kind, ScanType::Reflectivity);
        assert_eq!(loaded.reflectivity.records.len(), 6);
        assert_eq!(loaded.velocity.kind, ScanType::Velocity);
        assert_eq!(loaded.velocity.records.len(), 6);
        batches.push(loaded.reflectivity);
        batches.push(loaded.velocity);
    }
    assert_eq!(info.time, Some(NOMINAL_NS));

    info.time = Some(NOMINAL_NS + 355_555_554 + SWEEP_DURATION_NS);
    assert_eq!(visible_scans(&info, &batches), vec![true, false, true, false, true, false]);
    info.visible_window = SWEEP_DURATION_NS;
    assert_eq!(visible_scans(&info, &batches), vec![false, false, false, false, true, false]);
}

#[test]
fn failed_file_counts_towards_completion() {
    let mut info = ScanInfo::default();
    let mut loader = ScanLoader { total_scans: 2, failed_scans: 0 };
    match scan_failed(&info, &mut loader, "broken.nc".to_string()) {
        Progress::Loading { loaded, total, last_name } => {
            assert_eq!((loaded, total, last_name.as_str()), (0, 2, "broken.nc"));
        }
        Progress::AllLoaded => panic!("one file is still outstanding"),
    }
    assert_eq!(loader.failed_scans, 1);
    let scan = scan_from_fields(grid(0)).unwrap();
    let loaded = scan_loaded(&mut info, &loader, scan);
    assert!(matches!(loaded.progress, Progress::AllLoaded));
}
