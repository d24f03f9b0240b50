use radar_vis::instance::{build_instances, color, prepare_reflectivity, prepare_velocity, Tint};
use radar_vis::radar::{Gate, Scan, ScanMetadata};
use radar_vis::scan::ScanType;

fn gate(reflectivity: i32, doppler_velocity: i32, range: i32) -> Gate {
    Gate { reflectivity, doppler_velocity, azimuth: 10_000_000, elevation: 500_000, range }
}

fn scan_of(gates: Vec<Gate>) -> Scan {
    let mut min = gates[0];
    let mut max = gates[0];
    for g in &gates {
        min = min.min(g);
        max = max.max(g);
    }
    Scan {
        meta: ScanMetadata {
            name: "synthetic".to_string(),
            angular_resolution: 1_000,
            range_resolution: 250_000,
            start_time: 0,
            end_time: 177_777_777,
            sweep_index: 0,
            min,
            max,
        },
        gates,
    }
}

#[test]
fn reflectivity_keeps_strong_gates_in_order() {
    let scan = scan_of(vec![gate(1000, 0, 5_000_000), gate(4000, 0, 5_000_000), gate(6000, 0, 5_000_000)]);
    let records = prepare_reflectivity(&scan);
    assert_eq!(records.len(), 2);
    assert_eq!(records[0].gate.reflectivity, 4000);
    assert_eq!(records[1].gate.reflectivity, 6000);
}

#[test]
fn reflectivity_thresholds_are_inclusive() {
    let scan = scan_of(vec![
        gate(3499, 0, 5_000_000),
        gate(3500, 0, 5_000_000),
        gate(3501, 0, 5_000_000),
        gate(8000, 0, 2_999_999),
        gate(8000, 0, 3_000_000),
        gate(8000, 0, 3_000_001),
    ]);
    let records = prepare_reflectivity(&scan);
    let kept: Vec<(i32, i32)> = records.iter().map(|r| (r.gate.reflectivity, r.gate.range)).collect();
    assert_eq!(kept, vec![(3500, 5_000_000), (3501, 5_000_000), (8000, 3_000_000), (8000, 3_000_001)]);
}

#[test]
fn velocity_thresholds_are_inclusive() {
    let scan = scan_of(vec![
        gate(0, 1999, 5_000_000),
        gate(0, 2000, 5_000_000),
        gate(0, -1999, 5_000_000),
        gate(0, -2000, 5_000_000),
        gate(0, 5000, 2_999_999),
        gate(0, -5000, 3_000_000),
    ]);
    let records = prepare_velocity(&scan);
    let kept: Vec<(i32, i32)> = records.iter().map(|r| (r.gate.doppler_velocity, r.gate.range)).collect();
    assert_eq!(kept, vec![(2000, 5_000_000), (-2000, 5_000_000), (-5000, 3_000_000)]);
}

#[test]
fn reflectivity_record_quantities() {
    let scan = scan_of(vec![gate(4250, 0, 5_000_000), gate(7000, 0, 10_000_000)]);
    let records = prepare_reflectivity(&scan);
    assert_eq!(records[0].tint, Tint::Ramp(8));
    assert_eq!((records[0].alpha_num, records[0].alpha_den), (4250, 5000));
    assert_eq!(records[0].scale, 20_000_000);
    assert_eq!(records[0].footprint, 5_000_000_000);
    assert_eq!(records[0].depth, 250_000);
    assert_eq!(records[0].alpha_pow, 0);
    assert_eq!(records[1].tint, Tint::Ramp(10));
    assert_eq!((records[1].alpha_num, records[1].alpha_den), (5000, 5000));
}

#[test]
fn velocity_colour_and_opacity() {
    let scan = scan_of(vec![gate(0, 3000, 4_000_000), gate(0, -2500, 4_000_000), gate(0, -5000, 4_000_000)]);
    let records = prepare_velocity(&scan);
    assert_eq!(records.len(), 3);
    assert_eq!(records[0].tint, Tint::Outbound);
    assert_eq!((records[0].alpha_num, records[0].alpha_den), (3000, 5000));
    assert_eq!(records[1].tint, Tint::Inbound);
    assert_eq!((records[1].alpha_num, records[1].alpha_den), (2500, 5000));
    assert_eq!((records[2].alpha_num, records[2].alpha_den), (5000, 5000));
}

#[test]
fn builder_dispatches_on_type() {
    let scan = scan_of(vec![gate(4000, 0, 5_000_000), gate(0, 2500, 5_000_000)]);
    assert_eq!(build_instances(&scan, ScanType::Reflectivity), prepare_reflectivity(&scan));
    assert_eq!(build_instances(&scan, ScanType::Velocity), prepare_velocity(&scan));
    assert_eq!(build_instances(&scan, ScanType::Velocity).len(), 1);
}

#[test]
fn colour_ramp_buckets() {
    assert_eq!(color(-100), Tint::Ramp(0));
    assert_eq!(color(0), Tint::Ramp(0));
    assert_eq!(color(499), Tint::Ramp(0));
    assert_eq!(color(500), Tint::Ramp(1));
    assert_eq!(color(3500), Tint::Ramp(7));
    assert_eq!(color(4999), Tint::Ramp(9));
    assert_eq!(color(5000), Tint::Ramp(10));
    assert_eq!(color(9000), Tint::Ramp(10));
}
