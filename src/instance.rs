//! Turning a scan into renderable instance records for one measurement type.
//!
//! Each record keeps its own sample; the renderer projects it to
//! Cartesian space and builds the floating-point transform from the record's
//! integer quantities.
use vstd::prelude::*;

use crate::radar::{Gate, Scan, ScanMetadata};
use crate::scan::ScanType;

verus! {

/// Gates weaker than 35 dBZ are not drawn in the reflectivity pass.
pub const REFLECTIVITY_FLOOR: i32 = 3500;

/// Gates slower than 20 m/s are not drawn in the velocity pass.
pub const VELOCITY_FLOOR: i64 = 2000;

/// Gates nearer than 3000 m are not drawn.
pub const RANGE_FLOOR: i32 = 3_000_000;

/// Reflectivity covered by one entry of the colour ramp: 5 dBZ.
pub const RAMP_STEP: i32 = 500;

/// Index of the last entry of the eleven-entry colour ramp.
pub const RAMP_LAST: usize = 10;

/// Reflectivity at which a gate is fully opaque: 50 dBZ.
pub const OPAQUE_REFLECTIVITY: i64 = 5000;

/// How a record is coloured.
#[derive(Debug, Clone, Copy, PartialEq, Eq, Structural)]
pub enum Tint {
    /// Entry of the reflectivity colour ramp.
    Ramp(usize),
    /// Pure red: motion towards the radar.
    Inbound,
    /// Pure green: motion away from the radar.
    Outbound,
}

/// One renderable primitive. Opacity is the fraction `alpha_num / alpha_den`.
#[derive(Debug, Clone, Copy, PartialEq, Eq, Structural)]
pub struct InstanceRecord {
    /// Sample this primitive stands at.
    pub gate: Gate,
    /// `range * 0.004`, in micrometres.
    pub scale: i64,
    pub tint: Tint,
    pub alpha_num: i64,
    pub alpha_den: i64,
    /// Width and height of the primitive: angular resolution times range,
    /// in millionths of a degree times millimetres.
    pub footprint: i128,
    /// Depth of the primitive: the range resolution, millimetres.
    pub depth: i64,
    /// Global exponent applied to the opacity.
    pub alpha_pow: u32,
}

/// A scan's records for one measurement type.
pub struct InstanceBatch {
    pub kind: ScanType,
    pub meta: ScanMetadata,
    pub records: Vec<InstanceRecord>,
}

/// Entry of the colour ramp for a reflectivity: one entry per 5 dBZ,
/// the last entry for everything above.
pub open spec fn ramp_index(reflectivity: int) -> int {
    if reflectivity < 0 {
        0
    } else if reflectivity / RAMP_STEP as int > RAMP_LAST as int {
        RAMP_LAST as int
    } else {
        reflectivity / RAMP_STEP as int
    }
}

pub open spec fn abs_of(v: int) -> int {
    if v < 0 {
        -v
    } else {
        v
    }
}

pub open spec fn larger(a: int, b: int) -> int {
    if a >= b {
        a
    } else {
        b
    }
}

/// The reflectivity pass: none for weak or near gates.
pub open spec fn reflectivity_record(meta: ScanMetadata, g: Gate) -> Option<InstanceRecord> {
    if g.reflectivity < REFLECTIVITY_FLOOR || g.range < RANGE_FLOOR {
        None
    } else {
        Some(
            InstanceRecord {
                gate: g,
                scale: (4 * g.range) as i64,
                tint: Tint::Ramp(ramp_index(g.reflectivity as int) as usize),
                alpha_num: if g.reflectivity as int >= OPAQUE_REFLECTIVITY as int {
                    OPAQUE_REFLECTIVITY
                } else {
                    g.reflectivity as i64
                },
                alpha_den: OPAQUE_REFLECTIVITY,
                footprint: (meta.angular_resolution * g.range) as i128,
                depth: meta.range_resolution,
                alpha_pow: 0,
            },
        )
    }
}

/// The velocity pass: none for slow or near gates. Opacity is the speed over the
/// scan's largest speed, at most one.
pub open spec fn velocity_record(meta: ScanMetadata, g: Gate) -> Option<InstanceRecord> {
    let speed = abs_of(g.doppler_velocity as int);
    if speed < VELOCITY_FLOOR || g.range < RANGE_FLOOR {
        None
    } else {
        let top = larger(
            abs_of(meta.max.doppler_velocity as int),
            abs_of(meta.min.doppler_velocity as int),
        );
        Some(
            InstanceRecord {
                gate: g,
                scale: (4 * g.range) as i64,
                tint: if g.doppler_velocity < 0 {
                    Tint::Inbound
                } else {
                    Tint::Outbound
                },
                alpha_num: speed as i64,
                alpha_den: larger(top, speed) as i64,
                footprint: (meta.angular_resolution * g.range) as i128,
                depth: meta.range_resolution,
                alpha_pow: 0,
            },
        )
    }
}

pub open spec fn record_for(kind: ScanType, meta: ScanMetadata, g: Gate) -> Option<InstanceRecord> {
    match kind {
        ScanType::Reflectivity => reflectivity_record(meta, g),
        ScanType::Velocity => velocity_record(meta, g),
    }
}

/// The records of the gates that pass, in gate order.
pub open spec fn records_for(kind: ScanType, meta: ScanMetadata, gates: Seq<Gate>) -> Seq<
    InstanceRecord,
>
    decreases gates.len(),
{
    if gates.len() == 0 {
        Seq::empty()
    } else {
        let rest = records_for(kind, meta, gates.drop_last());
        match record_for(kind, meta, gates.last()) {
            Some(x) => rest.push(x),
            None => rest,
        }
    }
}

/// Whether a sample clears the thresholds of a pass.
pub open spec fn passes(kind: ScanType, g: Gate) -> bool {
    &&& g.range >= RANGE_FLOOR
    &&& match kind {
        ScanType::Reflectivity => g.reflectivity >= REFLECTIVITY_FLOOR,
        ScanType::Velocity => abs_of(g.doppler_velocity as int) >= VELOCITY_FLOOR,
    }
}

/// Colour-ramp entry of a reflectivity, in hundredths of a dBZ.
pub fn color(reflectivity: i32) -> (r: Tint)
    ensures
        r == Tint::Ramp(ramp_index(reflectivity as int) as usize),
        ramp_index(reflectivity as int) <= RAMP_LAST,
{
    if reflectivity < 0 {
        Tint::Ramp(0)
    } else {
        let i = reflectivity / RAMP_STEP;
        if i as usize > RAMP_LAST {
            Tint::Ramp(RAMP_LAST)
        } else {
            Tint::Ramp(i as usize)
        }
    }
}

fn footprint(angular_resolution: i64, range: i32) -> (r: i128)
    ensures
        r == angular_resolution * range,
{
    let a = angular_resolution as i128;
    let b = range as i128;
    assert(-0x1_0000_0000_0000_0000_0000_0000 < a * b < 0x1_0000_0000_0000_0000_0000_0000)
        by (nonlinear_arith)
        requires
            -0x8000_0000_0000_0000 <= a < 0x8000_0000_0000_0000,
            -0x8000_0000 <= b < 0x8000_0000,
    ;
    a * b
}

fn reflectivity_instance(meta: &ScanMetadata, g: Gate) -> (r: Option<InstanceRecord>)
    ensures
        r == reflectivity_record(*meta, g),
{
    if g.reflectivity < REFLECTIVITY_FLOOR || g.range < RANGE_FLOOR {
        return None;
    }
    let alpha_num: i64 = if g.reflectivity as i64 >= OPAQUE_REFLECTIVITY {
        OPAQUE_REFLECTIVITY
    } else {
        g.reflectivity as i64
    };
    Some(
        InstanceRecord {
            gate: g,
            scale: 4 * g.range as i64,
            tint: color(g.reflectivity),
            alpha_num,
            alpha_den: OPAQUE_REFLECTIVITY,
            footprint: footprint(meta.angular_resolution, g.range),
            depth: meta.range_resolution,
            alpha_pow: 0,
        },
    )
}

fn velocity_instance(meta: &ScanMetadata, g: Gate) -> (r: Option<InstanceRecord>)
    ensures
        r == velocity_record(*meta, g),
{
    let v = g.doppler_velocity as i64;
    let speed: i64 = if v < 0 {
        -v
    } else {
        v
    };
    if speed < VELOCITY_FLOOR || g.range < RANGE_FLOOR {
        return None;
    }
    let hi = meta.max.doppler_velocity as i64;
    let lo = meta.min.doppler_velocity as i64;
    let hi_speed: i64 = if hi < 0 {
        -hi
    } else {
        hi
    };
    let lo_speed: i64 = if lo < 0 {
        -lo
    } else {
        lo
    };
    let top = if hi_speed >= lo_speed {
        hi_speed
    } else {
        lo_speed
    };
    Some(
        InstanceRecord {
            gate: g,
            scale: 4 * g.range as i64,
            tint: if v < 0 {
                Tint::Inbound
            } else {
                Tint::Outbound
            },
            alpha_num: speed,
            alpha_den: if top >= speed {
                top
            } else {
                speed
            },
            footprint: footprint(meta.angular_resolution, g.range),
            depth: meta.range_resolution,
            alpha_pow: 0,
        },
    )
}

/// The records of one scan for one measurement type, in gate order.
pub fn build_instances(scan: &Scan, kind: ScanType) -> (r: Vec<InstanceRecord>)
    ensures
        r@ == records_for(kind, scan.meta, scan.gates@),
        forall|k: int| 0 <= k < r@.len() ==> passes(kind, (#[trigger] r@[k]).gate),
        forall|k: int| 0 <= k < r@.len() ==> (#[trigger] r@[k]).alpha_num <= r@[k].alpha_den,
        forall|k: int| 0 <= k < r@.len() ==> 0 < (#[trigger] r@[k]).alpha_den,
{
    let mut out: Vec<InstanceRecord> = Vec::new();
    let mut i: usize = 0;
    while i < scan.gates.len()
        invariant
            i <= scan.gates@.len(),
            out@ == records_for(kind, scan.meta, scan.gates@.take(i as int)),
            forall|k: int| 0 <= k < out@.len() ==> passes(kind, (#[trigger] out@[k]).gate),
            forall|k: int|
                0 <= k < out@.len() ==> (#[trigger] out@[k]).alpha_num <= out@[k].alpha_den,
            forall|k: int| 0 <= k < out@.len() ==> 0 < (#[trigger] out@[k]).alpha_den,
        decreases scan.gates@.len() - i,
    {
        let g = scan.gates[i];
        let picked = match kind {
            ScanType::Reflectivity => reflectivity_instance(&scan.meta, g),
            ScanType::Velocity => velocity_instance(&scan.meta, g),
        };
        let ghost prefix = scan.gates@.take(i + 1);
        assert(prefix.drop_last() =~= scan.gates@.take(i as int));
        assert(prefix.last() == g);
        match picked {
            Some(x) => {
                out.push(x);
            },
            None => {},
        }
        i = i + 1;
    }
    assert(scan.gates@.take(scan.gates@.len() as int) =~= scan.gates@);
    out
}

/// The reflectivity records of a scan: gates of at least 35 dBZ and 3000 m,
/// coloured by the ramp, in gate order.
pub fn prepare_reflectivity(scan: &Scan) -> (r: Vec<InstanceRecord>)
    ensures
        r@ == records_for(ScanType::Reflectivity, scan.meta, scan.gates@),
        forall|k: int|
            0 <= k < r@.len() ==> (#[trigger] r@[k]).gate.reflectivity >= REFLECTIVITY_FLOOR
                && r@[k].gate.range >= RANGE_FLOOR,
{
    build_instances(scan, ScanType::Reflectivity)
}

/// The velocity records of a scan: gates of at least 20 m/s either way and
/// 3000 m, red inbound and green outbound, in gate order.
pub fn prepare_velocity(scan: &Scan) -> (r: Vec<InstanceRecord>)
    ensures
        r@ == records_for(ScanType::Velocity, scan.meta, scan.gates@),
        forall|k: int|
            0 <= k < r@.len() ==> abs_of((#[trigger] r@[k]).gate.doppler_velocity as int)
                >= VELOCITY_FLOOR && r@[k].gate.range >= RANGE_FLOOR,
{
    build_instances(scan, ScanType::Velocity)
}

} // verus!
