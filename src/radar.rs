//! Gates, sweeps and the decoding of one sweep's fields into a scan.
//!
//! All measurements are held as integers in fixed units:
//! reflectivity in hundredths of a dBZ, Doppler velocity in hundredths of a
//! metre per second (the raw units stored in the volume files), angles in
//! millionths of a degree, ranges in millimetres and instants in nanoseconds
//! since the Unix epoch.
use vstd::prelude::*;

verus! {

/// Nominal duration of one sweep, in nanoseconds.
pub const SWEEP_DURATION_NS: i64 = 177_777_777;

/// One measurement sample at an (azimuth, elevation, range) cell.
#[derive(Debug, Clone, Copy, PartialEq, Eq, Structural)]
pub struct Gate {
    /// Hundredths of a dBZ.
    pub reflectivity: i32,
    /// Hundredths of a metre per second; negative is inbound.
    pub doppler_velocity: i32,
    /// Millionths of a degree.
    pub azimuth: i32,
    /// Millionths of a degree.
    pub elevation: i32,
    /// Millimetres.
    pub range: i32,
}

pub open spec fn max_of(a: i32, b: i32) -> i32 {
    if a >= b { a } else { b }
}

pub open spec fn min_of(a: i32, b: i32) -> i32 {
    if a <= b { a } else { b }
}

impl Gate {
    /// The componentwise maximum of two gates.
    pub fn max(&self, other: &Self) -> (r: Self)
        ensures
            r.reflectivity == max_of(self.reflectivity, other.reflectivity),
            r.doppler_velocity == max_of(self.doppler_velocity, other.doppler_velocity),
            r.azimuth == max_of(self.azimuth, other.azimuth),
            r.elevation == max_of(self.elevation, other.elevation),
            r.range == max_of(self.range, other.range),
    {
        Gate {
            reflectivity: if self.reflectivity >= other.reflectivity {
                self.reflectivity
            } else {
                other.reflectivity
            },
            doppler_velocity: if self.doppler_velocity >= other.doppler_velocity {
                self.doppler_velocity
            } else {
                other.doppler_velocity
            },
            azimuth: if self.azimuth >= other.azimuth {
                self.azimuth
            } else {
                other.azimuth
            },
            elevation: if self.elevation >= other.elevation {
                self.elevation
            } else {
                other.elevation
            },
            range: if self.range >= other.range {
                self.range
            } else {
                other.range
            },
        }
    }

    /// The componentwise minimum of two gates.
    pub fn min(&self, other: &Self) -> (r: Self)
        ensures
            r.reflectivity == min_of(self.reflectivity, other.reflectivity),
            r.doppler_velocity == min_of(self.doppler_velocity, other.doppler_velocity),
            r.azimuth == min_of(self.azimuth, other.azimuth),
            r.elevation == min_of(self.elevation, other.elevation),
            r.range == min_of(self.range, other.range),
    {
        Gate {
            reflectivity: if self.reflectivity <= other.reflectivity {
                self.reflectivity
            } else {
                other.reflectivity
            },
            doppler_velocity: if self.doppler_velocity <= other.doppler_velocity {
                self.doppler_velocity
            } else {
                other.doppler_velocity
            },
            azimuth: if self.azimuth <= other.azimuth {
                self.azimuth
            } else {
                other.azimuth
            },
            elevation: if self.elevation <= other.elevation {
                self.elevation
            } else {
                other.elevation
            },
            range: if self.range <= other.range {
                self.range
            } else {
                other.range
            },
        }
    }
}

/// Every field of `b` is at most the same field of every gate.
pub open spec fn bounds_below(b: Gate, gates: Seq<Gate>) -> bool {
    forall|k: int|
        0 <= k < gates.len() ==> {
            &&& b.reflectivity <= (#[trigger] gates[k]).reflectivity
            &&& b.doppler_velocity <= gates[k].doppler_velocity
            &&& b.azimuth <= gates[k].azimuth
            &&& b.elevation <= gates[k].elevation
            &&& b.range <= gates[k].range
        }
}

/// Every field of `b` is at least the same field of every gate.
pub open spec fn bounds_above(b: Gate, gates: Seq<Gate>) -> bool {
    forall|k: int|
        0 <= k < gates.len() ==> {
            &&& (#[trigger] gates[k]).reflectivity <= b.reflectivity
            &&& gates[k].doppler_velocity <= b.doppler_velocity
            &&& gates[k].azimuth <= b.azimuth
            &&& gates[k].elevation <= b.elevation
            &&& gates[k].range <= b.range
        }
}

/// Every field of `b` is the same field of some gate (not necessarily the same gate).
pub open spec fn attained(b: Gate, gates: Seq<Gate>) -> bool {
    &&& exists|k: int| 0 <= k < gates.len() && (#[trigger] gates[k]).reflectivity == b.reflectivity
    &&& exists|k: int|
        0 <= k < gates.len() && (#[trigger] gates[k]).doppler_velocity == b.doppler_velocity
    &&& exists|k: int| 0 <= k < gates.len() && (#[trigger] gates[k]).azimuth == b.azimuth
    &&& exists|k: int| 0 <= k < gates.len() && (#[trigger] gates[k]).elevation == b.elevation
    &&& exists|k: int| 0 <= k < gates.len() && (#[trigger] gates[k]).range == b.range
}

/// `b` is the componentwise minimum of a non-empty list of gates.
pub open spec fn is_componentwise_min(b: Gate, gates: Seq<Gate>) -> bool {
    bounds_below(b, gates) && attained(b, gates)
}

/// `b` is the componentwise maximum of a non-empty list of gates.
pub open spec fn is_componentwise_max(b: Gate, gates: Seq<Gate>) -> bool {
    bounds_above(b, gates) && attained(b, gates)
}

/// The componentwise minimum and maximum of a non-empty list of gates,
/// each field taken independently of the others.
pub fn gate_bounds(gates: &Vec<Gate>) -> (r: (Gate, Gate))
    requires
        gates@.len() > 0,
    ensures
        is_componentwise_min(r.0, gates@),
        is_componentwise_max(r.1, gates@),
{
    let mut lo = gates[0];
    let mut hi = gates[0];
    let mut i: usize = 1;
    assert(gates@.take(1)[0] == lo);
    while i < gates.len()
        invariant
            1 <= i <= gates@.len(),
            is_componentwise_min(lo, gates@.take(i as int)),
            is_componentwise_max(hi, gates@.take(i as int)),
        decreases gates@.len() - i,
    {
        let g = gates[i];
        let ghost prev = gates@.take(i as int);
        let ghost next = gates@.take(i + 1);
        assert(forall|k: int| 0 <= k < i ==> next[k] == prev[k]);
        assert(next[i as int] == g);
        lo = lo.min(&g);
        hi = hi.max(&g);
        proof {
            assert(bounds_below(lo, next));
            assert(bounds_above(hi, next));
            lemma_attained_step(lo, prev, next, g);
            lemma_attained_step(hi, prev, next, g);
        }
        i = i + 1;
    }
    assert(gates@.take(gates@.len() as int) =~= gates@);
    (lo, hi)
}

/// Each field of `b` is either the field of an earlier gate or of `g`;
/// then `b` is attained over the longer list.
proof fn lemma_attained_step(b: Gate, prev: Seq<Gate>, next: Seq<Gate>, g: Gate)
    requires
        next.len() == prev.len() + 1,
        forall|k: int| 0 <= k < prev.len() ==> next[k] == prev[k],
        next[prev.len() as int] == g,
        exists|k: int|
            0 <= k < prev.len() && (#[trigger] prev[k]).reflectivity == b.reflectivity
                || g.reflectivity == b.reflectivity,
        exists|k: int|
            0 <= k < prev.len() && (#[trigger] prev[k]).doppler_velocity == b.doppler_velocity
                || g.doppler_velocity == b.doppler_velocity,
        exists|k: int|
            0 <= k < prev.len() && (#[trigger] prev[k]).azimuth == b.azimuth || g.azimuth
                == b.azimuth,
        exists|k: int|
            0 <= k < prev.len() && (#[trigger] prev[k]).elevation == b.elevation || g.elevation
                == b.elevation,
        exists|k: int|
            0 <= k < prev.len() && (#[trigger] prev[k]).range == b.range || g.range == b.range,
    ensures
        attained(b, next),
{
    let n = prev.len() as int;
    if g.reflectivity != b.reflectivity {
        let k = choose|k: int| 0 <= k < prev.len() && (#[trigger] prev[k]).reflectivity == b.reflectivity;
        assert(next[k].reflectivity == b.reflectivity);
    } else {
        assert(next[n].reflectivity == b.reflectivity);
    }
    if g.doppler_velocity != b.doppler_velocity {
        let k = choose|k: int|
            0 <= k < prev.len() && (#[trigger] prev[k]).doppler_velocity == b.doppler_velocity;
        assert(next[k].doppler_velocity == b.doppler_velocity);
    } else {
        assert(next[n].doppler_velocity == b.doppler_velocity);
    }
    if g.azimuth != b.azimuth {
        let k = choose|k: int| 0 <= k < prev.len() && (#[trigger] prev[k]).azimuth == b.azimuth;
        assert(next[k].azimuth == b.azimuth);
    } else {
        assert(next[n].azimuth == b.azimuth);
    }
    if g.elevation != b.elevation {
        let k = choose|k: int| 0 <= k < prev.len() && (#[trigger] prev[k]).elevation == b.elevation;
        assert(next[k].elevation == b.elevation);
    } else {
        assert(next[n].elevation == b.elevation);
    }
    if g.range != b.range {
        let k = choose|k: int| 0 <= k < prev.len() && (#[trigger] prev[k]).range == b.range;
        assert(next[k].range == b.range);
    } else {
        assert(next[n].range == b.range);
    }
}

/// The instant a timestamp text denotes, in nanoseconds since the Unix epoch;
/// none where the text is not a timestamp or the instant does not fit in `i64`.
pub uninterp spec fn utc_nanos(text: Seq<char>) -> Option<i64>;

/// Relies on chrono's `FromStr for DateTime<Utc>` (relaxed RFC 3339, with an
/// offset) and `DateTime::timestamp_nanos_opt` (none outside the `i64` range).
#[verifier::external_body]
fn parse_utc_nanos(text: &str) -> (r: Option<i64>)
    ensures
        r == utc_nanos(text@),
{
    match text.parse::<chrono::DateTime<chrono::Utc>>() {
        Ok(t) => t.timestamp_nanos_opt(),
        Err(_) => None,
    }
}

/// Why the fields of a sweep could not be turned into a scan.
#[derive(Debug, Clone, Copy, PartialEq, Eq, Structural)]
pub enum DecodeError {
    /// A required field is absent, or its values do not cover every ray and range bin.
    MissingField,
    /// The start-time text is not a timestamp, or the sweep's times do not fit.
    BadTimestamp,
    /// The sweep holds no gate.
    Empty,
    /// The file could not be read.
    Io,
}

/// The fields read from one sweep file, in the file's raw units.
pub struct SweepFields {
    /// Identifier of the source, usually its path.
    pub name: String,
    pub sweep_number: i32,
    /// Nominal start time of the volume, as text.
    pub start_text: String,
    /// One entry per ray, millionths of a degree.
    pub azimuth: Vec<i32>,
    /// One entry per ray, millionths of a degree.
    pub elevation: Vec<i32>,
    /// One entry per range bin, millimetres.
    pub range: Vec<i32>,
    /// One row per ray, one value per range bin, hundredths of a dBZ.
    pub reflectivity: Vec<Vec<i32>>,
    /// One row per ray, one value per range bin, hundredths of a metre per second.
    pub velocity: Vec<Vec<i32>>,
}

/// Metadata of a decoded sweep.
pub struct ScanMetadata {
    pub name: String,
    /// Azimuth span over the number of rays, millionths of a degree.
    pub angular_resolution: i64,
    /// Range span over the number of range bins, millimetres.
    pub range_resolution: i64,
    /// Nanoseconds since the Unix epoch.
    pub start_time: i64,
    /// Nanoseconds since the Unix epoch.
    pub end_time: i64,
    pub sweep_index: i32,
    /// Componentwise minimum over all gates.
    pub min: Gate,
    /// Componentwise maximum over all gates.
    pub max: Gate,
}

impl Clone for ScanMetadata {
    fn clone(&self) -> (r: Self)
        ensures
            r == *self,
    {
        ScanMetadata {
            name: self.name.clone(),
            angular_resolution: self.angular_resolution,
            range_resolution: self.range_resolution,
            start_time: self.start_time,
            end_time: self.end_time,
            sweep_index: self.sweep_index,
            min: self.min,
            max: self.max,
        }
    }
}

/// A decoded sweep: metadata and gates, ray-major then range-minor.
pub struct Scan {
    pub meta: ScanMetadata,
    pub gates: Vec<Gate>,
}

/// Every row of every per-ray field covers the rays and the range bins.
pub open spec fn shape_ok(f: SweepFields) -> bool {
    let rays = f.azimuth@.len();
    let bins = f.range@.len();
    &&& f.elevation@.len() == rays
    &&& f.reflectivity@.len() == rays
    &&& f.velocity@.len() == rays
    &&& forall|i: int| 0 <= i < rays ==> (#[trigger] f.reflectivity@[i])@.len() == bins
    &&& forall|i: int| 0 <= i < rays ==> (#[trigger] f.velocity@[i])@.len() == bins
}

/// Sample of ray `i` at range bin `j`.
pub open spec fn gate_at(f: SweepFields, i: int, j: int) -> Gate {
    Gate {
        reflectivity: f.reflectivity@[i]@[j],
        doppler_velocity: f.velocity@[i]@[j],
        azimuth: f.azimuth@[i],
        elevation: f.elevation@[i],
        range: f.range@[j],
    }
}

/// The gates of ray `i`, one per range bin.
pub open spec fn ray_gates(f: SweepFields, i: int) -> Seq<Gate> {
    Seq::new(f.range@.len(), |j: int| gate_at(f, i, j))
}

/// The gates of the first `n` rays, ray after ray.
pub open spec fn gates_of_rays(f: SweepFields, n: int) -> Seq<Gate>
    decreases n,
{
    if n <= 0 {
        Seq::empty()
    } else {
        gates_of_rays(f, n - 1) + ray_gates(f, n - 1)
    }
}

/// All gates of a sweep, ray-major then range-minor.
pub open spec fn sweep_gates(f: SweepFields) -> Seq<Gate> {
    gates_of_rays(f, f.azimuth@.len() as int)
}

/// Start of sweep `sweep` of a volume that starts at `nominal`.
pub open spec fn sweep_start(nominal: int, sweep: int) -> int {
    nominal + sweep * SWEEP_DURATION_NS
}

/// Start and end of the sweep, where the nominal start is known and both fit in `i64`.
pub open spec fn sweep_times(nominal: Option<i64>, sweep_number: i32) -> Option<(i64, i64)> {
    match nominal {
        None => None,
        Some(t) => {
            let start = sweep_start(t as int, sweep_number as int);
            let end = start + SWEEP_DURATION_NS;
            if i64::MIN <= start && end <= i64::MAX {
                Some((start as i64, end as i64))
            } else {
                None
            }
        },
    }
}

/// The error that decoding the fields gives, if any, in the order the fields are checked.
pub open spec fn decode_error(f: SweepFields, nominal: Option<i64>) -> Option<DecodeError> {
    if sweep_times(nominal, f.sweep_number) is None {
        Some(DecodeError::BadTimestamp)
    } else if !shape_ok(f) {
        Some(DecodeError::MissingField)
    } else if f.azimuth@.len() == 0 || f.range@.len() == 0 {
        Some(DecodeError::Empty)
    } else {
        None
    }
}

/// `r` is the outcome of decoding the fields of a volume that starts at `nominal`:
/// the first error the fields give, or the scan with the sweep's times, its
/// gates ray by ray, their componentwise bounds and the resolutions.
pub open spec fn decoded_as(f: SweepFields, nominal: Option<i64>, r: Result<Scan, DecodeError>) -> bool {
    &&& match decode_error(f, nominal) {
        Some(e) => r == Err::<Scan, DecodeError>(e),
        None => r is Ok,
    }
    &&& r matches Ok(s) ==> {
        let times = sweep_times(nominal, f.sweep_number)->Some_0;
        &&& s.meta.name@ == f.name@
        &&& s.meta.sweep_index == f.sweep_number
        &&& s.meta.start_time == times.0
        &&& s.meta.end_time == times.1
        &&& s.meta.end_time == s.meta.start_time + SWEEP_DURATION_NS
        &&& s.gates@ == sweep_gates(f)
        &&& s.gates@.len() == f.azimuth@.len() * f.range@.len()
        &&& is_componentwise_min(s.meta.min, s.gates@)
        &&& is_componentwise_max(s.meta.max, s.gates@)
        &&& s.meta.angular_resolution == resolution_of(
            s.meta.max.azimuth - s.meta.min.azimuth,
            f.azimuth@.len() as int,
        )
        &&& s.meta.range_resolution == resolution_of(
            s.meta.max.range - s.meta.min.range,
            f.range@.len() as int,
        )
        &&& s.meta.angular_resolution >= 0
        &&& s.meta.range_resolution >= 0
    }
}

/// A span over a number of samples; zero where there are fewer than two samples.
pub open spec fn resolution_of(span: int, count: int) -> int {
    if count <= 1 {
        0
    } else {
        span / count
    }
}

fn resolution(span: i64, count: usize) -> (r: i64)
    requires
        0 <= span,
    ensures
        r == resolution_of(span as int, count as int),
        r >= 0,
{
    if count <= 1 {
        0
    } else {
        let q = span as u64 / count as u64;
        assert(q <= span) by (nonlinear_arith)
            requires
                q == span as u64 / count as u64,
                count > 1,
                span >= 0,
        ;
        q as i64
    }
}

proof fn lemma_gates_of_rays_len(f: SweepFields, n: int)
    requires
        0 <= n,
    ensures
        gates_of_rays(f, n).len() == n * f.range@.len(),
    decreases n,
{
    let bins = f.range@.len() as int;
    if n > 0 {
        lemma_gates_of_rays_len(f, n - 1);
        assert(gates_of_rays(f, n).len() == gates_of_rays(f, n - 1).len() + bins);
        assert((n - 1) * bins + bins == n * bins) by (nonlinear_arith);
    } else {
        assert(n * bins == 0) by (nonlinear_arith)
            requires
                n == 0,
        ;
    }
}

/// Gate `j` of ray `i` stands at position `i * bins + j` of the sweep's gates.
pub proof fn lemma_gate_position(f: SweepFields, n: int, i: int, j: int)
    requires
        0 <= i < n,
        0 <= j < f.range@.len(),
    ensures
        i * f.range@.len() + j < gates_of_rays(f, n).len(),
        gates_of_rays(f, n)[i * f.range@.len() + j] == gate_at(f, i, j),
    decreases n,
{
    let bins = f.range@.len() as int;
    lemma_gates_of_rays_len(f, n - 1);
    lemma_gates_of_rays_len(f, n);
    if i < n - 1 {
        lemma_gate_position(f, n - 1, i, j);
    } else {
        assert(i * bins + j == (n - 1) * bins + j);
    }
    assert(i * bins + j < n * bins) by (nonlinear_arith)
        requires
            0 <= i < n,
            0 <= j < bins,
    ;
}

/// Turns the fields of one sweep into a scan: parses the volume's nominal start
/// and decodes the sweep from it.
pub fn scan_from_fields(f: SweepFields) -> (r: Result<Scan, DecodeError>)
    ensures
        decoded_as(f, utc_nanos(f.start_text@), r),
{
    let nominal = parse_utc_nanos(f.start_text.as_str());
    decode_sweep(f, nominal)
}

/// Turns the fields of one sweep of a volume that starts at `nominal` into a
/// scan: shifts the start by the sweep's index, lays out the gates ray by ray,
/// and records the componentwise bounds and the angular and range resolutions.
pub fn decode_sweep(f: SweepFields, nominal: Option<i64>) -> (r: Result<Scan, DecodeError>)
    ensures
        decoded_as(f, nominal, r),
{
    let base = match nominal {
        Some(t) => t,
        None => return Err(DecodeError::BadTimestamp),
    };
    let offset: i64 = f.sweep_number as i64 * SWEEP_DURATION_NS;
    let start = match base.checked_add(offset) {
        Some(t) => t,
        None => return Err(DecodeError::BadTimestamp),
    };
    let end = match start.checked_add(SWEEP_DURATION_NS) {
        Some(t) => t,
        None => return Err(DecodeError::BadTimestamp),
    };

    let rays = f.azimuth.len();
    let bins = f.range.len();
    if f.elevation.len() != rays || f.reflectivity.len() != rays || f.velocity.len() != rays {
        return Err(DecodeError::MissingField);
    }
    let mut k: usize = 0;
    while k < rays
        invariant
            rays == f.azimuth@.len(),
            bins == f.range@.len(),
            f.reflectivity@.len() == rays,
            f.velocity@.len() == rays,
            k <= rays,
            sweep_times(nominal, f.sweep_number) is Some,
            forall|i: int| 0 <= i < k ==> (#[trigger] f.reflectivity@[i])@.len() == bins,
            forall|i: int| 0 <= i < k ==> (#[trigger] f.velocity@[i])@.len() == bins,
        decreases rays - k,
    {
        if f.reflectivity[k].len() != bins || f.velocity[k].len() != bins {
            assert(!shape_ok(f)) by {
                let ki = k as int;
                if f.reflectivity@[ki]@.len() != bins {
                    assert(!(forall|i: int|
                        0 <= i < rays ==> (#[trigger] f.reflectivity@[i])@.len() == bins));
                } else {
                    assert(f.velocity@[ki]@.len() != bins);
                    assert(!(forall|i: int|
                        0 <= i < rays ==> (#[trigger] f.velocity@[i])@.len() == bins));
                }
            }
            return Err(DecodeError::MissingField);
        }
        k = k + 1;
    }
    if rays == 0 || bins == 0 {
        return Err(DecodeError::Empty);
    }

    let mut gates: Vec<Gate> = Vec::new();
    let mut i: usize = 0;
    while i < rays
        invariant
            shape_ok(f),
            rays == f.azimuth@.len(),
            bins == f.range@.len(),
            i <= rays,
            gates@ == gates_of_rays(f, i as int),
        decreases rays - i,
    {
        let az = f.azimuth[i];
        let el = f.elevation[i];
        let dbz_row = &f.reflectivity[i];
        let vel_row = &f.velocity[i];
        assert(dbz_row@.len() == bins && vel_row@.len() == bins) by {
            assert(f.reflectivity@[i as int]@.len() == bins);
            assert(f.velocity@[i as int]@.len() == bins);
        }
        let mut j: usize = 0;
        while j < bins
            invariant
                shape_ok(f),
                rays == f.azimuth@.len(),
                bins == f.range@.len(),
                i < rays,
                j <= bins,
                az == f.azimuth@[i as int],
                el == f.elevation@[i as int],
                dbz_row == f.reflectivity@[i as int],
                vel_row == f.velocity@[i as int],
                dbz_row@.len() == bins,
                vel_row@.len() == bins,
                gates@ == gates_of_rays(f, i as int) + ray_gates(f, i as int).take(j as int),
            decreases bins - j,
        {
            let g = Gate {
                reflectivity: dbz_row[j],
                doppler_velocity: vel_row[j],
                azimuth: az,
                elevation: el,
                range: f.range[j],
            };
            assert(g == gate_at(f, i as int, j as int));
            gates.push(g);
            assert(ray_gates(f, i as int).take(j + 1) =~= ray_gates(f, i as int).take(
                j as int,
            ).push(g));
            j = j + 1;
        }
        assert(ray_gates(f, i as int).take(bins as int) =~= ray_gates(f, i as int));
        i = i + 1;
    }
    proof {
        lemma_gates_of_rays_len(f, rays as int);
    }
    let (lo, hi) = gate_bounds(&gates);
    assert(lo.azimuth <= gates@[0].azimuth <= hi.azimuth);
    assert(lo.range <= gates@[0].range <= hi.range);
    let angular_resolution = resolution(hi.azimuth as i64 - lo.azimuth as i64, rays);
    let range_resolution = resolution(hi.range as i64 - lo.range as i64, bins);
    Ok(
        Scan {
            meta: ScanMetadata {
                name: f.name,
                angular_resolution,
                range_resolution,
                start_time: start,
                end_time: end,
                sweep_index: f.sweep_number,
                min: lo,
                max: hi,
            },
            gates,
        },
    )
}

} // verus!
