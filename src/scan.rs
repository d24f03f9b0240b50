//! Playback state, visibility of batches and the per-tick steps that drive them.
use vstd::prelude::*;

use crate::instance::{prepare_reflectivity, prepare_velocity, records_for, InstanceBatch, InstanceRecord};
use crate::radar::{Scan, SWEEP_DURATION_NS};

verus! {

/// The measurement a batch shows.
#[derive(Debug, Clone, Copy, PartialEq, Eq, Structural)]
pub enum ScanType {
    Reflectivity,
    Velocity,
}

pub const NANOS_PER_SECOND: i64 = 1_000_000_000;

/// Default width of the visible window: eight seconds.
pub const DEFAULT_WINDOW_NS: i64 = 8_000_000_000;

/// Largest global filter exponent.
pub const FILTER_MAX: u32 = 40;

/// Playback and filter state, owned by the interactive loop.
#[derive(Debug)]
pub struct ScanInfo {
    /// Current playback instant, nanoseconds since the Unix epoch; absent until
    /// the first scan arrives.
    pub time: Option<i64>,
    pub scan_type: ScanType,
    /// Global filter exponent, from 0 to 40.
    pub filter: u32,
    /// Nanoseconds.
    pub step_size: i64,
    /// Width of the visible window, nanoseconds.
    pub visible_window: i64,
    /// Playback speed, in multiples of wall-clock time.
    pub time_ratio: u32,
    pub paused: bool,
    pub loaded_scans: usize,
}

impl Default for ScanInfo {
    fn default() -> (r: Self)
        ensures
            r.time is None,
            r.scan_type == ScanType::Reflectivity,
            r.filter == 1,
            r.step_size == DEFAULT_WINDOW_NS,
            r.visible_window == DEFAULT_WINDOW_NS,
            r.time_ratio == 1,
            r.paused,
            r.loaded_scans == 0,
    {
        ScanInfo {
            time: None,
            scan_type: ScanType::Reflectivity,
            filter: 1,
            step_size: DEFAULT_WINDOW_NS,
            visible_window: DEFAULT_WINDOW_NS,
            time_ratio: 1,
            paused: true,
            loaded_scans: 0,
        }
    }
}

/// Set when the filter exponent changes.
pub struct InfoChanged(pub bool);

/// The discrete commands of one tick.
#[derive(Debug, Clone, Copy, PartialEq, Eq, Structural)]
pub struct KeyInput {
    /// Switch to the velocity display.
    pub velocity: bool,
    /// Switch to the reflectivity display.
    pub reflectivity: bool,
    /// Held to narrow the window to a single sweep.
    pub narrow: bool,
    /// Step back by one window.
    pub back: bool,
    /// Step forward by one window.
    pub forward: bool,
    pub toggle_pause: bool,
    pub filter_up: bool,
    pub filter_down: bool,
}

/// `t` moved by `delta`; unchanged where the result would not fit in `i64`.
pub open spec fn shifted(t: Option<i64>, delta: int) -> Option<i64> {
    match t {
        None => None,
        Some(x) => if i64::MIN <= x + delta <= i64::MAX {
            Some((x + delta) as i64)
        } else {
            Some(x)
        },
    }
}

/// Whole seconds, rounded half up, that `elapsed_ns` of wall time amounts to at `ratio`.
pub open spec fn playback_seconds(elapsed_ns: int, ratio: int) -> int {
    (elapsed_ns * ratio + NANOS_PER_SECOND / 2) / NANOS_PER_SECOND as int
}

fn shift(t: Option<i64>, delta: i64) -> (r: Option<i64>)
    ensures
        r == shifted(t, delta as int),
{
    match t {
        None => None,
        Some(x) => match x.checked_add(delta) {
            Some(y) => Some(y),
            None => Some(x),
        },
    }
}

/// Advances the playback clock by the elapsed wall time times the speed,
/// rounded to whole seconds, unless paused.
pub fn move_time(info: &mut ScanInfo, elapsed_ns: u64)
    ensures
        old(info).paused ==> *final(info) == *old(info),
        !old(info).paused ==> *final(info) == (ScanInfo {
            time: shifted(
                old(info).time,
                playback_seconds(elapsed_ns as int, old(info).time_ratio as int) * NANOS_PER_SECOND,
            ),
            ..*old(info)
        }),
{
    if info.paused {
        return;
    }
    let ratio = info.time_ratio;
    assert((elapsed_ns as int) * (ratio as int) < 0x1_0000_0000_0000_0000_0000_0000)
        by (nonlinear_arith)
        requires
            elapsed_ns < 0x1_0000_0000_0000_0000,
            ratio < 0x1_0000_0000,
    ;
    let scaled: u128 = elapsed_ns as u128 * ratio as u128;
    let secs: u128 = (scaled + 500_000_000) / 1_000_000_000;
    assert(secs == playback_seconds(elapsed_ns as int, ratio as int));
    assert(secs * 1_000_000_000 < 0x1_0000_0000_0000_0000_0000_0000_0000) by (nonlinear_arith)
        requires
            secs <= (scaled + 500_000_000) / 1_000_000_000,
            scaled < 0x1_0000_0000_0000_0000_0000_0000,
    ;
    let delta: i128 = secs as i128 * NANOS_PER_SECOND as i128;
    info.time = match info.time {
        None => None,
        Some(t) => {
            let moved: i128 = t as i128 + delta;
            if i64::MIN as i128 <= moved && moved <= i64::MAX as i128 {
                Some(moved as i64)
            } else {
                Some(t)
            }
        },
    };
}

/// `f` raised by one, at most the largest exponent.
pub open spec fn raised(f: u32) -> u32 {
    if f >= FILTER_MAX {
        FILTER_MAX
    } else {
        (f + 1) as u32
    }
}

/// `f` lowered by one, at least zero.
pub open spec fn lowered(f: u32) -> u32 {
    if f == 0 {
        0
    } else {
        (f - 1) as u32
    }
}

/// The state after the commands of one tick, in this order: display switch
/// (reflectivity wins over velocity), window width, steps back then forward
/// by the new window, pause toggle, filter up then down.
pub open spec fn after_keys(info: ScanInfo, keys: KeyInput) -> ScanInfo {
    let window = if keys.narrow {
        SWEEP_DURATION_NS
    } else {
        DEFAULT_WINDOW_NS
    };
    let t1 = if keys.back {
        shifted(info.time, -window)
    } else {
        info.time
    };
    let t2 = if keys.forward {
        shifted(t1, window as int)
    } else {
        t1
    };
    let f1 = if keys.filter_up {
        raised(info.filter)
    } else {
        info.filter
    };
    let f2 = if keys.filter_down {
        lowered(f1)
    } else {
        f1
    };
    ScanInfo {
        time: t2,
        scan_type: if keys.reflectivity {
            ScanType::Reflectivity
        } else if keys.velocity {
            ScanType::Velocity
        } else {
            info.scan_type
        },
        filter: f2,
        visible_window: window,
        paused: info.paused != keys.toggle_pause,
        ..info
    }
}

/// Applies the commands of one tick to the playback state.
pub fn keyboard_input(change_info: &mut InfoChanged, keys: &KeyInput, info: &mut ScanInfo)
    ensures
        *final(info) == after_keys(*old(info), *keys),
        final(change_info).0 == (old(change_info).0 || keys.filter_up || keys.filter_down),
{
    if keys.velocity {
        info.scan_type = ScanType::Velocity;
    }
    if keys.reflectivity {
        info.scan_type = ScanType::Reflectivity;
    }
    if keys.narrow {
        info.visible_window = SWEEP_DURATION_NS;
    } else {
        info.visible_window = DEFAULT_WINDOW_NS;
    }
    let window = info.visible_window;
    if keys.back {
        info.time = shift(info.time, -window);
    }
    if keys.forward {
        info.time = shift(info.time, window);
    }
    if keys.toggle_pause {
        info.paused = !info.paused;
    }
    if keys.filter_up {
        info.filter = if info.filter >= FILTER_MAX {
            FILTER_MAX
        } else {
            info.filter + 1
        };
        change_info.0 = true;
    }
    if keys.filter_down {
        info.filter = if info.filter == 0 {
            0
        } else {
            info.filter - 1
        };
        change_info.0 = true;
    }
}

/// Sets the filter exponent of every record to the current one.
pub fn update_filter_system(info: &ScanInfo, records: &mut Vec<InstanceRecord>)
    ensures
        final(records)@.len() == old(records)@.len(),
        forall|k: int|
            0 <= k < old(records)@.len() ==> (#[trigger] final(records)@[k]) == (InstanceRecord {
                alpha_pow: info.filter,
                ..old(records)@[k]
            }),
{
    let mut i: usize = 0;
    while i < records.len()
        invariant
            i <= records@.len(),
            records@.len() == old(records)@.len(),
            forall|k: int|
                0 <= k < i ==> (#[trigger] records@[k]) == (InstanceRecord {
                    alpha_pow: info.filter,
                    ..old(records)@[k]
                }),
            forall|k: int| i <= k < records@.len() ==> (#[trigger] records@[k]) == old(records)@[k],
        decreases records@.len() - i,
    {
        let r = InstanceRecord { alpha_pow: info.filter, ..records[i] };
        records.set(i, r);
        i = i + 1;
    }
}

/// A batch is shown iff it is of the selected type and its sweep ended within
/// the window: `time - window < end_time <= time`.
pub open spec fn visible(info: ScanInfo, end_time: int, kind: ScanType) -> bool {
    match info.time {
        None => false,
        Some(t) => kind == info.scan_type && t - info.visible_window < end_time <= t,
    }
}

/// With a current time `t` and a positive window `w`, a batch of the selected
/// type whose sweep ended exactly at `t` is shown, one that ended exactly at
/// `t - w` is not, and one that ends at any instant after `t` is not.
pub proof fn lemma_visibility_bounds(info: ScanInfo, kind: ScanType, later: int)
    requires
        info.time is Some,
        kind == info.scan_type,
        info.visible_window > 0,
        later > 0,
    ensures
        visible(info, info.time->Some_0 as int, kind),
        !visible(info, info.time->Some_0 - info.visible_window, kind),
        !visible(info, info.time->Some_0 + later, kind),
{
}

/// Whether a batch of type `kind` whose sweep ended at `end_time` is shown.
pub fn is_visible(info: &ScanInfo, end_time: i64, kind: ScanType) -> (r: bool)
    ensures
        r == visible(*info, end_time as int, kind),
{
    match info.time {
        None => false,
        Some(t) => {
            let window_start = t as i128 - info.visible_window as i128;
            kind == info.scan_type && window_start < end_time as i128 && end_time <= t
        },
    }
}

/// Whether each batch is shown.
pub fn visible_scans(info: &ScanInfo, batches: &Vec<InstanceBatch>) -> (r: Vec<bool>)
    ensures
        r@.len() == batches@.len(),
        forall|k: int|
            0 <= k < batches@.len() ==> #[trigger] r@[k] == visible(
                *info,
                batches@[k].meta.end_time as int,
                batches@[k].kind,
            ),
{
    let mut out: Vec<bool> = Vec::new();
    let mut i: usize = 0;
    while i < batches.len()
        invariant
            i <= batches@.len(),
            out@.len() == i,
            forall|k: int|
                0 <= k < i ==> #[trigger] out@[k] == visible(
                    *info,
                    batches@[k].meta.end_time as int,
                    batches@[k].kind,
                ),
        decreases batches@.len() - i,
    {
        let b = &batches[i];
        out.push(is_visible(info, b.meta.end_time, b.kind));
        i = i + 1;
    }
    out
}

/// Progress of the run: how many files are done and how many there are.
pub struct ScanLoader {
    pub total_scans: usize,
    /// Files whose decoding failed; they count as done.
    pub failed_scans: usize,
}

/// What the progress readout shows.
#[derive(Debug)]
pub enum Progress {
    Loading { loaded: usize, total: usize, last_name: String },
    AllLoaded,
}

/// The readout shows `loaded` of `total` scans, the last one named `name`.
pub open spec fn shows_loading(p: Progress, loaded: int, total: int, name: Seq<char>) -> bool {
    match p {
        Progress::Loading { loaded: l, total: t, last_name } => l == loaded && t == total
            && last_name@ == name,
        Progress::AllLoaded => false,
    }
}

/// The two batches built from a scan that arrived, and the progress after it.
pub struct LoadedScan {
    pub progress: Progress,
    pub reflectivity: InstanceBatch,
    pub velocity: InstanceBatch,
}

/// Takes in a scan that arrived: counts it, seeds the playback clock from the
/// first scan, and builds its reflectivity and velocity batches.
pub fn scan_loaded(info: &mut ScanInfo, loader: &ScanLoader, scan: Scan) -> (r: LoadedScan)
    requires
        old(info).loaded_scans + loader.failed_scans < loader.total_scans,
    ensures
        *final(info) == (ScanInfo {
            loaded_scans: (old(info).loaded_scans + 1) as usize,
            time: if old(info).time is None {
                Some(scan.meta.start_time)
            } else {
                old(info).time
            },
            ..*old(info)
        }),
        final(info).loaded_scans + loader.failed_scans == loader.total_scans ==> r.progress
            is AllLoaded,
        final(info).loaded_scans + loader.failed_scans < loader.total_scans ==> shows_loading(
            r.progress,
            final(info).loaded_scans as int,
            loader.total_scans as int,
            scan.meta.name@,
        ),
        r.reflectivity.kind == ScanType::Reflectivity,
        r.reflectivity.meta == scan.meta,
        r.reflectivity.records@ == records_for(ScanType::Reflectivity, scan.meta, scan.gates@),
        r.velocity.kind == ScanType::Velocity,
        r.velocity.meta == scan.meta,
        r.velocity.records@ == records_for(ScanType::Velocity, scan.meta, scan.gates@),
{
    info.loaded_scans = info.loaded_scans + 1;
    let progress = if info.loaded_scans + loader.failed_scans == loader.total_scans {
        Progress::AllLoaded
    } else {
        Progress::Loading {
            loaded: info.loaded_scans,
            total: loader.total_scans,
            last_name: scan.meta.name.clone(),
        }
    };
    if info.time.is_none() {
        info.time = Some(scan.meta.start_time);
    }
    let reflectivity = InstanceBatch {
        kind: ScanType::Reflectivity,
        meta: scan.meta.clone(),
        records: prepare_reflectivity(&scan),
    };
    let velocity = InstanceBatch {
        kind: ScanType::Velocity,
        meta: scan.meta.clone(),
        records: prepare_velocity(&scan),
    };
    LoadedScan { progress, reflectivity, velocity }
}

/// Counts a file whose decoding failed, without stopping the run.
pub fn scan_failed(info: &ScanInfo, loader: &mut ScanLoader, name: String) -> (r: Progress)
    requires
        info.loaded_scans + old(loader).failed_scans < old(loader).total_scans,
    ensures
        final(loader).total_scans == old(loader).total_scans,
        final(loader).failed_scans == old(loader).failed_scans + 1,
        info.loaded_scans + final(loader).failed_scans == final(loader).total_scans ==> r
            is AllLoaded,
        info.loaded_scans + final(loader).failed_scans < final(loader).total_scans
            ==> shows_loading(r, info.loaded_scans as int, final(loader).total_scans as int, name@),
{
    loader.failed_scans = loader.failed_scans + 1;
    if info.loaded_scans + loader.failed_scans == loader.total_scans {
        Progress::AllLoaded
    } else {
        Progress::Loading { loaded: info.loaded_scans, total: loader.total_scans, last_name: name }
    }
}

} // verus!
