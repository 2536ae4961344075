//! Z-scans: the sequence of stage moves and captures that records a stack of
//! frames at evenly spaced focus positions, the names of the files a scan is
//! stored in, and which stored scans a listing keeps.
use vstd::prelude::*;

use crate::text::{chars_of, push_chars, push_padded_text, padded_text, string_from_chars};

verus! {

/// One step of a z-scan, as the backend carries it out.
#[derive(Debug, Clone, Copy, PartialEq, Eq, Structural)]
pub enum ScanStep {
    /// Move the stage by `steps`, waiting `step_delay_us` between two steps.
    Move { steps: i32, step_delay_us: u32 },
    /// Capture a frame; the stage stands at `position` relative to where it
    /// stood before the scan.
    Capture { position: i32 },
    /// The scan is over.
    Finished,
}

/// Why a z-scan cannot start.
#[derive(Debug, Clone, Copy, PartialEq, Eq, Structural)]
pub enum ScanError {
    /// The distance between two layers is zero.
    ZeroStep,
    /// No controller board is connected to move the stage.
    NoDeviceDriver,
}

/// The text each refusal of a z-scan is reported with.
pub open spec fn scan_error_text(e: ScanError) -> Seq<char> {
    match e {
        ScanError::ZeroStep => "delta_steps must be greater than 0"@,
        ScanError::NoDeviceDriver => "Device driver not available for Z-scan"@,
    }
}

impl ScanError {
    /// The text the refusal is reported with.
    pub fn message(&self) -> (m: &'static str)
        ensures
            m@ == scan_error_text(*self),
    {
        match self {
            ScanError::ZeroStep => "delta_steps must be greater than 0",
            ScanError::NoDeviceDriver => "Device driver not available for Z-scan",
        }
    }
}

/// Whether a z-scan `steps` apart may start, given whether a controller
/// board is connected: a zero distance between layers is refused first, then
/// a missing board; nothing moves or is captured before this check passes.
pub fn check_scan_request(steps: u32, driver_present: bool) -> (r: Result<(), ScanError>)
    ensures
        r == (if steps == 0 {
            Err(ScanError::ZeroStep)
        } else if !driver_present {
            Err(ScanError::NoDeviceDriver)
        } else {
            Ok(())
        }),
{
    if steps == 0 {
        Err(ScanError::ZeroStep)
    } else if !driver_present {
        Err(ScanError::NoDeviceDriver)
    } else {
        Ok(())
    }
}

/// The step delay of the moves to the first layer and back home.
pub const TRAVEL_DELAY_US: u32 = 1000;

/// The step delay of the moves between two layers.
pub const LAYER_DELAY_US: u32 = 2000;

/// The value of a `u32` read as an `i32` (two's complement).
pub open spec fn wrap_i32(x: u32) -> int {
    if x <= i32::MAX {
        x as int
    } else {
        x - 0x1_0000_0000
    }
}

/// The signed distance between two layers: the step count read as an `i32`,
/// negated unless `start` lies below `stop`.
pub open spec fn scan_delta(start: i32, stop: i32, steps: u32) -> int {
    if start < stop {
        wrap_i32(steps)
    } else {
        -wrap_i32(steps)
    }
}

/// Position `p` lies beyond `stop` in the direction of `delta`.
pub open spec fn passed(p: int, stop: int, delta: int) -> bool {
    (delta > 0 && p > stop) || (delta < 0 && p < stop)
}

/// The distance still to go before `stop`.
pub open spec fn scan_measure(cur: int, stop: int, delta: int) -> int {
    if delta > 0 {
        stop - cur
    } else {
        cur - stop
    }
}

/// The layer after `cur` ends the scan.
pub open spec fn last_layer(cur: int, stop: int, delta: int) -> bool {
    delta == 0 || passed(cur + delta, stop, delta)
}

/// The captures and moves from the layer at `cur` on: capture, move by
/// `delta`, and go on while the new position has not passed `stop`.
pub open spec fn scan_body(cur: int, stop: int, delta: int) -> Seq<ScanStep>
    decreases scan_measure(cur, stop, delta),
{
    let here = seq![
        ScanStep::Capture { position: cur as i32 },
        ScanStep::Move { steps: delta as i32, step_delay_us: LAYER_DELAY_US },
    ];
    if last_layer(cur, stop, delta) {
        here
    } else {
        here + scan_body(cur + delta, stop, delta)
    }
}

/// The position after the last move between layers.
pub open spec fn scan_end(cur: int, stop: int, delta: int) -> int
    decreases scan_measure(cur, stop, delta),
{
    if last_layer(cur, stop, delta) {
        cur + delta
    } else {
        scan_end(cur + delta, stop, delta)
    }
}

/// The number of frames captured from the layer at `cur` on.
pub open spec fn scan_frames(cur: int, stop: int, delta: int) -> nat
    decreases scan_measure(cur, stop, delta),
{
    if last_layer(cur, stop, delta) {
        1
    } else {
        1 + scan_frames(cur + delta, stop, delta)
    }
}

/// The move that brings the stage back from `pos` to where it stood before
/// the scan.
pub open spec fn return_move(pos: int) -> ScanStep {
    ScanStep::Move { steps: (-pos) as i32, step_delay_us: TRAVEL_DELAY_US }
}

/// The whole scan: move to `start`, record the layers, move back.
pub open spec fn scan_plan(start: i32, stop: i32, steps: u32) -> Seq<ScanStep> {
    let d = scan_delta(start, stop, steps);
    seq![ScanStep::Move { steps: start, step_delay_us: TRAVEL_DELAY_US }] + scan_body(
        start as int,
        stop as int,
        d,
    ) + seq![return_move(scan_end(start as int, stop as int, d))]
}

/// The scan can be carried out without an arithmetic overflow: the distance
/// between layers and every position, the last one negated included, are
/// `i32` values.
pub open spec fn scan_fits(start: i32, stop: i32, steps: u32) -> bool {
    let d = scan_delta(start, stop, steps);
    &&& i32::MIN <= d <= i32::MAX
    &&& i32::MIN < scan_end(start as int, stop as int, d) <= i32::MAX
}

#[derive(Debug, Clone, Copy, PartialEq, Eq, Structural)]
enum Phase {
    Approach,
    Capture,
    Advance,
    Return,
    Done,
}

/// A z-scan in progress: hands out its steps one by one.
#[derive(Debug)]
pub struct ZScan {
    start: i32,
    stop: i32,
    delta: i32,
    current: i32,
    phase: Phase,
}

/// The sum of the stage moves among `s`.
pub open spec fn moves_total(s: Seq<ScanStep>) -> int
    decreases s.len(),
{
    if s.len() == 0 {
        0
    } else {
        moves_total(s.drop_last()) + match s.last() {
            ScanStep::Move { steps, .. } => steps as int,
            _ => 0,
        }
    }
}

proof fn lemma_moves_total_concat(a: Seq<ScanStep>, b: Seq<ScanStep>)
    ensures
        moves_total(a + b) == moves_total(a) + moves_total(b),
    decreases b.len(),
{
    if b.len() == 0 {
        assert(a + b =~= a);
    } else {
        lemma_moves_total_concat(a, b.drop_last());
        assert((a + b).drop_last() =~= a + b.drop_last());
    }
}

proof fn lemma_body_moves(cur: int, stop: int, d: int)
    requires
        d != 0,
        i32::MIN <= d <= i32::MAX,
    ensures
        moves_total(scan_body(cur, stop, d)) == scan_end(cur, stop, d) - cur,
    decreases scan_measure(cur, stop, d),
{
    let here = seq![
        ScanStep::Capture { position: cur as i32 },
        ScanStep::Move { steps: d as i32, step_delay_us: LAYER_DELAY_US },
    ];
    assert(here.drop_last() =~= seq![ScanStep::Capture { position: cur as i32 }]);
    assert(here.drop_last().drop_last() =~= Seq::<ScanStep>::empty());
    assert(moves_total(here.drop_last().drop_last()) == 0);
    assert(moves_total(here.drop_last()) == 0);
    assert((d as i32) as int == d);
    assert(moves_total(here) == d);
    if !last_layer(cur, stop, d) {
        lemma_body_moves(cur + d, stop, d);
        lemma_moves_total_concat(here, scan_body(cur + d, stop, d));
    }
}

/// A z-scan brings the stage back to where it stood before: its moves add
/// up to zero.
pub proof fn lemma_scan_returns_home(start: i32, stop: i32, steps: u32)
    requires
        steps > 0,
        scan_fits(start, stop, steps),
    ensures
        moves_total(scan_plan(start, stop, steps)) == 0,
{
    let d = scan_delta(start, stop, steps);
    let first = seq![ScanStep::Move { steps: start, step_delay_us: TRAVEL_DELAY_US }];
    let body = scan_body(start as int, stop as int, d);
    let end = scan_end(start as int, stop as int, d);
    let last = seq![return_move(end)];
    assert(first.drop_last() =~= Seq::<ScanStep>::empty());
    assert(last.drop_last() =~= Seq::<ScanStep>::empty());
    assert(moves_total(first.drop_last()) == 0);
    assert(moves_total(last.drop_last()) == 0);
    assert(moves_total(first) == start);
    assert(((-end) as i32) as int == -end);
    assert(moves_total(last) == -end);
    lemma_body_moves(start as int, stop as int, d);
    lemma_moves_total_concat(first, body);
    lemma_moves_total_concat(first + body, last);
}

/// The layer `k` of a scan from `cur`: the `k`-th capture is taken at
/// `cur + k * d`, and each capture is followed by a move of `d`.
pub proof fn lemma_scan_layer(cur: int, stop: int, d: int, k: int)
    requires
        0 <= k < scan_frames(cur, stop, d),
    ensures
        scan_body(cur, stop, d).len() == 2 * scan_frames(cur, stop, d),
        scan_body(cur, stop, d)[2 * k] == (ScanStep::Capture { position: (cur + k * d) as i32 }),
        scan_body(cur, stop, d)[2 * k + 1] == (ScanStep::Move {
            steps: d as i32,
            step_delay_us: LAYER_DELAY_US,
        }),
    decreases scan_measure(cur, stop, d),
{
    if !last_layer(cur, stop, d) {
        let rest = scan_body(cur + d, stop, d);
        if k > 0 {
            lemma_scan_layer(cur + d, stop, d, k - 1);
            assert(cur + d + (k - 1) * d == cur + k * d) by (nonlinear_arith);
        } else {
            lemma_scan_layer(cur + d, stop, d, 0);
        }
    } else {
        assert(k == 0);
    }
}

/// The number of frames of a scan and where it ends: moving up from `cur`
/// by `d > 0`, a scan takes `(stop - cur) / d + 1` frames (one if `cur` is
/// already past `stop`), and symmetrically downwards; the last move ends at
/// `cur + frames * d`.
pub proof fn lemma_scan_frame_count(cur: int, stop: int, d: int)
    requires
        d != 0,
    ensures
        scan_frames(cur, stop, d) == (if d > 0 {
            if cur <= stop {
                (stop - cur) / d + 1
            } else {
                1
            }
        } else {
            if cur >= stop {
                (cur - stop) / (-d) + 1
            } else {
                1
            }
        }),
        scan_end(cur, stop, d) == cur + scan_frames(cur, stop, d) * d,
    decreases scan_measure(cur, stop, d),
{
    let n = scan_frames(cur, stop, d);
    if last_layer(cur, stop, d) {
        if d > 0 && cur <= stop {
            vstd::arithmetic::div_mod::lemma_basic_div(stop - cur, d);
        }
        if d < 0 && cur >= stop {
            vstd::arithmetic::div_mod::lemma_basic_div(cur - stop, -d);
        }
    } else {
        lemma_scan_frame_count(cur + d, stop, d);
        let m = scan_frames(cur + d, stop, d);
        if d > 0 {
            vstd::arithmetic::div_mod::lemma_div_plus_one(stop - (cur + d), d);
            assert(d + (stop - (cur + d)) == stop - cur);
        } else {
            vstd::arithmetic::div_mod::lemma_div_plus_one((cur + d) - stop, -d);
            assert(-d + ((cur + d) - stop) == cur - stop);
        }
        assert(cur + d + m * d == cur + (1 + m) * d) by (nonlinear_arith);
    }
}

impl ZScan {
    /// Whether a scan from `start` to `stop`, `steps` apart, can be planned:
    /// the distance is not zero and the scan stays within `i32` positions.
    pub fn fits(start: i32, stop: i32, steps: u32) -> (b: bool)
        ensures
            b == (steps > 0 && scan_fits(start, stop, steps)),
    {
        if steps == 0 {
            return false;
        }
        let magnitude: i64 = if steps <= 0x7fff_ffff {
            steps as i64
        } else {
            steps as i64 - 0x1_0000_0000
        };
        let d: i64 = if start < stop {
            magnitude
        } else {
            -magnitude
        };
        if d < -0x8000_0000 || d > 0x7fff_ffff {
            return false;
        }
        let s = start as i64;
        let t = stop as i64;
        let frames: i64 = if d > 0 {
            if s <= t {
                proof {
                    vstd::arithmetic::div_mod::lemma_div_basics_5(t - s, d as int);
                    vstd::arithmetic::div_mod::lemma_div_pos_is_pos(t - s, d as int);
                }
                (t - s) / d + 1
            } else {
                1
            }
        } else {
            if s >= t {
                proof {
                    vstd::arithmetic::div_mod::lemma_div_basics_5(s - t, -d);
                    vstd::arithmetic::div_mod::lemma_div_pos_is_pos(s - t, -d);
                }
                (s - t) / (-d) + 1
            } else {
                1
            }
        };
        proof {
            lemma_scan_frame_count(start as int, stop as int, d as int);
            assert(0 < frames <= 0x1_0000_0001);
            assert(-0x8000_0000 <= d <= 0x7fff_ffff);
            assert(-0x8000_0000 * 0x1_0000_0001 <= frames * d <= 0x7fff_ffff * 0x1_0000_0001)
                by (nonlinear_arith)
                requires
                    0 < frames <= 0x1_0000_0001,
                    -0x8000_0000 <= d <= 0x7fff_ffff,
            ;
        }
        let end: i128 = s as i128 + frames as i128 * d as i128;
        end > -0x8000_0000 && end <= 0x7fff_ffff
    }

    /// The steps still to come.
    pub closed spec fn remaining(&self) -> Seq<ScanStep> {
        let cur = self.current as int;
        let stop = self.stop as int;
        let d = self.delta as int;
        match self.phase {
            Phase::Approach => seq![
                ScanStep::Move { steps: self.start, step_delay_us: TRAVEL_DELAY_US },
            ] + scan_body(cur, stop, d) + seq![return_move(scan_end(cur, stop, d))],
            Phase::Capture => scan_body(cur, stop, d) + seq![return_move(scan_end(cur, stop, d))],
            Phase::Advance => scan_body(cur, stop, d).drop_first() + seq![
                return_move(scan_end(cur, stop, d)),
            ],
            Phase::Return => seq![return_move(cur)],
            Phase::Done => Seq::empty(),
        }
    }

    /// The scan's positions stay `i32` values until it is over.
    pub closed spec fn wf(&self) -> bool {
        &&& self.delta != 0
        &&& self.phase == Phase::Approach ==> self.current == self.start
        &&& (self.phase == Phase::Approach || self.phase == Phase::Capture || self.phase
            == Phase::Advance) ==> i32::MIN < scan_end(
            self.current as int,
            self.stop as int,
            self.delta as int,
        ) <= i32::MAX
        &&& self.phase == Phase::Return ==> self.current > i32::MIN
    }

    /// Plans a scan from `start` to `stop` (relative to the stage's position),
    /// `steps` apart; a zero distance between layers is refused.
    pub fn new(start: i32, stop: i32, steps: u32) -> (r: Result<ZScan, ScanError>)
        requires
            steps > 0 ==> scan_fits(start, stop, steps),
        ensures
            steps == 0 <==> r is Err,
            r is Err ==> r == Err::<ZScan, ScanError>(ScanError::ZeroStep),
            r matches Ok(z) ==> z.wf() && z.remaining() == scan_plan(start, stop, steps),
    {
        if steps == 0 {
            return Err(ScanError::ZeroStep);
        }
        let magnitude: i64 = if steps <= 0x7fff_ffff {
            steps as i64
        } else {
            steps as i64 - 0x1_0000_0000
        };
        let d: i64 = if start < stop {
            magnitude
        } else {
            -magnitude
        };
        let z = ZScan { start, stop, delta: d as i32, current: start, phase: Phase::Approach };
        Ok(z)
    }

    /// The next step; `Finished` once every step has been handed out.
    pub fn next(&mut self) -> (step: ScanStep)
        requires
            old(self).wf(),
        ensures
            final(self).wf(),
            old(self).remaining().len() == 0 ==> step == ScanStep::Finished
                && final(self).remaining().len() == 0,
            old(self).remaining().len() > 0 ==> step == old(self).remaining()[0]
                && final(self).remaining() == old(self).remaining().drop_first(),
    {
        let ghost cur = self.current as int;
        let ghost stop = self.stop as int;
        let ghost d = self.delta as int;
        match self.phase {
            Phase::Approach => {
                self.phase = Phase::Capture;
                proof {
                    assert(self.remaining() =~= old(self).remaining().drop_first());
                }
                ScanStep::Move { steps: self.start, step_delay_us: TRAVEL_DELAY_US }
            },
            Phase::Capture => {
                self.phase = Phase::Advance;
                proof {
                    reveal_with_fuel(scan_body, 1);
                    assert(scan_body(cur, stop, d)[0] == ScanStep::Capture { position: cur as i32 });
                    assert(self.remaining() =~= old(self).remaining().drop_first());
                }
                ScanStep::Capture { position: self.current }
            },
            Phase::Advance => {
                let next: i64 = self.current as i64 + self.delta as i64;
                let last = (self.delta > 0 && next > self.stop as i64) || (self.delta < 0 && next
                    < self.stop as i64);
                let step = ScanStep::Move { steps: self.delta, step_delay_us: LAYER_DELAY_US };
                proof {
                    assert(scan_body(cur, stop, d)[1] == step);
                }
                if last {
                    self.current = next as i32;
                    self.phase = Phase::Return;
                    proof {
                        assert(self.remaining() =~= old(self).remaining().drop_first());
                    }
                } else {
                    self.current = next as i32;
                    self.phase = Phase::Capture;
                    proof {
                        assert(scan_body(cur, stop, d).drop_first().drop_first() =~= scan_body(
                            cur + d,
                            stop,
                            d,
                        ));
                        assert(self.remaining() =~= old(self).remaining().drop_first());
                    }
                }
                step
            },
            Phase::Return => {
                self.phase = Phase::Done;
                proof {
                    assert(self.remaining() =~= old(self).remaining().drop_first());
                }
                ScanStep::Move { steps: -self.current, step_delay_us: TRAVEL_DELAY_US }
            },
            Phase::Done => ScanStep::Finished,
        }
    }
}

/// What is stored with a recorded z-scan.
#[derive(Debug)]
pub struct ZScanMetadata {
    pub relative_start_pos: i32,
    pub relative_stop_pos: i32,
    pub steps_between_layers: u32,
    pub frame_count: usize,
    /// The scan's identifier, also the name of its directory.
    pub uuid: String,
    /// When the scan was recorded (RFC 3339).
    pub timestamp: String,
}

/// The name of the file of frame `idx`: `frame-` and the index with at least
/// four digits, then `.jpg`.
pub open spec fn frame_file_text(idx: nat) -> Seq<char> {
    "frame-"@ + padded_text(idx, 4) + ".jpg"@
}

/// The name of the file frame `idx` of a scan is stored in.
pub fn frame_file_name(idx: usize) -> (name: String)
    ensures
        name@ == frame_file_text(idx as nat),
{
    let mut v = chars_of("frame-");
    push_padded_text(&mut v, idx as u64, 4);
    let ext = chars_of(".jpg");
    push_chars(&mut v, ext.as_slice());
    string_from_chars(&v)
}

/// A scan directory found when listing: its name and the metadata read from it.
#[derive(Debug)]
pub struct ListedScan {
    pub dir_name: String,
    pub metadata: ZScanMetadata,
}

/// The metadata of the listed scans whose identifier names their directory,
/// in the order they were found.
pub open spec fn kept_scans(s: Seq<ListedScan>) -> Seq<ZScanMetadata>
    decreases s.len(),
{
    if s.len() == 0 {
        Seq::empty()
    } else {
        let e = s.last();
        kept_scans(s.drop_last()) + if e.metadata.uuid@ == e.dir_name@ {
            seq![e.metadata]
        } else {
            Seq::empty()
        }
    }
}

/// Keeps the scans whose metadata names the directory they were found in;
/// a scan whose identifier differs from its directory's name is skipped.
pub fn keep_consistent_scans(entries: Vec<ListedScan>) -> (kept: Vec<ZScanMetadata>)
    ensures
        kept@ == kept_scans(entries@),
{
    let ghost orig = entries@;
    let n = entries.len();
    let mut entries = entries;
    let mut kept: Vec<ZScanMetadata> = Vec::new();
    let mut k: usize = 0;
    while entries.len() > 0
        invariant
            k <= orig.len(),
            orig.len() == n,
            k + entries@.len() == orig.len(),
            entries@ == orig.skip(k as int),
            kept@ == kept_scans(orig.take(k as int)),
        decreases entries.len(),
    {
        let e = entries.remove(0);
        proof {
            assert(e == orig[k as int]);
            assert(orig.take(k as int + 1).drop_last() =~= orig.take(k as int));
            assert(orig.take(k as int + 1).last() == e);
        }
        let same = e.metadata.uuid == e.dir_name;
        if same {
            kept.push(e.metadata);
        }
        k = k + 1;
        proof {
            assert(entries@ =~= orig.skip(k as int));
        }
    }
    proof {
        assert(orig.take(k as int) =~= orig);
    }
    kept
}

} // verus!
