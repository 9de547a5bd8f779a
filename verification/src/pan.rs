//! The equal-temperament panning-time model for a fretted string.
//!
//! A fret-carriage at fret `a` travels a distance `d(a, b) = |2^(-a/12) -
//! 2^(-b/12)|` (in units of string length) to reach fret `b`, and the pan
//! takes `t(d) = 0.515936 * d^0.515920 + 0.125675 * d^2` seconds. Both are
//! tabulated here at fixed precision: string-position ratios in units of
//! 1e-9 string lengths, pan times in nanoseconds, for the fret positions
//! `0 ..= FRETS`. The maximum pan time is the full travel `t(d(0, FRETS))`.

use vstd::prelude::*;

verus! {

/// Number of frets on a string: string `s` plays notes in
/// `[tuning(s), tuning(s) + FRETS)`.
pub const FRETS: u8 = 13;

/// The maximum panning time, `t(d(0, FRETS))`, in nanoseconds. Every
/// dispatched note is padded so that its total latency equals this.
pub const MAX_PAN_NANOS: u64 = 406172581;

/// Open-string MIDI note of each of the four strings, highest first.
pub open spec fn spec_tuning(s: int) -> int {
    if s == 0 {
        43
    } else if s == 1 {
        38
    } else if s == 2 {
        33
    } else if s == 3 {
        28
    } else {
        0
    }
}

/// Open-string MIDI note of string `s`.
pub fn tuning(s: usize) -> (r: u8)
    requires
        s < 4,
    ensures
        r == spec_tuning(s as int),
{
    if s == 0 {
        43
    } else if s == 1 {
        38
    } else if s == 2 {
        33
    } else {
        28
    }
}

/// Position of fret `k` as a ratio of the string length, scaled by 1e9:
/// `2^(-k/12)` in units of 1e-9 string lengths.
pub open spec fn spec_string_ratio(k: int) -> int {
        if k == 0 {
            1000000000
        } else if k == 1 {
            943874313
        } else if k == 2 {
            890898718
        } else if k == 3 {
            840896415
        } else if k == 4 {
            793700526
        } else if k == 5 {
            749153538
        } else if k == 6 {
            707106781
        } else if k == 7 {
            667419927
        } else if k == 8 {
            629960525
        } else if k == 9 {
            594603558
        } else if k == 10 {
            561231024
        } else if k == 11 {
            529731547
        } else if k == 12 {
            500000000
        } else if k == 13 {
            471937156
        } else {
            0
        }
}

/// Position of fret `k`, in units of 1e-9 string lengths.
pub fn string_ratio(k: u8) -> (r: u64)
    requires
        k <= FRETS,
    ensures
        r == spec_string_ratio(k as int),
{
    if k == 0 {
        1000000000
    } else if k == 1 {
        943874313
    } else if k == 2 {
        890898718
    } else if k == 3 {
        840896415
    } else if k == 4 {
        793700526
    } else if k == 5 {
        749153538
    } else if k == 6 {
        707106781
    } else if k == 7 {
        667419927
    } else if k == 8 {
        629960525
    } else if k == 9 {
        594603558
    } else if k == 10 {
        561231024
    } else if k == 11 {
        529731547
    } else if k == 12 {
        500000000
    } else if k == 13 {
        471937156
    } else {
        0
    }
}

/// Pan distance between frets `a` and `b`: the absolute difference of
/// their string-position ratios, in units of 1e-9 string lengths.
pub open spec fn spec_note_distance(a: int, b: int) -> int {
    let ra = spec_string_ratio(a);
    let rb = spec_string_ratio(b);
    if ra >= rb {
        ra - rb
    } else {
        rb - ra
    }
}

/// Pan distance between frets `a` and `b`, in units of 1e-9 string lengths.
pub fn note_distance(a: u8, b: u8) -> (r: u64)
    requires
        a <= FRETS,
        b <= FRETS,
    ensures
        r == spec_note_distance(a as int, b as int),
{
    let ra = string_ratio(a);
    let rb = string_ratio(b);
    if ra >= rb {
        ra - rb
    } else {
        rb - ra
    }
}

/// Pan time `t(d(a, b))` between frets `a` and `b`, in nanoseconds.
pub open spec fn spec_pan_time_nanos(a: int, b: int) -> int {
    let lo = if a <= b { a } else { b };
    let hi = if a <= b { b } else { a };
    if lo == 0 {
        if hi == 1 { 117147617
        } else if hi == 2 { 166006189
        } else if hi == 3 { 203041642
        } else if hi == 4 { 233872602
        } else if hi == 5 { 260685457
        } else if hi == 6 { 284598271
        } else if hi == 7 { 306270664
        } else if hi == 8 { 326128823
        } else if hi == 9 { 344466448
        } else if hi == 10 { 361496158
        } else if hi == 11 { 377378098
        } else if hi == 12 { 392236951
        } else if hi == 13 { 406172581
        } else { 0 }
    } else if lo == 1 {
        if hi == 2 { 113676473
        } else if hi == 3 { 161012789
        } else if hi == 4 { 196826447
        } else if hi == 5 { 226579354
        } else if hi == 6 { 252400876
        } else if hi == 7 { 275382472
        } else if hi == 8 { 296169780
        } else if hi == 9 { 315181124
        } else if hi == 10 { 332705581
        } else if hi == 11 { 348952960
        } else if hi == 12 { 364081636
        } else if hi == 13 { 378215126
        } else { 0 }
    } else if lo == 2 {
        if hi == 3 { 110310689
        } else if hi == 4 { 156179014
        } else if hi == 5 { 190821414
        } else if hi == 6 { 219546776
        } else if hi == 7 { 244428337
        } else if hi == 8 { 266531052
        } else if hi == 9 { 286486403
        } else if hi == 10 { 304704571
        } else if hi == 11 { 321469712
        } else if hi == 12 { 336988531
        } else if hi == 13 { 351417367
        } else { 0 }
    } else if lo == 3 {
        if hi == 4 { 107046796
        } else if hi == 5 { 151498758
        } else if hi == 6 { 185017352
        } else if hi == 7 { 212762137
        } else if hi == 8 { 236751172
        } else if hi == 9 { 258023081
        } else if hi == 10 { 277195080
        } else if hi == 11 { 294668998
        } else if hi == 12 { 310723823
        } else if hi == 13 { 325562915
        } else { 0 }
    } else if lo == 4 {
        if hi == 5 { 103881468
        } else if hi == 6 { 146966249
        } else if hi == 7 { 179405670
        } else if hi == 8 { 206213635
        } else if hi == 9 { 229354020
        } else if hi == 10 { 249839356
        } else if hi == 11 { 268272545
        } else if hi == 12 { 285046905
        } else if hi == 13 { 300436061
        } else { 0 }
    } else if lo == 5 {
        if hi == 6 { 100811513
        } else if hi == 7 { 142576022
        } else if hi == 8 { 173978324
        } else if hi == 9 { 199890307
        } else if hi == 10 { 222222704
        } else if hi == 11 { 241962237
        } else if hi == 12 { 259697499
        } else if hi == 13 { 275813188
        } else { 0 }
    } else if lo == 6 {
        if hi == 7 { 97833864
        } else if hi == 8 { 138322894
        } else if hi == 9 { 168727765
        } else if hi == 10 { 193781951
        } else if hi == 11 { 215344110
        } else if hi == 12 { 234375485
        } else if hi == 13 { 251450409
        } else { 0 }
    } else if lo == 7 {
        if hi == 8 { 94945576
        } else if hi == 9 { 134201947
        } else if hi == 10 { 163646902
        } else if hi == 11 { 187879059
        } else if hi == 12 { 208706091
        } else if hi == 13 { 227064127
        } else { 0 }
    } else if lo == 8 {
        if hi == 9 { 92143812
        } else if hi == 10 { 130208502
        } else if hi == 11 { 158729056
        } else if hi == 12 { 182172748
        } else if hi == 13 { 202297369
        } else { 0 }
    } else if lo == 9 {
        if hi == 10 { 89425846
        } else if hi == 11 { 126338106
        } else if hi == 12 { 153967932
        } else if hi == 13 { 176654707
        } else { 0 }
    } else if lo == 10 {
        if hi == 11 { 86789049
        } else if hi == 12 { 122586514
        } else if hi == 13 { 149357583
        } else { 0 }
    } else if lo == 11 {
        if hi == 12 { 84230888
        } else if hi == 13 { 118949673
        } else { 0 }
    } else if lo == 12 {
        if hi == 13 { 81748923
        } else { 0 }
    } else {
        0
    }
}

/// Pan time between frets `a` and `b`, in nanoseconds.
pub fn pan_time_nanos(a: u8, b: u8) -> (r: u64)
    requires
        a <= FRETS,
        b <= FRETS,
    ensures
        r == spec_pan_time_nanos(a as int, b as int),
{
    let lo: u8 = if a <= b { a } else { b };
    let hi: u8 = if a <= b { b } else { a };
    if lo == 0 {
        if hi == 1 { 117147617
        } else if hi == 2 { 166006189
        } else if hi == 3 { 203041642
        } else if hi == 4 { 233872602
        } else if hi == 5 { 260685457
        } else if hi == 6 { 284598271
        } else if hi == 7 { 306270664
        } else if hi == 8 { 326128823
        } else if hi == 9 { 344466448
        } else if hi == 10 { 361496158
        } else if hi == 11 { 377378098
        } else if hi == 12 { 392236951
        } else if hi == 13 { 406172581
        } else { 0 }
    } else if lo == 1 {
        if hi == 2 { 113676473
        } else if hi == 3 { 161012789
        } else if hi == 4 { 196826447
        } else if hi == 5 { 226579354
        } else if hi == 6 { 252400876
        } else if hi == 7 { 275382472
        } else if hi == 8 { 296169780
        } else if hi == 9 { 315181124
        } else if hi == 10 { 332705581
        } else if hi == 11 { 348952960
        } else if hi == 12 { 364081636
        } else if hi == 13 { 378215126
        } else { 0 }
    } else if lo == 2 {
        if hi == 3 { 110310689
        } else if hi == 4 { 156179014
        } else if hi == 5 { 190821414
        } else if hi == 6 { 219546776
        } else if hi == 7 { 244428337
        } else if hi == 8 { 266531052
        } else if hi == 9 { 286486403
        } else if hi == 10 { 304704571
        } else if hi == 11 { 321469712
        } else if hi == 12 { 336988531
        } else if hi == 13 { 351417367
        } else { 0 }
    } else if lo == 3 {
        if hi == 4 { 107046796
        } else if hi == 5 { 151498758
        } else if hi == 6 { 185017352
        } else if hi == 7 { 212762137
        } else if hi == 8 { 236751172
        } else if hi == 9 { 258023081
        } else if hi == 10 { 277195080
        } else if hi == 11 { 294668998
        } else if hi == 12 { 310723823
        } else if hi == 13 { 325562915
        } else { 0 }
    } else if lo == 4 {
        if hi == 5 { 103881468
        } else if hi == 6 { 146966249
        } else if hi == 7 { 179405670
        } else if hi == 8 { 206213635
        } else if hi == 9 { 229354020
        } else if hi == 10 { 249839356
        } else if hi == 11 { 268272545
        } else if hi == 12 { 285046905
        } else if hi == 13 { 300436061
        } else { 0 }
    } else if lo == 5 {
        if hi == 6 { 100811513
        } else if hi == 7 { 142576022
        } else if hi == 8 { 173978324
        } else if hi == 9 { 199890307
        } else if hi == 10 { 222222704
        } else if hi == 11 { 241962237
        } else if hi == 12 { 259697499
        } else if hi == 13 { 275813188
        } else { 0 }
    } else if lo == 6 {
        if hi == 7 { 97833864
        } else if hi == 8 { 138322894
        } else if hi == 9 { 168727765
        } else if hi == 10 { 193781951
        } else if hi == 11 { 215344110
        } else if hi == 12 { 234375485
        } else if hi == 13 { 251450409
        } else { 0 }
    } else if lo == 7 {
        if hi == 8 { 94945576
        } else if hi == 9 { 134201947
        } else if hi == 10 { 163646902
        } else if hi == 11 { 187879059
        } else if hi == 12 { 208706091
        } else if hi == 13 { 227064127
        } else { 0 }
    } else if lo == 8 {
        if hi == 9 { 92143812
        } else if hi == 10 { 130208502
        } else if hi == 11 { 158729056
        } else if hi == 12 { 182172748
        } else if hi == 13 { 202297369
        } else { 0 }
    } else if lo == 9 {
        if hi == 10 { 89425846
        } else if hi == 11 { 126338106
        } else if hi == 12 { 153967932
        } else if hi == 13 { 176654707
        } else { 0 }
    } else if lo == 10 {
        if hi == 11 { 86789049
        } else if hi == 12 { 122586514
        } else if hi == 13 { 149357583
        } else { 0 }
    } else if lo == 11 {
        if hi == 12 { 84230888
        } else if hi == 13 { 118949673
        } else { 0 }
    } else if lo == 12 {
        if hi == 13 { 81748923
        } else { 0 }
    } else {
        0
    }
}

/// Fret positions shrink strictly as the fret number grows: the table of
/// string ratios is strictly decreasing.
pub proof fn lemma_string_ratio_decreasing(j: int, k: int)
    requires
        0 <= j <= k <= FRETS,
    ensures
        spec_string_ratio(k) <= spec_string_ratio(j),
        j < k ==> spec_string_ratio(k) < spec_string_ratio(j),
    decreases k - j,
{
    if j < k {
        lemma_string_ratio_decreasing(j, k - 1);
    }
}

/// The pan distance is symmetric: `d(a, b) == d(b, a)`.
pub proof fn lemma_note_distance_symmetric(a: int, b: int)
    ensures
        spec_note_distance(a, b) == spec_note_distance(b, a),
{
}

/// A carriage that stays put travels nothing: `d(a, a) == 0`.
pub proof fn lemma_note_distance_zero(a: int)
    ensures
        spec_note_distance(a, a) == 0,
{
}

/// The pan distance grows with the span of frets crossed: widening a move
/// on either end does not shorten it.
pub proof fn lemma_note_distance_monotone(a: int, b: int, c: int)
    requires
        0 <= a <= b <= c <= FRETS,
    ensures
        spec_note_distance(a, b) <= spec_note_distance(a, c),
        spec_note_distance(b, c) <= spec_note_distance(a, c),
{
    lemma_string_ratio_decreasing(a, b);
    lemma_string_ratio_decreasing(b, c);
    lemma_string_ratio_decreasing(a, c);
}

/// The pan time is symmetric: moving back takes as long as moving out.
pub proof fn lemma_pan_time_symmetric(a: int, b: int)
    ensures
        spec_pan_time_nanos(a, b) == spec_pan_time_nanos(b, a),
{
}

/// A carriage that stays put pans for no time: `t(d(a, a)) == 0`.
pub proof fn lemma_pan_time_zero(a: int)
    ensures
        spec_pan_time_nanos(a, a) == 0,
{
}

/// One more fret of travel on the far end never shortens the pan.
proof fn lemma_pan_time_step_hi(lo: int, hi: int)
    requires
        0 <= lo <= hi < FRETS,
    ensures
        spec_pan_time_nanos(lo, hi) <= spec_pan_time_nanos(lo, hi + 1),
{
}

/// Starting one fret further out never shortens the pan to a fixed target.
proof fn lemma_pan_time_step_lo(lo: int, hi: int)
    requires
        1 <= lo <= hi <= FRETS,
    ensures
        spec_pan_time_nanos(lo, hi) <= spec_pan_time_nanos(lo - 1, hi),
{
}

/// The pan time grows with the span of frets crossed: widening a move on
/// either end does not shorten it (`t` is monotone in the distance the
/// table realises).
pub proof fn lemma_pan_time_monotone(a: int, b: int, c: int)
    requires
        0 <= a <= b <= c <= FRETS,
    ensures
        spec_pan_time_nanos(a, b) <= spec_pan_time_nanos(a, c),
        spec_pan_time_nanos(b, c) <= spec_pan_time_nanos(a, c),
    decreases b - a + c - b,
{
    if b < c {
        lemma_pan_time_step_hi(a, c - 1);
        lemma_pan_time_monotone(a, b, c - 1);
    }
    if a < b {
        lemma_pan_time_step_lo(a + 1, c);
        lemma_pan_time_monotone(a + 1, b, c);
    }
}

/// No pan exceeds the full travel: `t(d(a, b)) <= t(d(0, FRETS))`, which
/// is `MAX_PAN_NANOS`.
pub proof fn lemma_pan_time_max(a: int, b: int)
    requires
        0 <= a <= FRETS,
        0 <= b <= FRETS,
    ensures
        0 <= spec_pan_time_nanos(a, b) <= MAX_PAN_NANOS,
{
    if a <= b {
        lemma_pan_time_monotone(a, b, 13);
        lemma_pan_time_monotone(0, a, 13);
    } else {
        lemma_pan_time_symmetric(a, b);
        lemma_pan_time_monotone(b, a, 13);
        lemma_pan_time_monotone(0, b, 13);
    }
}


} // verus!
