//! The workout recorder: one sample a second from the live telemetry, the
//! totals of a workout, and its FIT activity file.

use vstd::prelude::*;
use crate::ant::{TrainerData, SPEED_UNITS_PER_MMS};
use crate::calendar::{civil_from_days, days_to_ymd};
use crate::clock::unix_now;
use crate::fit::encoder::{fit_file, FitEncoder};
use crate::fit::messages::{
    activity_message, event_message, file_id_message, lap_message, record_message,
    session_message, write_activity, write_event, write_file_id, write_lap, write_record,
    write_session, LapData, SessionData,
};
use crate::fit::types::{
    spec_unix_to_fit_timestamp, unix_to_fit_timestamp, EVENT_TYPE_START, EVENT_TYPE_STOP_ALL,
};

verus! {

/// Units of travelled distance in one centimetre. A unit is what one unit of
/// speed covers in a second: 1/36000 m.
pub const DISTANCE_UNITS_PER_CM: u64 = 360;

/// Units of travelled distance in one millimetre.
pub const DISTANCE_UNITS_PER_MM: u64 = 36;

/// One second of a workout.
#[derive(Clone, Copy, Debug)]
pub struct Sample {
    /// FIT timestamp.
    pub timestamp: u32,
    pub power: u16,
    pub heart_rate: u8,
    pub cadence: u8,
    /// Speed in millimetres per second.
    pub speed_mps_1000: u16,
    /// Distance travelled so far, in centimetres.
    pub distance_cm: u32,
}

/// The totals of a workout. Times are in seconds.
#[derive(Clone, Copy, Debug)]
pub struct Stats {
    /// Time from the first to the last sample, pauses included.
    pub elapsed_time: u64,
    /// Time from the first to the last sample.
    pub timer_time: u32,
    pub avg_power: u16,
    pub max_power: u16,
    pub avg_hr: u8,
    pub max_hr: u8,
    pub avg_cadence: u8,
    pub max_cadence: u8,
    pub avg_speed: u16,
    pub max_speed: u16,
}

/// What is reported of a saved workout.
pub struct WorkoutSummary {
    pub duration_secs: u32,
    /// Distance travelled, in millimetres.
    pub distance_mm: u64,
    pub avg_power: u16,
    pub max_power: u16,
    pub avg_hr: u8,
    pub max_hr: u8,
    pub avg_cadence: u8,
    pub sample_count: usize,
    pub file_path: String,
}

/// Why a workout was not saved.
#[derive(Clone, Copy, Debug)]
pub enum RecorderError {
    /// The recorder holds no sample.
    NoSamples,
}

/// The sum of a sequence.
pub open spec fn total(values: Seq<int>) -> int
    decreases values.len(),
{
    if values.len() == 0 {
        0
    } else {
        total(values.drop_last()) + values.last()
    }
}

/// The largest value of a sequence of values that are not negative; 0 for
/// the empty sequence.
pub open spec fn greatest(values: Seq<int>) -> int
    decreases values.len(),
{
    if values.len() == 0 {
        0
    } else if values.last() > greatest(values.drop_last()) {
        values.last()
    } else {
        greatest(values.drop_last())
    }
}

/// The values that are not zero, in order.
pub open spec fn nonzero(values: Seq<int>) -> Seq<int>
    decreases values.len(),
{
    if values.len() == 0 {
        Seq::empty()
    } else if values.last() != 0 {
        nonzero(values.drop_last()).push(values.last())
    } else {
        nonzero(values.drop_last())
    }
}

/// The mean of a sequence, rounded down; 0 for the empty sequence.
pub open spec fn mean(values: Seq<int>) -> int {
    if values.len() == 0 {
        0
    } else {
        total(values) / (values.len() as int)
    }
}

/// The power of each sample, in order.
pub open spec fn powers(samples: Seq<Sample>) -> Seq<int> {
    samples.map_values(|s: Sample| s.power as int)
}

/// The heart rate of each sample, in order.
pub open spec fn heart_rates(samples: Seq<Sample>) -> Seq<int> {
    samples.map_values(|s: Sample| s.heart_rate as int)
}

/// The cadence of each sample, in order.
pub open spec fn cadences(samples: Seq<Sample>) -> Seq<int> {
    samples.map_values(|s: Sample| s.cadence as int)
}

/// The speed of each sample, in order.
pub open spec fn speeds(samples: Seq<Sample>) -> Seq<int> {
    samples.map_values(|s: Sample| s.speed_mps_1000 as int)
}

/// The state of a recorder.
pub struct RecorderState {
    /// FIT timestamp of the start.
    pub start_time: u32,
    pub samples: Seq<Sample>,
    /// Distance travelled, in units of 1/36000 m.
    pub cumulative_distance: u64,
    pub paused: bool,
    /// Seconds spent paused.
    pub pause_seconds: u32,
}

/// The speed of a sample, in millimetres per second, from a speed in units
/// of 0.0001 km/h: rounded down, and held at the largest 16-bit value.
pub open spec fn spec_sample_speed(speed: u32) -> u16 {
    if speed / SPEED_UNITS_PER_MMS > u16::MAX {
        u16::MAX
    } else {
        (speed / SPEED_UNITS_PER_MMS) as u16
    }
}

/// Whole centimetres of a travelled distance, held at the largest 32-bit
/// value.
pub open spec fn spec_distance_cm(cumulative_distance: u64) -> u32 {
    if cumulative_distance / DISTANCE_UNITS_PER_CM > u32::MAX {
        u32::MAX
    } else {
        (cumulative_distance / DISTANCE_UNITS_PER_CM) as u32
    }
}

/// The distance after one more second at `speed`, held at the largest
/// 64-bit value.
pub open spec fn spec_travel(cumulative_distance: u64, speed: u32) -> u64 {
    if cumulative_distance + speed > u64::MAX {
        u64::MAX
    } else {
        (cumulative_distance + speed) as u64
    }
}

/// The sample that is recorded of `data` at Unix time `unix_secs`, once
/// `cumulative_distance` is travelled.
pub open spec fn spec_sample(data: TrainerData, unix_secs: u64, cumulative_distance: u64)
    -> Sample {
    Sample {
        timestamp: spec_unix_to_fit_timestamp(unix_secs),
        power: data.power,
        heart_rate: data.heart_rate,
        cadence: data.cadence,
        speed_mps_1000: spec_sample_speed(data.speed),
        distance_cm: spec_distance_cm(cumulative_distance),
    }
}

/// The state after a tick at Unix time `unix_secs`. A paused recorder counts
/// the second as paused and records nothing; a running one travels for a
/// second at the speed of `data` and appends a sample.
pub open spec fn spec_add_sample(state: RecorderState, data: TrainerData, unix_secs: u64)
    -> RecorderState {
    if state.paused {
        RecorderState {
            pause_seconds: if state.pause_seconds < u32::MAX {
                (state.pause_seconds + 1) as u32
            } else {
                state.pause_seconds
            },
            ..state
        }
    } else {
        RecorderState {
            cumulative_distance: spec_travel(state.cumulative_distance, data.speed),
            samples: state.samples.push(
                spec_sample(data, unix_secs, spec_travel(state.cumulative_distance, data.speed)),
            ),
            ..state
        }
    }
}

/// Seconds from the first to the last sample, modulo 2^32; the number of
/// samples where there are fewer than two.
pub open spec fn spec_timer_time(samples: Seq<Sample>) -> u32 {
    if samples.len() >= 2 {
        ((samples.last().timestamp - samples.first().timestamp) % 0x1_0000_0000) as u32
    } else {
        samples.len() as u32
    }
}

/// The totals of a workout. Power and speed are averaged over all samples;
/// heart rate and cadence over the samples that carry one, a zero being a
/// second without a sensor. The elapsed time is the timer time and the
/// pauses.
pub open spec fn spec_stats(state: RecorderState) -> Stats {
    Stats {
        elapsed_time: (spec_timer_time(state.samples) + state.pause_seconds) as u64,
        timer_time: spec_timer_time(state.samples),
        avg_power: mean(powers(state.samples)) as u16,
        max_power: greatest(powers(state.samples)) as u16,
        avg_hr: mean(nonzero(heart_rates(state.samples))) as u8,
        max_hr: greatest(heart_rates(state.samples)) as u8,
        avg_cadence: mean(nonzero(cadences(state.samples))) as u8,
        max_cadence: greatest(cadences(state.samples)) as u8,
        avg_speed: mean(speeds(state.samples)) as u16,
        max_speed: greatest(speeds(state.samples)) as u16,
    }
}

/// Appending a value adds it to the sum.
pub proof fn lemma_total_push(values: Seq<int>, value: int)
    ensures
        total(values.push(value)) == total(values) + value,
{
    assert(values.push(value).drop_last() =~= values);
}

/// Appending a value raises the largest to it where it is larger.
pub proof fn lemma_greatest_push(values: Seq<int>, value: int)
    ensures
        greatest(values.push(value)) == if value > greatest(values) {
            value
        } else {
            greatest(values)
        },
{
    assert(values.push(value).drop_last() =~= values);
}

/// Appending a value appends it to the values that are not zero, unless it
/// is zero.
pub proof fn lemma_nonzero_push(values: Seq<int>, value: int)
    ensures
        nonzero(values.push(value)) == if value != 0 {
            nonzero(values).push(value)
        } else {
            nonzero(values)
        },
{
    assert(values.push(value).drop_last() =~= values);
}

/// A sample without a heart rate leaves the average heart rate as it was,
/// and one without a cadence the average cadence.
pub proof fn lemma_zero_not_averaged(state: RecorderState, sample: Sample)
    ensures
        sample.heart_rate == 0 ==> spec_stats(
            RecorderState { samples: state.samples.push(sample), ..state },
        ).avg_hr == spec_stats(state).avg_hr,
        sample.cadence == 0 ==> spec_stats(
            RecorderState { samples: state.samples.push(sample), ..state },
        ).avg_cadence == spec_stats(state).avg_cadence,
{
    let more = state.samples.push(sample);
    assert(heart_rates(more) =~= heart_rates(state.samples).push(sample.heart_rate as int));
    assert(cadences(more) =~= cadences(state.samples).push(sample.cadence as int));
    lemma_nonzero_push(heart_rates(state.samples), sample.heart_rate as int);
    lemma_nonzero_push(cadences(state.samples), sample.cadence as int);
}

/// A tick of a paused recorder counts one more second as paused, up to the
/// largest count, and leaves samples and distance as they were.
pub proof fn lemma_paused_tick(state: RecorderState, data: TrainerData, unix_secs: u64)
    requires
        state.paused,
    ensures
        spec_add_sample(state, data, unix_secs).samples == state.samples,
        spec_add_sample(state, data, unix_secs).cumulative_distance == state.cumulative_distance,
        state.pause_seconds < u32::MAX ==> spec_add_sample(state, data, unix_secs).pause_seconds
            == state.pause_seconds + 1,
        spec_stats(spec_add_sample(state, data, unix_secs)).timer_time == spec_stats(
            state,
        ).timer_time,
        state.pause_seconds < u32::MAX ==> spec_stats(
            spec_add_sample(state, data, unix_secs),
        ).elapsed_time == spec_stats(state).elapsed_time + 1,
{
}

/// A tick of a running recorder appends one sample, which lies no less far
/// than the distance travelled before it, and counts no pause.
pub proof fn lemma_running_tick(state: RecorderState, data: TrainerData, unix_secs: u64)
    requires
        !state.paused,
    ensures
        spec_add_sample(state, data, unix_secs).samples.len() == state.samples.len() + 1,
        spec_add_sample(state, data, unix_secs).samples.drop_last() == state.samples,
        spec_add_sample(state, data, unix_secs).pause_seconds == state.pause_seconds,
        spec_add_sample(state, data, unix_secs).samples.last().distance_cm >= spec_distance_cm(
            state.cumulative_distance,
        ),
{
    let after = spec_add_sample(state, data, unix_secs);
    assert(after.samples.drop_last() =~= state.samples);
}

/// The elapsed time of a workout is its timer time and its pauses.
pub proof fn lemma_elapsed_is_timer_and_pause(state: RecorderState)
    ensures
        spec_stats(state).elapsed_time == spec_stats(state).timer_time + state.pause_seconds,
{
}

/// Whether no sample lies behind an earlier one.
pub open spec fn distances_non_decreasing(samples: Seq<Sample>) -> bool {
    forall|i: int, j: int|
        0 <= i <= j < samples.len() ==> samples[i].distance_cm <= samples[j].distance_cm
}

/// The bytes of the Record messages of a workout: one message for each
/// sample, the first with the definition.
pub open spec fn record_stream(samples: Seq<Sample>) -> Seq<u8>
    decreases samples.len(),
{
    if samples.len() == 0 {
        Seq::empty()
    } else {
        record_stream(samples.drop_last()) + record_message(
            samples.last().timestamp,
            samples.last().power,
            samples.last().heart_rate,
            samples.last().cadence,
            samples.last().speed_mps_1000,
            samples.last().distance_cm,
            samples.len() == 1,
        )
    }
}

/// The timestamp at which a workout ends: that of its last sample, or of
/// its start where it has none.
pub open spec fn spec_end_time(state: RecorderState) -> u32 {
    if state.samples.len() > 0 {
        state.samples.last().timestamp
    } else {
        state.start_time
    }
}

/// The lap that a workout is written as.
pub open spec fn spec_lap(state: RecorderState) -> LapData {
    LapData {
        timestamp: spec_end_time(state),
        start_time: state.start_time,
        total_elapsed_time: spec_stats(state).elapsed_time,
        total_timer_time: spec_stats(state).timer_time as u64,
        total_distance: state.cumulative_distance / DISTANCE_UNITS_PER_CM,
        avg_power: spec_stats(state).avg_power,
        max_power: spec_stats(state).max_power,
        avg_heart_rate: spec_stats(state).avg_hr,
        max_heart_rate: spec_stats(state).max_hr,
        avg_cadence: spec_stats(state).avg_cadence,
        max_cadence: spec_stats(state).max_cadence,
    }
}

/// The session that a workout is written as.
pub open spec fn spec_session(state: RecorderState) -> SessionData {
    SessionData {
        timestamp: spec_end_time(state),
        start_time: state.start_time,
        total_elapsed_time: spec_stats(state).elapsed_time,
        total_timer_time: spec_stats(state).timer_time as u64,
        total_distance: state.cumulative_distance / DISTANCE_UNITS_PER_CM,
        avg_power: spec_stats(state).avg_power,
        max_power: spec_stats(state).max_power,
        avg_heart_rate: spec_stats(state).avg_hr,
        max_heart_rate: spec_stats(state).max_hr,
        avg_cadence: spec_stats(state).avg_cadence,
        max_cadence: spec_stats(state).max_cadence,
        avg_speed: spec_stats(state).avg_speed,
        max_speed: spec_stats(state).max_speed,
    }
}

/// The message stream of a workout: File-ID with the start time as serial
/// number, the start event, a record for each sample, the stop event at the
/// end time, then lap, session and activity.
pub open spec fn spec_message_stream(state: RecorderState) -> Seq<u8> {
    file_id_message(state.start_time, state.start_time) + event_message(
        state.start_time,
        EVENT_TYPE_START,
    ) + record_stream(state.samples) + event_message(spec_end_time(state), EVENT_TYPE_STOP_ALL)
        + lap_message(spec_lap(state)) + session_message(spec_session(state)) + activity_message(
        spec_end_time(state),
        spec_stats(state).timer_time as u64,
    )
}

/// The activity file of a workout.
pub open spec fn spec_encode_fit(state: RecorderState) -> Seq<u8> {
    fit_file(spec_message_stream(state))
}

/// Records a workout, one sample a second, and encodes it as a FIT file.
pub struct WorkoutRecorder {
    start_time: u32,
    samples: Vec<Sample>,
    cumulative_distance: u64,
    paused: bool,
    pause_duration: u32,
}

impl View for WorkoutRecorder {
    type V = RecorderState;

    closed spec fn view(&self) -> RecorderState {
        RecorderState {
            start_time: self.start_time,
            samples: self.samples@,
            cumulative_distance: self.cumulative_distance,
            paused: self.paused,
            pause_seconds: self.pause_duration,
        }
    }
}

impl WorkoutRecorder {
    /// No sample lies behind an earlier one, nor ahead of the distance
    /// travelled.
    #[verifier::type_invariant]
    spec fn well_formed(self) -> bool {
        &&& distances_non_decreasing(self.samples@)
        &&& forall|i: int|
            0 <= i < self.samples@.len() ==> self.samples@[i].distance_cm <= spec_distance_cm(
                self.cumulative_distance,
            )
    }

    /// A running recorder without samples, started at Unix time `unix_secs`.
    pub fn started_at(unix_secs: u64) -> (recorder: Self)
        ensures
            recorder@ == (RecorderState {
                start_time: spec_unix_to_fit_timestamp(unix_secs),
                samples: Seq::empty(),
                cumulative_distance: 0,
                paused: false,
                pause_seconds: 0,
            }),
    {
        Self {
            start_time: unix_to_fit_timestamp(unix_secs),
            samples: Vec::with_capacity(7200),
            cumulative_distance: 0,
            paused: false,
            pause_duration: 0,
        }
    }

    /// A running recorder without samples, started now; `None` where the
    /// clock is set before 1970.
    pub fn new() -> (recorder: Option<Self>)
        ensures
            recorder matches Some(started) ==> exists|unix_secs: u64|
                started@ == (RecorderState {
                    start_time: spec_unix_to_fit_timestamp(unix_secs),
                    samples: Seq::empty(),
                    cumulative_distance: 0,
                    paused: false,
                    pause_seconds: 0,
                }),
    {
        match unix_now() {
            Some(now) => Some(Self::started_at(now)),
            None => None,
        }
    }

    /// Pauses the recorder or lets it run again.
    pub fn set_paused(&mut self, paused: bool)
        ensures
            final(self)@ == (RecorderState { paused, ..old(self)@ }),
    {
        proof {
            use_type_invariant(&*self);
        }
        self.paused = paused;
    }

    /// The samples recorded so far. No sample lies behind an earlier one.
    pub fn samples(&self) -> (samples: &Vec<Sample>)
        ensures
            samples@ == self@.samples,
            distances_non_decreasing(samples@),
    {
        proof {
            use_type_invariant(self);
        }
        &self.samples
    }

    /// The number of samples recorded so far.
    pub fn sample_count(&self) -> (count: usize)
        ensures
            count == self@.samples.len(),
    {
        self.samples.len()
    }

    /// The distance travelled, in units of 1/36000 m.
    pub fn cumulative_distance(&self) -> (distance: u64)
        ensures
            distance == self@.cumulative_distance,
    {
        self.cumulative_distance
    }

    /// Whether the recorder is paused.
    pub fn is_paused(&self) -> (paused: bool)
        ensures
            paused == self@.paused,
    {
        self.paused
    }

    /// Seconds spent paused.
    pub fn pause_seconds(&self) -> (seconds: u32)
        ensures
            seconds == self@.pause_seconds,
    {
        self.pause_duration
    }

    /// FIT timestamp of the start.
    pub fn start_time(&self) -> (start: u32)
        ensures
            start == self@.start_time,
    {
        self.start_time
    }

    /// Takes the tick of Unix time `unix_secs`. While paused, the second is
    /// counted as paused and no sample is recorded; else the distance grows
    /// by what one second at the speed of `data` covers, and a sample is
    /// appended.
    pub fn add_sample_at(&mut self, data: &TrainerData, unix_secs: u64)
        ensures
            final(self)@ == spec_add_sample(old(self)@, *data, unix_secs),
    {
        proof {
            use_type_invariant(&*self);
        }
        if self.paused {
            if self.pause_duration < u32::MAX {
                self.pause_duration = self.pause_duration + 1;
            }
            return;
        }
        let fit_ts: u32 = unix_to_fit_timestamp(unix_secs);
        let travelled: u64 = if self.cumulative_distance > u64::MAX - (data.speed as u64) {
            u64::MAX
        } else {
            self.cumulative_distance + data.speed as u64
        };
        let speed_mms: u32 = data.speed / SPEED_UNITS_PER_MMS;
        let centimetres: u64 = travelled / DISTANCE_UNITS_PER_CM;
        let sample = Sample {
            timestamp: fit_ts,
            power: data.power,
            heart_rate: data.heart_rate,
            cadence: data.cadence,
            speed_mps_1000: if speed_mms > 0xFFFF {
                u16::MAX
            } else {
                speed_mms as u16
            },
            distance_cm: if centimetres > 0xFFFF_FFFF {
                u32::MAX
            } else {
                centimetres as u32
            },
        };
        assert(sample == spec_sample(*data, unix_secs, travelled));
        assert(spec_distance_cm(self.cumulative_distance) <= spec_distance_cm(travelled));
        let mut samples: Vec<Sample> = Vec::new();
        core::mem::swap(&mut self.samples, &mut samples);
        samples.push(sample);
        self.cumulative_distance = travelled;
        self.samples = samples;
    }

    /// Takes the tick of the present second, as `add_sample_at` does. A
    /// paused recorder does not read the clock. A running one records
    /// nothing and answers `false` where the clock is set before 1970.
    pub fn add_sample(&mut self, data: &TrainerData) -> (taken: bool)
        ensures
            old(self)@.paused ==> taken && final(self)@ == spec_add_sample(old(self)@, *data, 0),
            !old(self)@.paused && taken ==> exists|unix_secs: u64|
                final(self)@ == spec_add_sample(old(self)@, *data, unix_secs),
            !taken ==> final(self)@ == old(self)@,
    {
        if self.paused {
            self.add_sample_at(data, 0);
            return true;
        }
        match unix_now() {
            Some(now) => {
                self.add_sample_at(data, now);
                true
            },
            None => false,
        }
    }

    /// The totals of the workout so far.
    pub fn compute_stats(&self) -> (stats: Stats)
        ensures
            stats == spec_stats(self@),
    {
        let n: usize = self.samples.len();
        let mut total_power: u128 = 0;
        let mut max_power: u16 = 0;
        let mut total_hr: u128 = 0;
        let mut hr_count: u128 = 0;
        let mut max_hr: u8 = 0;
        let mut total_cadence: u128 = 0;
        let mut cadence_count: u128 = 0;
        let mut max_cadence: u8 = 0;
        let mut total_speed: u128 = 0;
        let mut max_speed: u16 = 0;
        let ghost all = self.samples@;
        let mut i: usize = 0;
        while i < n
            invariant
                i <= n,
                n == self.samples@.len(),
                all == self.samples@,
                total_power == total(powers(all.take(i as int))),
                total_power <= i * 0xFFFF,
                max_power == greatest(powers(all.take(i as int))),
                total_hr == total(nonzero(heart_rates(all.take(i as int)))),
                hr_count == nonzero(heart_rates(all.take(i as int))).len(),
                total_hr <= hr_count * 0xFF,
                hr_count <= i,
                max_hr == greatest(heart_rates(all.take(i as int))),
                total_cadence == total(nonzero(cadences(all.take(i as int)))),
                cadence_count == nonzero(cadences(all.take(i as int))).len(),
                total_cadence <= cadence_count * 0xFF,
                cadence_count <= i,
                max_cadence == greatest(cadences(all.take(i as int))),
                total_speed == total(speeds(all.take(i as int))),
                total_speed <= i * 0xFFFF,
                max_speed == greatest(speeds(all.take(i as int))),
            decreases n - i,
        {
            let sample: Sample = self.samples[i];
            proof {
                let before = all.take(i as int);
                let after = all.take(i + 1);
                assert(after =~= before.push(sample));
                assert(powers(after) =~= powers(before).push(sample.power as int));
                assert(heart_rates(after) =~= heart_rates(before).push(sample.heart_rate as int));
                assert(cadences(after) =~= cadences(before).push(sample.cadence as int));
                assert(speeds(after) =~= speeds(before).push(sample.speed_mps_1000 as int));
                lemma_total_push(powers(before), sample.power as int);
                lemma_greatest_push(powers(before), sample.power as int);
                lemma_nonzero_push(heart_rates(before), sample.heart_rate as int);
                lemma_total_push(nonzero(heart_rates(before)), sample.heart_rate as int);
                lemma_greatest_push(heart_rates(before), sample.heart_rate as int);
                lemma_nonzero_push(cadences(before), sample.cadence as int);
                lemma_total_push(nonzero(cadences(before)), sample.cadence as int);
                lemma_greatest_push(cadences(before), sample.cadence as int);
                lemma_total_push(speeds(before), sample.speed_mps_1000 as int);
                lemma_greatest_push(speeds(before), sample.speed_mps_1000 as int);
            }
            total_power = total_power + sample.power as u128;
            if sample.power > max_power {
                max_power = sample.power;
            }
            if sample.heart_rate > 0 {
                total_hr = total_hr + sample.heart_rate as u128;
                hr_count = hr_count + 1;
            }
            if sample.heart_rate > max_hr {
                max_hr = sample.heart_rate;
            }
            if sample.cadence > 0 {
                total_cadence = total_cadence + sample.cadence as u128;
                cadence_count = cadence_count + 1;
            }
            if sample.cadence > max_cadence {
                max_cadence = sample.cadence;
            }
            total_speed = total_speed + sample.speed_mps_1000 as u128;
            if sample.speed_mps_1000 > max_speed {
                max_speed = sample.speed_mps_1000;
            }
            i += 1;
        }
        proof {
            assert(all.take(n as int) =~= all);
        }
        let timer_time: u32 = if n >= 2 {
            self.samples[n - 1].timestamp.wrapping_sub(self.samples[0].timestamp)
        } else {
            n as u32
        };
        Stats {
            elapsed_time: timer_time as u64 + self.pause_duration as u64,
            timer_time,
            avg_power: mean_u16(total_power, n as u128),
            max_power,
            avg_hr: mean_u8(total_hr, hr_count),
            max_hr,
            avg_cadence: mean_u8(total_cadence, cadence_count),
            max_cadence,
            avg_speed: mean_u16(total_speed, n as u128),
            max_speed,
        }
    }

    /// Encodes the workout as a FIT activity file.
    pub fn encode_fit(&self) -> (file: Vec<u8>)
        ensures
            file@ == spec_encode_fit(self@),
            file@.len() == 16 + spec_message_stream(self@).len(),
            file@[0] == 14,
            file@.subrange(8, 12) == seq![0x2Eu8, 0x46u8, 0x49u8, 0x54u8],
    {
        let mut encoder = FitEncoder::new();
        let n: usize = self.samples.len();
        let end_time: u32 = if n > 0 {
            self.samples[n - 1].timestamp
        } else {
            self.start_time
        };
        let serial: u32 = self.start_time;
        write_file_id(&mut encoder, self.start_time, serial);
        write_event(&mut encoder, self.start_time, EVENT_TYPE_START);
        let ghost head = encoder.stream();
        let ghost all = self.samples@;
        let mut i: usize = 0;
        while i < n
            invariant
                i <= n,
                n == self.samples@.len(),
                all == self.samples@,
                encoder.stream() == head + record_stream(all.take(i as int)),
            decreases n - i,
        {
            let sample: Sample = self.samples[i];
            proof {
                assert(all.take(i + 1).drop_last() =~= all.take(i as int));
            }
            write_record(
                &mut encoder,
                sample.timestamp,
                sample.power,
                sample.heart_rate,
                sample.cadence,
                sample.speed_mps_1000,
                sample.distance_cm,
                i == 0,
            );
            i += 1;
        }
        proof {
            assert(all.take(n as int) =~= all);
        }
        write_event(&mut encoder, end_time, EVENT_TYPE_STOP_ALL);
        let stats: Stats = self.compute_stats();
        let distance_cm: u64 = self.cumulative_distance / DISTANCE_UNITS_PER_CM;
        write_lap(
            &mut encoder,
            &LapData {
                timestamp: end_time,
                start_time: self.start_time,
                total_elapsed_time: stats.elapsed_time,
                total_timer_time: stats.timer_time as u64,
                total_distance: distance_cm,
                avg_power: stats.avg_power,
                max_power: stats.max_power,
                avg_heart_rate: stats.avg_hr,
                max_heart_rate: stats.max_hr,
                avg_cadence: stats.avg_cadence,
                max_cadence: stats.max_cadence,
            },
        );
        write_session(
            &mut encoder,
            &SessionData {
                timestamp: end_time,
                start_time: self.start_time,
                total_elapsed_time: stats.elapsed_time,
                total_timer_time: stats.timer_time as u64,
                total_distance: distance_cm,
                avg_power: stats.avg_power,
                max_power: stats.max_power,
                avg_heart_rate: stats.avg_hr,
                max_heart_rate: stats.max_hr,
                avg_cadence: stats.avg_cadence,
                max_cadence: stats.max_cadence,
                avg_speed: stats.avg_speed,
                max_speed: stats.max_speed,
            },
        );
        write_activity(&mut encoder, end_time, stats.timer_time as u64);
        encoder.finish()
    }

    /// What is reported of the workout once it is stored under `file_path`.
    pub fn summary(&self, file_path: String) -> (summary: WorkoutSummary)
        ensures
            summary == spec_summary(self@, file_path),
    {
        let stats: Stats = self.compute_stats();
        WorkoutSummary {
            duration_secs: stats.timer_time,
            distance_mm: self.cumulative_distance / DISTANCE_UNITS_PER_MM,
            avg_power: stats.avg_power,
            max_power: stats.max_power,
            avg_hr: stats.avg_hr,
            max_hr: stats.max_hr,
            avg_cadence: stats.avg_cadence,
            sample_count: self.samples.len(),
            file_path,
        }
    }

    /// Prepares the workout for storage under `file_path`: the bytes of its
    /// activity file and its summary. A workout without samples is not
    /// saved.
    pub fn save(&self, file_path: String) -> (saved: Result<
        (Vec<u8>, WorkoutSummary),
        RecorderError,
    >)
        ensures
            self@.samples.len() == 0 <==> saved is Err,
            saved matches Err(error) ==> error is NoSamples,
            saved matches Ok((file, summary)) ==> file@ == spec_encode_fit(self@) && summary
                == spec_summary(self@, file_path),
    {
        if self.samples.len() == 0 {
            return Err(RecorderError::NoSamples);
        }
        let fit_bytes: Vec<u8> = self.encode_fit();
        let summary: WorkoutSummary = self.summary(file_path);
        Ok((fit_bytes, summary))
    }
}

/// What is reported of a workout that is stored under `file_path`.
pub open spec fn spec_summary(state: RecorderState, file_path: String) -> WorkoutSummary {
    WorkoutSummary {
        duration_secs: spec_stats(state).timer_time,
        distance_mm: state.cumulative_distance / DISTANCE_UNITS_PER_MM,
        avg_power: spec_stats(state).avg_power,
        max_power: spec_stats(state).max_power,
        avg_hr: spec_stats(state).avg_hr,
        max_hr: spec_stats(state).max_hr,
        avg_cadence: spec_stats(state).avg_cadence,
        sample_count: state.samples.len() as usize,
        file_path,
    }
}

impl RecorderError {
    /// The error in words.
    pub fn message(&self) -> (text: &'static str)
        ensures
            text@ == "No samples recorded"@,
    {
        "No samples recorded"
    }
}

/// A quotient is within a bound where the dividend is within that many
/// times the divisor.
proof fn lemma_quotient_bound(sum: int, count: int, bound: int)
    by (nonlinear_arith)
    requires
        count > 0,
        0 <= sum <= count * bound,
    ensures
        0 <= sum / count <= bound,
{
}

/// The mean of `count` 16-bit values that add up to `sum`; 0 for none.
fn mean_u16(sum: u128, count: u128) -> (quotient: u16)
    requires
        sum <= count * 0xFFFF,
    ensures
        quotient == if count == 0 {
            0
        } else {
            sum as int / count as int
        },
{
    if count == 0 {
        0
    } else {
        proof {
            lemma_quotient_bound(sum as int, count as int, 0xFFFF);
        }
        (sum / count) as u16
    }
}

/// The mean of `count` 8-bit values that add up to `sum`; 0 for none.
fn mean_u8(sum: u128, count: u128) -> (quotient: u8)
    requires
        sum <= count * 0xFF,
    ensures
        quotient == if count == 0 {
            0
        } else {
            sum as int / count as int
        },
{
    if count == 0 {
        0
    } else {
        proof {
            lemma_quotient_bound(sum as int, count as int, 0xFF);
        }
        (sum / count) as u8
    }
}

/// Seconds in a day.
pub const SECONDS_PER_DAY: u64 = 86400;

/// The decimal digits of a number, most significant first.
pub open spec fn decimal(value: nat) -> Seq<char>
    decreases value,
{
    let digit = seq!['0', '1', '2', '3', '4', '5', '6', '7', '8', '9'][(value % 10) as int];
    if value < 10 {
        seq![digit]
    } else {
        decimal(value / 10).push(digit)
    }
}

/// The decimal digits of a number, with zeros before them up to `width`
/// characters.
pub open spec fn zero_padded(value: nat, width: nat) -> Seq<char> {
    if decimal(value).len() >= width {
        decimal(value)
    } else {
        Seq::new((width - decimal(value).len()) as nat, |i: int| '0') + decimal(value)
    }
}

/// The file name for a date and a time of day: `YYYY-MM-DD_HH-MM-SS.fit`.
pub open spec fn stamp_text(
    year: nat,
    month: nat,
    day: nat,
    hours: nat,
    minutes: nat,
    seconds: nat,
) -> Seq<char> {
    zero_padded(year, 4) + seq!['-'] + zero_padded(month, 2) + seq!['-'] + zero_padded(day, 2)
        + seq!['_'] + zero_padded(hours, 2) + seq!['-'] + zero_padded(minutes, 2) + seq!['-']
        + zero_padded(seconds, 2) + seq!['.', 'f', 'i', 't']
}

/// The name of the file of a workout that is saved at Unix time
/// `unix_secs`, from the date and time of day in UTC.
pub open spec fn spec_format_filename(unix_secs: u64) -> Seq<char> {
    let date = civil_from_days(unix_secs as int / SECONDS_PER_DAY as int);
    let time_of_day = unix_secs as int % SECONDS_PER_DAY as int;
    stamp_text(
        date.0 as nat,
        date.1 as nat,
        date.2 as nat,
        (time_of_day / 3600) as nat,
        (time_of_day % 3600 / 60) as nat,
        (time_of_day % 60) as nat,
    )
}

/// The digit of a value under ten, as text.
fn digit_text(value: u64) -> (text: &'static str)
    requires
        value < 10,
    ensures
        text@ == seq![seq!['0', '1', '2', '3', '4', '5', '6', '7', '8', '9'][value as int]],
{
    proof {
        reveal_strlit("0");
        reveal_strlit("1");
        reveal_strlit("2");
        reveal_strlit("3");
        reveal_strlit("4");
        reveal_strlit("5");
        reveal_strlit("6");
        reveal_strlit("7");
        reveal_strlit("8");
        reveal_strlit("9");
    }
    let text: &'static str = if value == 0 {
        "0"
    } else if value == 1 {
        "1"
    } else if value == 2 {
        "2"
    } else if value == 3 {
        "3"
    } else if value == 4 {
        "4"
    } else if value == 5 {
        "5"
    } else if value == 6 {
        "6"
    } else if value == 7 {
        "7"
    } else if value == 8 {
        "8"
    } else {
        "9"
    };
    assert(text@ =~= seq![seq!['0', '1', '2', '3', '4', '5', '6', '7', '8', '9'][value as int]]);
    text
}

/// The number of decimal digits of a value.
fn decimal_len(value: u64) -> (len: usize)
    ensures
        len == decimal(value as nat).len(),
        1 <= len <= 20,
    decreases value,
{
    if value < 10 {
        1
    } else {
        proof {
            lemma_decimal_len(value as nat);
        }
        decimal_len(value / 10) + 1
    }
}

/// A number below a power of ten has no more digits than that power has
/// zeros.
proof fn lemma_decimal_len(value: nat)
    ensures
        value < 10 ==> decimal(value).len() == 1,
        value < 100 ==> decimal(value).len() <= 2,
        value < 10_000_000_000_000_000_000 ==> decimal(value).len() <= 19,
        value < 100_000_000_000_000_000_000 ==> decimal(value).len() <= 20,
{
    reveal_with_fuel(decimal, 21);
}

/// Appends the decimal digits of `value` to `text`.
fn append_decimal(text: &mut String, value: u64)
    ensures
        final(text)@ == old(text)@ + decimal(value as nat),
    decreases value,
{
    if value >= 10 {
        append_decimal(text, value / 10);
    }
    text.append(digit_text(value % 10));
    proof {
        let digit = seq!['0', '1', '2', '3', '4', '5', '6', '7', '8', '9'][(value % 10) as int];
        if value >= 10 {
            assert(old(text)@ + decimal((value / 10) as nat) + seq![digit] =~= old(text)@
                + decimal((value / 10) as nat).push(digit));
        }
    }
}

/// Appends the decimal digits of `value` to `text`, with zeros before them
/// up to `width` characters.
fn append_zero_padded(text: &mut String, value: u64, width: usize)
    ensures
        final(text)@ == old(text)@ + zero_padded(value as nat, width as nat),
{
    let digits: usize = decimal_len(value);
    let mut written: usize = digits;
    while written < width
        invariant
            digits <= written,
            written <= width || written == digits,
            text@ == old(text)@ + Seq::new((written - digits) as nat, |i: int| '0'),
        decreases width - written,
    {
        proof {
            reveal_strlit("0");
            assert(Seq::new((written - digits) as nat, |i: int| '0') + "0"@ =~= Seq::new(
                (written + 1 - digits) as nat,
                |i: int| '0',
            ));
        }
        text.append("0");
        written += 1;
    }
    proof {
        if digits >= width {
            assert(text@ =~= old(text)@);
        }
    }
    append_decimal(text, value);
}

/// The file name for a date and a time of day.
fn format_stamp(year: u64, month: u64, day: u64, hours: u64, minutes: u64, seconds: u64) -> (name:
    String)
    ensures
        name@ == stamp_text(
            year as nat,
            month as nat,
            day as nat,
            hours as nat,
            minutes as nat,
            seconds as nat,
        ),
{
    proof {
        reveal_strlit("-");
        reveal_strlit("_");
        reveal_strlit(".fit");
    }
    let mut name = String::new();
    append_zero_padded(&mut name, year, 4);
    name.append("-");
    append_zero_padded(&mut name, month, 2);
    name.append("-");
    append_zero_padded(&mut name, day, 2);
    name.append("_");
    append_zero_padded(&mut name, hours, 2);
    name.append("-");
    append_zero_padded(&mut name, minutes, 2);
    name.append("-");
    append_zero_padded(&mut name, seconds, 2);
    name.append(".fit");
    assert(name@ =~= stamp_text(
        year as nat,
        month as nat,
        day as nat,
        hours as nat,
        minutes as nat,
        seconds as nat,
    ));
    name
}

/// The name of the file of a workout that is saved at Unix time `unix_secs`.
pub fn format_filename_at(unix_secs: u64) -> (name: String)
    ensures
        name@ == spec_format_filename(unix_secs),
{
    let days: u64 = unix_secs / SECONDS_PER_DAY;
    let time_of_day: u64 = unix_secs % SECONDS_PER_DAY;
    let hours: u64 = time_of_day / 3600;
    let minutes: u64 = (time_of_day % 3600) / 60;
    let seconds: u64 = time_of_day % 60;
    let (year, month, day) = days_to_ymd(days);
    format_stamp(year, month, day, hours, minutes, seconds)
}

/// The name of the file of a workout that is saved now, or `None` where the
/// clock is set before 1970.
pub fn format_filename() -> (name: Option<String>)
    ensures
        name matches Some(text) ==> exists|unix_secs: u64| text@ == spec_format_filename(unix_secs),
{
    match unix_now() {
        Some(now) => Some(format_filename_at(now)),
        None => None,
    }
}

} // verus!
