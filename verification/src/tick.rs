//! Per-tick world state: game time and day time, and the weather cycle
//! with its rain and thunder timers (vanilla `ServerLevel.advanceWeatherCycle`).

use vstd::prelude::*;
use rand::RngExt;
use rand::rngs::SmallRng;
use crate::text::spec_parse_int;

verus! {

/// Shortest delay before rain starts, in ticks (10 minutes).
pub const RAIN_DELAY_MIN: i32 = 12_000;
/// Longest delay before rain starts, in ticks (2.5 hours).
pub const RAIN_DELAY_MAX: i32 = 180_000;
/// Shortest time rain lasts once started, in ticks (10 minutes).
pub const RAIN_DURATION_MIN: i32 = 12_000;
/// Longest time rain lasts once started, in ticks (20 minutes).
pub const RAIN_DURATION_MAX: i32 = 24_000;
/// Shortest delay before thunder starts, in ticks (10 minutes).
pub const THUNDER_DELAY_MIN: i32 = 12_000;
/// Longest delay before thunder starts, in ticks (2.5 hours).
pub const THUNDER_DELAY_MAX: i32 = 180_000;
/// Shortest time thunder lasts once started, in ticks (3 minutes).
pub const THUNDER_DURATION_MIN: i32 = 3_600;
/// Longest time thunder lasts once started, in ticks (13 minutes).
pub const THUNDER_DURATION_MAX: i32 = 15_600;
/// Duration of a `/weather` change when none is given, in ticks.
pub const DEFAULT_WEATHER_DURATION: i32 = 6000;
/// Ticks between two time broadcasts (once per second).
pub const TIME_BROADCAST_INTERVAL: u64 = 20;

#[verifier::external_type_specification]
#[verifier::external_body]
pub struct ExSmallRng(SmallRng);

/// Calls `rand::RngExt::random_range` with the inclusive range `lo..=hi`,
/// which draws a value inside the range (it panics only on an empty range,
/// which `lo <= hi` rules out).
#[verifier::external_body]
fn random_in_range(rng: &mut SmallRng, lo: i32, hi: i32) -> (r: i32)
    requires
        lo <= hi,
    ensures
        lo <= r <= hi,
{
    rng.random_range(lo..=hi)
}

/// Calls `rand::random::<i64>`; nothing is known of the value.
#[verifier::external_body]
fn random_i64() -> i64 {
    rand::random::<i64>()
}

/// The world clock: total game time and the day-cycle time.
#[derive(Clone, Copy, Debug, PartialEq, Eq, Structural)]
pub struct WorldTime {
    /// Ticks since the world was created.
    pub time: i64,
    /// Day-cycle ticks; grows without bound (clients take it modulo 24000).
    pub day_time: i64,
}

impl WorldTime {
    /// Advances the clock by one tick: game time always advances, day time
    /// only when the `advance_time` game rule is on; both wrap at the end
    /// of the `i64` range.
    pub fn advance(&mut self, advance_daylight: bool)
        ensures
            final(self).time == old(self).time.wrapping_add(1),
            final(self).day_time == if advance_daylight {
                old(self).day_time.wrapping_add(1)
            } else {
                old(self).day_time
            },
    {
        self.time = self.time.wrapping_add(1);
        if advance_daylight {
            self.day_time = self.day_time.wrapping_add(1);
        }
    }

    /// Adds `ticks` to the day time, wrapping at the end of the `i64` range.
    pub fn add_day_time(&mut self, ticks: i64)
        ensures
            final(self).day_time == old(self).day_time.wrapping_add(ticks),
            final(self).time == old(self).time,
    {
        self.day_time = self.day_time.wrapping_add(ticks);
    }
}

/// Whether a tick with this count broadcasts the time to the clients.
pub fn is_time_broadcast_tick(tick_count: u64) -> (r: bool)
    ensures
        r == (tick_count % TIME_BROADCAST_INTERVAL == 0),
{
    tick_count % TIME_BROADCAST_INTERVAL == 0
}

/// The weather timers and flags of a world.
#[derive(Clone, Copy, Debug, PartialEq, Eq, Structural)]
pub struct Weather {
    /// Ticks of forced clear weather left (`/weather clear`).
    pub clear_weather_time: i32,
    /// Ticks until rain toggles.
    pub rain_time: i32,
    /// Ticks until thunder toggles.
    pub thunder_time: i32,
    pub is_raining: bool,
    pub is_thundering: bool,
}

/// The weather a `/weather` command sets.
#[derive(Clone, Copy, Debug, PartialEq, Eq, Structural)]
pub enum WeatherType {
    Clear,
    Rain,
    Thunder,
}

/// One weather timer step: a running timer counts down and toggles its
/// flag when it reaches zero; a spent timer (zero or below) is refilled
/// with `draw`.
pub open spec fn timer_step(time: int, on: bool, draw: int) -> (int, bool) {
    if time > 0 {
        if time - 1 == 0 {
            (0, !on)
        } else {
            (time - 1, on)
        }
    } else {
        (draw, on)
    }
}

/// `draw` is a value the timer may be refilled with: a duration while its
/// flag is on, a delay while it is off.
pub open spec fn valid_draw(on: bool, draw: int, delay_min: int, delay_max: int, dur_min: int, dur_max: int) -> bool {
    if on {
        dur_min <= draw <= dur_max
    } else {
        delay_min <= draw <= delay_max
    }
}

/// `thunder_draw` and `rain_draw` are values the two timers may be refilled
/// with this tick.
pub open spec fn valid_draws(w: Weather, thunder_draw: int, rain_draw: int) -> bool {
    &&& valid_draw(
        w.is_thundering,
        thunder_draw,
        THUNDER_DELAY_MIN as int,
        THUNDER_DELAY_MAX as int,
        THUNDER_DURATION_MIN as int,
        THUNDER_DURATION_MAX as int,
    )
    &&& valid_draw(
        w.is_raining,
        rain_draw,
        RAIN_DELAY_MIN as int,
        RAIN_DELAY_MAX as int,
        RAIN_DURATION_MIN as int,
        RAIN_DURATION_MAX as int,
    )
}

/// The weather after one tick, with the timers refilled (where spent) by
/// `thunder_draw` and `rain_draw`: forced clear weather counts down and
/// keeps rain and thunder off, with their timers set so that they toggle
/// (stay off) once it ends; otherwise thunder and rain run as two
/// independent timers.
pub open spec fn spec_weather_step(w: Weather, thunder_draw: int, rain_draw: int) -> Weather {
    if w.clear_weather_time > 0 {
        Weather {
            clear_weather_time: (w.clear_weather_time - 1) as i32,
            thunder_time: if w.is_thundering {
                0
            } else {
                1
            },
            rain_time: if w.is_raining {
                0
            } else {
                1
            },
            is_thundering: false,
            is_raining: false,
        }
    } else {
        let (tt, th) = timer_step(w.thunder_time as int, w.is_thundering, thunder_draw);
        let (rt, ra) = timer_step(w.rain_time as int, w.is_raining, rain_draw);
        Weather {
            clear_weather_time: w.clear_weather_time,
            thunder_time: tt as i32,
            rain_time: rt as i32,
            is_thundering: th,
            is_raining: ra,
        }
    }
}

/// The weather after a `/weather` command with the given duration.
pub open spec fn spec_set_weather(w: Weather, kind: WeatherType, duration: int) -> Weather {
    match kind {
        WeatherType::Clear => Weather {
            clear_weather_time: duration as i32,
            is_raining: false,
            is_thundering: false,
            rain_time: 0,
            thunder_time: 0,
        },
        WeatherType::Rain => Weather {
            clear_weather_time: 0,
            is_raining: true,
            is_thundering: false,
            rain_time: duration as i32,
            thunder_time: duration as i32,
        },
        WeatherType::Thunder => Weather {
            clear_weather_time: 0,
            is_raining: true,
            is_thundering: true,
            rain_time: duration as i32,
            thunder_time: duration as i32,
        },
    }
}

/// Advances one weather timer, drawing a new value from `rng` when it is
/// spent: a duration in `dur_min..=dur_max` while its flag is on, a delay
/// in `delay_min..=delay_max` while off.
fn step_timer(
    rng: &mut SmallRng,
    time: i32,
    on: bool,
    delay_min: i32,
    delay_max: i32,
    dur_min: i32,
    dur_max: i32,
) -> (r: (i32, bool, Ghost<int>))
    requires
        delay_min <= delay_max,
        dur_min <= dur_max,
    ensures
        valid_draw(on, r.2@, delay_min as int, delay_max as int, dur_min as int, dur_max as int),
        (r.0 as int, r.1) == timer_step(time as int, on, r.2@),
{
    if time > 0 {
        let t = time - 1;
        let ghost any: int = if on {
            dur_min as int
        } else {
            delay_min as int
        };
        if t == 0 {
            (t, !on, Ghost(any))
        } else {
            (t, on, Ghost(any))
        }
    } else if on {
        let d = random_in_range(rng, dur_min, dur_max);
        (d, on, Ghost(d as int))
    } else {
        let d = random_in_range(rng, delay_min, delay_max);
        (d, on, Ghost(d as int))
    }
}

impl Weather {
    /// Clear weather with all timers at zero.
    pub fn new() -> (r: Weather)
        ensures
            r == (Weather {
                clear_weather_time: 0,
                rain_time: 0,
                thunder_time: 0,
                is_raining: false,
                is_thundering: false,
            }),
    {
        Weather { clear_weather_time: 0, rain_time: 0, thunder_time: 0, is_raining: false, is_thundering: false }
    }

    /// Advances the weather cycle by one tick, drawing new timer values from
    /// `rng` where a timer is spent (thunder first, then rain). The result is
    /// [`spec_weather_step`] for some draws within the vanilla ranges.
    pub fn tick(&mut self, rng: &mut SmallRng)
        ensures
            exists|td: int, rd: int|
                #![trigger spec_weather_step(*old(self), td, rd)]
                valid_draws(*old(self), td, rd) && *final(self) == spec_weather_step(
                    *old(self),
                    td,
                    rd,
                ),
    {
        let ghost before = *self;
        if self.clear_weather_time > 0 {
            self.clear_weather_time = self.clear_weather_time - 1;
            self.thunder_time = if self.is_thundering {
                0
            } else {
                1
            };
            self.rain_time = if self.is_raining {
                0
            } else {
                1
            };
            self.is_thundering = false;
            self.is_raining = false;
            proof {
                let td: int = if before.is_thundering {
                    THUNDER_DURATION_MIN as int
                } else {
                    THUNDER_DELAY_MIN as int
                };
                let rd: int = if before.is_raining {
                    RAIN_DURATION_MIN as int
                } else {
                    RAIN_DELAY_MIN as int
                };
                assert(valid_draws(before, td, rd));
                assert(*self == spec_weather_step(before, td, rd));
            }
        } else {
            let (tt, th, td) = step_timer(
                rng,
                self.thunder_time,
                self.is_thundering,
                THUNDER_DELAY_MIN,
                THUNDER_DELAY_MAX,
                THUNDER_DURATION_MIN,
                THUNDER_DURATION_MAX,
            );
            let (rt, ra, rd) = step_timer(
                rng,
                self.rain_time,
                self.is_raining,
                RAIN_DELAY_MIN,
                RAIN_DELAY_MAX,
                RAIN_DURATION_MIN,
                RAIN_DURATION_MAX,
            );
            self.thunder_time = tt;
            self.is_thundering = th;
            self.rain_time = rt;
            self.is_raining = ra;
            proof {
                assert(valid_draws(before, td@, rd@));
                assert(*self == spec_weather_step(before, td@, rd@));
            }
        }
    }

    /// Applies a `/weather` command; `duration` defaults to
    /// [`DEFAULT_WEATHER_DURATION`]. Returns `true` when rain started or
    /// stopped, so that clients are told.
    pub fn set_weather(&mut self, kind: WeatherType, duration: Option<i32>) -> (rain_changed: bool)
        ensures
            *final(self) == spec_set_weather(
                *old(self),
                kind,
                match duration {
                    Some(d) => d as int,
                    None => DEFAULT_WEATHER_DURATION as int,
                },
            ),
            rain_changed == (old(self).is_raining != final(self).is_raining),
    {
        let was_raining = self.is_raining;
        let dur = match duration {
            Some(d) => d,
            None => DEFAULT_WEATHER_DURATION,
        };
        match kind {
            WeatherType::Clear => {
                self.clear_weather_time = dur;
                self.is_raining = false;
                self.is_thundering = false;
                self.rain_time = 0;
                self.thunder_time = 0;
            },
            WeatherType::Rain => {
                self.clear_weather_time = 0;
                self.is_raining = true;
                self.is_thundering = false;
                self.rain_time = dur;
                self.thunder_time = dur;
            },
            WeatherType::Thunder => {
                self.clear_weather_time = 0;
                self.is_raining = true;
                self.is_thundering = true;
                self.rain_time = dur;
                self.thunder_time = dur;
            },
        }
        was_raining != self.is_raining
    }
}

/// What one game tick asks the caller to broadcast.
#[derive(Clone, Copy, Debug, PartialEq, Eq, Structural)]
pub struct TickEffects {
    /// Send the time to every client (once per second).
    pub broadcast_time: bool,
    /// Rain started or stopped this tick.
    pub rain_changed: bool,
}

/// Performs the world-state part of one game tick: the clock advances
/// (day time only with the `advance_time` rule), the weather cycle runs
/// only with the `advance_weather` rule, and the time is broadcast every
/// [`TIME_BROADCAST_INTERVAL`] ticks.
pub fn do_tick(
    time: &mut WorldTime,
    weather: &mut Weather,
    rng: &mut SmallRng,
    tick_count: u64,
    advance_daylight: bool,
    advance_weather: bool,
) -> (r: TickEffects)
    ensures
        final(time).time == old(time).time.wrapping_add(1),
        final(time).day_time == if advance_daylight {
            old(time).day_time.wrapping_add(1)
        } else {
            old(time).day_time
        },
        !advance_weather ==> *final(weather) == *old(weather),
        advance_weather ==> exists|td: int, rd: int|
            #![trigger spec_weather_step(*old(weather), td, rd)]
            valid_draws(*old(weather), td, rd) && *final(weather) == spec_weather_step(
                *old(weather),
                td,
                rd,
            ),
        r.broadcast_time == (tick_count % TIME_BROADCAST_INTERVAL == 0),
        r.rain_changed == (old(weather).is_raining != final(weather).is_raining),
{
    time.advance(advance_daylight);
    let was_raining = weather.is_raining;
    if advance_weather {
        weather.tick(rng);
    }
    TickEffects {
        broadcast_time: is_time_broadcast_tick(tick_count),
        rain_changed: was_raining != weather.is_raining,
    }
}

/// Forced clear weather keeps rain and thunder off for every tick it lasts,
/// and counts down by one each tick; once a timer is running it counts
/// down by one, and it toggles its flag exactly when it reaches zero.
pub proof fn lemma_weather_step(w: Weather, td: int, rd: int)
    ensures
        w.clear_weather_time > 0 ==> !spec_weather_step(w, td, rd).is_raining
            && !spec_weather_step(w, td, rd).is_thundering && spec_weather_step(w, td, rd).clear_weather_time
            == w.clear_weather_time - 1,
        w.clear_weather_time <= 0 && w.rain_time > 1 ==> spec_weather_step(w, td, rd).rain_time
            == w.rain_time - 1 && spec_weather_step(w, td, rd).is_raining == w.is_raining,
        w.clear_weather_time <= 0 && w.rain_time == 1 ==> spec_weather_step(w, td, rd).is_raining
            != w.is_raining,
        w.clear_weather_time <= 0 && w.thunder_time == 1 ==> spec_weather_step(w, td, rd).is_thundering
            != w.is_thundering,
        w.clear_weather_time <= 0 ==> spec_weather_step(w, td, rd).is_thundering == timer_step(
            w.thunder_time as int,
            w.is_thundering,
            td,
        ).1,
{
}

/// The weather timers stay non-negative: starting from non-negative
/// timers, every tick (with draws in the vanilla ranges) leaves them
/// non-negative.
pub proof fn lemma_weather_timers_nonnegative(w: Weather, td: int, rd: int)
    requires
        w.clear_weather_time >= 0,
        w.rain_time >= 0,
        w.thunder_time >= 0,
        valid_draws(w, td, rd),
    ensures
        spec_weather_step(w, td, rd).clear_weather_time >= 0,
        spec_weather_step(w, td, rd).rain_time >= 0,
        spec_weather_step(w, td, rd).thunder_time >= 0,
{
}

/// A tick slower than this (100 ms, in nanoseconds) is reported as
/// running behind.
pub const OVERLOAD_WARNING_NANOS: u128 = 100_000_000;

/// A tick slower than this (500 ms, in nanoseconds) is reported as
/// critical: the server can't keep up.
pub const OVERLOAD_CRITICAL_NANOS: u128 = 500_000_000;

/// How a tick's duration is reported by the tick loop.
#[derive(Clone, Copy, Debug, PartialEq, Eq, Structural)]
pub enum TickLoad {
    /// Within budget.
    Normal,
    /// Above the warning threshold.
    Behind,
    /// Above the critical threshold.
    Overloaded,
}

/// Two-tier overload detection: a tick that took more than
/// [`OVERLOAD_CRITICAL_NANOS`] is overloaded, one that took more than
/// [`OVERLOAD_WARNING_NANOS`] is behind, anything else is normal.
pub fn classify_tick(elapsed_nanos: u128) -> (r: TickLoad)
    ensures
        r == (if elapsed_nanos > OVERLOAD_CRITICAL_NANOS {
            TickLoad::Overloaded
        } else if elapsed_nanos > OVERLOAD_WARNING_NANOS {
            TickLoad::Behind
        } else {
            TickLoad::Normal
        }),
{
    if elapsed_nanos > OVERLOAD_CRITICAL_NANOS {
        TickLoad::Overloaded
    } else if elapsed_nanos > OVERLOAD_WARNING_NANOS {
        TickLoad::Behind
    } else {
        TickLoad::Normal
    }
}

/// How long the tick loop sleeps after a tick: the rest of the tick
/// interval, or nothing when the tick overran it (skip-style catch-up).
pub fn remaining_sleep_nanos(target_interval_nanos: u128, elapsed_nanos: u128) -> (r: u128)
    ensures
        r == (if elapsed_nanos >= target_interval_nanos {
            0
        } else {
            target_interval_nanos - elapsed_nanos
        }),
        elapsed_nanos + r >= target_interval_nanos,
{
    target_interval_nanos.saturating_sub(elapsed_nanos)
}

/// A world seed from the `level-seed` setting: a random seed when it is
/// empty, the number when it parses as an `i64`, otherwise a hash of the
/// text.
pub fn world_seed(seed: &str) -> (r: i64)
    ensures
        spec_parse_int(seed@, i64::MIN as int, i64::MAX as int, true) matches Some(v) ==> r == v,
        seed@.len() > 0 && spec_parse_int(seed@, i64::MIN as int, i64::MAX as int, true) is None
            ==> r == seed_text_hash(seed@),
{
    if seed.is_empty() {
        return random_i64();
    }
    match crate::text::parse_int(seed, i64::MIN as i128, i64::MAX as i128, true) {
        Some(v) => v as i64,
        None => hash_seed_text(seed),
    }
}

/// What hashing a seed text with a fresh `DefaultHasher` gives, as an
/// `i64`. `DefaultHasher::new` is unseeded, so the value depends on the
/// text alone (for one Rust release).
pub uninterp spec fn seed_text_hash(s: Seq<char>) -> i64;

/// Hashes a seed text the way vanilla-style servers do: a fresh
/// `std::collections::hash_map::DefaultHasher` (`new`), the text fed to it
/// (`Hash::hash`), and the 64-bit result (`Hasher::finish`) reinterpreted
/// as an `i64`. Claimed: the result is [`seed_text_hash`] of the text.
#[verifier::external_body]
fn hash_seed_text(seed: &str) -> (r: i64)
    ensures
        r == seed_text_hash(seed@),
{
    let mut hasher = std::collections::hash_map::DefaultHasher::new();
    std::hash::Hash::hash(seed, &mut hasher);
    std::hash::Hasher::finish(&hasher) as i64
}

/// The `/weather` command, stated directly: `clear` stops rain and thunder
/// for the given time and zeroes both timers; `rain` makes it rain without
/// thunder; `thunder` makes it rain with thunder; both set the rain and
/// thunder timers to the time and end any forced clear weather. The result
/// does not depend on the weather before.
pub proof fn lemma_set_weather(w: Weather, other: Weather, kind: WeatherType, d: i32)
    ensures
        ({
            let r = spec_set_weather(w, kind, d as int);
            &&& r == spec_set_weather(other, kind, d as int)
            &&& (kind == WeatherType::Clear ==> !r.is_raining && !r.is_thundering && r.clear_weather_time == d
                && r.rain_time == 0 && r.thunder_time == 0)
            &&& (kind == WeatherType::Rain ==> r.is_raining && !r.is_thundering && r.clear_weather_time == 0
                && r.rain_time == d && r.thunder_time == d)
            &&& (kind == WeatherType::Thunder ==> r.is_raining && r.is_thundering && r.clear_weather_time
                == 0 && r.rain_time == d && r.thunder_time == d)
        }),
{
}
} // verus!
