use std::hash::{Hash, Hasher};
use oxidized_server::tick::{
    do_tick, is_time_broadcast_tick, world_seed, Weather, WeatherType, WorldTime,
    DEFAULT_WEATHER_DURATION, RAIN_DELAY_MAX, RAIN_DELAY_MIN, RAIN_DURATION_MAX,
    RAIN_DURATION_MIN, THUNDER_DELAY_MAX, THUNDER_DELAY_MIN, THUNDER_DURATION_MAX,
    THUNDER_DURATION_MIN,
};
use oxidized_server::tick::{classify_tick, remaining_sleep_nanos, TickLoad};
use rand::rngs::SmallRng;
use rand::SeedableRng;

const TICKS_PER_DAY: i64 = 24_000;

fn test_rng() -> SmallRng {
    SmallRng::seed_from_u64(42)
}

fn new_world() -> (WorldTime, Weather) {
    (WorldTime { time: 0, day_time: 0 }, Weather::new())
}

#[test]
fn test_do_tick_advances_time() {
    let (mut time, mut weather) = new_world();
    let initial_time = time.time;
    do_tick(&mut time, &mut weather, &mut test_rng(), 0, true, true);
    assert_eq!(time.time, initial_time + 1);
}

#[test]
fn test_do_tick_advances_day_time() {
    let (mut time, mut weather) = new_world();
    let initial_day = time.day_time;
    do_tick(&mut time, &mut weather, &mut test_rng(), 0, true, true);
    assert_eq!(time.day_time, initial_day + 1);
}

#[test]
fn test_day_time_grows_unbounded() {
    let (mut time, mut weather) = new_world();
    time.day_time = TICKS_PER_DAY - 1;
    do_tick(&mut time, &mut weather, &mut test_rng(), 0, true, true);
    assert_eq!(
        time.day_time, TICKS_PER_DAY,
        "day_time should grow past 24000 (client handles modulo)"
    );
}

#[test]
fn test_daylight_cycle_respects_gamerule() {
    let (mut time, mut weather) = new_world();
    let initial_day = time.day_time;
    do_tick(&mut time, &mut weather, &mut test_rng(), 0, false, true);
    assert_eq!(
        time.day_time, initial_day,
        "day_time should not advance when advance_time is false"
    );
    // But game_time always advances.
    assert_eq!(time.time, 1);
}

#[test]
fn test_weather_cycle_respects_gamerule() {
    let (mut time, mut weather) = new_world();
    weather.rain_time = 1; // would flip without gamerule
    do_tick(&mut time, &mut weather, &mut test_rng(), 0, true, false);
    assert_eq!(
        weather.rain_time, 1,
        "weather should not tick when advance_weather is false"
    );
}

#[test]
fn test_weather_transitions() {
    let mut weather = Weather::new();
    weather.is_raining = false;
    weather.rain_time = 1;
    weather.tick(&mut test_rng());
    assert!(weather.is_raining, "should start raining");
}

#[test]
fn test_thunder_independent_of_rain() {
    let mut weather = Weather::new();
    weather.is_raining = false;
    weather.is_thundering = true;
    weather.thunder_time = 5;
    weather.tick(&mut test_rng());
    assert!(
        weather.is_thundering,
        "thunder should persist independently of rain"
    );
}

#[test]
fn test_clear_weather_time_overrides() {
    let mut weather = Weather::new();
    weather.is_raining = true;
    weather.is_thundering = true;
    weather.clear_weather_time = 100;
    weather.rain_time = 5000;
    weather.thunder_time = 3000;
    weather.tick(&mut test_rng());
    assert!(!weather.is_raining, "clear weather should stop rain");
    assert!(!weather.is_thundering, "clear weather should stop thunder");
    assert_eq!(weather.clear_weather_time, 99, "clear weather timer should decrement");
}

#[test]
fn test_weather_random_duration_in_range() {
    let mut weather = Weather::new();
    weather.is_raining = true;
    weather.rain_time = 0;
    weather.tick(&mut SmallRng::seed_from_u64(12345));
    let rain_time = weather.rain_time;
    assert!(
        (RAIN_DURATION_MIN..=RAIN_DURATION_MAX).contains(&rain_time),
        "rain duration {rain_time} should be in range {RAIN_DURATION_MIN}..={RAIN_DURATION_MAX}"
    );
}

#[test]
fn weather_draws_stay_in_vanilla_ranges() {
    let mut rng = SmallRng::seed_from_u64(7);
    for seed_state in 0..200 {
        let mut weather = Weather::new();
        weather.is_raining = seed_state % 2 == 0;
        weather.is_thundering = seed_state % 3 == 0;
        weather.tick(&mut rng);
        if weather.is_raining {
            assert!((RAIN_DURATION_MIN..=RAIN_DURATION_MAX).contains(&weather.rain_time));
        } else {
            assert!((RAIN_DELAY_MIN..=RAIN_DELAY_MAX).contains(&weather.rain_time));
        }
        if weather.is_thundering {
            assert!((THUNDER_DURATION_MIN..=THUNDER_DURATION_MAX).contains(&weather.thunder_time));
        } else {
            assert!((THUNDER_DELAY_MIN..=THUNDER_DELAY_MAX).contains(&weather.thunder_time));
        }
    }
}

#[test]
fn weather_timer_counts_down_and_toggles_at_zero() {
    let mut weather = Weather::new();
    weather.rain_time = 3;
    weather.thunder_time = 2;
    weather.tick(&mut test_rng());
    assert_eq!((weather.rain_time, weather.is_raining), (2, false));
    assert_eq!((weather.thunder_time, weather.is_thundering), (1, false));
    weather.tick(&mut test_rng());
    assert_eq!((weather.thunder_time, weather.is_thundering), (0, true));
}

#[test]
fn clear_weather_ends_with_timers_that_toggle_off() {
    let mut weather = Weather::new();
    weather.is_raining = true;
    weather.clear_weather_time = 1;
    weather.tick(&mut test_rng());
    assert_eq!(weather.clear_weather_time, 0);
    assert_eq!(weather.rain_time, 0);
    assert_eq!(weather.thunder_time, 1);
}

#[test]
fn set_weather_commands() {
    let mut weather = Weather::new();
    assert!(weather.set_weather(WeatherType::Rain, None));
    assert_eq!(weather, Weather { clear_weather_time: 0, rain_time: DEFAULT_WEATHER_DURATION, thunder_time: DEFAULT_WEATHER_DURATION, is_raining: true, is_thundering: false });
    assert!(!weather.set_weather(WeatherType::Thunder, Some(1200)));
    assert_eq!(weather, Weather { clear_weather_time: 0, rain_time: 1200, thunder_time: 1200, is_raining: true, is_thundering: true });
    assert!(weather.set_weather(WeatherType::Clear, Some(300)));
    assert_eq!(weather, Weather { clear_weather_time: 300, rain_time: 0, thunder_time: 0, is_raining: false, is_thundering: false });
}

#[test]
fn time_wraps_and_day_time_can_be_added() {
    let mut time = WorldTime { time: i64::MAX, day_time: 5 };
    time.advance(true);
    assert_eq!(time.time, i64::MIN);
    assert_eq!(time.day_time, 6);
    time.add_day_time(-10);
    assert_eq!(time.day_time, -4);
}

#[test]
fn time_is_broadcast_once_per_second() {
    assert!(is_time_broadcast_tick(0));
    assert!(!is_time_broadcast_tick(19));
    assert!(is_time_broadcast_tick(40));
    let (mut time, mut weather) = new_world();
    let effects = do_tick(&mut time, &mut weather, &mut test_rng(), 21, true, false);
    assert!(!effects.broadcast_time);
    assert!(!effects.rain_changed);
}

#[test]
fn world_seed_from_setting() {
    assert_eq!(world_seed("12345"), 12345);
    assert_eq!(world_seed("-42"), -42);
    assert_eq!(world_seed("+7"), 7);
    // A non-numeric seed hashes to the same value every time.
    assert_eq!(world_seed("glacier"), world_seed("glacier"));
}

#[test]
fn tick_overload_tiers() {
    assert_eq!(classify_tick(50_000_000), TickLoad::Normal);
    assert_eq!(classify_tick(100_000_000), TickLoad::Normal);
    assert_eq!(classify_tick(100_000_001), TickLoad::Behind);
    assert_eq!(classify_tick(500_000_000), TickLoad::Behind);
    assert_eq!(classify_tick(500_000_001), TickLoad::Overloaded);
}

#[test]
fn tick_sleep_budget() {
    assert_eq!(remaining_sleep_nanos(50_000_000, 20_000_000), 30_000_000);
    assert_eq!(remaining_sleep_nanos(50_000_000, 50_000_000), 0);
    assert_eq!(remaining_sleep_nanos(50_000_000, 80_000_000), 0);
}

#[test]
fn world_seed_hashes_text_with_default_hasher() {
    let mut hasher = std::collections::hash_map::DefaultHasher::new();
    Hash::hash("glacier", &mut hasher);
    assert_eq!(world_seed("glacier"), Hasher::finish(&hasher) as i64);
}
