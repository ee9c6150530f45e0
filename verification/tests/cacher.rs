use kata::cacher::{generate_workout, Cacher, Workout};

#[test]
fn first_result_is_kept() {
    let mut cacher = Cacher::new(|x: u32| x);
    assert_eq!(cacher.value(5), 5);
    assert_eq!(cacher.value(99), 5);
    assert_eq!(cacher.value(5), 5);
}

#[test]
fn function_runs_once_and_only_when_asked() {
    let calls = std::cell::Cell::new(0u32);
    let mut cacher = Cacher::new(|x: u32| {
        calls.set(calls.get() + 1);
        x * 2
    });
    assert_eq!(calls.get(), 0);
    assert_eq!(cacher.value(4), 8);
    assert_eq!(calls.get(), 1);
    assert_eq!(cacher.value(10), 8);
    assert_eq!(cacher.value(0), 8);
    assert_eq!(calls.get(), 1);
}

#[test]
fn failures_of_the_function_are_cached_like_any_result() {
    let mut cacher = Cacher::new(|x: i32| if x < 0 { Err(x) } else { Ok(x) });
    assert_eq!(cacher.value(-3), Err(-3));
    assert_eq!(cacher.value(7), Err(-3));
}

#[test]
fn cacher_over_other_types() {
    let mut cacher = Cacher::new(|word: &str| word.len());
    assert_eq!(cacher.value("four"), 4);
    assert_eq!(cacher.value("seventeen"), 4);
}

#[test]
fn workout_plans() {
    assert_eq!(
        generate_workout(|n| n, 43, 8),
        Workout::Strength { pushups: 43, situps: 43 }
    );
    assert_eq!(
        generate_workout(|n| n, 26, 3),
        Workout::Strength { pushups: 26, situps: 26 }
    );
    assert_eq!(generate_workout(|n| n, 25, 3), Workout::Rest);
    assert_eq!(generate_workout(|n| n + 1, 25, 4), Workout::Run { minutes: 26 });
    assert_eq!(generate_workout(|n| n, 0, 0), Workout::Run { minutes: 0 });
}

#[test]
fn workout_calculates_at_most_once() {
    let calls = std::cell::Cell::new(0u32);
    let count = |n: u32| {
        calls.set(calls.get() + 1);
        n
    };
    generate_workout(&count, 40, 1);
    assert_eq!(calls.get(), 1);
    generate_workout(&count, 10, 3);
    assert_eq!(calls.get(), 1);
    generate_workout(&count, 10, 2);
    assert_eq!(calls.get(), 2);
}
