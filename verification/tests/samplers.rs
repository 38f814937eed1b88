use sensor_mqtt::fancy::measurements_mean_delta;
use sensor_mqtt::fancy::FancySampler;
use sensor_mqtt::fixed_period::FixedPeriodSampler;
use sensor_mqtt::measurement::Measurement;
use sensor_mqtt::sampler::Sampler;

#[test]
fn fixed_period_sampler_outputs_same_tick_delay() {
    let mut sampler = FixedPeriodSampler::new(14);
    assert_eq!(14, sampler.next(Measurement::from_milli(123)));
    assert_eq!(14, sampler.next(Measurement::from_milli(-99_000)));
    assert_eq!(14, sampler.max());
}

#[test]
fn can_take_mean_of_list_of_measurements() {
    let input = vec![
        Measurement::from_milli(1_000),
        Measurement::from_milli(3_000),
        Measurement::from_milli(5_000),
    ];
    let actual = measurements_mean_delta(&input);
    assert_eq!(Some(2_000), actual);
}

#[test]
fn mean_delta_needs_two_measurements() {
    assert_eq!(None, measurements_mean_delta(&vec![]));
    assert_eq!(
        None,
        measurements_mean_delta(&vec![Measurement::from_milli(7_000)])
    );
}

#[test]
fn fancy_sampler_returns_first_interval_after_one_measurement() {
    let mut sampler = FancySampler::new();
    let wait_for = sampler.next(Measurement::from_milli(5_000));
    assert_eq!(60, wait_for);
}

#[test]
fn fancy_sampler_max_is_the_ladder_head() {
    let sampler = FancySampler::new();
    assert_eq!(60, sampler.max());
}

#[test]
fn fancy_sampler_speeds_up_on_a_spike() {
    let mut sampler = FancySampler::new();
    assert_eq!(60, sampler.next(Measurement::from_milli(0)));
    assert_eq!(60, sampler.next(Measurement::from_milli(0)));
    // jump of 1000.000 against a mean delta of 500.000: one rung down
    let wait_for = sampler.next(Measurement::from_milli(1_000_000));
    assert_eq!(30, wait_for);
}

#[test]
fn fancy_sampler_calms_back_to_the_longest_interval() {
    let mut sampler = FancySampler::new();
    sampler.next(Measurement::from_milli(0));
    sampler.next(Measurement::from_milli(0));
    assert_eq!(30, sampler.next(Measurement::from_milli(1_000_000)));
    // the reading settles: with no dampening the policy steps right back up
    assert_eq!(60, sampler.next(Measurement::from_milli(1_000_000)));
    for _ in 0..20 {
        assert_eq!(60, sampler.next(Measurement::from_milli(1_000_000)));
    }
}
