use canalhas_manager::system::{InterfaceReading, NetworkMeter};

fn reading(name: &str, received: u64, transmitted: u64) -> InterfaceReading {
    InterfaceReading { name: name.to_string(), received, transmitted }
}

#[test]
fn first_look_measures_nothing() {
    let mut meter = NetworkMeter::new();
    assert_eq!(meter.measure(&vec![reading("eth0", 1000, 500), reading("lo", 7, 7)]), Some((0, 0)));
    assert_eq!(meter.previous.get("eth0"), Some(&(1000, 500)));
    assert_eq!(meter.previous.get("lo"), Some(&(7, 7)));
}

#[test]
fn later_looks_sum_the_growth_of_known_interfaces() {
    let mut meter = NetworkMeter::new();
    meter.measure(&vec![reading("eth0", 1000, 500), reading("lo", 7, 7)]);
    let got = meter.measure(&vec![reading("eth0", 1600, 520), reading("lo", 10, 9), reading("wlan0", 99, 99)]);
    assert_eq!(got, Some((603, 22)));
    assert_eq!(meter.measure(&vec![reading("wlan0", 100, 99)]), Some((1, 0)));
    assert_eq!(meter.measure(&Vec::new()), Some((0, 0)));
}

#[test]
fn counter_that_went_back_counts_as_no_growth() {
    let mut meter = NetworkMeter::new();
    meter.measure(&vec![reading("eth0", 1000, 500)]);
    assert_eq!(meter.measure(&vec![reading("eth0", 10, 600)]), Some((0, 100)));
    assert_eq!(meter.previous.get("eth0"), Some(&(10, 600)));
}

#[test]
fn sum_beyond_the_largest_number_is_not_returned() {
    let mut meter = NetworkMeter::new();
    meter.measure(&vec![reading("a", 0, 0), reading("b", 0, 0)]);
    let got = meter.measure(&vec![reading("a", u64::MAX, 1), reading("b", 1, u64::MAX - 1)]);
    assert_eq!(got, None);
    assert_eq!(meter.previous.get("a"), Some(&(u64::MAX, 1)));
    assert_eq!(meter.previous.get("b"), Some(&(1, u64::MAX - 1)));
    let mut meter = NetworkMeter::new();
    meter.measure(&vec![reading("a", 0, 0), reading("b", 0, 0)]);
    let got = meter.measure(&vec![reading("a", u64::MAX - 1, 1), reading("b", 1, u64::MAX - 1)]);
    assert_eq!(got, Some((u64::MAX, u64::MAX)));
}
