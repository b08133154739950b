use fsd_presence::callsigns::CallsignSet;
use fsd_presence::cooldown::CooldownRegistry;
use fsd_presence::geo::LatLonPos;

#[test]
fn distance_test_matches_the_scaled_metric() {
    let origin = LatLonPos::new(0, 0);
    // 0.1 degrees of both latitude and longitude is about 8.8 miles
    let near = LatLonPos::new(100_000, 100_000);
    assert!(origin.within_range_miles(&near, 10));
    assert!(!origin.within_range_miles(&near, 8));
    // 1.0 degree of both is about 88 miles
    let far = LatLonPos::new(1_000_000, 1_000_000);
    assert!(!origin.within_range_miles(&far, 10));
    assert!(origin.within_range_miles(&far, 89));
}

#[test]
fn distance_comparison_is_strict() {
    let origin = LatLonPos::new(0, 0);
    // one degree of latitude only: exactly 69 miles under the scaling
    let north = LatLonPos::new(1_000_000, 0);
    assert!(!origin.within_range_miles(&north, 69));
    assert!(origin.within_range_miles(&north, 70));
}

#[test]
fn distance_is_symmetric_in_sign() {
    let origin = LatLonPos::new(0, 0);
    let south_west = LatLonPos::new(-100_000, -100_000);
    assert!(origin.within_range_miles(&south_west, 10));
    assert!(south_west.within_range_miles(&origin, 10));
}

#[test]
fn cooldown_window_is_sixty_seconds() {
    let mut reg = CooldownRegistry::new();
    let key = String::from("AAL1");
    assert!(reg.may_fire(&key, 0));
    reg.mark(&key, 100);
    assert!(!reg.may_fire(&key, 130));
    assert!(!reg.may_fire(&key, 160));
    assert!(reg.may_fire(&key, 161));
}

#[test]
fn cooldown_mark_overwrites() {
    let mut reg = CooldownRegistry::new();
    let key = String::from("AAL1");
    reg.mark(&key, 100);
    reg.mark(&key, 200);
    assert!(!reg.may_fire(&key, 250));
    assert!(reg.may_fire(&key, 261));
}

#[test]
fn cooldown_keys_are_independent() {
    let mut reg = CooldownRegistry::new();
    reg.mark(&String::from("AAL1"), 100);
    assert!(reg.may_fire(&String::from("DAL2"), 100));
}

#[test]
fn cooldown_clear_forgets_everything() {
    let mut reg = CooldownRegistry::new();
    let key = String::from("AAL1");
    reg.mark(&key, 100);
    reg.clear();
    assert!(reg.may_fire(&key, 101));
}

#[test]
fn callsign_set_insert_and_remove() {
    let mut set = CallsignSet::new();
    assert_eq!(set.len(), 0);
    set.insert(&String::from("AAL1"));
    set.insert(&String::from("DAL2"));
    assert_eq!(set.len(), 2);
    assert!(set.contains(&String::from("AAL1")));
    // inserting a present callsign changes nothing
    set.insert(&String::from("AAL1"));
    assert_eq!(set.len(), 2);
    set.remove(&String::from("AAL1"));
    assert_eq!(set.len(), 1);
    assert!(!set.contains(&String::from("AAL1")));
    // removing an absent callsign changes nothing
    set.remove(&String::from("AAL1"));
    assert_eq!(set.len(), 1);
    set.clear();
    assert_eq!(set.len(), 0);
    assert!(!set.contains(&String::from("DAL2")));
}
