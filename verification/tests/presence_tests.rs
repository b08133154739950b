use fsd_presence::geo::LatLonPos;
use fsd_presence::presence::build_presence;
use fsd_presence::presence::u64_to_dec_string;
use fsd_presence::tracker::AtcPosition;
use fsd_presence::tracker::FacilityCategory;
use fsd_presence::tracker::PilotPosition;
use fsd_presence::tracker::Tracker;

fn atc(callsign: &str, facility: FacilityCategory, range: u32) -> AtcPosition {
    AtcPosition {
        callsign: String::from(callsign),
        pos: LatLonPos::new(0, 0),
        facility,
        vis_range: range,
        rating: String::from("S3"),
        frequency: String::from("124.725"),
    }
}

fn pilot(callsign: &str) -> PilotPosition {
    PilotPosition { callsign: String::from(callsign), pos: LatLonPos::new(0, 0) }
}

#[test]
fn decimal_rendering() {
    assert_eq!(u64_to_dec_string(0).as_str(), "0");
    assert_eq!(u64_to_dec_string(7).as_str(), "7");
    assert_eq!(u64_to_dec_string(10).as_str(), "10");
    assert_eq!(u64_to_dec_string(120034).as_str(), "120034");
    assert_eq!(u64_to_dec_string(u64::MAX).as_str(), "18446744073709551615");
}

#[test]
fn observer_summary() {
    let mut t = Tracker::new(0);
    t.update_atc_position(atc("BOS_OBS", FacilityCategory::Observer, 300), 0);
    t.add_pilot(&pilot("AAL1"));
    t.add_pilot(&pilot("DAL2"));
    t.add_pilot(&pilot("UAL3"));
    t.assigned_squawk(&String::from("AAL1"), 10);
    t.assigned_squawk(&String::from("DAL2"), 10);
    t.pushed_strip(&String::from("UAL3"), 10);
    let s = build_presence(&t);
    assert_eq!(s.details.as_str(), "Seeing 3 aircraft");
    assert_eq!(s.small_tooltip.as_str(), "2 Squawks 1 Strips");
    assert_eq!(s.large_tooltip.as_str(), "S3 124.725");
    assert_eq!(s.title.as_str(), "BOS_OBS");
}

#[test]
fn delivery_ground_and_undefined_report_like_observer() {
    for facility in [
        FacilityCategory::Delivery,
        FacilityCategory::Ground,
        FacilityCategory::Undefined,
    ] {
        let mut t = Tracker::new(0);
        t.update_atc_position(atc("BOS_DEL", facility, 20), 0);
        let s = build_presence(&t);
        assert_eq!(s.details.as_str(), "Seeing 0 aircraft");
        assert_eq!(s.small_tooltip.as_str(), "0 Squawks 0 Strips");
    }
}

#[test]
fn tower_summary_reports_tracking() {
    let mut t = Tracker::new(0);
    t.update_atc_position(atc("BOS_TWR", FacilityCategory::Tower, 40), 0);
    t.add_pilot(&pilot("AAL1"));
    t.add_pilot(&pilot("DAL2"));
    t.begin_track(&String::from("AAL1"));
    t.handoff(&String::from("UAL3"), 10);
    t.handoff(&String::from("UAL4"), 10);
    t.handoff(&String::from("UAL5"), 10);
    t.handoff(&String::from("UAL6"), 10);
    let s = build_presence(&t);
    // four handoffs acquired four tracks beside the one begun directly
    assert_eq!(s.details.as_str(), "Tracking 5/2 aircraft");
    assert_eq!(s.small_tooltip.as_str(), "4 Handoffs");
}

#[test]
fn approach_and_center_report_like_tower() {
    for facility in [FacilityCategory::Approach, FacilityCategory::Center] {
        let mut t = Tracker::new(0);
        t.update_atc_position(atc("BOS_APP", facility, 60), 0);
        let s = build_presence(&t);
        assert_eq!(s.details.as_str(), "Tracking 0/0 aircraft");
        assert_eq!(s.small_tooltip.as_str(), "0 Handoffs");
    }
}

#[test]
fn idle_summary_when_offline() {
    let t = Tracker::new(0);
    let s = build_presence(&t);
    assert_eq!(s.details.as_str(), "Idling");
    assert_eq!(s.title.as_str(), "");
    assert_eq!(s.large_tooltip.as_str(), "");
    assert_eq!(s.small_tooltip.as_str(), "");
}

#[test]
fn idle_summary_when_flying() {
    let mut t = Tracker::new(0);
    t.update_pilot_position(pilot("N123AB"), 0);
    let s = build_presence(&t);
    assert_eq!(s.details.as_str(), "Idling");
    assert_eq!(s.title.as_str(), "");
}

#[test]
fn summary_follows_a_reset() {
    let mut t = Tracker::new(0);
    t.update_atc_position(atc("BOS_OBS", FacilityCategory::Observer, 300), 0);
    t.add_pilot(&pilot("AAL1"));
    t.reset();
    let s = build_presence(&t);
    assert_eq!(s.details.as_str(), "Idling");
}
