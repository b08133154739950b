//! The presence summary: a read-only projection of the tracker's state
//! into four human-readable display strings. It is recomputed on every
//! publish tick and keeps no state of its own.
//!
//! With a controller role, an observer-, delivery-, ground- or
//! undefined-category facility reports how many aircraft are seen and the
//! squawk and strip counts; every other facility reports tracked against
//! seen aircraft and the handoff count. Without a controller role the
//! summary reads "Idling" with the other fields empty.

use crate::tracker::FacilityCategory;
use crate::tracker::Tracker;
use vstd::prelude::*;
use vstd::string::StringExecFns;

verus! {

/// The character for decimal digit `d`.
pub open spec fn digit_char(d: int) -> char {
    if d == 0 {
        '0'
    } else if d == 1 {
        '1'
    } else if d == 2 {
        '2'
    } else if d == 3 {
        '3'
    } else if d == 4 {
        '4'
    } else if d == 5 {
        '5'
    } else if d == 6 {
        '6'
    } else if d == 7 {
        '7'
    } else if d == 8 {
        '8'
    } else {
        '9'
    }
}

/// The decimal digits of `n`, most significant first.
pub open spec fn dec_digits(n: nat) -> Seq<char>
    decreases n,
{
    if n < 10 {
        seq![digit_char(n as int)]
    } else {
        dec_digits(n / 10) + seq![digit_char((n % 10) as int)]
    }
}

/// The one-character string for decimal digit `d`.
fn digit_str(d: u64) -> (r: &'static str)
    requires
        d < 10,
    ensures
        r@ == seq![digit_char(d as int)],
{
    proof {
        reveal_strlit("0");
        reveal_strlit("1");
        reveal_strlit("2");
        reveal_strlit("3");
        reveal_strlit("4");
        reveal_strlit("5");
        reveal_strlit("6");
        reveal_strlit("7");
        reveal_strlit("8");
        reveal_strlit("9");
    }
    let r: &'static str = if d == 0 {
        "0"
    } else if d == 1 {
        "1"
    } else if d == 2 {
        "2"
    } else if d == 3 {
        "3"
    } else if d == 4 {
        "4"
    } else if d == 5 {
        "5"
    } else if d == 6 {
        "6"
    } else if d == 7 {
        "7"
    } else if d == 8 {
        "8"
    } else {
        "9"
    };
    proof {
        assert(r@ =~= seq![digit_char(d as int)]);
    }
    r
}

/// Appends the decimal digits of `n` to `out`.
fn push_dec(out: &mut String, n: u64)
    ensures
        final(out)@ == old(out)@ + dec_digits(n as nat),
    decreases n,
{
    if n >= 10 {
        push_dec(out, n / 10);
        let d = digit_str(n % 10);
        out.append(d);
        proof {
            assert(out@ =~= old(out)@ + dec_digits(n as nat));
        }
    } else {
        let d = digit_str(n);
        out.append(d);
        proof {
            assert(out@ =~= old(out)@ + dec_digits(n as nat));
        }
    }
}

/// The decimal representation of `n`.
pub fn u64_to_dec_string(n: u64) -> (r: String)
    ensures
        r@ == dec_digits(n as nat),
{
    let mut r = String::new();
    push_dec(&mut r, n);
    proof {
        assert(r@ =~= dec_digits(n as nat));
    }
    r
}

/// Facilities whose presence line reports only what is seen: observer,
/// delivery, ground, or an undefined category.
pub open spec fn is_low_facility(f: FacilityCategory) -> bool {
    f == FacilityCategory::Observer || f == FacilityCategory::Delivery || f
        == FacilityCategory::Ground || f == FacilityCategory::Undefined
}

/// The summary's title: the identity while controlling, empty otherwise.
pub open spec fn spec_title(t: Tracker) -> Seq<char> {
    if t.spec_atc() is Some {
        t.spec_callsign()
    } else {
        Seq::<char>::empty()
    }
}

/// The summary's details line.
pub open spec fn spec_details(t: Tracker) -> Seq<char> {
    match t.spec_atc() {
        Some(atc) => if is_low_facility(atc.facility) {
            "Seeing "@ + dec_digits(t.spec_seen().len()) + " aircraft"@
        } else {
            "Tracking "@ + dec_digits(t.spec_tracked().len()) + "/"@ + dec_digits(
                t.spec_seen().len(),
            ) + " aircraft"@
        },
        None => "Idling"@,
    }
}

/// The summary's large tooltip: rating and frequency while controlling.
pub open spec fn spec_large_tooltip(t: Tracker) -> Seq<char> {
    match t.spec_atc() {
        Some(atc) => atc.rating@ + " "@ + atc.frequency@,
        None => Seq::<char>::empty(),
    }
}

/// The summary's small tooltip: the counters fitting the facility.
pub open spec fn spec_small_tooltip(t: Tracker) -> Seq<char> {
    match t.spec_atc() {
        Some(atc) => if is_low_facility(atc.facility) {
            dec_digits(t.spec_squawks() as nat) + " Squawks "@ + dec_digits(
                t.spec_strips() as nat,
            ) + " Strips"@
        } else {
            dec_digits(t.spec_handoffs() as nat) + " Handoffs"@
        },
        None => Seq::<char>::empty(),
    }
}

/// The four display strings published for the current session.
pub struct PresenceSummary {
    pub title: String,
    pub details: String,
    pub large_tooltip: String,
    pub small_tooltip: String,
}

/// Projects the tracker's state into the four presence strings. A pure
/// derivation: the tracker is not changed.
pub fn build_presence(t: &Tracker) -> (s: PresenceSummary)
    requires
        t.wf(),
    ensures
        s.title@ == spec_title(*t),
        s.details@ == spec_details(*t),
        s.large_tooltip@ == spec_large_tooltip(*t),
        s.small_tooltip@ == spec_small_tooltip(*t),
{
    match t.get_atc_position() {
        Some(atc) => {
            let low = match atc.facility {
                FacilityCategory::Observer => true,
                FacilityCategory::Delivery => true,
                FacilityCategory::Ground => true,
                FacilityCategory::Undefined => true,
                _ => false,
            };
            let mut details = String::new();
            let mut small = String::new();
            if low {
                details.append("Seeing ");
                push_dec(&mut details, t.get_number_seen() as u64);
                details.append(" aircraft");
                push_dec(&mut small, t.get_number_squawks() as u64);
                small.append(" Squawks ");
                push_dec(&mut small, t.get_number_strips() as u64);
                small.append(" Strips");
            } else {
                details.append("Tracking ");
                push_dec(&mut details, t.get_number_tracked() as u64);
                details.append("/");
                push_dec(&mut details, t.get_number_seen() as u64);
                details.append(" aircraft");
                push_dec(&mut small, t.get_number_handoffs() as u64);
                small.append(" Handoffs");
            }
            let mut large = String::new();
            large.append(atc.rating.as_str());
            large.append(" ");
            large.append(atc.frequency.as_str());
            let title = t.get_current_callsign().clone();
            proof {
                assert(details@ =~= spec_details(*t));
                assert(small@ =~= spec_small_tooltip(*t));
                assert(large@ =~= spec_large_tooltip(*t));
            }
            PresenceSummary { title, details, large_tooltip: large, small_tooltip: small }
        },
        None => {
            let mut details = String::new();
            details.append("Idling");
            proof {
                assert(details@ =~= "Idling"@);
            }
            PresenceSummary {
                title: String::new(),
                details,
                large_tooltip: String::new(),
                small_tooltip: String::new(),
            }
        },
    }
}

} // verus!
