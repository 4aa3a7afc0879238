use river_dreams::datetime::{
    day_ordinal, is_ordinal, month_abbreviation, weekday_abbreviation, DayFraction,
};
use river_dreams::hardware::{
    charge, BatteryReading, Charge, ChargeStatus, PowerState, Usage, UsageStatus,
};

#[test]
fn charge_status_thresholds() {
    assert_eq!(ChargeStatus::from(0), ChargeStatus::Critical);
    assert_eq!(ChargeStatus::from(4), ChargeStatus::Critical);
    assert_eq!(ChargeStatus::from(5), ChargeStatus::Low);
    assert_eq!(ChargeStatus::from(29), ChargeStatus::Low);
    assert_eq!(ChargeStatus::from(30), ChargeStatus::Moderate);
    assert_eq!(ChargeStatus::from(59), ChargeStatus::Moderate);
    assert_eq!(ChargeStatus::from(60), ChargeStatus::High);
    assert_eq!(ChargeStatus::from(100), ChargeStatus::High);
}

#[test]
fn charge_status_reads_the_percentage() {
    let charge_value = Charge {
        percentage: 42,
        is_charging: false,
    };
    assert_eq!(charge_value.status(), ChargeStatus::Moderate);
}

#[test]
fn charge_takes_the_first_readable_battery() {
    assert_eq!(charge(&Vec::new()), None);
    let readings = vec![
        BatteryReading {
            percentage: 80,
            state: PowerState::Charging,
        },
        BatteryReading {
            percentage: 10,
            state: PowerState::Discharging,
        },
    ];
    assert_eq!(
        charge(&readings),
        Some(Charge {
            percentage: 80,
            is_charging: true,
        })
    );
}

#[test]
fn charging_covers_charging_full_and_unknown_states() {
    for (state, expected) in [
        (PowerState::Charging, true),
        (PowerState::Full, true),
        (PowerState::Unknown, true),
        (PowerState::Discharging, false),
        (PowerState::Empty, false),
    ] {
        let readings = vec![BatteryReading {
            percentage: 50,
            state,
        }];
        assert_eq!(charge(&readings).unwrap().is_charging, expected);
    }
}

#[test]
fn usage_status_thresholds() {
    assert_eq!(UsageStatus::from(0), UsageStatus::Low);
    assert_eq!(UsageStatus::from(59), UsageStatus::Low);
    assert_eq!(UsageStatus::from(60), UsageStatus::Moderate);
    assert_eq!(UsageStatus::from(79), UsageStatus::Moderate);
    assert_eq!(UsageStatus::from(80), UsageStatus::High);
    assert_eq!(UsageStatus::from(100), UsageStatus::High);
    assert_eq!(Usage(85).status(), UsageStatus::High);
}

#[test]
fn day_ordinals_follow_the_decade_rule() {
    assert_eq!(day_ordinal(1), "st");
    assert_eq!(day_ordinal(2), "nd");
    assert_eq!(day_ordinal(3), "rd");
    assert_eq!(day_ordinal(4), "th");
    assert_eq!(day_ordinal(10), "th");
    assert_eq!(day_ordinal(11), "st");
    assert_eq!(day_ordinal(12), "nd");
    assert_eq!(day_ordinal(13), "rd");
    assert_eq!(day_ordinal(21), "st");
    assert_eq!(day_ordinal(22), "nd");
    assert_eq!(day_ordinal(23), "rd");
    assert_eq!(day_ordinal(30), "th");
    assert_eq!(day_ordinal(31), "st");
}

#[test]
fn is_ordinal_checks_the_decade() {
    assert!(is_ordinal(21, 1));
    assert!(!is_ordinal(21, 2));
    assert!(is_ordinal(2, 2));
}

#[test]
fn day_fractions_follow_the_hours() {
    assert_eq!(DayFraction::from(0), DayFraction::Dawn);
    assert_eq!(DayFraction::from(5), DayFraction::Dawn);
    assert_eq!(DayFraction::from(6), DayFraction::Morning);
    assert_eq!(DayFraction::from(11), DayFraction::Morning);
    assert_eq!(DayFraction::from(12), DayFraction::Afternoon);
    assert_eq!(DayFraction::from(17), DayFraction::Afternoon);
    assert_eq!(DayFraction::from(18), DayFraction::Night);
    assert_eq!(DayFraction::from(23), DayFraction::Night);
}

#[test]
fn weekday_abbreviations_start_on_monday() {
    let expected = ["Mon", "Tue", "Wed", "Thu", "Fri", "Sat", "Sun"];
    for (index, abbreviation) in expected.iter().enumerate() {
        assert_eq!(weekday_abbreviation(index as u8), *abbreviation);
    }
}

#[test]
fn month_abbreviations_cover_the_year() {
    let expected = [
        "Jan", "Feb", "Mar", "Apr", "May", "Jun", "Jul", "Aug", "Sep", "Oct", "Nov", "Dec",
    ];
    for (index, abbreviation) in expected.iter().enumerate() {
        assert_eq!(month_abbreviation(index as u8 + 1), *abbreviation);
    }
}
