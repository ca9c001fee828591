use timekeeper::error::FreezeError;
use timekeeper::host::{HostDateTime, HostDuration};
use timekeeper::virtual_time::VirtualTime;

fn at(
    year: i32,
    month: u32,
    day: u32,
    hour: u32,
    minute: u32,
    second: u32,
    microsecond: u32,
) -> HostDateTime {
    HostDateTime { year, month, day, hour, minute, second, microsecond }
}

fn day(year: i32, month: u32, day: u32) -> HostDateTime {
    at(year, month, day, 0, 0, 0, 0)
}

#[test]
fn epoch_is_zero() {
    assert_eq!(day(1970, 1, 1).to_virtual(0), Ok(VirtualTime { nanos: 0 }));
}

#[test]
fn billionth_second() {
    let dt = at(2001, 9, 9, 1, 46, 40, 5);
    assert_eq!(dt.to_virtual(0), Ok(VirtualTime { nanos: 1_000_000_000_000_005_000 }));
}

#[test]
fn offset_east_is_earlier_in_utc() {
    let dt = at(2001, 9, 9, 1, 46, 40, 5);
    assert_eq!(dt.to_virtual(3600), Ok(VirtualTime { nanos: 999_996_400_000_005_000 }));
    assert_eq!(dt.to_virtual(-3600), Ok(VirtualTime { nanos: 1_000_003_600_000_005_000 }));
}

#[test]
fn last_microsecond_before_epoch() {
    let dt = at(1969, 12, 31, 23, 59, 59, 999_999);
    assert_eq!(dt.to_virtual(0), Ok(VirtualTime { nanos: -1_000 }));
}

#[test]
fn leap_day_with_time_of_day() {
    let dt = at(2024, 2, 29, 12, 30, 15, 250_000);
    assert_eq!(dt.to_virtual(0), Ok(VirtualTime { nanos: 1_709_209_815_250_000_000 }));
}

#[test]
fn early_years() {
    assert_eq!(day(1, 1, 1).to_virtual(0), Ok(VirtualTime { nanos: -62_135_596_800_000_000_000 }));
    assert_eq!(day(0, 1, 1).to_virtual(0), Ok(VirtualTime { nanos: -62_167_219_200_000_000_000 }));
    assert_eq!(day(-4, 2, 29).to_virtual(0), Ok(VirtualTime { nanos: -62_288_352_000_000_000_000 }));
    assert_eq!(day(1600, 2, 29).to_virtual(0), Ok(VirtualTime { nanos: -11_670_998_400_000_000_000 }));
    assert_eq!(
        at(-1, 12, 31, 23, 59, 59, 1).to_virtual(0),
        Ok(VirtualTime { nanos: -62_167_219_200_999_999_000 })
    );
}

#[test]
fn ends_of_the_calendar() {
    assert_eq!(
        day(-262_143, 1, 1).to_virtual(0),
        Ok(VirtualTime { nanos: -8_334_601_228_800_000_000_000 })
    );
    assert_eq!(
        at(262_142, 12, 31, 23, 59, 59, 999_999).to_virtual(0),
        Ok(VirtualTime { nanos: 8_210_266_876_799_999_999_000 })
    );
    assert_eq!(day(-262_144, 12, 31).to_virtual(0), Err(FreezeError::InvalidDateTime));
    assert_eq!(day(262_143, 1, 1).to_virtual(0), Err(FreezeError::InvalidDateTime));
    assert_eq!(day(i32::MAX, 1, 1).to_virtual(0), Err(FreezeError::InvalidDateTime));
    assert_eq!(day(i32::MIN, 1, 1).to_virtual(0), Err(FreezeError::InvalidDateTime));
}

#[test]
fn day_31_of_a_30_day_month_is_refused() {
    assert_eq!(day(2023, 4, 31).to_virtual(0), Err(FreezeError::InvalidDateTime));
    assert_eq!(day(2023, 6, 31).to_virtual(0), Err(FreezeError::InvalidDateTime));
    assert_eq!(day(2023, 9, 31).to_virtual(0), Err(FreezeError::InvalidDateTime));
    assert_eq!(day(2023, 11, 31).to_virtual(0), Err(FreezeError::InvalidDateTime));
    assert!(day(2023, 4, 30).to_virtual(0).is_ok());
}

#[test]
fn february_follows_the_leap_rule() {
    assert!(day(2000, 2, 29).to_virtual(0).is_ok());
    assert!(day(2024, 2, 29).to_virtual(0).is_ok());
    assert_eq!(day(1900, 2, 29).to_virtual(0), Err(FreezeError::InvalidDateTime));
    assert_eq!(day(2023, 2, 29).to_virtual(0), Err(FreezeError::InvalidDateTime));
    assert_eq!(day(2024, 2, 30).to_virtual(0), Err(FreezeError::InvalidDateTime));
}

#[test]
fn fields_out_of_range_are_refused() {
    assert_eq!(day(2023, 0, 1).to_virtual(0), Err(FreezeError::InvalidDateTime));
    assert_eq!(day(2023, 13, 1).to_virtual(0), Err(FreezeError::InvalidDateTime));
    assert_eq!(day(2023, 1, 0).to_virtual(0), Err(FreezeError::InvalidDateTime));
    assert_eq!(day(2023, 1, 32).to_virtual(0), Err(FreezeError::InvalidDateTime));
    assert_eq!(at(2023, 1, 1, 24, 0, 0, 0).to_virtual(0), Err(FreezeError::InvalidDateTime));
    assert_eq!(at(2023, 1, 1, 0, 60, 0, 0).to_virtual(0), Err(FreezeError::InvalidDateTime));
    assert_eq!(at(2023, 1, 1, 0, 0, 60, 0).to_virtual(0), Err(FreezeError::InvalidDateTime));
    assert_eq!(
        at(2023, 1, 1, 0, 0, 0, 1_000_000).to_virtual(0),
        Err(FreezeError::InvalidDateTime)
    );
    assert_eq!(
        at(2023, 1, 1, 0, 0, 0, u32::MAX).to_virtual(0),
        Err(FreezeError::InvalidDateTime)
    );
}

#[test]
fn stretched_last_second_is_refused() {
    assert_eq!(
        at(2016, 12, 31, 23, 59, 59, 1_500_000).to_virtual(0),
        Err(FreezeError::InvalidDateTime)
    );
    assert!(at(2016, 12, 31, 23, 59, 59, 999_999).to_virtual(0).is_ok());
}

#[test]
fn read_back_gives_the_fields() {
    let t = VirtualTime { nanos: 1_000_000_000_000_005_000 };
    assert_eq!(HostDateTime::from_virtual(t, 0), Some(at(2001, 9, 9, 1, 46, 40, 5)));
    assert_eq!(HostDateTime::from_virtual(t, 7200), Some(at(2001, 9, 9, 3, 46, 40, 5)));
    assert_eq!(HostDateTime::from_virtual(t, -7200), Some(at(2001, 9, 8, 23, 46, 40, 5)));
}

#[test]
fn read_back_before_the_epoch() {
    let t = VirtualTime { nanos: -1 };
    assert_eq!(HostDateTime::from_virtual(t, 0), Some(at(1969, 12, 31, 23, 59, 59, 999_999)));
    let half = VirtualTime { nanos: -500_000_000 };
    assert_eq!(
        HostDateTime::from_virtual(half, 0),
        Some(at(1969, 12, 31, 23, 59, 59, 500_000))
    );
    let zero = VirtualTime { nanos: 0 };
    assert_eq!(HostDateTime::from_virtual(zero, -1), Some(at(1969, 12, 31, 23, 59, 59, 0)));
}

#[test]
fn read_back_cuts_off_below_a_microsecond() {
    let t = VirtualTime { nanos: 1_000_000_999 };
    assert_eq!(HostDateTime::from_virtual(t, 0), Some(at(1970, 1, 1, 0, 0, 1, 0)));
    let u = VirtualTime { nanos: 1_000_001_000 };
    assert_eq!(HostDateTime::from_virtual(u, 0), Some(at(1970, 1, 1, 0, 0, 1, 1)));
}

#[test]
fn read_back_ends_where_the_calendar_ends() {
    let last = VirtualTime { nanos: 8_210_266_876_799_999_999_999 };
    assert_eq!(
        HostDateTime::from_virtual(last, 0),
        Some(at(262_142, 12, 31, 23, 59, 59, 999_999))
    );
    let past = VirtualTime { nanos: 8_210_266_876_800_000_000_000 };
    assert_eq!(HostDateTime::from_virtual(past, 0), None);
    assert_eq!(
        HostDateTime::from_virtual(past, -1),
        Some(at(262_142, 12, 31, 23, 59, 59, 0))
    );
    let first = VirtualTime { nanos: -8_334_601_228_800_000_000_000 };
    assert_eq!(HostDateTime::from_virtual(first, 0), Some(day(-262_143, 1, 1)));
    let before = VirtualTime { nanos: -8_334_601_228_800_000_000_001 };
    assert_eq!(HostDateTime::from_virtual(before, 0), None);
    assert_eq!(HostDateTime::from_virtual(VirtualTime { nanos: i128::MAX }, 0), None);
    assert_eq!(HostDateTime::from_virtual(VirtualTime { nanos: i128::MIN }, 0), None);
    assert_eq!(HostDateTime::from_virtual(VirtualTime { nanos: i128::MAX }, i32::MAX), None);
    assert_eq!(HostDateTime::from_virtual(VirtualTime { nanos: i128::MIN }, i32::MIN), None);
}

#[test]
fn round_trip_on_one_wall_clock() {
    let samples = [
        at(2001, 9, 9, 1, 46, 40, 5),
        at(1969, 12, 31, 23, 59, 59, 999_999),
        at(2024, 2, 29, 12, 30, 15, 250_000),
        at(1, 1, 1, 0, 0, 0, 0),
        at(0, 12, 31, 23, 59, 59, 1),
        at(-262_143, 1, 1, 0, 0, 0, 0),
        at(262_142, 12, 31, 23, 59, 59, 999_999),
        at(9999, 12, 31, 23, 59, 59, 999_999),
        at(1900, 3, 1, 0, 0, 0, 0),
    ];
    let offsets = [0, 3600, -3600, 19_800, -43_200, 50_400, 86_399, -86_399];
    for dt in samples {
        for offset in offsets {
            let t = dt.to_virtual(offset).unwrap();
            assert_eq!(HostDateTime::from_virtual(t, offset), Some(dt));
        }
    }
}

#[test]
fn round_trip_through_every_month() {
    for year in [1999, 2000, 2100, -1, -400] {
        for month in 1..=12u32 {
            for d in [1u32, 15, 28] {
                let dt = at(year, month, d, 23, 59, 59, 999_999);
                let t = dt.to_virtual(0).unwrap();
                assert_eq!(HostDateTime::from_virtual(t, 0), Some(dt));
            }
        }
    }
}

#[test]
fn consecutive_days_are_a_day_apart() {
    let a = day(2023, 12, 31).to_virtual(0).unwrap();
    let b = day(2024, 1, 1).to_virtual(0).unwrap();
    assert_eq!(b.nanos - a.nanos, 86_400_000_000_000);
    let c = day(2024, 2, 28).to_virtual(0).unwrap();
    let d = day(2024, 3, 1).to_virtual(0).unwrap();
    assert_eq!(d.nanos - c.nanos, 2 * 86_400_000_000_000);
    let e = day(2023, 2, 28).to_virtual(0).unwrap();
    let f = day(2023, 3, 1).to_virtual(0).unwrap();
    assert_eq!(f.nanos - e.nanos, 86_400_000_000_000);
}

#[test]
fn duration_adds_up_its_parts() {
    let d = HostDuration { days: 1, seconds: 1, microseconds: 1 };
    assert_eq!(d.to_virtual(), VirtualTime { nanos: 86_401_000_001_000 });
    let zero = HostDuration { days: 0, seconds: 0, microseconds: 0 };
    assert_eq!(zero.to_virtual(), VirtualTime { nanos: 0 });
}

#[test]
fn duration_takes_negative_parts() {
    let d = HostDuration { days: -1, seconds: 86_399, microseconds: 999_999 };
    assert_eq!(d.to_virtual(), VirtualTime { nanos: -1_000 });
    let e = HostDuration { days: 0, seconds: -2, microseconds: -500_000 };
    assert_eq!(e.to_virtual(), VirtualTime { nanos: -2_500_000_000 });
}

#[test]
fn duration_takes_parts_beyond_their_usual_range() {
    let d = HostDuration { days: 0, seconds: 90_000, microseconds: 2_500_000 };
    assert_eq!(d.to_virtual(), VirtualTime { nanos: 90_002_500_000_000 });
    let big = HostDuration { days: i32::MAX, seconds: i32::MAX, microseconds: i32::MAX };
    assert_eq!(big.to_virtual(), VirtualTime { nanos: 185_544_734_586_594_483_647_000 });
    let small = HostDuration { days: i32::MIN, seconds: i32::MIN, microseconds: i32::MIN };
    assert_eq!(small.to_virtual(), VirtualTime { nanos: -185_544_734_672_995_483_648_000 });
}

#[test]
fn any_offset_is_taken_as_it_is() {
    let dt = at(1970, 1, 1, 0, 0, 0, 0);
    assert_eq!(dt.to_virtual(86_400), Ok(VirtualTime { nanos: -86_400_000_000_000 }));
    assert_eq!(dt.to_virtual(i32::MAX), Ok(VirtualTime { nanos: -2_147_483_647_000_000_000 }));
    assert_eq!(dt.to_virtual(i32::MIN), Ok(VirtualTime { nanos: 2_147_483_648_000_000_000 }));
    let t = dt.to_virtual(i32::MIN).unwrap();
    assert_eq!(HostDateTime::from_virtual(t, i32::MIN), Some(dt));
}
