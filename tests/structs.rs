use odbc_sys::{
    c_layout, FieldShape,
    native_order, ByteOrder, Date, DaySecond, Guid, IntervalStruct, IntervalUnion, SsTime2,
    SsTimestampOffset, Time, Timestamp, YearMonth,
};

fn sample_timestamp() -> Timestamp {
    Timestamp { year: 2024, month: 1, day: 15, hour: 10, minute: 30, second: 0, fraction: 0 }
}

#[test]
fn timestamp_round_trip_scenario() {
    let t = sample_timestamp();
    for order in [ByteOrder::Little, ByteOrder::Big, native_order()] {
        let bytes = t.to_bytes(order);
        assert_eq!(bytes.len(), Timestamp::SIZE);
        let back = Timestamp::from_bytes(&bytes, order).unwrap();
        assert_eq!(back.year, 2024);
        assert_eq!(back.month, 1);
        assert_eq!(back.day, 15);
        assert_eq!(back.hour, 10);
        assert_eq!(back.minute, 30);
        assert_eq!(back.second, 0);
        assert_eq!(back.fraction, 0);
        assert_eq!(back, t);
    }
}

#[test]
fn timestamp_image_little_endian() {
    let t = Timestamp {
        year: 2024,
        month: 1,
        day: 15,
        hour: 10,
        minute: 30,
        second: 59,
        fraction: 0x0102_0304,
    };
    let bytes = t.to_bytes(ByteOrder::Little);
    assert_eq!(bytes, vec![0xe8, 0x07, 1, 0, 15, 0, 10, 0, 30, 0, 59, 0, 4, 3, 2, 1]);
    let big = t.to_bytes(ByteOrder::Big);
    assert_eq!(big, vec![0x07, 0xe8, 0, 1, 0, 15, 0, 10, 0, 30, 0, 59, 1, 2, 3, 4]);
}

#[test]
fn native_order_matches_machine() {
    let order = native_order();
    let expected = if 1u16.to_ne_bytes()[0] == 1 { ByteOrder::Little } else { ByteOrder::Big };
    assert_eq!(order, expected);
}

#[test]
fn negative_fields_round_trip() {
    let d = Date { year: -44, month: 3, day: 15 };
    let back = Date::from_bytes(&d.to_bytes(ByteOrder::Little), ByteOrder::Little).unwrap();
    assert_eq!(back, d);
    assert_eq!(d.to_bytes(ByteOrder::Little)[..2], [0xd4, 0xff]);
    let o = SsTimestampOffset {
        year: 2024,
        month: 2,
        day: 29,
        hour: 23,
        minute: 59,
        second: 58,
        fraction: 999_999_999,
        timezone_hour: -5,
        timezone_minute: -30,
    };
    for order in [ByteOrder::Little, ByteOrder::Big] {
        let bytes = o.to_bytes(order);
        assert_eq!(bytes.len(), 20);
        assert_eq!(SsTimestampOffset::from_bytes(&bytes, order), Some(o));
    }
}

#[test]
fn all_structures_round_trip() {
    let ym = YearMonth { year: 3, month: 11 };
    let ds = DaySecond { day: 1, hour: 2, minute: 3, second: 4, fraction: 5 };
    let time = Time { hour: 23, minute: 59, second: 59 };
    let guid = Guid { d1: 0xdead_beef, d2: 0x1234, d3: 0xabcd, d4: [1, 2, 3, 4, 5, 6, 7, 8] };
    let t2 = SsTime2 { hour: 12, minute: 0, second: 1, fraction: 500 };
    for order in [ByteOrder::Little, ByteOrder::Big] {
        assert_eq!(YearMonth::from_bytes(&ym.to_bytes(order), order), Some(ym));
        assert_eq!(DaySecond::from_bytes(&ds.to_bytes(order), order), Some(ds));
        assert_eq!(Time::from_bytes(&time.to_bytes(order), order), Some(time));
        assert_eq!(Guid::from_bytes(&guid.to_bytes(order), order), Some(guid));
        assert_eq!(SsTime2::from_bytes(&t2.to_bytes(order), order), Some(t2));
    }
}

#[test]
fn sizes_and_offsets_match_c() {
    assert_eq!(YearMonth::SIZE, 8);
    assert_eq!(DaySecond::SIZE, 20);
    assert_eq!(Date::SIZE, 6);
    assert_eq!(Time::SIZE, 6);
    assert_eq!(Timestamp::SIZE, 16);
    assert_eq!(Guid::SIZE, 16);
    assert_eq!(SsTime2::SIZE, 12);
    assert_eq!(SsTimestampOffset::SIZE, 20);
    assert_eq!(IntervalUnion::SIZE, 20);
    assert_eq!(IntervalStruct::SIZE, 28);
    let t2 = SsTime2 { hour: 1, minute: 2, second: 3, fraction: 4 };
    assert_eq!(t2.to_bytes(ByteOrder::Little), vec![1, 0, 2, 0, 3, 0, 0, 0, 4, 0, 0, 0]);
    let guid = Guid { d1: 1, d2: 2, d3: 3, d4: [9, 9, 9, 9, 9, 9, 9, 7] };
    let bytes = guid.to_bytes(ByteOrder::Big);
    assert_eq!(bytes, vec![0, 0, 0, 1, 0, 2, 0, 3, 9, 9, 9, 9, 9, 9, 9, 7]);
}

#[test]
fn padding_is_ignored_when_reading() {
    let bytes = [1u8, 0, 2, 0, 3, 0, 0xff, 0xff, 4, 0, 0, 0];
    let t2 = SsTime2::from_bytes(&bytes, ByteOrder::Little).unwrap();
    assert_eq!(t2, SsTime2 { hour: 1, minute: 2, second: 3, fraction: 4 });
}

#[test]
fn wrong_length_is_rejected() {
    assert_eq!(Timestamp::from_bytes(&[0u8; 15], ByteOrder::Little), None);
    assert_eq!(Timestamp::from_bytes(&[0u8; 17], ByteOrder::Little), None);
    assert_eq!(Date::from_bytes(&[], ByteOrder::Big), None);
    assert!(IntervalStruct::from_bytes(&[0u8; 27], ByteOrder::Big).is_none());
}

#[test]
fn defaults_are_zero() {
    assert_eq!(YearMonth::default(), YearMonth { year: 0, month: 0 });
    assert_eq!(
        DaySecond::default(),
        DaySecond { day: 0, hour: 0, minute: 0, second: 0, fraction: 0 }
    );
    assert_eq!(Date::default(), Date { year: 0, month: 0, day: 0 });
    assert_eq!(Time::default(), Time { hour: 0, minute: 0, second: 0 });
    assert_eq!(
        Timestamp::default(),
        Timestamp { year: 0, month: 0, day: 0, hour: 0, minute: 0, second: 0, fraction: 0 }
    );
    assert_eq!(Guid::default(), Guid { d1: 0, d2: 0, d3: 0, d4: [0; 8] });
    assert_eq!(SsTime2::default(), SsTime2 { hour: 0, minute: 0, second: 0, fraction: 0 });
    let o = SsTimestampOffset::default();
    assert_eq!(
        (o.year, o.month, o.day, o.hour, o.minute, o.second),
        (0, 0, 0, 0, 0, 0)
    );
    assert_eq!((o.fraction, o.timezone_hour, o.timezone_minute), (0, 0, 0));
    let i = IntervalStruct::default();
    assert_eq!(i.interval_type, 0);
    assert_eq!(i.interval_sign, 0);
    assert_eq!(i.interval_value.bytes, [0u8; 20]);
    for s in [Date::default().to_bytes(ByteOrder::Little), Guid::default().to_bytes(ByteOrder::Big)] {
        assert!(s.iter().all(|b| *b == 0));
    }
}

#[test]
fn interval_union_branches() {
    let ym = YearMonth { year: 2, month: 6 };
    let u = IntervalUnion::from_year_month(ym, ByteOrder::Little);
    assert_eq!(u.year_month(ByteOrder::Little), ym);
    assert_eq!(&u.bytes[8..], &[0u8; 12]);
    let ds = DaySecond { day: 7, hour: 8, minute: 9, second: 10, fraction: 11 };
    let u = IntervalUnion::from_day_second(ds, ByteOrder::Big);
    assert_eq!(u.day_second(ByteOrder::Big), ds);
    // the year-month view of day-second storage reads its first eight bytes
    assert_eq!(u.year_month(ByteOrder::Big), YearMonth { year: 7, month: 8 });
}

#[test]
fn interval_struct_round_trip() {
    let ds = DaySecond { day: 1, hour: 12, minute: 0, second: 30, fraction: 0 };
    let i = IntervalStruct {
        interval_type: 10,
        interval_sign: -1,
        interval_value: IntervalUnion::from_day_second(ds, ByteOrder::Little),
    };
    let bytes = i.to_bytes(ByteOrder::Little);
    assert_eq!(bytes.len(), 28);
    assert_eq!(&bytes[..8], &[10, 0, 0, 0, 0xff, 0xff, 0, 0]);
    let back = IntervalStruct::from_bytes(&bytes, ByteOrder::Little).unwrap();
    assert_eq!(back.interval_type, 10);
    assert_eq!(back.interval_sign, -1);
    assert_eq!(back.interval_value.day_second(ByteOrder::Little), ds);
}

fn check_layout(shapes: Vec<FieldShape>, offsets: &[usize], size: usize) {
    let layout = c_layout(&shapes);
    assert_eq!(layout.offsets, offsets.to_vec());
    assert_eq!(layout.size, size);
}

#[test]
fn c_layout_of_each_structure() {
    check_layout(YearMonth::field_shapes(), &[0, 4], YearMonth::SIZE);
    check_layout(DaySecond::field_shapes(), &[0, 4, 8, 12, 16], DaySecond::SIZE);
    check_layout(Date::field_shapes(), &[0, 2, 4], Date::SIZE);
    check_layout(Time::field_shapes(), &[0, 2, 4], Time::SIZE);
    check_layout(Timestamp::field_shapes(), &[0, 2, 4, 6, 8, 10, 12], Timestamp::SIZE);
    check_layout(Guid::field_shapes(), &[0, 4, 6, 8], Guid::SIZE);
    check_layout(SsTime2::field_shapes(), &[0, 2, 4, 8], SsTime2::SIZE);
    check_layout(
        SsTimestampOffset::field_shapes(),
        &[0, 2, 4, 6, 8, 10, 12, 16, 18],
        SsTimestampOffset::SIZE,
    );
    check_layout(IntervalStruct::field_shapes(), &[0, 4, 8], IntervalStruct::SIZE);
}

#[test]
fn c_layout_pads_and_aligns() {
    let shapes = vec![
        FieldShape { size: 1, align: 1 },
        FieldShape { size: 8, align: 8 },
        FieldShape { size: 2, align: 2 },
    ];
    let layout = c_layout(&shapes);
    assert_eq!(layout.offsets, vec![0, 8, 16]);
    assert_eq!(layout.size, 24);
    assert_eq!(layout.align, 8);
    let empty = c_layout(&Vec::new());
    assert_eq!(empty.offsets, Vec::<usize>::new());
    assert_eq!(empty.size, 0);
    assert_eq!(empty.align, 1);
}
