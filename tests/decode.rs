use muse_signals::muse_packet::{
    battery_percent, parse_muse_message_type, parse_muse_packet, route_of_address, IpAddress,
    MuseMessageType, Route, SourceAddr,
};
use muse_signals::wire::{
    get_float_from_args, get_int_from_args, same_text, DecodeError, WireKind, WireMessage,
    WireValue,
};

fn float(v: f32) -> WireValue {
    WireValue::Float(v.to_bits())
}

fn source() -> SourceAddr {
    SourceAddr { ip: IpAddress::V4(0x7f00_0001), port: 5000 }
}

fn message(addr: &str, args: Vec<WireValue>) -> WireMessage {
    WireMessage { addr: addr.to_string(), args }
}

#[test]
fn battery_ratio_of_two_and_hundred() {
    let r = parse_muse_message_type("/muse/batt", &vec![WireValue::Int(2), WireValue::Int(100)]);
    assert_eq!(r.unwrap(), MuseMessageType::Batt { batt: 50 });
}

#[test]
fn battery_rounds_to_nearest() {
    assert_eq!(battery_percent(8, 100), 13);
    assert_eq!(battery_percent(3, 100), 33);
    assert_eq!(battery_percent(3, 101), 34);
    assert_eq!(battery_percent(-8, 100), -13);
    assert_eq!(battery_percent(8, -100), -13);
    assert_eq!(battery_percent(-8, -100), 13);
    assert_eq!(battery_percent(7, 3), 0);
    assert_eq!(battery_percent(2, 1), 1);
}

#[test]
fn battery_zero_divisor_and_saturation() {
    assert_eq!(battery_percent(0, 5), i32::MAX);
    assert_eq!(battery_percent(0, -5), i32::MIN);
    assert_eq!(battery_percent(0, 0), 0);
    assert_eq!(battery_percent(-1, i32::MIN), i32::MAX);
    assert_eq!(battery_percent(1, i32::MIN), i32::MIN);
    assert_eq!(battery_percent(1, i32::MAX), i32::MAX);
}

#[test]
fn blink_flag_decodes() {
    let r = parse_muse_message_type("/muse/elements/blink", &vec![WireValue::Int(1)]);
    assert_eq!(r.unwrap(), MuseMessageType::Blink { blink: true });
    let r = parse_muse_message_type("/muse/elements/blink", &vec![WireValue::Int(0)]);
    assert_eq!(r.unwrap(), MuseMessageType::Blink { blink: false });
    let r = parse_muse_message_type("/muse/elements/blink", &vec![WireValue::Int(-7)]);
    assert_eq!(r.unwrap(), MuseMessageType::Blink { blink: true });
}

#[test]
fn flags_of_forehead_and_jaw_decode() {
    let r = parse_muse_message_type("/muse/elements/touching_forehead", &vec![WireValue::Int(0)]);
    assert_eq!(r.unwrap(), MuseMessageType::TouchingForehead { touch: false });
    let r = parse_muse_message_type("/muse/elements/jaw_clench", &vec![WireValue::Int(1)]);
    assert_eq!(r.unwrap(), MuseMessageType::JawClench { clench: true });
}

#[test]
fn accelerometer_decodes_positionally() {
    let args = vec![float(1.0), float(2.0), float(3.0)];
    let r = parse_muse_message_type("/muse/acc", &args);
    assert_eq!(
        r.unwrap(),
        MuseMessageType::Accelerometer {
            x: 1.0f32.to_bits(),
            y: 2.0f32.to_bits(),
            z: 3.0f32.to_bits()
        }
    );
    let r = parse_muse_message_type("/muse/gyro", &args);
    assert_eq!(
        r.unwrap(),
        MuseMessageType::Gyro { x: 1.0f32.to_bits(), y: 2.0f32.to_bits(), z: 3.0f32.to_bits() }
    );
}

#[test]
fn eeg_reads_four_distinct_positions() {
    let args = vec![float(10.5), float(-20.25), float(30.0), float(40.125)];
    let r = parse_muse_message_type("/muse/eeg", &args);
    assert_eq!(
        r.unwrap(),
        MuseMessageType::Eeg {
            a: 10.5f32.to_bits(),
            b: (-20.25f32).to_bits(),
            c: 30.0f32.to_bits(),
            d: 40.125f32.to_bits()
        }
    );
}

#[test]
fn quad_addresses_decode_to_their_variants() {
    let args = vec![float(1.0), float(2.0), float(3.0), float(4.0)];
    let (a, b, c, d) =
        (1.0f32.to_bits(), 2.0f32.to_bits(), 3.0f32.to_bits(), 4.0f32.to_bits());
    let cases = vec![
        ("/muse/elements/horseshoe", MuseMessageType::Horseshoe { a, b, c, d }),
        ("/muse/elements/alpha_absolute", MuseMessageType::Alpha { a, b, c, d }),
        ("/muse/elements/beta_absolute", MuseMessageType::Beta { a, b, c, d }),
        ("/muse/elements/gamma_absolute", MuseMessageType::Gamma { a, b, c, d }),
        ("/muse/elements/delta_absolute", MuseMessageType::Delta { a, b, c, d }),
        ("/muse/elements/theta_absolute", MuseMessageType::Theta { a, b, c, d }),
    ];
    for (addr, expected) in cases {
        assert_eq!(parse_muse_message_type(addr, &args).unwrap(), expected);
    }
}

#[test]
fn extra_arguments_are_ignored() {
    let args = vec![WireValue::Int(1), WireValue::Other, float(9.0)];
    let r = parse_muse_message_type("/muse/elements/jaw_clench", &args);
    assert_eq!(r.unwrap(), MuseMessageType::JawClench { clench: true });
}

#[test]
fn unknown_address_is_rejected() {
    let r = parse_muse_message_type("/muse/unknown", &vec![WireValue::Int(1), float(2.0)]);
    match r {
        Err(DecodeError::UnknownAddress(a)) => assert_eq!(a, "/muse/unknown"),
        other => panic!("unexpected {:?}", other),
    }
    assert!(matches!(
        parse_muse_message_type("", &vec![]),
        Err(DecodeError::UnknownAddress(_))
    ));
    assert!(matches!(
        parse_muse_message_type("/muse/acc/", &vec![float(1.0), float(2.0), float(3.0)]),
        Err(DecodeError::UnknownAddress(_))
    ));
}

#[test]
fn short_argument_list_is_missing_argument() {
    let r = parse_muse_message_type("/muse/acc", &vec![float(1.0), float(2.0)]);
    assert!(matches!(r, Err(DecodeError::MissingArgument { index: 2 })));
    let r = parse_muse_message_type("/muse/batt", &vec![WireValue::Int(2)]);
    assert!(matches!(r, Err(DecodeError::MissingArgument { index: 1 })));
    let r = parse_muse_message_type("/muse/elements/blink", &vec![]);
    assert!(matches!(r, Err(DecodeError::MissingArgument { index: 0 })));
}

#[test]
fn wrong_wire_type_is_type_mismatch() {
    let r = parse_muse_message_type(
        "/muse/eeg",
        &vec![float(1.0), WireValue::Int(2), float(3.0), float(4.0)],
    );
    assert!(matches!(
        r,
        Err(DecodeError::TypeMismatch { index: 1, expected: WireKind::Float })
    ));
    let r = parse_muse_message_type("/muse/elements/blink", &vec![float(1.0)]);
    assert!(matches!(r, Err(DecodeError::TypeMismatch { index: 0, expected: WireKind::Int })));
    let r = parse_muse_message_type("/muse/batt", &vec![WireValue::Int(2), WireValue::Other]);
    assert!(matches!(r, Err(DecodeError::TypeMismatch { index: 1, expected: WireKind::Int })));
}

#[test]
fn first_bad_position_is_reported() {
    let r = parse_muse_message_type("/muse/gyro", &vec![WireValue::Other, WireValue::Int(3)]);
    assert!(matches!(
        r,
        Err(DecodeError::TypeMismatch { index: 0, expected: WireKind::Float })
    ));
}

#[test]
fn extractors_report_position_and_type() {
    let args = vec![WireValue::Int(7), float(0.5)];
    assert_eq!(get_int_from_args(0, &args).unwrap(), 7);
    assert_eq!(get_float_from_args(1, &args).unwrap(), 0.5f32.to_bits());
    assert!(matches!(
        get_float_from_args(0, &args),
        Err(DecodeError::TypeMismatch { index: 0, expected: WireKind::Float })
    ));
    assert!(matches!(
        get_int_from_args(1, &args),
        Err(DecodeError::TypeMismatch { index: 1, expected: WireKind::Int })
    ));
    assert!(matches!(get_int_from_args(2, &args), Err(DecodeError::MissingArgument { index: 2 })));
}

#[test]
fn routing_table_lookups() {
    assert_eq!(route_of_address("/muse/batt"), Some(Route::Battery));
    assert_eq!(route_of_address("/muse/elements/theta_absolute"), Some(Route::Theta));
    assert_eq!(route_of_address("/muse/Batt"), None);
    assert!(same_text("/muse/eeg", "/muse/eeg"));
    assert!(!same_text("/muse/eeg", "/muse/ee"));
    assert!(same_text("é", "é"));
    assert!(!same_text("é", "e"));
}

#[test]
fn packet_keeps_order_and_drops_failures() {
    let msgs = vec![
        message("/muse/elements/blink", vec![WireValue::Int(1)]),
        message("/muse/unknown", vec![]),
        message("/muse/batt", vec![WireValue::Int(4), WireValue::Int(100)]),
        message("/muse/acc", vec![float(1.0)]),
        message("/muse/elements/jaw_clench", vec![WireValue::Int(0)]),
    ];
    let (events, faults) = parse_muse_packet(source(), 77, &msgs);
    let kinds: Vec<MuseMessageType> = events.iter().map(|e| e.muse_message_type).collect();
    assert_eq!(
        kinds,
        vec![
            MuseMessageType::Blink { blink: true },
            MuseMessageType::Batt { batt: 25 },
            MuseMessageType::JawClench { clench: false },
        ]
    );
    for e in &events {
        assert_eq!(e.ip_address, source());
        assert_eq!(e.time, 77);
    }
    assert_eq!(faults.len(), 2);
    assert!(matches!(&faults[0], DecodeError::UnknownAddress(a) if a == "/muse/unknown"));
    assert!(matches!(faults[1], DecodeError::MissingArgument { index: 1 }));
}

#[test]
fn empty_packet_decodes_to_nothing() {
    let (events, faults) = parse_muse_packet(source(), 0, &vec![]);
    assert!(events.is_empty());
    assert!(faults.is_empty());
}
