use scils::codec::{decode, encode, DecodeError, HEADER_LEN};
use scils::types::{
    station_id, Brightness, CheckResult, Content, MainAspect, SignalAspect, Telegram,
    CLOSE_REASON_PROTOCOL_ERROR, STATION_ID_LEN,
};

fn telegram_ct(content: Content) -> Telegram {
    Telegram {
        sender: station_id(b"C"),
        receiver: station_id(b"S"),
        content,
    }
}

fn aspect_ct(main: MainAspect, reserved: Vec<u8>) -> SignalAspect {
    SignalAspect { main, reserved }
}

fn round_trip_ct(t: &Telegram) {
    let bytes = encode(t);
    let back = decode(&bytes).expect("canonical encoding must decode");
    assert_eq!(&back, t);
}

#[test]
fn round_trip_version_request() {
    round_trip_ct(&telegram_ct(Content::VersionRequest { version: 3 }));
    round_trip_ct(&telegram_ct(Content::VersionRequest { version: 0 }));
}

#[test]
fn round_trip_version_response() {
    let checksum: Vec<u8> = (0u8..16).collect();
    round_trip_ct(&telegram_ct(Content::VersionResponse {
        result: CheckResult::VersionsMatch,
        version: 3,
        checksum,
    }));
    round_trip_ct(&telegram_ct(Content::VersionResponse {
        result: CheckResult::VersionsMismatch,
        version: 2,
        checksum: Vec::new(),
    }));
}

#[test]
fn round_trip_status_telegrams() {
    round_trip_ct(&telegram_ct(Content::StatusRequest));
    round_trip_ct(&telegram_ct(Content::StatusBegin));
    round_trip_ct(&telegram_ct(Content::StatusFinish));
    round_trip_ct(&telegram_ct(Content::ReleaseForMaintenance));
}

#[test]
fn round_trip_aspect_telegrams() {
    let mains = [
        MainAspect::Hp0,
        MainAspect::Hp0PlusSh1,
        MainAspect::Hp0WithDrivingIndicator,
        MainAspect::Ks1,
        MainAspect::Ks1Flashing,
        MainAspect::Ks1FlashingWithAdditionalLight,
        MainAspect::Ks2,
        MainAspect::Ks2WithAdditionalLight,
        MainAspect::Sh1,
        MainAspect::IdLight,
        MainAspect::Hp0Hv,
        MainAspect::Hp1,
        MainAspect::Hp2,
        MainAspect::Vr0,
        MainAspect::Vr1,
        MainAspect::Vr2,
        MainAspect::Off,
    ];
    for main in mains {
        round_trip_ct(&telegram_ct(Content::ShowSignalAspect {
            aspect: aspect_ct(main, vec![0; 9]),
        }));
        round_trip_ct(&telegram_ct(Content::SignalAspectStatus {
            aspect: aspect_ct(main, vec![9, 8, 7, 6, 5, 4, 3, 2, 1]),
        }));
    }
}

#[test]
fn round_trip_brightness_telegrams() {
    round_trip_ct(&telegram_ct(Content::ChangeBrightness { brightness: Brightness::Day }));
    round_trip_ct(&telegram_ct(Content::ChangeBrightness { brightness: Brightness::Night }));
    round_trip_ct(&telegram_ct(Content::BrightnessStatus { brightness: Brightness::Day }));
    round_trip_ct(&telegram_ct(Content::BrightnessStatus { brightness: Brightness::Night }));
}

#[test]
fn round_trip_close_and_unknown() {
    round_trip_ct(&telegram_ct(Content::Close { reason: CLOSE_REASON_PROTOCOL_ERROR }));
    round_trip_ct(&telegram_ct(Content::Close { reason: 0x7E }));
    round_trip_ct(&telegram_ct(Content::Unknown {
        type_hi: 0x01,
        type_lo: 0x99,
        payload: vec![1, 2, 3],
    }));
    round_trip_ct(&telegram_ct(Content::Unknown {
        type_hi: 0x00,
        type_lo: 0x7F,
        payload: Vec::new(),
    }));
}

#[test]
fn exact_wire_form_of_version_request() {
    let t = telegram_ct(Content::VersionRequest { version: 3 });
    let bytes = encode(&t);
    let mut expected = vec![0x00u8, 0x24];
    expected.push(b'C');
    for _ in 0..19 {
        expected.push(b'_');
    }
    expected.push(b'S');
    for _ in 0..19 {
        expected.push(b'_');
    }
    expected.push(1);
    expected.push(3);
    assert_eq!(bytes, expected);
    assert_eq!(bytes.len(), HEADER_LEN + 1);
}

#[test]
fn exact_wire_form_of_show_signal_aspect() {
    let t = telegram_ct(Content::ShowSignalAspect {
        aspect: aspect_ct(MainAspect::Ks2, vec![0; 9]),
    });
    let bytes = encode(&t);
    assert_eq!(bytes[0], 0x00);
    assert_eq!(bytes[1], 0x01);
    assert_eq!(bytes[42], 10);
    assert_eq!(bytes[43], 0x07);
    assert_eq!(&bytes[44..53], &[0u8; 9]);
}

#[test]
fn decode_rejects_truncated_input() {
    assert_eq!(decode(&Vec::new()), Err(DecodeError::MalformedTelegram));
    assert_eq!(decode(&vec![0u8; HEADER_LEN - 1]), Err(DecodeError::MalformedTelegram));
}

#[test]
fn decode_rejects_wrong_length_byte() {
    let t = telegram_ct(Content::StatusRequest);
    let mut bytes = encode(&t);
    bytes[42] = 5;
    assert_eq!(decode(&bytes), Err(DecodeError::MalformedTelegram));
}

#[test]
fn decode_rejects_payload_on_plain_type() {
    let t = telegram_ct(Content::StatusRequest);
    let mut bytes = encode(&t);
    bytes[42] = 1;
    bytes.push(0);
    assert_eq!(decode(&bytes), Err(DecodeError::MalformedTelegram));
}

#[test]
fn decode_rejects_bad_aspect_code() {
    let t = telegram_ct(Content::ShowSignalAspect {
        aspect: aspect_ct(MainAspect::Ks1, vec![0; 9]),
    });
    let mut bytes = encode(&t);
    bytes[43] = 0x42;
    assert_eq!(decode(&bytes), Err(DecodeError::MalformedTelegram));
}

#[test]
fn decode_rejects_inconsistent_checksum_length() {
    let t = telegram_ct(Content::VersionResponse {
        result: CheckResult::VersionsMatch,
        version: 3,
        checksum: vec![0xAA; 16],
    });
    let mut bytes = encode(&t);
    // the declared checksum length no longer matches the payload length
    bytes[45] = 3;
    assert_eq!(decode(&bytes), Err(DecodeError::MalformedTelegram));
}

#[test]
fn decode_rejects_bad_check_result_code() {
    let t = telegram_ct(Content::VersionResponse {
        result: CheckResult::VersionsMatch,
        version: 3,
        checksum: Vec::new(),
    });
    let mut bytes = encode(&t);
    bytes[43] = 0x09;
    assert_eq!(decode(&bytes), Err(DecodeError::MalformedTelegram));
}

#[test]
fn round_trip_largest_payloads() {
    round_trip_ct(&telegram_ct(Content::VersionResponse {
        result: CheckResult::VersionsMatch,
        version: 3,
        checksum: vec![0xCD; 252],
    }));
    round_trip_ct(&telegram_ct(Content::Unknown {
        type_hi: 0x10,
        type_lo: 0x20,
        payload: vec![0xEF; 255],
    }));
}

#[test]
fn decode_rejects_bad_brightness_code() {
    let t = telegram_ct(Content::ChangeBrightness { brightness: Brightness::Day });
    let mut bytes = encode(&t);
    bytes[43] = 0x55;
    assert_eq!(decode(&bytes), Err(DecodeError::MalformedTelegram));
}

#[test]
fn station_id_pads_to_fixed_width() {
    let id = station_id(b"C");
    assert_eq!(id.len(), STATION_ID_LEN);
    assert_eq!(id[0], b'C');
    for i in 1..STATION_ID_LEN {
        assert_eq!(id[i], b'_');
    }
    let full = station_id(b"ABCDEFGHIJKLMNOPQRST");
    assert_eq!(full, b"ABCDEFGHIJKLMNOPQRST".to_vec());
}
