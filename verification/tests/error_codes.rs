use samp_sdk::error::AmxError;

const ALL: [(i32, AmxError); 26] = [
    (0, AmxError::NoError),
    (1, AmxError::Exit),
    (2, AmxError::Assert),
    (3, AmxError::StackErr),
    (4, AmxError::Bounds),
    (5, AmxError::MemAccess),
    (6, AmxError::InvInstr),
    (7, AmxError::StackLow),
    (8, AmxError::HeapLow),
    (9, AmxError::Callback),
    (10, AmxError::Native),
    (11, AmxError::Divide),
    (12, AmxError::Sleep),
    (13, AmxError::InvState),
    (16, AmxError::Memory),
    (17, AmxError::Format),
    (18, AmxError::Version),
    (19, AmxError::NotFound),
    (20, AmxError::Index),
    (21, AmxError::Debug),
    (22, AmxError::Init),
    (23, AmxError::UserData),
    (24, AmxError::InitJit),
    (25, AmxError::Params),
    (26, AmxError::Domain),
    (27, AmxError::General),
];

#[test]
fn from_raw_maps_every_defined_code() {
    for (code, err) in ALL {
        assert_eq!(AmxError::from_raw(code), err);
    }
}

#[test]
fn from_raw_maps_unknown_codes_to_general() {
    for code in [14, 15, 28, 100, -1, i32::MIN, i32::MAX] {
        assert_eq!(AmxError::from_raw(code), AmxError::General);
    }
}

#[test]
fn as_raw_gives_the_c_value() {
    for (code, err) in ALL {
        assert_eq!(err.as_raw(), code);
    }
    assert_eq!(AmxError::Memory.as_raw(), 16);
    assert_eq!(AmxError::General.as_raw(), 27);
}

#[test]
fn raw_round_trip_law() {
    for (_, err) in ALL {
        assert_eq!(AmxError::from_raw(err.as_raw()), err);
    }
    for code in -3..40 {
        let back = AmxError::from_raw(code).as_raw();
        let defined = (0..=13).contains(&code) || (16..=27).contains(&code);
        assert_eq!(back == code, defined);
    }
}

#[test]
fn only_no_error_is_ok() {
    for (code, err) in ALL {
        assert_eq!(err.is_ok(), code == 0);
    }
    assert!(AmxError::from_raw(0).is_ok());
    assert!(!AmxError::from_raw(14).is_ok());
}

#[test]
fn messages() {
    assert_eq!(AmxError::NoError.message(), "no error");
    assert_eq!(AmxError::StackErr.message(), "stack/heap collision");
    assert_eq!(AmxError::InitJit.message(), "JIT initialization failed");
    assert_eq!(AmxError::General.message(), "general error");
    assert_eq!(AmxError::MemAccess.to_display_string(), "AMX error: invalid memory access");
    assert_eq!(AmxError::Version.to_display_string(), "AMX error: version mismatch");
}

#[test]
fn display_texts_are_distinct() {
    for (_, a) in ALL {
        for (_, b) in ALL {
            assert_eq!(a == b, a.to_display_string() == b.to_display_string());
        }
    }
}
