use samp_sdk::error::AmxError;
use samp_sdk::helpers::{
    decode_c_string, read_string_step, redirect_native_entry, to_c_string, write_string_step, NativeEntry,
    ReadStringAction, ReadStringEvent, WriteStringAction, WriteStringEvent,
};
use samp_sdk::plugin::{natives_to_register, string_function_report};

#[test]
fn read_stops_on_failed_address() {
    let a = read_string_step(ReadStringEvent::AddressResolved { code: 5 });
    assert_eq!(a, ReadStringAction::Finish(Err(AmxError::MemAccess)));
    let b = read_string_step(ReadStringEvent::AddressResolved { code: 0 });
    assert_eq!(b, ReadStringAction::MeasureLength);
}

#[test]
fn read_measures_then_copies() {
    assert_eq!(
        read_string_step(ReadStringEvent::LengthMeasured { code: 0, len: 5 }),
        ReadStringAction::CopyString { size: 6 }
    );
    assert_eq!(
        read_string_step(ReadStringEvent::LengthMeasured { code: 0, len: 0 }),
        ReadStringAction::Finish(Ok(String::new()))
    );
    assert_eq!(
        read_string_step(ReadStringEvent::LengthMeasured { code: 0, len: -3 }),
        ReadStringAction::Finish(Ok(String::new()))
    );
    assert_eq!(
        read_string_step(ReadStringEvent::LengthMeasured { code: 25, len: 5 }),
        ReadStringAction::Finish(Err(AmxError::Params))
    );
}

#[test]
fn read_decodes_the_copy() {
    let buffer = b"hello\0junk".to_vec();
    assert_eq!(
        read_string_step(ReadStringEvent::StringCopied { code: 0, buffer }),
        ReadStringAction::Finish(Ok("hello".to_string()))
    );
    let no_nul = b"abc".to_vec();
    assert_eq!(decode_c_string(no_nul), Ok("abc".to_string()));
    let utf8 = "h\u{e9}llo\0".as_bytes().to_vec();
    assert_eq!(decode_c_string(utf8), Ok("h\u{e9}llo".to_string()));
    assert_eq!(
        read_string_step(ReadStringEvent::StringCopied { code: 0, buffer: vec![0xff, 0x41, 0] }),
        ReadStringAction::Finish(Err(AmxError::General))
    );
    assert_eq!(
        read_string_step(ReadStringEvent::StringCopied { code: 4, buffer: vec![0x41, 0] }),
        ReadStringAction::Finish(Err(AmxError::Bounds))
    );
    assert_eq!(decode_c_string(vec![0, 0x41]), Ok(String::new()));
}

#[test]
fn write_terminates_the_string() {
    assert_eq!(
        write_string_step("Hello", WriteStringEvent::AddressResolved { code: 0 }),
        WriteStringAction::WriteString { bytes: b"Hello\0".to_vec() }
    );
    assert_eq!(
        write_string_step("", WriteStringEvent::AddressResolved { code: 0 }),
        WriteStringAction::WriteString { bytes: vec![0] }
    );
}

#[test]
fn write_refuses_interior_nul_and_reports_errors() {
    assert_eq!(
        write_string_step("a\0b", WriteStringEvent::AddressResolved { code: 0 }),
        WriteStringAction::Finish(Err(AmxError::Params))
    );
    assert_eq!(
        write_string_step("abc", WriteStringEvent::AddressResolved { code: 5 }),
        WriteStringAction::Finish(Err(AmxError::MemAccess))
    );
    assert_eq!(
        write_string_step("abc", WriteStringEvent::StringWritten { code: 0 }),
        WriteStringAction::Finish(Ok(()))
    );
    assert_eq!(
        write_string_step("abc", WriteStringEvent::StringWritten { code: 16 }),
        WriteStringAction::Finish(Err(AmxError::Memory))
    );
}

#[test]
fn written_string_reads_back() {
    for text in ["", "Hello from Pawn!", "gr\u{fc}\u{df}e", "\u{1F600} ok"] {
        match write_string_step(text, WriteStringEvent::AddressResolved { code: 0 }) {
            WriteStringAction::WriteString { mut bytes } => {
                bytes.extend_from_slice(b"trailing garbage");
                assert_eq!(decode_c_string(bytes), Ok(text.to_string()));
            }
            other => panic!("unexpected {:?}", other),
        }
    }
}

fn table() -> Vec<NativeEntry> {
    vec![
        NativeEntry { name: b"SetPlayerPos".to_vec(), address: 0x100 },
        NativeEntry { name: b"GetPlayerName".to_vec(), address: 0x200 },
        NativeEntry { name: b"SetPlayerPos".to_vec(), address: 0x300 },
    ]
}

#[test]
fn redirect_first_matching_native() {
    let mut natives = table();
    assert_eq!(redirect_native_entry(&mut natives, "SetPlayerPos", 0x999), Some((0, 0x100)));
    assert_eq!(natives[0].address, 0x999);
    assert_eq!(natives[1].address, 0x200);
    assert_eq!(natives[2].address, 0x300);
    assert_eq!(redirect_native_entry(&mut natives, "GetPlayerName", 7), Some((1, 0x200)));
    assert_eq!(natives[1].address, 7);
}

#[test]
fn redirect_unknown_native_changes_nothing() {
    let mut natives = table();
    assert_eq!(redirect_native_entry(&mut natives, "Kick", 0x999), None);
    assert_eq!(natives, table());
    assert_eq!(redirect_native_entry(&mut natives, "SetPlayer", 0x999), None);
    assert_eq!(natives, table());
}

#[test]
fn redirect_back_restores_the_table() {
    let mut natives = table();
    let (i, previous) = redirect_native_entry(&mut natives, "GetPlayerName", 0x42).unwrap();
    assert_eq!(redirect_native_entry(&mut natives, "GetPlayerName", previous), Some((i, 0x42)));
    assert_eq!(natives, table());
}

#[test]
fn only_unknown_natives_are_registered() {
    assert_eq!(natives_to_register(&vec![0, 19, 0, 19]), vec![1, 3]);
    assert_eq!(natives_to_register(&vec![19, 19]), vec![0, 1]);
    assert_eq!(natives_to_register(&vec![0, 0]), Vec::<usize>::new());
    assert_eq!(natives_to_register(&vec![]), Vec::<usize>::new());
}

#[test]
fn c_strings_are_terminated_or_refused() {
    assert_eq!(to_c_string("MyPlugin"), Some(b"MyPlugin\0".to_vec()));
    assert_eq!(to_c_string(""), Some(vec![0]));
    assert_eq!(to_c_string("bad\0name"), None);
    assert_eq!(to_c_string("\u{e9}"), Some(vec![0xc3, 0xa9, 0]));
}

#[test]
fn string_function_reports_read_and_failure() {
    assert_eq!(
        string_function_report(Ok("Hello from Pawn!".to_string())),
        ("[MyPlugin] MyStringFunction: \"Hello from Pawn!\"".to_string(), 1)
    );
    assert_eq!(
        string_function_report(Err(AmxError::MemAccess)),
        ("[MyPlugin] Error reading string: AMX error: invalid memory access".to_string(), 0)
    );
}
