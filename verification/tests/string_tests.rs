use hidapi::list::split_entries;
use hidapi::utf16::utf16_units;
use hidapi::wstring::{read_string, u16str_to_wstring, wchar_to_string, WcharString};

fn units(text: &str) -> Vec<u16> {
    text.encode_utf16().collect()
}

#[test]
fn utf16_units_of_plain_text() {
    assert_eq!(utf16_units("MI_"), vec![0x4D, 0x49, 0x5F]);
    assert_eq!(utf16_units(""), Vec::<u16>::new());
}

#[test]
fn utf16_units_of_astral_character() {
    assert_eq!(utf16_units("\u{1F600}"), vec![0xD83D, 0xDE00]);
    assert_eq!(utf16_units("\u{10000}\u{10FFFF}"), vec![0xD800, 0xDC00, 0xDBFF, 0xDFFF]);
    assert_eq!(utf16_units("\u{FFFF}\u{E000}\u{D7FF}"), vec![0xFFFF, 0xE000, 0xD7FF]);
}

#[test]
fn utf16_units_agree_with_std() {
    let text = "USB\\VID_\u{e9}\u{4e2d}\u{1F600}";
    assert_eq!(utf16_units(text), units(text));
}

#[test]
fn split_keeps_empty_entries() {
    let list: Vec<u16> = vec![0x41, 0, 0x42, 0x43, 0, 0];
    assert_eq!(
        split_entries(&list),
        vec![vec![0x41], vec![0x42, 0x43], vec![], vec![]]
    );
}

#[test]
fn split_of_list_without_nul_is_one_entry() {
    assert_eq!(split_entries(&[0x41, 0x42]), vec![vec![0x41, 0x42]]);
    assert_eq!(split_entries(&[]), vec![Vec::<u16>::new()]);
    assert_eq!(split_entries(&[0]), vec![Vec::<u16>::new(), vec![]]);
}

#[test]
fn wstring_of_text() {
    assert_eq!(
        u16str_to_wstring(&units("Logitech")),
        WcharString::String("Logitech".to_string())
    );
    assert_eq!(u16str_to_wstring(&[]), WcharString::String(String::new()));
}

#[test]
fn wstring_decodes_surrogate_pairs() {
    assert_eq!(
        u16str_to_wstring(&[0x41, 0xD83D, 0xDE00]),
        WcharString::String("A\u{1F600}".to_string())
    );
}

#[test]
fn wstring_keeps_nul() {
    assert_eq!(
        u16str_to_wstring(&[0x41, 0]),
        WcharString::String("A\0".to_string())
    );
}

#[test]
fn wstring_keeps_raw_units_that_do_not_decode() {
    assert_eq!(
        u16str_to_wstring(&[0x41, 0xD800, 0x42]),
        WcharString::Raw(vec![0x41, 0xD800, 0x42])
    );
    assert_eq!(u16str_to_wstring(&[0xDC00]), WcharString::Raw(vec![0xDC00]));
    assert_eq!(
        u16str_to_wstring(&[0xDC00, 0xD800]),
        WcharString::Raw(vec![0xDC00, 0xD800])
    );
    assert_eq!(u16str_to_wstring(&[0xD800]), WcharString::Raw(vec![0xD800]));
}

#[test]
fn wchar_string_of_null_is_absent() {
    assert_eq!(wchar_to_string(None), WcharString::Absent);
}

#[test]
fn wchar_string_ends_at_first_nul() {
    let buffer: Vec<u16> = vec![0x48, 0x49, 0, 0x4A, 0];
    assert_eq!(
        wchar_to_string(Some(&buffer)),
        WcharString::String("HI".to_string())
    );
    assert_eq!(
        wchar_to_string(Some(&[0x48, 0x49])),
        WcharString::String("HI".to_string())
    );
    assert_eq!(wchar_to_string(Some(&[0])), WcharString::String(String::new()));
    assert_eq!(wchar_to_string(Some(&[])), WcharString::String(String::new()));
}

#[test]
fn wchar_string_with_surrogate_is_raw() {
    let buffer: Vec<u16> = vec![0x48, 0xD83D, 0xDE00, 0x49, 0, 0x4A];
    assert_eq!(
        wchar_to_string(Some(&buffer)),
        WcharString::Raw(vec![0x48, 0xD83D, 0xDE00, 0x49])
    );
}

#[test]
fn wchar_string_ignores_surrogate_behind_nul() {
    let buffer: Vec<u16> = vec![0x48, 0, 0xD800];
    assert_eq!(
        wchar_to_string(Some(&buffer)),
        WcharString::String("H".to_string())
    );
}

#[test]
fn read_string_takes_first_string_of_buffer() {
    let mut buffer = [0u16; 256];
    for (i, unit) in units("ACME").into_iter().enumerate() {
        buffer[i] = unit;
    }
    assert_eq!(
        read_string(true, &buffer),
        WcharString::String("ACME".to_string())
    );
}

#[test]
fn read_string_of_failed_query_is_empty() {
    let mut buffer = [0u16; 256];
    buffer[0] = 0x41;
    assert_eq!(read_string(false, &buffer), WcharString::String(String::new()));
}

#[test]
fn read_string_keeps_raw_units() {
    let buffer: Vec<u16> = vec![0xD800, 0x41, 0, 0x42];
    assert_eq!(read_string(true, &buffer), WcharString::Raw(vec![0xD800, 0x41]));
}

#[test]
fn blank_strings() {
    assert!(WcharString::Absent.is_blank());
    assert!(WcharString::Raw(vec![0x41]).is_blank());
    assert!(WcharString::String(String::new()).is_blank());
    assert!(!WcharString::String("x".to_string()).is_blank());
    assert!(WcharString::empty().is_blank());
}

#[test]
fn text_of_strings() {
    assert_eq!(
        WcharString::String("x".to_string()).into_text(),
        Some("x".to_string())
    );
    assert_eq!(WcharString::Raw(vec![0x41]).into_text(), None);
    assert_eq!(WcharString::Absent.into_text(), None);
}
