use win32ole::error::Error;
use win32ole::util::{
    ary_next_index, isdigit, make_version_str, ole_initialized, to_u16s, ComApartment, ComInitAction, ToWide,
};

#[test]
fn digits() {
    assert!(isdigit('0') && isdigit('7') && isdigit('9'));
    assert!(!isdigit('a') && !isdigit('.') && !isdigit('٣'));
}

#[test]
fn version_strings() {
    assert_eq!(make_version_str("1", "0"), Some("1.0".to_string()));
    assert_eq!(make_version_str("2", ""), Some("2".to_string()));
    assert_eq!(make_version_str("", "5"), None);
    assert_eq!(make_version_str("", ""), None);
}

#[test]
fn wide_strings() {
    assert_eq!("Ab".to_wide(), vec![0x41, 0x62]);
    assert_eq!("Ab".to_wide_null(), vec![0x41, 0x62, 0]);
    assert_eq!("é😀".to_wide(), "é😀".encode_utf16().collect::<Vec<u16>>());
    assert_eq!("😀".to_wide(), vec![0xD83D, 0xDE00]);
    assert_eq!("".to_wide_null(), vec![0]);
}

#[test]
fn platform_strings_reject_nul() {
    assert_eq!(to_u16s("Excel.Application").unwrap().last(), Some(&0));
    assert_eq!(to_u16s("ab").unwrap(), vec![0x61, 0x62, 0]);
    assert!(matches!(to_u16s("a\0b"), Err(Error::Custom(_))));
}

#[test]
fn runtime_initialized_once_per_thread() {
    let mut state = ComApartment { initialized: false };
    assert_eq!(ole_initialized(&mut state, false), ComInitAction::OleInitialize);
    assert!(state.initialized);
    assert_eq!(ole_initialized(&mut state, false), ComInitAction::Nothing);
    let mut nano = ComApartment { initialized: false };
    assert_eq!(ole_initialized(&mut nano, true), ComInitAction::CoInitializeMultithreaded);
    assert_eq!(ole_initialized(&mut nano, true), ComInitAction::Nothing);
}

#[test]
fn safe_array_indices_first_dimension_fastest() {
    let lb = vec![0, 1];
    let ub = vec![1, 2];
    let mut id = lb.clone();
    let mut seen = vec![id.clone()];
    while ary_next_index(&mut id, &lb, &ub) {
        seen.push(id.clone());
    }
    assert_eq!(seen, vec![vec![0, 1], vec![1, 1], vec![0, 2], vec![1, 2]]);
    assert_eq!(id, lb);
    let mut empty: Vec<i32> = vec![];
    assert!(!ary_next_index(&mut empty, &vec![], &vec![]));
}
