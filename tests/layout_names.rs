use layout_indicator::layouts::{group_atoms, layout_names, LayoutError};

#[test]
fn atoms_stop_at_first_zero() {
    assert_eq!(group_atoms(&vec![5, 9, 0, 7]), vec![5, 9]);
    assert_eq!(group_atoms(&vec![5, 9, 7]), vec![5, 9, 7]);
    assert_eq!(group_atoms(&vec![0, 3]), Vec::<u32>::new());
    assert_eq!(group_atoms(&vec![]), Vec::<u32>::new());
}

#[test]
fn names_decode_in_order() {
    let raw = vec![b"English (US)".to_vec(), "Русская".as_bytes().to_vec()];
    assert_eq!(
        layout_names(raw),
        Ok(vec!["English (US)".to_string(), "Русская".to_string()])
    );
}

#[test]
fn no_names_fall_back_to_us() {
    assert_eq!(layout_names(vec![]), Ok(vec!["US".to_string()]));
}

#[test]
fn invalid_utf8_is_an_error() {
    let raw = vec![b"ok".to_vec(), vec![0xff, 0xfe], vec![0xc0]];
    assert_eq!(layout_names(raw), Err(LayoutError::NotUtf8 { index: 1 }));
}
