use pingr::binedit::{replace_string, ReplaceError};

#[test]
fn value_replaces_region_between_markers() {
    let mut binary = b"xx$M::abcdef$M::yy".to_vec();
    let r = replace_string(&mut binary, "$M::", "hi");
    assert_eq!(r, Ok(()));
    // The six bytes between the markers become the value, space-padded.
    assert_eq!(binary, b"xx$M::hi    $M::yy".to_vec());
}

#[test]
fn value_of_full_region_length_needs_no_padding() {
    let mut binary = b"$M::123$M::".to_vec();
    let r = replace_string(&mut binary, "$M::", "abc");
    assert_eq!(r, Ok(()));
    assert_eq!(binary, b"$M::abc$M::".to_vec());
}

#[test]
fn missing_marker_reported() {
    let mut binary = b"nothing here".to_vec();
    let r = replace_string(&mut binary, "$M::", "hi");
    assert_eq!(r, Err(ReplaceError::FirstMarkerNotFound));
    assert_eq!(binary, b"nothing here".to_vec());
}

#[test]
fn single_marker_reported() {
    let mut binary = b"xx$M::tail".to_vec();
    let r = replace_string(&mut binary, "$M::", "hi");
    assert_eq!(r, Err(ReplaceError::SecondMarkerNotFound));
    assert_eq!(binary, b"xx$M::tail".to_vec());
}
