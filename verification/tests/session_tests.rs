use scraen::session::{encode_session, encode_session_available};

#[test]
fn session_frames_bodies_in_order() {
    let bodies: Vec<Vec<u8>> = vec![vec![1, 2], vec![3], vec![4, 5, 6]];
    let session = encode_session(&bodies);
    assert_eq!(session, vec![255, 1, 2, 3, 4, 5, 6, 254]);
}

#[test]
fn empty_session_is_just_sentinels() {
    let bodies: Vec<Vec<u8>> = vec![];
    assert_eq!(encode_session(&bodies), vec![255, 254]);
}

#[test]
fn session_with_empty_body() {
    let bodies: Vec<Vec<u8>> = vec![vec![], vec![7]];
    assert_eq!(encode_session(&bodies), vec![255, 7, 254]);
}

#[test]
fn unavailable_panels_are_skipped_in_framing() {
    let packets: Vec<Option<Vec<u8>>> = vec![Some(vec![1]), None, Some(vec![2, 3])];
    assert_eq!(encode_session_available(&packets), vec![255, 1, 2, 3, 254]);
}

#[test]
fn all_panels_unavailable_still_framed() {
    let packets: Vec<Option<Vec<u8>>> = vec![None, None];
    assert_eq!(encode_session_available(&packets), vec![255, 254]);
}
