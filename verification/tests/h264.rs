use aa_mirror::h264_reader::NalReassembler;

#[test]
fn units_are_closed_by_the_next_start_code() {
    let mut r = NalReassembler::new();
    let nals = r.feed(&[0, 0, 0, 1, 0x67, 1, 2, 0, 0, 0, 1, 0x68, 3]);
    assert_eq!(nals, vec![vec![0, 0, 0, 1, 0x67, 1, 2]]);
    assert_eq!(r.flush(), Some(vec![0, 0, 0, 1, 0x68, 3]));
    assert_eq!(r.flush(), None);
}

#[test]
fn several_units_come_at_once() {
    let mut r = NalReassembler::new();
    let nals = r.feed(&[0, 0, 0, 1, 1, 0, 0, 0, 1, 2, 0, 0, 0, 1, 3, 0, 0, 0, 1]);
    assert_eq!(
        nals,
        vec![vec![0, 0, 0, 1, 1], vec![0, 0, 0, 1, 2], vec![0, 0, 0, 1, 3]]
    );
    assert_eq!(r.flush(), Some(vec![0, 0, 0, 1]));
}

#[test]
fn bytes_before_the_first_start_code_are_a_unit() {
    let mut r = NalReassembler::new();
    assert_eq!(r.feed(&[5, 6, 0, 0, 0, 1, 7]), vec![vec![5, 6]]);
    assert_eq!(r.flush(), Some(vec![0, 0, 0, 1, 7]));
}

#[test]
fn zeros_before_a_start_code_stay_with_the_unit_before() {
    let mut r = NalReassembler::new();
    assert_eq!(r.feed(&[0, 0, 0, 0, 1, 9]), vec![vec![0]]);
    assert_eq!(r.flush(), Some(vec![0, 0, 0, 1, 9]));
}

#[test]
fn where_the_stream_is_cut_does_not_matter() {
    let stream = vec![0, 0, 0, 1, 0x65, 0, 0, 3, 0, 0, 0, 1, 0x41, 9, 0, 0, 0, 1, 0x41];
    let mut whole = NalReassembler::new();
    let expected = whole.feed(&stream);
    let rest = whole.flush();
    for cut in 0..=stream.len() {
        let mut r = NalReassembler::new();
        let mut nals = r.feed(&stream[..cut]);
        nals.append(&mut r.feed(&stream[cut..]));
        assert_eq!(nals, expected);
        assert_eq!(r.flush(), rest);
    }
}

#[test]
fn nothing_is_lost_or_invented() {
    let stream: Vec<u8> = vec![1, 0, 0, 0, 1, 2, 3, 0, 0, 0, 1, 0, 0, 0, 1, 4];
    let mut r = NalReassembler::new();
    let mut all: Vec<u8> = Vec::new();
    for nal in r.feed(&stream) {
        all.extend_from_slice(&nal);
    }
    all.extend_from_slice(&r.flush().unwrap());
    assert_eq!(all, stream);
}

#[test]
fn short_input_waits() {
    let mut r = NalReassembler::new();
    assert!(r.feed(&[]).is_empty());
    assert_eq!(r.flush(), None);
    assert!(r.feed(&[0, 0]).is_empty());
    assert!(r.feed(&[0, 1]).is_empty());
    assert_eq!(r.flush(), Some(vec![0, 0, 0, 1]));
}
