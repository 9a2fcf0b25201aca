use audio_exporter::trim::{find_end_of_data, stride_for_rate, trim_trailing_padding};

#[test]
fn stride_is_ten_milliseconds_of_samples() {
    assert_eq!(stride_for_rate(16000), 160);
    assert_eq!(stride_for_rate(44100), 441);
    assert_eq!(stride_for_rate(99), 1);
    assert_eq!(stride_for_rate(0), 1);
}

#[test]
fn trim_cuts_at_first_nonzero_probe() {
    // stride 1: the scan stops at the last nonzero byte and keeps it.
    let b = vec![7u8, 8, 9, 0, 0, 0];
    assert_eq!(find_end_of_data(&b, 100), Some(2));
    assert_eq!(trim_trailing_padding(b, 100), vec![7u8, 8, 9]);
}

#[test]
fn trim_with_stride_skips_between_probes() {
    // length 10, stride 3: probes 9, 6, 3; index 5 is never inspected but
    // lies in the window of probe 3, so it is kept.
    let mut b = vec![0u8; 10];
    b[5] = 1;
    b[3] = 4;
    assert_eq!(find_end_of_data(&b, 300), Some(3));
    assert_eq!(trim_trailing_padding(b, 300), vec![0u8, 0, 0, 4, 0, 1]);
}

#[test]
fn trim_all_zero_returns_buffer_unchanged() {
    let b = vec![0u8; 1000];
    assert_eq!(find_end_of_data(&b, 16000), None);
    assert_eq!(trim_trailing_padding(b.clone(), 16000), b);
}

#[test]
fn trim_empty_buffer() {
    let b: Vec<u8> = Vec::new();
    assert_eq!(find_end_of_data(&b, 16000), None);
    assert_eq!(trim_trailing_padding(b, 16000), Vec::<u8>::new());
}

#[test]
fn trim_never_inspects_index_zero() {
    let b = vec![5u8, 0, 0, 0];
    assert_eq!(find_end_of_data(&b, 100), None);
    assert_eq!(trim_trailing_padding(b.clone(), 100), b);
}

#[test]
fn trim_single_nonzero_in_last_window() {
    // length 400, stride 160: index 300 lies in the last window, off the probes.
    let mut b = vec![0u8; 400];
    b[300] = 3;
    let t = trim_trailing_padding(b, 16000);
    assert!(t.len() > 300 && t.len() <= 300 + 160);
}

#[test]
fn trim_is_idempotent_when_prefix_has_no_nonzero_probe() {
    let mut b = vec![0u8; 20];
    b[0] = 1;
    b[10] = 2;
    b[19] = 3;
    let once = trim_trailing_padding(b, 500);
    assert_eq!(once.len(), 20);
    let twice = trim_trailing_padding(once.clone(), 500);
    assert_eq!(twice, once);
}

#[test]
fn trim_second_pass_can_cut_further() {
    // length 10, stride 3: the cut falls at 6 and leaves a zero last byte;
    // the prefix's own probe 2 is nonzero, so a second pass cuts at 5.
    let b = vec![0u8, 0, 1, 1, 0, 0, 0, 0, 0, 0];
    let once = trim_trailing_padding(b, 300);
    assert_eq!(once, vec![0u8, 0, 1, 1, 0, 0]);
    assert_eq!(trim_trailing_padding(once, 300), vec![0u8, 0, 1, 1, 0]);
}

#[test]
fn trim_single_nonzero_at_a_probe() {
    let mut b = vec![0u8; 10];
    b[6] = 1;
    let t = trim_trailing_padding(b, 300);
    assert_eq!(t.len(), 9);
    let mut last = vec![0u8; 10];
    last[9] = 2;
    assert_eq!(trim_trailing_padding(last.clone(), 300), last);
}

#[test]
fn trim_keeps_every_byte_of_data() {
    // Data fills indices 0..=46; stride 10 probes 49, 39 (nonzero).
    let mut b = vec![0u8; 50];
    for (k, x) in b.iter_mut().enumerate().take(47) {
        *x = (k % 7 + 1) as u8;
    }
    let t = trim_trailing_padding(b.clone(), 1000);
    assert_eq!(t.len(), 49);
    assert_eq!(t[..], b[..49]);
}
