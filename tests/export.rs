use audio_exporter::encoder::{prepare_dual, prepare_mono, EncoderOutcome};
use audio_exporter::error::ExportError;
use audio_exporter::export::{
    complete_dual_export, complete_mono_export, mono_export_config, mono_export_request,
    split_stereo_frames, stereo_export_request, stereo_source_config,
    ReceivedTargetSpec,
};

#[test]
fn mono_export_uses_target_rate_and_fixed_parameters() {
    let c = mono_export_config(&ReceivedTargetSpec { sample_rate: 22050 });
    assert_eq!(c.sample_rate_hz, 22050);
    assert_eq!(c.bitrate_kbps, 48);
    assert_eq!(c.quality, 9);
    assert_eq!(c.headroom_bytes, 7200);
}

#[test]
fn stereo_source_export_parameters() {
    let c = stereo_source_config();
    assert_eq!(c.sample_rate_hz, 16000);
    assert_eq!(c.bitrate_kbps, 48);
    assert_eq!(c.quality, 4);
}

#[test]
fn split_stereo_frames_narrows_each_sample() {
    let frames = vec![(1i32, -2i32), (70000, 32767), (-32768, 65535)];
    let (l, r) = split_stereo_frames(&frames);
    assert_eq!(l, vec![1i16, 70000i32 as i16, -32768]);
    assert_eq!(r, vec![-2i16, 32767, -1]);
    let (l0, r0) = split_stereo_frames(&Vec::new());
    assert!(l0.is_empty() && r0.is_empty());
}

#[test]
fn silent_then_tone_round_trip() {
    // One second at 16000 Hz: 8000 silent samples, then 8000 samples of tone.
    let mut samples: Vec<i16> = vec![0; 8000];
    for k in 0..8000 {
        samples.push(if k % 2 == 0 { 1000 } else { -1000 });
    }
    let target = ReceivedTargetSpec { sample_rate: 16000 };
    let job = prepare_mono(samples.len(), &mono_export_config(&target)).unwrap();
    assert_eq!(job.capacity, 23200);
    // The encoder's frames fill a prefix of the buffer; the rest stays zero.
    let written = 3000;
    let mut bytes = vec![0u8; job.capacity];
    for (k, b) in bytes.iter_mut().enumerate().take(written) {
        *b = (k % 251 + 1) as u8;
    }
    let out = complete_mono_export(&job, EncoderOutcome::Wrote(written), bytes.clone()).unwrap();
    assert!(out.len() < job.capacity);
    assert!(out.len() > 0);
    assert_eq!(out[..], bytes[..out.len()]);
    // Probes step by 160 from index 23199; the last one inside the data is
    // 2879, and the cut keeps its whole window.
    assert_eq!(out.len(), 3039);
}

#[test]
fn complete_export_reports_each_failure() {
    let target = ReceivedTargetSpec { sample_rate: 16000 };
    let job = prepare_mono(100, &mono_export_config(&target)).unwrap();
    let silent = complete_mono_export(&job, EncoderOutcome::Wrote(20), vec![0u8; 7300]);
    assert_eq!(silent, Err(ExportError::TrimDegenerate));
    let refused = complete_mono_export(&job, EncoderOutcome::SettingRefused, vec![0u8; 7300]);
    assert_eq!(refused, Err(ExportError::ConfigurationRejected));
    let empty = complete_mono_export(&job, EncoderOutcome::Wrote(0), vec![1u8; 7300]);
    assert_eq!(empty, Err(ExportError::EncodingFailed));
}

#[test]
fn mono_request_passes_samples_as_both_tracks() {
    let samples: Vec<i16> = vec![5, -5, 7];
    let q = mono_export_request(&samples, &ReceivedTargetSpec { sample_rate: 8000 }).unwrap();
    assert_eq!(q.left, samples);
    assert_eq!(q.right, samples);
    assert_eq!(q.job.capacity, 7203);
    assert_eq!(q.job.sample_rate_hz, 8000);
    assert_eq!(q.output, vec![0u8; 7203]);
    let empty = mono_export_request(&Vec::new(), &ReceivedTargetSpec { sample_rate: 8000 });
    assert_eq!(empty.err(), Some(ExportError::EncodingFailed));
    let no_rate = mono_export_request(&samples, &ReceivedTargetSpec { sample_rate: 0 });
    assert_eq!(no_rate.err(), Some(ExportError::ConfigurationRejected));
}

#[test]
fn stereo_request_splits_frames() {
    let frames = vec![(1i32, 2i32), (3, 4)];
    let q = stereo_export_request(&frames).unwrap();
    assert_eq!(q.left, vec![1i16, 3]);
    assert_eq!(q.right, vec![2i16, 4]);
    assert_eq!(q.job.capacity, 3 + 7200);
    assert_eq!(q.job.quality, 4);
    assert_eq!(q.output, vec![0u8; 7203]);
    let none = stereo_export_request(&Vec::new());
    assert_eq!(none.err(), Some(ExportError::EncodingFailed));
}

#[test]
fn dual_job_for_stereo_source() {
    let frames: Vec<(i32, i32)> = (0..400).map(|k| (k, -k)).collect();
    let (l, r) = split_stereo_frames(&frames);
    let job = prepare_dual(l.len(), &stereo_source_config()).unwrap();
    assert_eq!(r.len(), 400);
    assert_eq!(job.capacity, 500 + 7200);
}

#[test]
fn dual_export_returns_whole_buffer() {
    let job = prepare_dual(4, &stereo_source_config()).unwrap();
    assert_eq!(job.capacity, 7205);
    let out = complete_dual_export(&job, EncoderOutcome::Wrote(10), vec![3u8; 7205]).unwrap();
    assert_eq!(out, vec![3u8; 7205]);
    let failed = complete_dual_export(&job, EncoderOutcome::Wrote(0), vec![3u8; 7205]);
    assert_eq!(failed, Err(ExportError::EncodingFailed));
    let refused = complete_dual_export(&job, EncoderOutcome::SettingRefused, vec![0u8; 7205]);
    assert_eq!(refused, Err(ExportError::ConfigurationRejected));
}
