use cube_viewer::camera::Camera;
use cube_viewer::linalg::Mat4Bits;
use cube_viewer::renderer::{
    acquire_decision, frame_protocol, uniform_bytes, AcquireAttempt, AcquireOutcome, FrameDecision,
};
use glam::{Mat4, Quat, Vec3};

#[test]
fn acquire_decision_table() {
    let (first, retry) = (AcquireAttempt::First, AcquireAttempt::Retry);
    let (acquired, lost, outdated, timeout, oom) = (
        AcquireOutcome::Acquired,
        AcquireOutcome::Lost,
        AcquireOutcome::Outdated,
        AcquireOutcome::Timeout,
        AcquireOutcome::OutOfMemory,
    );
    assert_eq!(acquire_decision(first, acquired), FrameDecision::Draw);
    assert_eq!(acquire_decision(retry, acquired), FrameDecision::Draw);
    assert_eq!(acquire_decision(first, lost), FrameDecision::ReconfigureAndRetry);
    assert_eq!(acquire_decision(first, outdated), FrameDecision::ReconfigureAndRetry);
    assert_eq!(acquire_decision(retry, lost), FrameDecision::Skip);
    assert_eq!(acquire_decision(retry, outdated), FrameDecision::Skip);
    assert_eq!(acquire_decision(first, timeout), FrameDecision::Skip);
    assert_eq!(acquire_decision(first, oom), FrameDecision::Skip);
    assert_eq!(acquire_decision(retry, timeout), FrameDecision::Skip);
    assert_eq!(acquire_decision(retry, oom), FrameDecision::Skip);
}

#[test]
fn lost_then_success_reconfigures_once_and_presents() {
    let report = frame_protocol(AcquireOutcome::Lost, AcquireOutcome::Acquired);
    assert_eq!(report.reconfigures, 1);
    assert!(report.presented);

    // The same tick, step by step, as the event loop drives it.
    let d1 = acquire_decision(AcquireAttempt::First, AcquireOutcome::Lost);
    assert_eq!(d1, FrameDecision::ReconfigureAndRetry);
    let d2 = acquire_decision(AcquireAttempt::Retry, AcquireOutcome::Acquired);
    assert_eq!(d2, FrameDecision::Draw);
}

#[test]
fn two_losses_skip_frame_without_terminating() {
    let report = frame_protocol(AcquireOutcome::Lost, AcquireOutcome::Lost);
    assert_eq!(report.reconfigures, 1);
    assert!(!report.presented);

    let report = frame_protocol(AcquireOutcome::Outdated, AcquireOutcome::Outdated);
    assert_eq!(report.reconfigures, 1);
    assert!(!report.presented);
}

#[test]
fn timeout_skips_without_reconfiguring() {
    let report = frame_protocol(AcquireOutcome::Timeout, AcquireOutcome::Acquired);
    assert_eq!(report.reconfigures, 0);
    assert!(!report.presented);
}

#[test]
fn success_presents_without_reconfiguring() {
    let report = frame_protocol(AcquireOutcome::Acquired, AcquireOutcome::Lost);
    assert_eq!(report.reconfigures, 0);
    assert!(report.presented);
}

#[test]
fn uniform_bytes_are_little_endian_column_major() {
    let mut entries = [0u32; 16];
    for (i, e) in entries.iter_mut().enumerate() {
        *e = (i as f32 + 0.25).to_bits();
    }
    let bytes = uniform_bytes(&Mat4Bits { entries });
    assert_eq!(bytes.len(), 64);
    for i in 0..16 {
        assert_eq!(&bytes[4 * i..4 * i + 4], &entries[i].to_le_bytes());
    }
}

#[test]
fn frame_uniform_is_view_proj_of_camera() {
    let camera = Camera::default();
    let bytes = cube_viewer::renderer::frame_uniform(&camera);

    let view = Mat4::from_translation(-Vec3::new(0.0, 0.0, 5.0)) * Mat4::from_quat(Quat::IDENTITY);
    let proj = Mat4::perspective_rh(45.0f32.to_radians(), 1.0, 0.1, 100.0);
    let expected: Vec<u8> = (proj * view)
        .to_cols_array()
        .iter()
        .flat_map(|f| f.to_bits().to_le_bytes())
        .collect();
    assert_eq!(bytes, expected);
}
