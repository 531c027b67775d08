use md2png::viewport::{
    measured_height, ViewportSpec, DEVICE_SCALE, LOGICAL_WIDTH, PROBE_HEIGHT,
};

#[test]
fn probe_viewport() {
    assert_eq!(LOGICAL_WIDTH, 375);
    assert_eq!(PROBE_HEIGHT, 800);
    assert_eq!(DEVICE_SCALE, 4);
    assert_eq!(
        ViewportSpec::probe(),
        ViewportSpec { width: 375, height: 800, device_scale: 4, mobile: true }
    );
}

#[test]
fn fitted_viewport_changes_only_the_height() {
    let probe = ViewportSpec::probe();
    for height in [0, 1, 120, 800, 12345, u32::MAX] {
        let fitted = ViewportSpec::fitted(height);
        assert_eq!(fitted.height, height);
        assert_eq!(fitted.width, probe.width);
        assert_eq!(fitted.device_scale, probe.device_scale);
        assert_eq!(fitted.mobile, probe.mobile);
    }
}

#[test]
fn height_falls_back_to_the_probe() {
    assert_eq!(measured_height(Some(120)), 120);
    assert_eq!(measured_height(Some(0)), 0);
    assert_eq!(measured_height(Some(u32::MAX)), u32::MAX);
    assert_eq!(measured_height(None), 800);
}
