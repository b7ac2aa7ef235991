use snow_player::frame::{background, Rgba};
use snow_player::surface::{Capabilities, LifecycleError, SurfaceConfig};

fn caps() -> Capabilities {
    Capabilities { formats: vec![4, 9], present_modes: vec![3, 1], alpha_modes: vec![5] }
}

#[test]
fn configure_takes_first_of_each_list() {
    let c = SurfaceConfig::configure(&caps(), 800, 600).unwrap();
    assert_eq!(c, SurfaceConfig { format: 4, width: 800, height: 600, present_mode: 3, alpha_mode: 5 });
}

#[test]
fn configure_rejects_zero_size_and_empty_lists() {
    assert_eq!(SurfaceConfig::configure(&caps(), 0, 600), Err(LifecycleError::ConfigurationRejected));
    assert_eq!(SurfaceConfig::configure(&caps(), 800, 0), Err(LifecycleError::ConfigurationRejected));
    let empty = Capabilities { formats: vec![4], present_modes: vec![], alpha_modes: vec![5] };
    assert_eq!(SurfaceConfig::configure(&empty, 800, 600), Err(LifecycleError::ConfigurationRejected));
    let empty = Capabilities { formats: vec![4], present_modes: vec![3], alpha_modes: vec![] };
    assert_eq!(SurfaceConfig::configure(&empty, 800, 600), Err(LifecycleError::ConfigurationRejected));
}

#[test]
fn configure_accepts_largest_size() {
    let c = SurfaceConfig::configure(&caps(), u32::MAX, u32::MAX).unwrap();
    assert_eq!((c.width, c.height), (u32::MAX, u32::MAX));
}

#[test]
fn reconfigure_with_same_size_is_idempotent() {
    let mut c = SurfaceConfig::configure(&caps(), 320, 240).unwrap();
    let first = c;
    assert!(c.resize(320, 240));
    assert_eq!(c, first);
    assert!(c.resize(320, 240));
    assert_eq!(c, first);
}

#[test]
fn resize_updates_size_only() {
    let mut c = SurfaceConfig::configure(&caps(), 320, 240).unwrap();
    assert!(c.resize(1920, 1080));
    assert_eq!(c, SurfaceConfig { format: 4, width: 1920, height: 1080, present_mode: 3, alpha_mode: 5 });
    assert!(!c.resize(0, 1080));
    assert!(!c.resize(1920, 0));
    assert_eq!((c.width, c.height), (1920, 1080));
}

#[test]
fn background_is_opaque_green() {
    assert_eq!(background(), Rgba { r: 0, g: 255, b: 0, a: 255 });
}
