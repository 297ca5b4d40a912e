use wayland_capture::cache::{CaptureCache, CaptureDeviceHandle, CaptureError};
use wayland_capture::classify::{
    classify_folded, common_get_error, contains_str, lex_less, map_err_scrap, str_eq,
    ClassifiedError, SCRAP_OTHER_VERSION_OR_X11_REQUIRED, SCRAP_UBUNTU_HIGHER_REQUIRED,
    SCRAP_X11_REQUIRED,
};
use wayland_capture::log_gate::try_log;
use wayland_capture::topology::{resolution_bounds, snapshot_all, DisplayInfo, DisplayRect};

fn info(x: i32, name: &str) -> DisplayInfo {
    DisplayInfo {
        x,
        y: 0,
        width: 1920,
        height: 1080,
        name: name.to_string(),
        online: true,
        cursor_embedded: false,
    }
}

fn rect(x: i32, y: i32, width: usize, height: usize) -> DisplayRect {
    DisplayRect { origin: (x, y), width, height }
}

fn two_displays() -> (Vec<DisplayRect>, Vec<DisplayInfo>) {
    (
        vec![rect(0, 0, 1920, 1080), rect(1920, 0, 1280, 1024)],
        vec![info(0, "eDP-1"), info(1920, "HDMI-1")],
    )
}

#[test]
fn try_log_first_failure_is_logged() {
    let mut count: u32 = 0;
    assert!(try_log(&mut count));
    assert_eq!(count, 1);
    assert!(!try_log(&mut count));
    assert_eq!(count, 2);
}

#[test]
fn try_log_cadence_and_ceiling() {
    let mut count: u32 = 9_999;
    assert!(!try_log(&mut count));
    assert_eq!(count, 10_000);
    assert!(try_log(&mut count));
    assert_eq!(count, 10_001);
    let mut count: u32 = 1_000_000;
    assert!(!try_log(&mut count));
    assert_eq!(count, 1_000_001);
    let mut count: u32 = 2_000_000;
    assert!(!try_log(&mut count));
    assert_eq!(count, 2_000_001);
    let mut count: u32 = u32::MAX;
    assert!(!try_log(&mut count));
    assert_eq!(count, u32::MAX);
    let mut count: u32 = 990_000;
    assert!(try_log(&mut count));
}

#[test]
fn rate_limit_25000_failures_log_three_lines() {
    let mut count: u32 = 0;
    let mut logged = Vec::new();
    for i in 0..25_000u32 {
        if try_log(&mut count) {
            logged.push(i);
        }
    }
    assert_eq!(logged, vec![0, 10_000, 20_000]);
}

#[test]
fn rate_limit_nothing_logged_past_ceiling() {
    let mut count: u32 = 0;
    let mut logged = 0u32;
    let mut last = 0u32;
    for i in 0..1_000_001u32 {
        if try_log(&mut count) {
            logged += 1;
            last = i;
        }
    }
    assert_eq!(logged, 100);
    assert_eq!(last, 990_000);
    assert_eq!(count, 1_000_001);
    for _ in 0..20_000u32 {
        assert!(!try_log(&mut count));
    }
}

#[test]
fn classifier_old_ubuntu_is_unsupported_without_logging() {
    let mut count: u32 = 0;
    let (e, log) = map_err_scrap("anything".to_string(), "Ubuntu", "20.04", &mut count);
    assert!(matches!(e, ClassifiedError::UnsupportedOsVersion));
    assert!(!log);
    assert_eq!(count, 0);
    assert_eq!(e.message(), SCRAP_UBUNTU_HIGHER_REQUIRED);
}

#[test]
fn classifier_new_ubuntu_keeps_raw_message() {
    let mut count: u32 = 0;
    let (e, log) = map_err_scrap("boom".to_string(), "Ubuntu", "22.04", &mut count);
    match &e {
        ClassifiedError::PlatformCaptureFailure(m) => assert_eq!(m, "boom"),
        other => panic!("unexpected {:?}", other),
    }
    assert!(log);
    assert_eq!(count, 1);
    assert_eq!(e.message(), "boom");
}

#[test]
fn classifier_other_distro_display_stack_failure() {
    let mut count: u32 = 0;
    let (e, log) = map_err_scrap("pipewire timeout".to_string(), "Fedora", "36", &mut count);
    assert!(matches!(e, ClassifiedError::DisplayServerMismatch));
    assert!(log);
    assert_eq!(count, 1);
    assert_eq!(e.message(), SCRAP_OTHER_VERSION_OR_X11_REQUIRED);
    let (e, _) = map_err_scrap("no org.freedesktop.portal here".to_string(), "Fedora", "36", &mut count);
    assert!(matches!(e, ClassifiedError::DisplayServerMismatch));
    let (e, _) = map_err_scrap("dbus closed".to_string(), "Arch", "", &mut count);
    assert!(matches!(e, ClassifiedError::DisplayServerMismatch));
    assert_eq!(count, 3);
}

#[test]
fn classifier_other_distro_missing_prerequisite() {
    let mut count: u32 = 0;
    let (e, log) = map_err_scrap("unknown".to_string(), "Fedora", "36", &mut count);
    assert!(matches!(e, ClassifiedError::MissingDisplayServerPrerequisite));
    assert!(log);
    assert_eq!(e.message(), SCRAP_X11_REQUIRED);
}

#[test]
fn classifier_ignores_case_of_distro_name() {
    let mut count: u32 = 5;
    let (e, _) = map_err_scrap("pipewire".to_string(), "ubuntu", "18.04", &mut count);
    assert!(matches!(e, ClassifiedError::UnsupportedOsVersion));
    assert_eq!(count, 5);
    let (e, _) = map_err_scrap("pipewire".to_string(), "UBUNTU", "21.04", &mut count);
    assert!(matches!(e, ClassifiedError::PlatformCaptureFailure(_)));
    assert_eq!(count, 6);
}

#[test]
fn classifier_compares_versions_as_strings() {
    let mut count: u32 = 0;
    let (e, _) = map_err_scrap("x".to_string(), "Ubuntu", "9.10", &mut count);
    assert!(matches!(e, ClassifiedError::PlatformCaptureFailure(_)));
    let (e, _) = map_err_scrap("x".to_string(), "Ubuntu", "2", &mut count);
    assert!(matches!(e, ClassifiedError::UnsupportedOsVersion));
    let (e, _) = map_err_scrap("x".to_string(), "Ubuntu", "21", &mut count);
    assert!(matches!(e, ClassifiedError::PlatformCaptureFailure(_)));
}

#[test]
fn classify_folded_uses_folded_names() {
    let mut count: u32 = 10_000;
    let (e, log) = classify_folded("UBUNTU", "UBUNTU", "20.10", "dbus".to_string(), &mut count);
    assert!(matches!(e, ClassifiedError::UnsupportedOsVersion));
    assert!(!log);
    let (e, log) = classify_folded("Ubuntu", "UBUNTU", "20.10", "dbus".to_string(), &mut count);
    assert!(matches!(e, ClassifiedError::DisplayServerMismatch));
    assert!(log);
    assert_eq!(count, 10_001);
}

#[test]
fn string_helpers() {
    assert!(contains_str("a pipewire error", "pipewire"));
    assert!(contains_str("abc", ""));
    assert!(!contains_str("pipewir", "pipewire"));
    assert!(!contains_str("dbu s", "dbus"));
    assert!(lex_less("20.04", "21"));
    assert!(lex_less("2", "21"));
    assert!(!lex_less("21", "21"));
    assert!(!lex_less("9", "21"));
    assert!(lex_less("", "a"));
    assert!(str_eq("UBUNTU", "UBUNTU"));
    assert!(!str_eq("UBUNTU", "UBUNTUS"));
    assert!(!str_eq("Ubuntu", "UBUNTU"));
}

#[test]
fn common_error_is_empty() {
    assert_eq!(common_get_error(), "");
}

#[test]
fn degenerate_box_is_not_forwarded() {
    assert!(resolution_bounds(&rect(0, 0, 0, 0)).is_none());
    assert!(resolution_bounds(&rect(0, 0, 1920, 0)).is_none());
    assert!(resolution_bounds(&rect(10, 10, 0, 1080)).is_none());
}

#[test]
fn bounding_box_of_display() {
    let b = resolution_bounds(&rect(0, 0, 1920, 1080)).unwrap();
    assert_eq!((b.minx, b.maxx, b.miny, b.maxy), (0, 1920, 0, 1080));
    let b = resolution_bounds(&rect(-1280, 200, 1280, 1024)).unwrap();
    assert_eq!((b.minx, b.maxx, b.miny, b.maxy), (-1280, 0, 200, 1224));
    assert!(resolution_bounds(&rect(i32::MAX, 0, 1, 1)).is_none());
    assert!(resolution_bounds(&rect(0, 0, usize::MAX, 1)).is_none());
}

#[test]
fn snapshot_copies_descriptors() {
    let (_, displays) = two_displays();
    let copy = snapshot_all(&displays);
    assert_eq!(copy.len(), 2);
    assert_eq!(copy[1].name, "HDMI-1");
    assert_eq!(copy[1].x, 1920);
}

#[test]
fn accessors_fail_before_init() {
    let cache = CaptureCache::new();
    assert!(!cache.is_ready());
    assert!(matches!(cache.get_primary(), Err(CaptureError::CacheNotInitialized)));
    assert!(matches!(cache.get_display_num(), Err(CaptureError::CacheNotInitialized)));
    assert!(matches!(cache.get_displays(), Err(CaptureError::CacheNotInitialized)));
    assert!(matches!(cache.get_capturer(), Err(CaptureError::CacheNotInitialized)));
}

#[test]
fn install_publishes_state_and_bounds() {
    let mut cache = CaptureCache::new();
    let (rects, displays) = two_displays();
    let r = cache.install(rects, displays, 0, 1, Ok(CaptureDeviceHandle { id: 7 }));
    let b = r.unwrap().unwrap();
    assert_eq!((b.minx, b.maxx, b.miny, b.maxy), (1920, 3200, 0, 1024));
    assert!(cache.is_ready());
    assert_eq!(cache.get_primary().unwrap(), 0);
    assert_eq!(cache.get_display_num().unwrap(), 2);
    let (primary, list) = cache.get_displays().unwrap();
    assert_eq!(primary, 0);
    assert_eq!(list.len(), 2);
    assert_eq!(list[0].name, "eDP-1");
    let c = cache.get_capturer().unwrap();
    assert_eq!(c.origin, (1920, 0));
    assert_eq!((c.width, c.height, c.ndisplay, c.current), (1280, 1024, 2, 1));
    assert_eq!(c.privacy_mode_id, 0);
    assert_eq!(c.capturer, CaptureDeviceHandle { id: 7 });
}

#[test]
fn install_degenerate_display_forwards_nothing() {
    let mut cache = CaptureCache::new();
    let r = cache.install(vec![rect(0, 0, 0, 0)], vec![info(0, "virtual")], 0, 0, Ok(CaptureDeviceHandle { id: 1 }));
    assert!(r.unwrap().is_none());
    assert!(cache.is_ready());
}

#[test]
fn second_install_keeps_first_build() {
    let mut cache = CaptureCache::new();
    let (rects, displays) = two_displays();
    cache.install(rects, displays, 1, 0, Ok(CaptureDeviceHandle { id: 1 })).unwrap();
    let r = cache.install(vec![rect(0, 0, 800, 600)], vec![info(0, "other")], 0, 0, Ok(CaptureDeviceHandle { id: 2 }));
    assert!(r.unwrap().is_none());
    assert_eq!(cache.get_primary().unwrap(), 1);
    assert_eq!(cache.get_display_num().unwrap(), 2);
    assert_eq!(cache.get_capturer().unwrap().capturer.id, 1);
}

#[test]
fn failed_construction_leaves_cache_absent() {
    let mut cache = CaptureCache::new();
    let (rects, displays) = two_displays();
    let r = cache.install(rects, displays, 0, 0, Err(ClassifiedError::MissingDisplayServerPrerequisite));
    assert!(matches!(
        r,
        Err(CaptureError::DeviceConstructionFailed(ClassifiedError::MissingDisplayServerPrerequisite))
    ));
    assert!(!cache.is_ready());
    assert!(matches!(cache.get_primary(), Err(CaptureError::CacheNotInitialized)));
}

#[test]
fn teardown_resets_cache() {
    let mut cache = CaptureCache::new();
    assert!(cache.clear().is_none());
    let (rects, displays) = two_displays();
    cache.install(rects, displays, 0, 0, Ok(CaptureDeviceHandle { id: 3 })).unwrap();
    assert_eq!(cache.clear(), Some(CaptureDeviceHandle { id: 3 }));
    assert!(!cache.is_ready());
    assert!(matches!(cache.get_primary(), Err(CaptureError::CacheNotInitialized)));
    let r = cache.install(vec![rect(0, 0, 800, 600)], vec![info(0, "new")], 0, 0, Ok(CaptureDeviceHandle { id: 4 }));
    assert!(r.unwrap().is_some());
    assert_eq!(cache.get_display_num().unwrap(), 1);
    assert_eq!(cache.get_capturer().unwrap().capturer.id, 4);
}

#[test]
fn handles_alias_one_device() {
    let mut cache = CaptureCache::new();
    let (rects, displays) = two_displays();
    cache.install(rects, displays, 0, 0, Ok(CaptureDeviceHandle { id: 9 })).unwrap();
    let a = cache.get_capturer().unwrap().capturer;
    let b = cache.get_capturer().unwrap().capturer;
    assert_eq!(a, b);
    let c = a.share();
    assert_eq!(c, a);
    assert_eq!(c.id, 9);
}
