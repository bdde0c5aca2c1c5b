use ai_shot_core::capture::{CaptureTarget, CapturedFrame, ScreenCapturer, ScreenInfo};
use ai_shot_core::config::Config;
use ai_shot_core::error::AppError;
use ai_shot_core::geometry::{Point, Rect, Size};
use ai_shot_core::shot::AiShot;
use ai_shot_core::ui::state::SelectionResult;

fn screens() -> Vec<ScreenInfo> {
    vec![
        ScreenInfo { width: 1920, height: 1080, scale: "1".to_string() },
        ScreenInfo { width: 3840, height: 2160, scale: "1.5".to_string() },
    ]
}

#[test]
fn capturer_needs_a_screen() {
    match ScreenCapturer::new(Ok(Vec::new())) {
        Err(AppError::ScreenCapture(m)) => assert_eq!(m, "No screens detected"),
        _ => panic!("an empty list was accepted"),
    }
    match ScreenCapturer::new(Err("no display".to_string())) {
        Err(AppError::ScreenCapture(m)) => assert_eq!(m, "Failed to enumerate screens: no display"),
        _ => panic!("a failed enumeration was accepted"),
    }
    let c = ScreenCapturer::new(Ok(screens())).ok().unwrap();
    assert_eq!(c.screen_count(), 2);
    assert_eq!(c.primary_screen_dimensions(), Some((1920, 1080)));
}

#[test]
fn screens_are_listed_with_index_size_and_scale() {
    let c = ScreenCapturer::new(Ok(screens())).ok().unwrap();
    assert_eq!(
        c.list_screen(),
        vec![
            "Monitor 0: 1920x1080 (scale: 1)".to_string(),
            "Monitor 1: 3840x2160 (scale: 1.5)".to_string(),
        ]
    );
}

#[test]
fn index_must_name_a_screen() {
    let c = ScreenCapturer::new(Ok(screens())).ok().unwrap();
    assert!(c.check_index(0).is_ok());
    assert!(c.check_index(1).is_ok());
    match c.check_index(2) {
        Err(e) => {
            assert!(matches!(e, AppError::ScreenNotFound(2)));
            assert_eq!(e.message(), "Screen not found: index 2");
        }
        Ok(()) => panic!("index 2 was accepted"),
    }
}

#[test]
fn capturer_without_screens_has_no_primary() {
    let c = ScreenCapturer { screens: Vec::new() };
    assert_eq!(c.primary_screen_dimensions(), None);
    assert_eq!(c.screen_count(), 0);
    assert!(c.list_screen().is_empty());
    assert!(matches!(c.check_index(0), Err(AppError::ScreenNotFound(0))));
}

#[test]
fn frame_becomes_an_image_of_its_size() {
    let frame = CapturedFrame { width: 3, height: 2, rgba: vec![9; 24] };
    let img = ScreenCapturer::image_from_capture(CaptureTarget::Screen, Ok(frame)).ok().unwrap();
    assert_eq!((img.width(), img.height()), (3, 2));
    assert_eq!(img.to_rgba8().into_raw(), vec![9; 24]);
    let frame = CapturedFrame { width: 3, height: 2, rgba: vec![0; 30] };
    assert!(ScreenCapturer::image_from_capture(CaptureTarget::Region, Ok(frame)).is_ok());
}

#[test]
fn short_buffer_is_refused() {
    let frame = CapturedFrame { width: 3, height: 2, rgba: vec![0; 23] };
    match ScreenCapturer::image_from_capture(CaptureTarget::Screen, Ok(frame)) {
        Err(AppError::ScreenCapture(m)) => assert_eq!(m, "Failed to create image buffer"),
        _ => panic!("a short buffer was accepted"),
    }
    let frame = CapturedFrame { width: u32::MAX, height: u32::MAX, rgba: Vec::new() };
    assert!(ScreenCapturer::image_from_capture(CaptureTarget::Screen, Ok(frame)).is_err());
}

#[test]
fn failed_capture_is_reported_by_target() {
    match ScreenCapturer::image_from_capture(CaptureTarget::Screen, Err("denied".to_string())) {
        Err(AppError::ScreenCapture(m)) => assert_eq!(m, "Failed to capture screen: denied"),
        _ => panic!("a failed capture gave an image"),
    }
    match ScreenCapturer::image_from_capture(CaptureTarget::Region, Err("denied".to_string())) {
        Err(AppError::ScreenCapture(m)) => assert_eq!(m, "Failed to capture region: denied"),
        _ => panic!("a failed capture gave an image"),
    }
}

#[test]
fn front_door_joins_configuration_and_screens() {
    let shot = AiShot::new(Some("k".to_string()), None, Ok(screens())).ok().unwrap();
    assert_eq!(shot.config().gemini_api_key, "k");
    assert_eq!(shot.config().model_name, "gemini-flash-latest");
    assert_eq!(shot.monitor_count(), 2);
    assert_eq!(shot.list_monitors()[1], "Monitor 1: 3840x2160 (scale: 1.5)");
    let mut shot = AiShot::with_config(Config::with_key("z"), Ok(screens())).ok().unwrap();
    shot.config_mut().model_name = "gemini-2.5-pro".to_string();
    assert_eq!(shot.config().model_name, "gemini-2.5-pro");
    assert_eq!(shot.config().gemini_api_key, "z");
    assert!(matches!(
        AiShot::with_config(Config::with_key("z"), Ok(Vec::new())),
        Err(AppError::ScreenCapture(_))
    ));
    assert!(matches!(AiShot::new(None, None, Err("x".to_string())), Err(AppError::ScreenCapture(_))));
}

#[test]
fn selection_result_needs_area_and_size() {
    let area = Rect { min: Point { x: 1, y: 2 }, max: Point { x: 3, y: 4 } };
    let size = Size { width: 10, height: 10 };
    let full = SelectionResult {
        selected_area: Some(area),
        screen_size: Some(size),
        user_prompt: Some("p".to_string()),
    };
    assert_eq!(full.into_selection(), Some((area, size, Some("p".to_string()))));
    let no_size = SelectionResult { selected_area: Some(area), screen_size: None, user_prompt: None };
    assert_eq!(no_size.into_selection(), None);
    let no_area = SelectionResult { selected_area: None, screen_size: Some(size), user_prompt: None };
    assert_eq!(no_area.into_selection(), None);
    assert_eq!(SelectionResult::default().into_selection(), None);
}
