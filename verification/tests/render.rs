use helix::render::capture::CaptureSelection;
use helix::render::{
    data_format_from_id, microcode_from_id, surface_extent, DataFormat, Microcode,
    native_aspect, render_actions, render_loop_on, set_aspect_from_size, valid_surface_size,
    Aspect, RenderAction, RenderCommand,
};

const NATIVE_ASPECT: f32 = 4.0 / 3.0;

fn ratio(a: Aspect) -> f32 {
    a.num as f32 / a.den as f32
}

#[test]
fn capture_selection_requires_explicit_valid_serials() {
    assert!(CaptureSelection::parse(None, Some("broken".into())).unwrap().is_none());
    let selection = CaptureSelection::parse(Some("frames".into()), Some("0, 5,19,5".into()))
        .unwrap()
        .unwrap();
    assert_eq!(selection.frames().clone(), vec![0, 5, 19]);
    assert_eq!(selection.directory().as_str(), "frames");
    for frames in [None, Some(""), Some("1,"), Some("-1"), Some("1,abc"), Some("18446744073709551616")] {
        assert!(CaptureSelection::parse(Some("frames".into()), frames.map(str::to_owned)).is_err());
    }
    assert!(CaptureSelection::parse(Some("".into()), Some("0".into())).is_err());
}

#[test]
fn valid_surface_size_rejects_sentinels_and_zeros() {
    assert_eq!(valid_surface_size(1280, 720), Some((1280, 720)));
    assert_eq!(valid_surface_size(0, 720), None, "zero width rejected");
    assert_eq!(valid_surface_size(1280, 0), None, "zero height rejected");
    assert_eq!(valid_surface_size(u32::MAX, 720), None);
    assert_eq!(valid_surface_size(1280, u32::MAX), None);
}

#[test]
fn aspect_expand_clamps_to_native_and_widens() {
    let mut aspect = native_aspect();
    set_aspect_from_size(&mut aspect, 800, 600);
    assert!((ratio(aspect) - NATIVE_ASPECT).abs() < 1e-6, "4:3 stays 4:3");
    set_aspect_from_size(&mut aspect, 1920, 1080);
    assert!((ratio(aspect) - 16.0 / 9.0).abs() < 1e-6, "16:9 widens");
    set_aspect_from_size(&mut aspect, 600, 800);
    assert!((ratio(aspect) - NATIVE_ASPECT).abs() < 1e-6, "portrait never narrower than 4:3");
    set_aspect_from_size(&mut aspect, u32::MAX, u32::MAX);
    assert!((ratio(aspect) - NATIVE_ASPECT).abs() < 1e-6, "winit sentinel -> native, no garbage");
}

#[test]
fn aspect_is_the_exact_window_ratio_when_wide() {
    let mut aspect = native_aspect();
    set_aspect_from_size(&mut aspect, 2560, 1080);
    assert_eq!(aspect, Aspect { num: 2560, den: 1080 });
    set_aspect_from_size(&mut aspect, 0, 1080);
    assert_eq!(aspect, Aspect { num: 4, den: 3 });
}

#[test]
fn render_loop_dispatch_and_done_before_present() {
    let cmds = [RenderCommand::Gfx(0xABC), RenderCommand::Resize(640, 480), RenderCommand::Shutdown];
    let log = render_loop_on(&cmds);
    assert_eq!(
        log,
        vec![
            RenderAction::Consume(0xABC),
            RenderAction::Release,
            RenderAction::Present,
            RenderAction::Resize(640, 480),
            RenderAction::Stop,
        ]
    );
    let release = log.iter().position(|a| *a == RenderAction::Release).unwrap();
    let present = log.iter().position(|a| *a == RenderAction::Present).unwrap();
    assert!(release < present, "done must fire before present");
}

#[test]
fn shutdown_stops_reading_and_a_closed_channel_ends_the_loop() {
    let cmds = [RenderCommand::Shutdown, RenderCommand::Gfx(1)];
    assert_eq!(render_loop_on(&cmds), vec![RenderAction::Stop]);
    let cmds = [RenderCommand::Resize(0, 10), RenderCommand::Gfx(2)];
    assert_eq!(
        render_loop_on(&cmds),
        vec![RenderAction::Consume(2), RenderAction::Release, RenderAction::Present]
    );
    assert_eq!(render_actions(RenderCommand::Resize(u32::MAX, 5)), vec![]);
}

#[test]
fn declared_ids_map_to_microcode_and_data_format_with_drift_fallback() {
    assert_eq!(microcode_from_id(0), (Microcode::F3dex2, false));
    assert_eq!(microcode_from_id(1), (Microcode::F3d, false));
    assert_eq!(microcode_from_id(7), (Microcode::F3dex2, true));
    assert_eq!(data_format_from_id(0), (DataFormat::Fixed, false));
    assert_eq!(data_format_from_id(1), (DataFormat::Float, false));
    assert_eq!(data_format_from_id(2), (DataFormat::Fixed, true));
}

#[test]
fn surface_extent_is_at_least_one_pixel() {
    assert_eq!(surface_extent(1280, 720), (1280, 720));
    assert_eq!(surface_extent(0, 0), (1, 1));
    assert_eq!(surface_extent(0, 5), (1, 5));
}
