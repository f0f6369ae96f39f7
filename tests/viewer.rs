use ivrz::images::{Content, IVImages, Img, ImgSource, RawImage, Shown, ViewInput};
use ivrz::ivapp::{IVApp, PasteAction, PasteEvent};
use ivrz::view::{Rect, Vec2, ZOOM_MAX, ZOOM_UNIT};

fn paths(names: &[&str]) -> Vec<String> {
    names.iter().map(|s| s.to_string()).collect()
}

fn path_of(images: &IVImages, i: usize) -> String {
    match &images.images_sources[i].source {
        ImgSource::Path(p) => p.clone(),
        _ => panic!("not a path entry"),
    }
}

fn vp() -> Rect {
    Rect { center: Vec2 { x: 360_000, y: 240_000 }, size: Vec2 { x: 720_000, y: 480_000 } }
}

fn idle() -> ViewInput {
    ViewInput { prev: false, next: false, reset: false, zoom_delta: ZOOM_UNIT }
}

fn next() -> ViewInput {
    ViewInput { next: true, ..idle() }
}

fn prev() -> ViewInput {
    ViewInput { prev: true, ..idle() }
}

#[test]
fn discovery_keeps_only_recognized_images() {
    let images = IVImages::new(paths(&["dir/a.png", "dir/b.txt", "dir/c.jpg", "dir/d"]));
    assert_eq!(images.images_sources.len(), 2);
    assert_eq!(path_of(&images, 0), "dir/a.png");
    assert_eq!(path_of(&images, 1), "dir/c.jpg");
    assert_eq!(images.images_sources[0].fmt, image::ImageFormat::Png);
    assert_eq!(images.images_sources[1].fmt, image::ImageFormat::Jpeg);
    assert!(matches!(images.images_sources[0].content, Content::Unread));
}

#[test]
fn extension_case_is_ignored() {
    let images = IVImages::new(paths(&["shot.PNG", "photo.JpEg", "noext"]));
    assert_eq!(images.images_sources.len(), 2);
    assert_eq!(images.images_sources[1].fmt, image::ImageFormat::Jpeg);
}

#[test]
fn drop_appends_recognized_paths_in_order() {
    let mut images = IVImages::new(paths(&["a.png"]));
    images.extend_from_dropfile(vec![
        Some("b.gif".to_string()),
        None,
        Some("notes.txt".to_string()),
        Some("c.bmp".to_string()),
    ]);
    assert_eq!(images.images_sources.len(), 3);
    assert_eq!(path_of(&images, 0), "a.png");
    assert_eq!(path_of(&images, 1), "b.gif");
    assert_eq!(path_of(&images, 2), "c.bmp");
}

#[test]
fn three_images_next_saturates_at_last() {
    let mut images = IVImages::new(paths(&["d/1.png", "d/2.jpg", "d/3.bmp"]));
    assert_eq!(images.images_sources.len(), 3);
    assert_eq!(images.showed_idx, 0);
    images.set_next();
    images.set_next();
    assert_eq!(images.showed_idx, 2);
    images.set_next();
    assert_eq!(images.showed_idx, 2);
}

#[test]
fn prev_at_first_stays() {
    let mut images = IVImages::new(paths(&["1.png", "2.png"]));
    images.set_prev();
    assert_eq!(images.showed_idx, 0);
    images.draw(next(), vp(), None);
    assert_eq!(images.showed_idx, 1);
    images.draw(prev(), vp(), None);
    images.draw(prev(), vp(), None);
    assert_eq!(images.showed_idx, 0);
}

#[test]
fn navigation_on_empty_registry_is_a_no_op() {
    let mut images = IVImages::new(vec![]);
    images.set_next();
    images.set_prev();
    assert_eq!(images.showed_idx, 0);
    assert_eq!(images.current_shown(), Shown::Nothing);
    assert_eq!(images.pending_read(), None);
}

#[test]
fn navigation_stays_in_bounds_over_a_long_run() {
    let mut images = IVImages::new(paths(&["1.png", "2.png", "3.png", "4.png"]));
    let moves = [true, true, false, true, true, true, true, false, false, false, false, false, true];
    for m in moves {
        if m {
            images.set_next();
        } else {
            images.set_prev();
        }
        assert!(images.showed_idx < 4);
    }
    assert_eq!(images.showed_idx, 1);
}

#[test]
fn zoom_gestures_step_by_a_tenth_of_the_factor() {
    let mut images = IVImages::new(paths(&["1.png"]));
    images.draw(ViewInput { zoom_delta: 1100, ..idle() }, vp(), None);
    assert_eq!(images.zoom, Vec2 { x: 1110, y: 1110 });
    images.draw(ViewInput { zoom_delta: 900, ..idle() }, vp(), None);
    assert_eq!(images.zoom, Vec2 { x: 1020, y: 1020 });
    images.draw(ViewInput { zoom_delta: 1000, ..idle() }, vp(), None);
    assert_eq!(images.zoom, Vec2 { x: 1020, y: 1020 });
}

#[test]
fn zoom_is_clamped() {
    let mut images = IVImages::new(paths(&["1.png"]));
    images.draw(ViewInput { zoom_delta: 10_000_000, ..idle() }, vp(), None);
    assert_eq!(images.zoom.x, ZOOM_MAX);
    for _ in 0..600 {
        images.draw(ViewInput { zoom_delta: 999, ..idle() }, vp(), None);
    }
    assert_eq!(images.zoom.x, ivrz::view::ZOOM_MIN);
}

#[test]
fn reset_wins_over_zoom_and_clears_pan() {
    let mut images = IVImages::new(paths(&["1.png"]));
    images.record_read(Some(vec![1]));
    images.draw(ViewInput { zoom_delta: 1500, ..idle() }, vp(), Some(Vec2 { x: 3_000, y: -4_000 }));
    assert_eq!(images.zoom, Vec2 { x: 1150, y: 1150 });
    assert_eq!(images.drag, Vec2 { x: 3_000, y: -4_000 });
    images.draw(ViewInput { reset: true, zoom_delta: 1500, ..idle() }, vp(), None);
    assert_eq!(images.zoom, Vec2 { x: ZOOM_UNIT, y: ZOOM_UNIT });
    assert_eq!(images.drag, Vec2 { x: 0, y: 0 });
    assert_eq!(images.rect.center, Vec2 { x: 360_000, y: 240_000 });
}

#[test]
fn layout_scales_and_centers_with_pan() {
    let mut images = IVImages::new(paths(&["1.png"]));
    images.draw(ViewInput { zoom_delta: 1100, ..idle() }, vp(), Some(Vec2 { x: 7, y: 7 }));
    // Nothing to draw before the file is read: pan and rectangle stay.
    assert_eq!(images.drag, Vec2 { x: 0, y: 0 });
    assert_eq!(images.rect, Rect { center: Vec2 { x: 0, y: 0 }, size: Vec2 { x: 0, y: 0 } });
    let size = images.target_size(Vec2 { x: 720_000, y: 480_000 });
    assert_eq!(size, Vec2 { x: 799_200, y: 532_800 });
    images.record_read(Some(vec![1]));
    images.draw(idle(), vp(), Some(Vec2 { x: 1_500, y: 2_500 }));
    assert_eq!(images.rect, Rect { center: Vec2 { x: 361_500, y: 242_500 }, size: Vec2 { x: 799_200, y: 532_800 } });
    let r = images.fit(Vec2 { x: 50_000, y: 40_000 });
    assert_eq!(r, Rect { center: Vec2 { x: 361_500, y: 242_500 }, size: Vec2 { x: 50_000, y: 40_000 } });
    assert_eq!(images.rect, r);
    images.draw(idle(), vp(), Some(Vec2 { x: -500, y: 0 }));
    assert_eq!(images.drag, Vec2 { x: 1_000, y: 2_500 });
    assert_eq!(images.rect.center, Vec2 { x: 361_000, y: 242_500 });
    images.set_size(Vec2 { x: 100_000, y: 100_000 });
    assert_eq!(images.target_size(Vec2 { x: 720_000, y: 480_000 }), Vec2 { x: 111_000, y: 111_000 });
}

#[test]
fn read_failure_is_kept_and_other_entries_unaffected() {
    let mut images = IVImages::new(paths(&["a.png", "b.png"]));
    assert_eq!(images.current_shown(), Shown::Loading);
    assert_eq!(images.pending_read(), Some("a.png".to_string()));
    images.record_read(None);
    assert_eq!(images.current_shown(), Shown::Failed);
    assert_eq!(images.pending_read(), None);
    // A later outcome for the same entry is ignored: it is never read again.
    images.record_read(Some(vec![1, 2, 3]));
    assert_eq!(images.current_shown(), Shown::Failed);
    images.set_next();
    assert_eq!(images.current_shown(), Shown::Loading);
    assert_eq!(images.pending_read(), Some("b.png".to_string()));
    images.record_read(Some(vec![9, 9]));
    assert_eq!(images.current_shown(), Shown::Ready);
    assert!(matches!(&images.images_sources[1].content, Content::Read(b) if b == &vec![9, 9]));
    images.set_prev();
    assert_eq!(images.current_shown(), Shown::Failed);
    assert_eq!(images.pending_read(), None);
}

#[test]
fn pasting_raw_pixels_appends_one_png_entry() {
    let mut images = IVImages::new(paths(&["a.png"]));
    let pixels: Vec<u8> = vec![255, 0, 0, 255, 0, 255, 0, 255, 0, 0, 255, 255, 255, 255, 255, 0];
    images.extend_from_image_data(RawImage { width: 2, height: 2, bytes: pixels.clone() });
    assert_eq!(images.images_sources.len(), 2);
    let last = &images.images_sources[1];
    assert_eq!(last.fmt, image::ImageFormat::Png);
    match &last.source {
        ImgSource::Buffer(b) => {
            assert_eq!(&b[..8], &[137, 80, 78, 71, 13, 10, 26, 10]);
            assert_ne!(b, &pixels);
            let decoded = image::load_from_memory(b).unwrap().to_rgba8();
            assert_eq!(decoded.dimensions(), (2, 2));
            assert_eq!(decoded.into_raw(), pixels);
        }
        _ => panic!("pasted entry is not a buffer"),
    }
    assert_eq!(images.showed_idx, 0);
}

#[test]
fn pasting_a_mismatched_buffer_changes_nothing() {
    let mut images = IVImages::new(paths(&["a.png"]));
    images.extend_from_image_data(RawImage { width: 2, height: 2, bytes: vec![0; 15] });
    assert_eq!(images.images_sources.len(), 1);
}

#[test]
fn paste_without_image_or_text_still_clears() {
    let mut app = IVApp::new(paths(&["a.png", "b.png"]), true);
    assert_eq!(app.on_paste_event(PasteEvent::Begin), PasteAction::ReadImage);
    assert_eq!(app.on_paste_event(PasteEvent::Image(None)), PasteAction::ReadText);
    assert_eq!(app.on_paste_event(PasteEvent::TextRead), PasteAction::Clear);
    assert_eq!(app.on_paste_event(PasteEvent::Cleared), PasteAction::Done);
    assert_eq!(app.images.images_sources.len(), 2);
}

#[test]
fn paste_with_image_appends_then_clears() {
    let mut app = IVApp::new(vec![], true);
    assert_eq!(app.on_paste_event(PasteEvent::Begin), PasteAction::ReadImage);
    let img = RawImage { width: 1, height: 1, bytes: vec![1, 2, 3, 4] };
    assert_eq!(app.on_paste_event(PasteEvent::Image(Some(img))), PasteAction::Clear);
    assert_eq!(app.images.images_sources.len(), 1);
    assert_eq!(app.images.current_shown(), Shown::Ready);
}

#[test]
fn paste_without_clipboard_does_nothing() {
    let mut app = IVApp::new(vec![], false);
    assert_eq!(app.on_paste_event(PasteEvent::Begin), PasteAction::Done);
    assert_eq!(app.images.images_sources.len(), 0);
}

#[test]
fn uri_and_buffer_entries_need_no_read() {
    let img = Img::from_uri(image::ImageFormat::Png, "https://example.org/y.png".to_string());
    assert_eq!(img.shown(), Shown::Ready);
    assert_eq!(img.pending_read(), None);
    let img = Img::from_bytes(image::ImageFormat::Png, vec![1, 2, 3]);
    assert_eq!(img.shown(), Shown::Ready);
    assert_eq!(img.pending_read(), None);
    let img = Img::from_path(image::ImageFormat::Gif, "a.gif".to_string());
    assert_eq!(img.shown(), Shown::Loading);
    assert_eq!(img.pending_read(), Some("a.gif".to_string()));
}

#[test]
fn discovery_does_not_depend_on_listing_order() {
    let a = IVImages::new(paths(&["dir/a.png", "dir/b.txt", "dir/c.jpg", "dir/d"]));
    let b = IVImages::new(paths(&["dir/d", "dir/c.jpg", "dir/b.txt", "dir/a.png"]));
    let mut pa: Vec<String> = (0..a.images_sources.len()).map(|i| path_of(&a, i)).collect();
    let mut pb: Vec<String> = (0..b.images_sources.len()).map(|i| path_of(&b, i)).collect();
    pa.sort();
    pb.sort();
    assert_eq!(pa, vec!["dir/a.png".to_string(), "dir/c.jpg".to_string()]);
    assert_eq!(pa, pb);
}
