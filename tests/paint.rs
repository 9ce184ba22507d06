use spectre::{dispatch, MessageAction, PaintCommand, PaintSession, PaintStage, Resource, WM_CLOSE, WM_DESTROY, WM_PAINT};

#[test]
fn dispatch_messages() {
    assert_eq!(WM_PAINT, 0x000F);
    assert_eq!(dispatch(WM_PAINT), MessageAction::Paint);
    assert_eq!(dispatch(WM_CLOSE), MessageAction::DestroyWindow);
    assert_eq!(dispatch(WM_DESTROY), MessageAction::PostQuit);
    assert_eq!(dispatch(0x0001), MessageAction::Default);
    assert_eq!(dispatch(0x0012), MessageAction::Default);
}

#[test]
fn paint_success_releases_everything() {
    let mut s = PaintSession::new();
    assert_eq!(s.first_command(), PaintCommand::GetDc);
    assert_eq!(s.on_outcome(true), vec![PaintCommand::CreateMemoryDc]);
    assert_eq!(s.on_outcome(true), vec![PaintCommand::FetchThumbnail]);
    assert_eq!(s.on_outcome(true), vec![PaintCommand::ProjectBitmap]);
    assert_eq!(s.on_outcome(true), vec![PaintCommand::Blit]);
    assert_eq!(
        s.on_outcome(true),
        vec![
            PaintCommand::Release(Resource::NativeBitmap),
            PaintCommand::Release(Resource::MemoryDc),
            PaintCommand::Release(Resource::WindowDc),
            PaintCommand::Finish { drawn: true },
        ]
    );
    assert_eq!(s.stage, PaintStage::Finished);
    assert!(s.on_outcome(true).is_empty());
}

#[test]
fn paint_without_dc_draws_nothing() {
    let mut s = PaintSession::new();
    assert_eq!(s.on_outcome(false), vec![PaintCommand::Finish { drawn: false }]);
    assert_eq!(s.stage, PaintStage::Finished);
}

#[test]
fn paint_without_memory_dc_releases_window_dc() {
    let mut s = PaintSession::new();
    s.on_outcome(true);
    assert_eq!(
        s.on_outcome(false),
        vec![PaintCommand::Release(Resource::WindowDc), PaintCommand::Finish { drawn: false }]
    );
}

#[test]
fn paint_without_thumbnail_releases_both_dcs() {
    let mut s = PaintSession::new();
    s.on_outcome(true);
    s.on_outcome(true);
    assert_eq!(
        s.on_outcome(false),
        vec![
            PaintCommand::Release(Resource::MemoryDc),
            PaintCommand::Release(Resource::WindowDc),
            PaintCommand::Finish { drawn: false },
        ]
    );
}

#[test]
fn paint_with_failed_bitmap_releases_both_dcs() {
    let mut s = PaintSession::new();
    s.on_outcome(true);
    s.on_outcome(true);
    s.on_outcome(true);
    assert_eq!(
        s.on_outcome(false),
        vec![
            PaintCommand::Release(Resource::MemoryDc),
            PaintCommand::Release(Resource::WindowDc),
            PaintCommand::Finish { drawn: false },
        ]
    );
}

#[test]
fn paint_with_failed_blit_still_releases_all() {
    let mut s = PaintSession::new();
    for _ in 0..4 {
        s.on_outcome(true);
    }
    assert_eq!(
        s.on_outcome(false),
        vec![
            PaintCommand::Release(Resource::NativeBitmap),
            PaintCommand::Release(Resource::MemoryDc),
            PaintCommand::Release(Resource::WindowDc),
            PaintCommand::Finish { drawn: false },
        ]
    );
}
