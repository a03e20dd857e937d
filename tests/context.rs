use engine::context::{Presentation, SurfaceConfig, SurfaceUnsupported};

#[derive(Clone, Copy, Debug, PartialEq, Eq)]
struct Mode(u8);

#[test]
fn negotiate_first_configuration() {
    let p = Presentation::negotiate(800, 600, Some(Mode(1))).unwrap();
    assert_eq!(*p.config(), SurfaceConfig { width: 800, height: 600, negotiated: Mode(1) });
}

#[test]
fn negotiate_refuses_zero_area_and_missing_offer() {
    assert!(matches!(Presentation::negotiate(0, 600, Some(Mode(1))), Err(SurfaceUnsupported)));
    assert!(matches!(Presentation::negotiate(800, 0, Some(Mode(1))), Err(SurfaceUnsupported)));
    assert!(matches!(Presentation::<Mode>::negotiate(800, 600, None), Err(SurfaceUnsupported)));
}

#[test]
fn resize_to_zero_width_keeps_configuration() {
    let mut p = Presentation::negotiate(800, 600, Some(Mode(1))).unwrap();
    let before = *p.config();
    assert_eq!(p.resize(0, 600, Some(Mode(2))), Err(SurfaceUnsupported));
    assert_eq!(*p.config(), before);
}

#[test]
fn resize_to_zero_height_keeps_configuration() {
    let mut p = Presentation::negotiate(800, 600, Some(Mode(1))).unwrap();
    let before = *p.config();
    assert_eq!(p.resize(1024, 0, Some(Mode(2))), Err(SurfaceUnsupported));
    assert_eq!(*p.config(), before);
}

#[test]
fn resize_without_offer_keeps_configuration() {
    let mut p = Presentation::negotiate(800, 600, Some(Mode(1))).unwrap();
    assert_eq!(p.resize(1024, 768, None), Err(SurfaceUnsupported));
    assert_eq!(*p.config(), SurfaceConfig { width: 800, height: 600, negotiated: Mode(1) });
}

#[test]
fn resize_applies_new_size() {
    let mut p = Presentation::negotiate(800, 600, Some(Mode(1))).unwrap();
    assert_eq!(p.resize(1024, 768, Some(Mode(3))), Ok(()));
    assert_eq!(*p.config(), SurfaceConfig { width: 1024, height: 768, negotiated: Mode(3) });
}

#[test]
fn resize_twice_to_same_size_is_idempotent() {
    let mut p = Presentation::negotiate(800, 600, Some(Mode(1))).unwrap();
    assert_eq!(p.resize(1280, 720, Some(Mode(2))), Ok(()));
    let first = *p.config();
    assert_eq!(p.resize(1280, 720, Some(Mode(2))), Ok(()));
    assert_eq!(*p.config(), first);
}

#[test]
fn surface_unsupported_message() {
    assert_eq!(SurfaceUnsupported.message(), "surface is unsupported");
}
