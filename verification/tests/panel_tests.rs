use scraen::gray::GrayImage;
use scraen::panel::{default_panels, ConfigError, Panel, PanelConfig};
use scraen::settings::Rotation;

fn valid_config() -> PanelConfig {
    PanelConfig {
        rez: 4,
        center_x: 366,
        center_y: -123,
        span: 450,
        rotation: Rotation::Rotate0,
    }
}

#[test]
fn rejects_zero_resolution() {
    let mut cfg = valid_config();
    cfg.rez = 0;
    assert_eq!(Panel::new(cfg).err(), Some(ConfigError::BadResolution));
}

#[test]
fn rejects_oversized_resolution() {
    let mut cfg = valid_config();
    cfg.rez = 100_000;
    assert_eq!(Panel::new(cfg).err(), Some(ConfigError::BadResolution));
}

#[test]
fn rejects_zero_span() {
    let mut cfg = valid_config();
    cfg.span = 0;
    assert_eq!(Panel::new(cfg).err(), Some(ConfigError::DegenerateSpan));
}

#[test]
fn rejects_center_off_canvas() {
    let mut cfg = valid_config();
    cfg.center_y = 2_000_000;
    assert_eq!(Panel::new(cfg).err(), Some(ConfigError::CenterOutOfCanvas));
}

#[test]
fn accepts_the_default_panels() {
    for cfg in default_panels() {
        assert!(Panel::new(cfg).is_ok());
    }
}

#[test]
fn no_packet_before_first_capture() {
    // Startup race: until a capture completes, there is nothing to send.
    let panel = Panel::new(valid_config()).unwrap();
    assert!(panel.serial_packet().is_none());
}

#[test]
fn packet_after_capture_has_native_framing() {
    let mut panel = Panel::new(valid_config()).unwrap();
    // The offscreen surface renders at 12x12 for a 4x4 panel; commit a
    // uniform capture and the packet must be 4 rows of 4 bytes with 3
    // separators: 19 bytes, downsampled from the 144-pixel frame.
    panel.capture_completed(GrayImage::new(12, 12, 100));
    let body = panel.serial_packet().expect("a captured frame must encode");
    assert_eq!(body.len(), 19);
    assert_eq!(body[4], 0);
    assert_eq!(body[9], 0);
    assert_eq!(body[14], 0);
    for b in &body {
        assert!(*b <= 200);
    }
}

#[test]
fn packet_reuses_stale_frame() {
    // With no new capture, two reads of the packet are bit-identical: the
    // panel keeps transmitting its last good frame.
    let mut panel = Panel::new(valid_config()).unwrap();
    panel.capture_completed(GrayImage::new(12, 12, 77));
    let first = panel.serial_packet().unwrap();
    let second = panel.serial_packet().unwrap();
    assert_eq!(first, second);
}

#[test]
fn update_holds_target_on_absence() {
    let mut panel = Panel::new(valid_config()).unwrap();
    panel.update(Some((500, -200)), 10, 1);
    assert_eq!((panel.last_target_x, panel.last_target_y), (500, -200));
    panel.update(None, 20, 1);
    assert_eq!((panel.last_target_x, panel.last_target_y), (500, -200));
}

#[test]
fn pupil_stays_within_travel_radius() {
    let mut panel = Panel::new(valid_config()).unwrap();
    // max travel for rez 4 is 4 * 3 / 2 = 6 render units.
    let m = 6i64;
    let mut now = 0u64;
    for (tx, ty) in [(1_000_000i64, 1_000_000i64), (-1_000_000, 0), (0, 999_999), (366, -123)] {
        now += 16;
        panel.update(Some((tx, ty)), now, 3);
        assert!(panel.eye_x * panel.eye_x + panel.eye_y * panel.eye_y <= m * m);
    }
}

#[test]
fn eye_scene_geometry() {
    let mut panel = Panel::new(valid_config()).unwrap();
    // Immediately after startup the blink value is 0: lids are retracted
    // to the pupil's edge with zero height.
    let s = panel.eye_scene();
    assert_eq!(s.pupil_radius, 3);
    assert_eq!(s.lid_width, 6);
    assert_eq!(s.lid_height, 0);
    assert_eq!(s.upper_lid_y, s.pupil_y + 3);
    assert_eq!(s.lower_lid_y, s.pupil_y - 3);
    // A fully closed eye has lids as tall as the pupil radius, centered
    // halfway down it.
    panel.blink = scraen::blink::BlinkController::new(100, 200, 200, 1_000_000);
    panel.update(None, 1000, 0);
    panel.update(None, 1100, 1);
    let shut = panel.eye_scene();
    assert_eq!(shut.lid_height, 3);
    assert_eq!(shut.upper_lid_y, shut.pupil_y + 2);
}

#[test]
fn rotation_before_encoding() {
    let mut img = GrayImage::new(2, 2, 0);
    img.set(0, 0, 10);
    img.set(0, 1, 20);
    img.set(1, 0, 30);
    img.set(1, 1, 40);
    // Clockwise quarter turn: top row becomes right column.
    let r90 = img.rotated(Rotation::Rotate90);
    assert_eq!(
        [r90.get(0, 0), r90.get(0, 1), r90.get(1, 0), r90.get(1, 1)],
        [30, 10, 40, 20],
    );
    let r180 = img.rotated(Rotation::Rotate180);
    assert_eq!(
        [r180.get(0, 0), r180.get(0, 1), r180.get(1, 0), r180.get(1, 1)],
        [40, 30, 20, 10],
    );
    let r270 = img.rotated(Rotation::Rotate270);
    assert_eq!(
        [r270.get(0, 0), r270.get(0, 1), r270.get(1, 0), r270.get(1, 1)],
        [20, 40, 10, 30],
    );
    let r0 = img.rotated(Rotation::Rotate0);
    assert_eq!(r0.get(1, 1), 40);
}

#[test]
fn non_square_rotation_dimensions() {
    let img = GrayImage::new(2, 3, 5);
    let r = img.rotated(Rotation::Rotate90);
    assert_eq!((r.rows(), r.cols()), (3, 2));
}

#[test]
fn webcam_settings_carry_configuration() {
    let ws = scraen::settings::WebcamSettings {
        index: 0,
        camera_width: 320,
        camera_height: 240,
        orientation: scraen::settings::Orientation::Portrait,
    };
    let copy = ws;
    assert_eq!(copy.camera_width, 320);
    assert_eq!(copy.camera_height, 240);
    assert!(matches!(copy.orientation, scraen::settings::Orientation::Portrait));
}
