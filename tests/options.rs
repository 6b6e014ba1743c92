use leeward::cli::{App, BackconvertOptions};
use leeward::index::TimeIndex;
use leeward::uncertainty::Uncertainty;
use leeward::partial::Variable;

fn options(on: bool) -> BackconvertOptions {
    BackconvertOptions {
        original: on,
        vector: on,
        gps_time: on,
        range: on,
        scan_angle: on,
        las_scan_angle: on,
        orientation: on,
        platform: on,
        partials: on,
    }
}

#[test]
fn header_minimal() {
    assert_eq!(vec!["X", "Y", "Z"], options(false).header());
}

#[test]
fn header_full() {
    let h = options(true).header();
    assert_eq!(3 + 3 + 1 + 1 + 1 + 1 + 3 + 3 + 42, h.len());
    assert_eq!("VectorX", h[3]);
    assert_eq!("GpsTime", h[6]);
    assert_eq!("Range", h[7]);
    assert_eq!("ScanAngle", h[8]);
    assert_eq!("LasScanAngle", h[9]);
    assert_eq!("Roll", h[10]);
    assert_eq!("PlatformZ", h[15]);
    assert_eq!("dX/dRange", h[16]);
    assert_eq!("dZ/dGnssZ", h[57]);
}

#[test]
fn header_some() {
    let mut o = options(false);
    o.range = true;
    o.platform = true;
    assert_eq!(vec!["X", "Y", "Z", "Range", "PlatformX", "PlatformY", "PlatformZ"], o.header());
}

#[test]
fn app_quiet() {
    let mut app = App::new();
    assert!(!app.is_quiet());
    app.quiet(true);
    assert!(app.is_quiet());
    app.quiet(false);
    assert!(!app.is_quiet());
}

#[test]
fn time_index_later_pose_wins() {
    let mut index = TimeIndex::new();
    assert_eq!(None, index.get(5));
    index.insert(5, "a");
    index.insert(6, "b");
    index.insert(5, "c");
    assert_eq!(Some(&"c"), index.get(5));
    assert_eq!(Some(&"b"), index.get(6));
    assert_eq!(None, index.get(-1));
    assert_eq!(2, index.len());
}

#[test]
fn uncertainty_lookup() {
    let mut u = Uncertainty::uniform(0.0);
    u.gnss_z = 0.04;
    u.range = 0.02;
    assert_eq!(0.04, u.error(Variable::GnssZ));
    assert_eq!(0.02, u.error(Variable::Range));
    assert_eq!(0.0, u.error(Variable::GnssX));
    assert_eq!(0.0, u.error(Variable::ImuRoll));
}
