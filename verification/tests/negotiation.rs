use camera_capture::caps::Capability;
use camera_capture::error::Error;
use camera_capture::Builder;

fn discrete_intervals() -> Capability {
    Capability::Discrete(vec![(1, 30), (1, 10)])
}

fn stepwise_small() -> Capability {
    Capability::Stepwise { min: (0, 0), max: (100, 100), step: (5, 5) }
}

#[test]
fn default_configuration() {
    let b = Builder::new();
    assert_eq!(b.fps, (1, 10));
    assert_eq!(b.resolution, (640, 480));
    let d = Builder::default();
    assert_eq!(d.fps, (1, 10));
    assert_eq!(d.resolution, (640, 480));
}

#[test]
fn discrete_fps_match() {
    let b = Builder::new().fps((1, 30), &discrete_intervals()).unwrap();
    assert_eq!(b.fps, (1, 30));
    assert_eq!(b.resolution, (640, 480));
}

#[test]
fn discrete_fps_mismatch_reports_full_set() {
    let r = Builder::new().fps((1, 25), &discrete_intervals());
    match r {
        Err(Error::InvalidFps(alts)) => {
            assert_eq!(alts, vec![(1, 30), (1, 10)]);
            // re-expressed as decimal rates (denominator over numerator),
            // the alternatives read 30 fps and 10 fps
            let rates: Vec<f64> = alts.iter().map(|&(a, b)| b as f64 / a as f64).collect();
            assert_eq!(rates, vec![30.0, 10.0]);
        }
        _ => panic!("expected InvalidFps with the full supported set"),
    }
}

#[test]
fn discrete_resolution_match() {
    let caps = Capability::Discrete(vec![(640, 480), (1280, 720)]);
    let b = Builder::new().resolution(1280, 720, &caps).unwrap();
    assert_eq!(b.resolution, (1280, 720));
    assert_eq!(b.fps, (1, 10));
}

#[test]
fn discrete_resolution_mismatch_reports_full_set() {
    let caps = Capability::Discrete(vec![(640, 480), (1280, 720)]);
    let r = Builder::new().resolution(800, 600, &caps);
    match r {
        Err(Error::InvalidResolution(alts)) => {
            assert_eq!(alts, vec![(640, 480), (1280, 720)]);
        }
        _ => panic!("expected InvalidResolution with the full supported set"),
    }
}

#[test]
fn stepwise_grid_point_succeeds() {
    let b = Builder::new().fps((10, 10), &stepwise_small()).unwrap();
    assert_eq!(b.fps, (10, 10));
}

#[test]
fn stepwise_off_grid_fails() {
    // 12 is not a multiple-of-5 offset from 0
    let r = Builder::new().fps((12, 10), &stepwise_small());
    match r {
        Err(Error::InvalidFps(alts)) => assert_eq!(alts, vec![(0, 0), (100, 100)]),
        _ => panic!("expected InvalidFps with the grid bounds"),
    }
}

#[test]
fn stepwise_beyond_max_fails() {
    let r = Builder::new().fps((200, 10), &stepwise_small());
    match r {
        Err(Error::InvalidFps(alts)) => assert_eq!(alts, vec![(0, 0), (100, 100)]),
        _ => panic!("expected InvalidFps with the grid bounds"),
    }
}

#[test]
fn stepwise_maximum_is_inclusive() {
    let b = Builder::new().fps((100, 100), &stepwise_small()).unwrap();
    assert_eq!(b.fps, (100, 100));
}

#[test]
fn stepwise_below_minimum_fails() {
    let caps = Capability::Stepwise { min: (320, 240), max: (1280, 960), step: (320, 240) };
    let r = Builder::new().resolution(160, 120, &caps);
    assert!(matches!(r, Err(Error::InvalidResolution(_))));
}

#[test]
fn stepwise_resolution_grid() {
    let caps = Capability::Stepwise { min: (320, 240), max: (1280, 960), step: (320, 240) };
    let b = Builder::new().resolution(640, 480, &caps).unwrap();
    assert_eq!(b.resolution, (640, 480));
    let r = Builder::new().resolution(641, 480, &caps);
    assert!(matches!(r, Err(Error::InvalidResolution(_))));
}

#[test]
fn empty_discrete_set_rejects_everything() {
    let caps = Capability::Discrete(vec![]);
    let r = Builder::new().fps((1, 10), &caps);
    match r {
        Err(Error::InvalidFps(alts)) => assert!(alts.is_empty()),
        _ => panic!("expected InvalidFps with an empty set"),
    }
}

#[test]
fn resolution_then_fps_keeps_both() {
    let res_caps = Capability::Discrete(vec![(1280, 720)]);
    let fps_caps = Capability::Discrete(vec![(1, 30)]);
    let b = Builder::new()
        .resolution(1280, 720, &res_caps)
        .unwrap()
        .fps((1, 30), &fps_caps)
        .unwrap();
    assert_eq!(b.resolution, (1280, 720));
    assert_eq!(b.fps, (1, 30));
}

#[test]
fn well_formedness_of_reports() {
    assert!(Capability::Discrete(vec![]).is_well_formed());
    assert!(stepwise_small().is_well_formed());
    let zero_step = Capability::Stepwise { min: (0, 0), max: (10, 10), step: (0, 5) };
    assert!(!zero_step.is_well_formed());
    let unordered = Capability::Stepwise { min: (20, 0), max: (10, 10), step: (5, 5) };
    assert!(!unordered.is_well_formed());
}
