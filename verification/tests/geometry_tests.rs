use substance_kinetics::{
    DoseMetadata, DoseTimeRange, DoseUnits, Duration, Frac, ROAs, RouteOfAdministration,
    TimeUnits, UnitError,
};

fn frac(num: u64, den: u64) -> Frac {
    Frac { num, den }
}

fn minutes_range(start: u64, end: u64) -> DoseTimeRange {
    DoseTimeRange::new(frac(start, 1), frac(end, 1), TimeUnits::Minutes).unwrap()
}

fn hours_range(start: u64, end: u64) -> DoseTimeRange {
    DoseTimeRange::new(frac(start, 1), frac(end, 1), TimeUnits::Hours).unwrap()
}

fn route_with(phases: Duration) -> RouteOfAdministration {
    RouteOfAdministration {
        ty: ROAs::Oral,
        dose_metadata: DoseMetadata { units: DoseUnits::Mg, ..DoseMetadata::default() },
        duration: phases,
    }
}

#[test]
fn cumulative_total_accumulates_phase_midpoints_in_seconds() {
    let route = route_with(Duration {
        onset: Some(minutes_range(0, 60)),
        comeup: Some(minutes_range(0, 120)),
        peak: Some(minutes_range(60, 120)),
        offset: Some(minutes_range(0, 60)),
        ..Duration::default()
    });
    let total = route.cumulative_total().unwrap();
    // midpoints 1800 + 3600 + 5400 + 1800 seconds
    assert!(total.value_eq(&frac(12600, 1)));
}

#[test]
fn cumulative_total_treats_absent_phases_as_zero() {
    let route = route_with(Duration { peak: Some(hours_range(0, 2)), ..Duration::default() });
    let total = route.cumulative_total().unwrap();
    // the peak's midpoint is one hour
    assert!(total.value_eq(&frac(3600, 1)));
}

#[test]
fn estimate_points_trace_cumulative_midpoints() {
    let route = route_with(Duration {
        onset: Some(minutes_range(0, 60)),
        comeup: Some(minutes_range(0, 120)),
        peak: Some(minutes_range(60, 120)),
        offset: Some(minutes_range(0, 60)),
        ..Duration::default()
    });
    let pts = route.estimate_points().unwrap();
    assert_eq!(pts.len(), 5);
    // midpoints in seconds: 1800, 3600, 5400, 1800; accumulated.
    let expected = [
        (frac(0, 1), frac(0, 1)),
        (frac(1800, 1), frac(0, 1)),
        (frac(5400, 1), frac(1, 1)),
        (frac(10800, 1), frac(1, 1)),
        (frac(12600, 1), frac(0, 1)),
    ];
    for (point, want) in pts.iter().zip(expected.iter()) {
        assert!(point.0.value_eq(&want.0));
        assert!(point.1.value_eq(&want.1));
    }
}

#[test]
fn comeup_distribution_is_a_closed_polygon() {
    let route = route_with(Duration {
        onset: Some(minutes_range(30, 60)),
        comeup: Some(minutes_range(0, 120)),
        ..Duration::default()
    });
    let pts = route.comeup_distribution().unwrap();
    assert_eq!(pts.len(), 5);
    // onset [1800, 3600]s; comeup start 0+1800, end 7200+3600.
    let expected = [
        (frac(1800, 1), frac(0, 1)),
        (frac(3600, 1), frac(0, 1)),
        (frac(10800, 1), frac(1, 1)),
        (frac(1800, 1), frac(1, 1)),
        (frac(1800, 1), frac(0, 1)),
    ];
    for (point, want) in pts.iter().zip(expected.iter()) {
        assert!(point.0.value_eq(&want.0));
        assert!(point.1.value_eq(&want.1));
    }
    // closed: first vertex repeated last
    assert_eq!(pts[0], pts[4]);
}

#[test]
fn offset_distribution_is_a_closed_polygon() {
    let route = route_with(Duration {
        onset: Some(minutes_range(0, 60)),
        comeup: Some(minutes_range(0, 60)),
        peak: Some(minutes_range(60, 120)),
        offset: Some(minutes_range(30, 60)),
        ..Duration::default()
    });
    let pts = route.offset_distribution().unwrap();
    assert_eq!(pts.len(), 5);
    // starts: onset 0, comeup 0, peak 3600, offset 1800 -> cumulative 0, 0, 3600, 5400
    // ends: onset 3600, comeup 3600+3600, peak 7200+7200, offset 3600+14400
    let expected = [
        (frac(3600, 1), frac(1, 1)),
        (frac(14400, 1), frac(1, 1)),
        (frac(18000, 1), frac(0, 1)),
        (frac(5400, 1), frac(0, 1)),
        (frac(3600, 1), frac(1, 1)),
    ];
    for (point, want) in pts.iter().zip(expected.iter()) {
        assert!(point.0.value_eq(&want.0));
        assert!(point.1.value_eq(&want.1));
    }
    assert_eq!(pts[0], pts[4]);
}

#[test]
fn cumulative_total_equals_last_estimate_point() {
    let route = route_with(Duration {
        onset: Some(hours_range(0, 1)),
        comeup: Some(minutes_range(30, 90)),
        peak: Some(hours_range(1, 3)),
        offset: Some(minutes_range(0, 60)),
        ..Duration::default()
    });
    let total = route.cumulative_total().unwrap();
    let pts = route.estimate_points().unwrap();
    assert_eq!(pts[4].0, total);
    // midpoints 1800 + 3600 + 7200 + 1800 seconds
    assert!(total.value_eq(&frac(14400, 1)));
}

#[test]
fn geometry_fails_loudly_on_invalid_phase_unit() {
    let mut bad = hours_range(0, 1);
    bad.units = TimeUnits::Invalid;
    let route = route_with(Duration { comeup: Some(bad), ..Duration::default() });
    assert_eq!(
        route.cumulative_total(),
        Err(UnitError::UnsupportedUnitConversion)
    );
    assert_eq!(
        route.estimate_points(),
        Err(UnitError::UnsupportedUnitConversion)
    );
    assert_eq!(
        route.comeup_distribution(),
        Err(UnitError::UnsupportedUnitConversion)
    );
    assert_eq!(
        route.offset_distribution(),
        Err(UnitError::UnsupportedUnitConversion)
    );
}
