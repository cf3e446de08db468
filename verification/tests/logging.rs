use contower::logging::{level_allowed, parse_verbosity, Level};

#[test]
fn verbosity_maps_to_levels() {
    assert_eq!(parse_verbosity(1), vec![Level::Info]);
    assert_eq!(parse_verbosity(2), vec![Level::Info, Level::Warning]);
    assert_eq!(parse_verbosity(3), vec![Level::Info, Level::Warning, Level::Error]);
    assert_eq!(parse_verbosity(4), vec![Level::Info, Level::Warning, Level::Error, Level::Critical]);
    assert_eq!(parse_verbosity(5), vec![Level::Info, Level::Warning, Level::Error, Level::Critical, Level::Debug]);
    assert_eq!(parse_verbosity(6), vec![Level::Info, Level::Warning, Level::Error, Level::Critical, Level::Debug, Level::Trace]);
}

#[test]
fn verbosity_defaults_to_four_levels() {
    let default = vec![Level::Info, Level::Warning, Level::Error, Level::Critical];
    assert_eq!(parse_verbosity(0), default);
    assert_eq!(parse_verbosity(7), default);
    assert_eq!(parse_verbosity(u64::MAX), default);
}

#[test]
fn filter_passes_listed_levels_only() {
    let levels = parse_verbosity(2);
    assert!(level_allowed(&levels, Level::Info));
    assert!(level_allowed(&levels, Level::Warning));
    assert!(!level_allowed(&levels, Level::Error));
    assert!(!level_allowed(&levels, Level::Trace));
    assert!(!level_allowed(&Vec::new(), Level::Info));
}

#[test]
fn raising_verbosity_never_stops_a_level() {
    let all = [Level::Critical, Level::Error, Level::Warning, Level::Info, Level::Debug, Level::Trace];
    for v in 1..6u64 {
        for l in all {
            if level_allowed(&parse_verbosity(v), l) {
                assert!(level_allowed(&parse_verbosity(v + 1), l));
            }
        }
    }
}
