//! The resolution protocol on scripted platforms: outcomes, guards, and
//! the release discipline.

use known_folders::KnownFolder;
use known_folders::Resolution;
use known_folders::ResolvedPath;
use known_folders::SimulatedPlatform;
use known_folders::get_known_folder_path;
use known_folders::resolve;
use known_folders::resolver::E_FAIL;
use known_folders::resolver::E_INVALIDARG;
use known_folders::resolver::S_OK;
use known_folders::resolver::units_to_read;

const SOME_UNEXPECTED_STATUS: i32 = -2147024882;

fn wide(s: &str) -> Vec<u16> {
    s.chars().map(|c| c as u16).collect()
}

fn releases_of(p: &SimulatedPlatform) -> u64 {
    p.release_count()
}

fn lookups_of(p: &SimulatedPlatform) -> u64 {
    p.lookup_count()
}

#[test]
fn success_resolves_to_reported_units() {
    let mut p = SimulatedPlatform::new(true, S_OK, 10, wide("C:\\Users\\x"));
    let r = resolve(&mut p, KnownFolder::Profile);
    match r {
        Resolution::Resolved(path) => assert_eq!(path.as_units(), &wide("C:\\Users\\x")),
        _ => panic!("expected a resolved path"),
    }
}

#[test]
fn success_reads_exactly_the_reported_length() {
    // The measurement excludes the terminator; a shorter report reads a
    // prefix and never one unit more.
    let mut p = SimulatedPlatform::new(true, S_OK, 4, wide("C:\\Users\\x"));
    let r = resolve(&mut p, KnownFolder::Profile);
    match r {
        Resolution::Resolved(path) => assert_eq!(path.as_units(), &wide("C:\\U")),
        _ => panic!("expected a resolved path"),
    }
}

#[test]
fn profile_resolves_on_a_well_behaved_platform() {
    let mut p = SimulatedPlatform::new(true, S_OK, 14, wide("C:\\Users\\devon"));
    let r = get_known_folder_path(&mut p, KnownFolder::Profile);
    let path = r.expect("a well-behaved platform resolves the profile directory");
    assert_eq!(path.as_units(), &wide("C:\\Users\\devon"));
}

#[test]
fn unsupported_platform_makes_no_native_call() {
    let mut p = SimulatedPlatform::new(false, S_OK, 14, wide("C:\\Users\\devon"));
    let r = resolve(&mut p, KnownFolder::Profile);
    assert_eq!(r, Resolution::Unsupported);
    assert_eq!(lookups_of(&p), 0);
    assert_eq!(releases_of(&p), 0);
}

#[test]
fn invalid_argument_status_yields_absence() {
    let mut p = SimulatedPlatform::new(true, E_INVALIDARG, 0, Vec::new());
    let r = resolve(&mut p, KnownFolder::Profile);
    assert_eq!(r, Resolution::Absent);
    let mut q = SimulatedPlatform::new(true, E_INVALIDARG, 0, Vec::new());
    assert_eq!(get_known_folder_path(&mut q, KnownFolder::Profile), None);
}

#[test]
fn generic_failure_status_yields_absence() {
    let mut p = SimulatedPlatform::new(true, E_FAIL, 0, Vec::new());
    assert_eq!(resolve(&mut p, KnownFolder::Profile), Resolution::Absent);
}

#[test]
fn unexpected_status_yields_absence() {
    let mut p = SimulatedPlatform::new(true, SOME_UNEXPECTED_STATUS, 0, Vec::new());
    assert_eq!(resolve(&mut p, KnownFolder::Profile), Resolution::Absent);
}

#[test]
fn zero_length_success_yields_the_empty_path() {
    // Boundary case, decided and documented: an empty path is a valid
    // result, not coerced to absence.
    let mut p = SimulatedPlatform::new(true, S_OK, 0, Vec::new());
    match resolve(&mut p, KnownFolder::Profile) {
        Resolution::Resolved(path) => assert_eq!(path.len(), 0),
        _ => panic!("expected the empty path"),
    }
}

#[test]
fn negative_length_yields_absence() {
    let mut p = SimulatedPlatform::new(true, S_OK, -1, wide("C:\\Users\\devon"));
    assert_eq!(resolve(&mut p, KnownFolder::Profile), Resolution::Absent);
    assert_eq!(releases_of(&p), 1);
}

#[test]
fn oversized_length_yields_absence() {
    // A report whose byte span would overflow the platform's maximum
    // single allocation is rejected without reading.
    let mut p = SimulatedPlatform::new(true, S_OK, isize::MAX, Vec::new());
    assert_eq!(resolve(&mut p, KnownFolder::Profile), Resolution::Absent);
    assert_eq!(releases_of(&p), 1);
    let mut q = SimulatedPlatform::new(true, S_OK, isize::MAX / 2 + 1, Vec::new());
    assert_eq!(resolve(&mut q, KnownFolder::Profile), Resolution::Absent);
}

#[test]
fn largest_guarded_length_is_accepted() {
    // The guard's boundary: a byte span of exactly the maximum is still
    // read (here from a small honest buffer scripted behind a small
    // report, so the boundary is probed on the guard alone).
    assert_eq!(units_to_read(isize::MAX / 2), Some((isize::MAX / 2) as usize));
    assert_eq!(units_to_read(isize::MAX / 2 + 1), None);
    assert_eq!(units_to_read(0), Some(0));
    assert_eq!(units_to_read(-1), None);
    assert_eq!(units_to_read(isize::MIN), None);
}

#[test]
fn release_happens_exactly_once_on_every_path() {
    // Success, expected failure, unexpected status, negative length,
    // oversized length: one release each.
    let scripts: Vec<(i32, isize, Vec<u16>)> = vec![
        (S_OK, 10, wide("C:\\Users\\x")),
        (E_FAIL, 0, Vec::new()),
        (E_INVALIDARG, 0, Vec::new()),
        (SOME_UNEXPECTED_STATUS, 0, Vec::new()),
        (S_OK, -3, Vec::new()),
        (S_OK, isize::MAX, Vec::new()),
    ];
    for (status, len, units) in scripts {
        let mut p = SimulatedPlatform::new(true, status, len, units);
        let _ = resolve(&mut p, KnownFolder::Downloads);
        assert_eq!(releases_of(&p), 1);
        assert_eq!(lookups_of(&p), 1);
    }
}

#[test]
fn repeated_resolution_is_deterministic() {
    let mut p = SimulatedPlatform::new(true, S_OK, 10, wide("C:\\Users\\x"));
    let first = resolve(&mut p, KnownFolder::Profile);
    let second = resolve(&mut p, KnownFolder::Profile);
    assert_eq!(first, second);
    assert_eq!(releases_of(&p), 2);
}

#[test]
fn resolved_path_preserves_units() {
    let units: Vec<u16> = vec![0xD83D, 0xDCC1, 0x2F, 0x61];
    let path = ResolvedPath::from_units(units.clone());
    assert_eq!(path.as_units(), &units);
    assert_eq!(path.len(), 4);
}

#[test]
fn well_encoded_accepts_plain_text_and_pairs() {
    assert!(ResolvedPath::from_units(wide("C:\\Users\\devon")).is_well_encoded());
    assert!(ResolvedPath::from_units(Vec::new()).is_well_encoded());
    // A proper surrogate pair.
    assert!(ResolvedPath::from_units(vec![0x41, 0xD83D, 0xDCC1, 0x42]).is_well_encoded());
}

#[test]
fn well_encoded_rejects_lone_surrogates() {
    // A leading surrogate with no trailing one.
    assert!(!ResolvedPath::from_units(vec![0x41, 0xD83D, 0x42]).is_well_encoded());
    // A leading surrogate at the very end.
    assert!(!ResolvedPath::from_units(vec![0x41, 0xD83D]).is_well_encoded());
    // A trailing surrogate on its own.
    assert!(!ResolvedPath::from_units(vec![0xDCC1, 0x41]).is_well_encoded());
}
