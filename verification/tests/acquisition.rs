use geo_to_3d::acquisition::AcquisitionState::{Cached, NeedExtract, NeedFetch, RasterAbsent, Unknown};
use geo_to_3d::acquisition::{advance, dry_run, next_action, AcquisitionState, Action, Environment};
use geo_to_3d::dataset::Dataset;
use geo_to_3d::error::DemError;
use geo_to_3d::tile::Tile;

/// A world that answers from a script and writes down what it was asked.
struct World {
    raster_present: bool,
    archive_present: bool,
    download_ok: bool,
    extract_ok: bool,
    log: Vec<&'static str>,
}

impl World {
    fn new(raster_present: bool, archive_present: bool, download_ok: bool, extract_ok: bool) -> Self {
        World { raster_present, archive_present, download_ok, extract_ok, log: Vec::new() }
    }

    fn perform(&mut self, action: &Action) -> bool {
        match action {
            Action::CheckRaster { .. } => {
                self.log.push("check raster");
                self.raster_present
            }
            Action::CheckArchive { .. } => {
                self.log.push("check archive");
                self.archive_present
            }
            Action::Download { .. } => {
                self.log.push("download");
                if self.download_ok {
                    self.archive_present = true;
                }
                self.download_ok
            }
            Action::Extract { .. } => {
                self.log.push("extract");
                if self.extract_ok {
                    self.raster_present = true;
                }
                self.extract_ok
            }
        }
    }

    fn count(&self, what: &str) -> usize {
        self.log.iter().filter(|entry| **entry == what).count()
    }
}

fn tile() -> Tile {
    Tile { dataset: Dataset::Dem1, lat: 45, lon: 6 }
}

fn acquire(world: &mut World) -> Result<(), DemError> {
    let mut state = AcquisitionState::Unknown;
    let mut steps = 0;
    while let Some(action) = next_action(&state, "data", &tile()) {
        steps += 1;
        assert!(steps <= 4, "acquisition takes four requests at most");
        let ok = world.perform(&action);
        state = advance(state, ok)?;
    }
    assert_eq!(state, AcquisitionState::Cached);
    Ok(())
}

#[test]
fn fast_path_downloads_and_extracts_nothing() {
    for archive_present in [false, true] {
        for download_ok in [false, true] {
            for extract_ok in [false, true] {
                let mut world = World::new(true, archive_present, download_ok, extract_ok);
                assert_eq!(acquire(&mut world), Ok(()));
                assert_eq!(world.count("download"), 0);
                assert_eq!(world.count("extract"), 0);
                assert_eq!(world.log, vec!["check raster"]);
            }
        }
    }
}

#[test]
fn archive_alone_is_extracted_once() {
    let mut world = World::new(false, true, false, true);
    assert_eq!(acquire(&mut world), Ok(()));
    assert_eq!(world.count("download"), 0);
    assert_eq!(world.count("extract"), 1);
    assert_eq!(world.log, vec!["check raster", "check archive", "extract"]);
}

#[test]
fn full_path_downloads_once_then_extracts_once() {
    let mut world = World::new(false, false, true, true);
    assert_eq!(acquire(&mut world), Ok(()));
    assert_eq!(world.count("download"), 1);
    assert_eq!(world.count("extract"), 1);
    assert_eq!(world.log, vec!["check raster", "check archive", "download", "extract"]);
    assert!(world.raster_present);
}

#[test]
fn second_acquisition_takes_the_fast_path() {
    let mut world = World::new(false, false, true, true);
    assert_eq!(acquire(&mut world), Ok(()));
    world.log.clear();
    assert_eq!(acquire(&mut world), Ok(()));
    assert_eq!(world.log, vec!["check raster"]);
}

#[test]
fn failed_download_is_fatal_and_nothing_is_extracted() {
    for extract_ok in [false, true] {
        let mut world = World::new(false, false, false, extract_ok);
        assert_eq!(acquire(&mut world), Err(DemError::FetchFailed));
        assert_eq!(world.count("download"), 1);
        assert_eq!(world.count("extract"), 0);
        assert_eq!(world.log, vec!["check raster", "check archive", "download"]);
    }
}

#[test]
fn failed_extraction_is_fatal() {
    let mut world = World::new(false, true, true, false);
    assert_eq!(acquire(&mut world), Err(DemError::ExtractFailed));
    assert_eq!(world.log, vec!["check raster", "check archive", "extract"]);
    let mut world = World::new(false, false, true, false);
    assert_eq!(acquire(&mut world), Err(DemError::ExtractFailed));
    assert_eq!(world.log, vec!["check raster", "check archive", "download", "extract"]);
}

#[test]
fn advance_from_every_state() {
    assert_eq!(advance(Unknown, true), Ok(Cached));
    assert_eq!(advance(Unknown, false), Ok(RasterAbsent));
    assert_eq!(advance(RasterAbsent, true), Ok(NeedExtract));
    assert_eq!(advance(RasterAbsent, false), Ok(NeedFetch));
    assert_eq!(advance(NeedFetch, true), Ok(NeedExtract));
    assert_eq!(advance(NeedFetch, false), Err(DemError::FetchFailed));
    assert_eq!(advance(NeedExtract, true), Ok(Cached));
    assert_eq!(advance(NeedExtract, false), Err(DemError::ExtractFailed));
    assert_eq!(advance(Cached, true), Ok(Cached));
    assert_eq!(advance(Cached, false), Ok(Cached));
}

#[test]
fn action_of_every_state() {
    let tile = tile();
    assert_eq!(
        next_action(&AcquisitionState::Unknown, "/srv/data", &tile),
        Some(Action::CheckRaster { path: "/srv/data/N45E006.hgt".to_string() })
    );
    assert_eq!(
        next_action(&AcquisitionState::RasterAbsent, "/srv/data", &tile),
        Some(Action::CheckArchive { path: "/srv/data/N45E006.zip".to_string() })
    );
    assert_eq!(
        next_action(&AcquisitionState::NeedFetch, "/srv/data", &tile),
        Some(Action::Download {
            url: "http://viewfinderpanoramas.org/dem1/N45E006.zip".to_string(),
            destination: "/srv/data/N45E006.zip".to_string(),
        })
    );
    assert_eq!(
        next_action(&AcquisitionState::NeedExtract, "/srv/data", &tile),
        Some(Action::Extract {
            archive: "/srv/data/N45E006.zip".to_string(),
            destination_dir: "/srv/data".to_string(),
        })
    );
    assert_eq!(next_action(&AcquisitionState::Cached, "/srv/data", &tile), None);
}

#[test]
fn actions_of_a_western_tile() {
    let tile = Tile { dataset: Dataset::Dem1, lat: 40, lon: -6 };
    assert_eq!(
        next_action(&AcquisitionState::NeedFetch, "data/", &tile),
        Some(Action::Download {
            url: "http://viewfinderpanoramas.org/dem1/N40W006.zip".to_string(),
            destination: "data/N40W006.zip".to_string(),
        })
    );
}

fn names(actions: &[Action]) -> Vec<&'static str> {
    actions
        .iter()
        .map(|action| match action {
            Action::CheckRaster { .. } => "check raster",
            Action::CheckArchive { .. } => "check archive",
            Action::Download { .. } => "download",
            Action::Extract { .. } => "extract",
        })
        .collect()
}

#[test]
fn dry_run_of_the_fast_path() {
    let env = Environment {
        raster_present: true,
        archive_present: false,
        download_ok: false,
        extract_ok: false,
    };
    let (actions, end) = dry_run(&env, "data", &tile());
    assert_eq!(end, Ok(()));
    assert_eq!(actions, vec![Action::CheckRaster { path: "data/N45E006.hgt".to_string() }]);
}

#[test]
fn dry_run_of_the_full_path() {
    let env = Environment {
        raster_present: false,
        archive_present: false,
        download_ok: true,
        extract_ok: true,
    };
    let (actions, end) = dry_run(&env, "data", &tile());
    assert_eq!(end, Ok(()));
    assert_eq!(
        actions,
        vec![
            Action::CheckRaster { path: "data/N45E006.hgt".to_string() },
            Action::CheckArchive { path: "data/N45E006.zip".to_string() },
            Action::Download {
                url: "http://viewfinderpanoramas.org/dem1/N45E006.zip".to_string(),
                destination: "data/N45E006.zip".to_string(),
            },
            Action::Extract {
                archive: "data/N45E006.zip".to_string(),
                destination_dir: "data".to_string(),
            },
        ]
    );
}

#[test]
fn dry_run_agrees_with_a_world_that_is_asked() {
    for raster_present in [false, true] {
        for archive_present in [false, true] {
            for download_ok in [false, true] {
                for extract_ok in [false, true] {
                    let env = Environment { raster_present, archive_present, download_ok, extract_ok };
                    let (actions, end) = dry_run(&env, "data", &tile());
                    let mut world = World::new(raster_present, archive_present, download_ok, extract_ok);
                    assert_eq!(acquire(&mut world), end);
                    assert_eq!(names(&actions), world.log);
                    assert!(actions.len() <= 4);
                }
            }
        }
    }
}

#[test]
fn answers_of_a_world() {
    let env = Environment {
        raster_present: true,
        archive_present: false,
        download_ok: true,
        extract_ok: false,
    };
    let text = String::new();
    assert!(env.answer_to(&Action::CheckRaster { path: text.clone() }));
    assert!(!env.answer_to(&Action::CheckArchive { path: text.clone() }));
    assert!(env.answer_to(&Action::Download { url: text.clone(), destination: text.clone() }));
    assert!(!env.answer_to(&Action::Extract { archive: text.clone(), destination_dir: text }));
}
