use vstd::prelude::*;
use vstd::string::StringExecFns;
use crate::dataset::dataset_url;
use crate::error::DemError;
use crate::tile::{tile_filename, tile_path, Tile};

verus! {

/// What is known of the files of one tile. Acquisition starts at `Unknown`
/// and is over at `Cached`, when the raster file is there.
#[derive(Clone, Copy, Debug, PartialEq, Eq, Structural)]
pub enum AcquisitionState {
    /// Nothing has been looked at.
    Unknown,
    /// The raster file is not there; the archive has not been looked for.
    RasterAbsent,
    /// The archive is there and the raster file is not.
    NeedExtract,
    /// Neither file is there.
    NeedFetch,
    /// The raster file is there.
    Cached,
}

/// The four things that acquisition asks of the world around it.
#[derive(Clone, Copy, Debug, PartialEq, Eq, Structural)]
pub enum ActionKind {
    CheckRaster,
    CheckArchive,
    Download,
    Extract,
}

/// One request to the world around the library, with the paths it is about.
#[derive(Debug, PartialEq, Eq)]
pub enum Action {
    /// Does the raster file exist at `path`?
    CheckRaster { path: String },
    /// Does the archive exist at `path`?
    CheckArchive { path: String },
    /// Fetch `url` and store it at `destination`.
    Download { url: String, destination: String },
    /// Unpack `archive` into `destination_dir`.
    Extract { archive: String, destination_dir: String },
}

/// An `Action` with its texts as sequences of characters.
pub enum ActionView {
    CheckRaster { path: Seq<char> },
    CheckArchive { path: Seq<char> },
    Download { url: Seq<char>, destination: Seq<char> },
    Extract { archive: Seq<char>, destination_dir: Seq<char> },
}

impl View for Action {
    type V = ActionView;

    open spec fn view(&self) -> ActionView {
        match *self {
            Action::CheckRaster { path } => ActionView::CheckRaster { path: path@ },
            Action::CheckArchive { path } => ActionView::CheckArchive { path: path@ },
            Action::Download { url, destination } => ActionView::Download {
                url: url@,
                destination: destination@,
            },
            Action::Extract { archive, destination_dir } => ActionView::Extract {
                archive: archive@,
                destination_dir: destination_dir@,
            },
        }
    }
}

impl ActionView {
    /// Which of the four requests this is.
    pub open spec fn kind(self) -> ActionKind {
        match self {
            ActionView::CheckRaster { .. } => ActionKind::CheckRaster,
            ActionView::CheckArchive { .. } => ActionKind::CheckArchive,
            ActionView::Download { .. } => ActionKind::Download,
            ActionView::Extract { .. } => ActionKind::Extract,
        }
    }
}

/// The extension of a raster file.
pub open spec fn raster_ext() -> Seq<char> {
    "hgt"@
}

/// The extension of an archive.
pub open spec fn archive_ext() -> Seq<char> {
    "zip"@
}

/// What the world answers: whether each file is there at the start, and
/// whether each operation succeeds when it is asked for.
#[derive(Clone, Copy, Debug, PartialEq, Eq, Structural)]
pub struct Environment {
    pub raster_present: bool,
    pub archive_present: bool,
    pub download_ok: bool,
    pub extract_ok: bool,
}

impl AcquisitionState {
    /// What has to be asked in this state; nothing once the tile is cached.
    pub open spec fn kind(self) -> Option<ActionKind> {
        match self {
            AcquisitionState::Unknown => Some(ActionKind::CheckRaster),
            AcquisitionState::RasterAbsent => Some(ActionKind::CheckArchive),
            AcquisitionState::NeedFetch => Some(ActionKind::Download),
            AcquisitionState::NeedExtract => Some(ActionKind::Extract),
            AcquisitionState::Cached => None,
        }
    }

    /// The request of this state for `tile`, whose files lie under `data_dir`.
    pub open spec fn action(self, data_dir: Seq<char>, tile: Tile) -> Option<ActionView> {
        match self {
            AcquisitionState::Unknown => Some(
                ActionView::CheckRaster { path: tile.path(data_dir, raster_ext()) },
            ),
            AcquisitionState::RasterAbsent => Some(
                ActionView::CheckArchive { path: tile.path(data_dir, archive_ext()) },
            ),
            AcquisitionState::NeedFetch => Some(
                ActionView::Download {
                    url: tile.dataset.url() + tile.filename(archive_ext()),
                    destination: tile.path(data_dir, archive_ext()),
                },
            ),
            AcquisitionState::NeedExtract => Some(
                ActionView::Extract {
                    archive: tile.path(data_dir, archive_ext()),
                    destination_dir: data_dir,
                },
            ),
            AcquisitionState::Cached => None,
        }
    }

    /// The state after the request of this state was answered: `ok` says that
    /// the file is there, or that the operation succeeded. A download or an
    /// extraction that failed ends the acquisition.
    pub open spec fn advanced(self, ok: bool) -> Result<AcquisitionState, DemError> {
        match self {
            AcquisitionState::Unknown => if ok {
                Ok(AcquisitionState::Cached)
            } else {
                Ok(AcquisitionState::RasterAbsent)
            },
            AcquisitionState::RasterAbsent => if ok {
                Ok(AcquisitionState::NeedExtract)
            } else {
                Ok(AcquisitionState::NeedFetch)
            },
            AcquisitionState::NeedFetch => if ok {
                Ok(AcquisitionState::NeedExtract)
            } else {
                Err(DemError::FetchFailed)
            },
            AcquisitionState::NeedExtract => if ok {
                Ok(AcquisitionState::Cached)
            } else {
                Err(DemError::ExtractFailed)
            },
            AcquisitionState::Cached => Ok(AcquisitionState::Cached),
        }
    }

    /// The most requests that can still follow from this state.
    pub open spec fn distance(self) -> nat {
        match self {
            AcquisitionState::Unknown => 4,
            AcquisitionState::RasterAbsent => 3,
            AcquisitionState::NeedFetch => 2,
            AcquisitionState::NeedExtract => 1,
            AcquisitionState::Cached => 0,
        }
    }

    /// The requests that are made from this state on, in their order, when
    /// the world answers as `env` says.
    pub open spec fn trace(self, env: Environment) -> Seq<ActionKind>
        decreases self.distance(),
    {
        match self.kind() {
            None => Seq::empty(),
            Some(kind) => match self.advanced(env.answer(kind)) {
                Ok(next) => seq![kind] + next.trace(env),
                Err(_) => seq![kind],
            },
        }
    }

    /// The requests that are made from this state on, each with the paths it
    /// is about, for `tile` whose files lie under `data_dir`, when the world
    /// answers as `env` says.
    pub open spec fn requests(self, env: Environment, data_dir: Seq<char>, tile: Tile) -> Seq<
        ActionView,
    >
        decreases self.distance(),
    {
        match self.action(data_dir, tile) {
            None => Seq::empty(),
            Some(request) => match self.advanced(env.answer(request.kind())) {
                Ok(next) => seq![request] + next.requests(env, data_dir, tile),
                Err(_) => seq![request],
            },
        }
    }

    /// How acquisition ends from this state on, when the world answers as
    /// `env` says: with the tile cached, or with the first failure.
    pub open spec fn outcome(self, env: Environment) -> Result<(), DemError>
        decreases self.distance(),
    {
        match self.kind() {
            None => Ok(()),
            Some(kind) => match self.advanced(env.answer(kind)) {
                Ok(next) => next.outcome(env),
                Err(e) => Err(e),
            },
        }
    }
}

impl Environment {
    /// The answer to a request of the given kind.
    pub open spec fn answer(self, kind: ActionKind) -> bool {
        match kind {
            ActionKind::CheckRaster => self.raster_present,
            ActionKind::CheckArchive => self.archive_present,
            ActionKind::Download => self.download_ok,
            ActionKind::Extract => self.extract_ok,
        }
    }
}

/// The request to make in `state` for `tile`, whose files lie under
/// `data_dir`; `None` once the tile is cached and nothing is left to do.
pub fn next_action(state: &AcquisitionState, data_dir: &str, tile: &Tile) -> (action: Option<Action>)
    ensures
        match action {
            Some(a) => state.action(data_dir@, *tile) == Some(a@) && state.kind() == Some(a@.kind()),
            None => *state == AcquisitionState::Cached,
        },
{
    match *state {
        AcquisitionState::Unknown => Some(
            Action::CheckRaster { path: tile_path(data_dir, tile, "hgt") },
        ),
        AcquisitionState::RasterAbsent => Some(
            Action::CheckArchive { path: tile_path(data_dir, tile, "zip") },
        ),
        AcquisitionState::NeedFetch => {
            let filename = tile_filename(tile, "zip");
            Some(
                Action::Download {
                    url: dataset_url(&tile.dataset).concat(filename.as_str()),
                    destination: tile_path(data_dir, tile, "zip"),
                },
            )
        },
        AcquisitionState::NeedExtract => Some(
            Action::Extract {
                archive: tile_path(data_dir, tile, "zip"),
                destination_dir: String::from_str(data_dir),
            },
        ),
        AcquisitionState::Cached => None,
    }
}

/// The state that follows `state` once its request was answered with `ok`:
/// the file is there, or the operation succeeded. A failed download gives
/// `FetchFailed` and a failed extraction `ExtractFailed`; nothing is tried
/// again. Every step brings the end nearer.
pub fn advance(state: AcquisitionState, ok: bool) -> (next: Result<AcquisitionState, DemError>)
    ensures
        next == state.advanced(ok),
        next matches Ok(n) ==> n.distance() < state.distance() || state == AcquisitionState::Cached,
{
    match state {
        AcquisitionState::Unknown => if ok {
            Ok(AcquisitionState::Cached)
        } else {
            Ok(AcquisitionState::RasterAbsent)
        },
        AcquisitionState::RasterAbsent => if ok {
            Ok(AcquisitionState::NeedExtract)
        } else {
            Ok(AcquisitionState::NeedFetch)
        },
        AcquisitionState::NeedFetch => if ok {
            Ok(AcquisitionState::NeedExtract)
        } else {
            Err(DemError::FetchFailed)
        },
        AcquisitionState::NeedExtract => if ok {
            Ok(AcquisitionState::Cached)
        } else {
            Err(DemError::ExtractFailed)
        },
        AcquisitionState::Cached => Ok(AcquisitionState::Cached),
    }
}

/// Which of the four requests each of `requests` is, in the same order.
pub open spec fn kinds(requests: Seq<ActionView>) -> Seq<ActionKind> {
    Seq::new(requests.len(), |i: int| requests[i].kind())
}

/// Each of `actions` with its texts as sequences of characters, in the same
/// order.
pub open spec fn views(actions: Seq<Action>) -> Seq<ActionView> {
    Seq::new(actions.len(), |i: int| actions[i]@)
}

impl Environment {
    /// What this world answers to `action`.
    pub fn answer_to(&self, action: &Action) -> (ok: bool)
        ensures
            ok == self.answer(action@.kind()),
    {
        match action {
            Action::CheckRaster { .. } => self.raster_present,
            Action::CheckArchive { .. } => self.archive_present,
            Action::Download { .. } => self.download_ok,
            Action::Extract { .. } => self.extract_ok,
        }
    }
}

/// Goes through the acquisition of `tile`, whose files lie under `data_dir`,
/// in a world that answers as `env` says, touching nothing: the requests that
/// would be made, each with its paths and in their order, and how the
/// acquisition would end.
pub fn dry_run(env: &Environment, data_dir: &str, tile: &Tile) -> (run: (
    Vec<Action>,
    Result<(), DemError>,
))
    ensures
        views(run.0@) == AcquisitionState::Unknown.requests(*env, data_dir@, *tile),
        kinds(views(run.0@)) == AcquisitionState::Unknown.trace(*env),
        run.1 == AcquisitionState::Unknown.outcome(*env),
        run.0@.len() <= 4,
{
    let mut state = AcquisitionState::Unknown;
    let mut actions: Vec<Action> = Vec::new();
    assert(views(actions@) + state.requests(*env, data_dir@, *tile)
        =~= AcquisitionState::Unknown.requests(*env, data_dir@, *tile));
    loop
        invariant
            views(actions@) + state.requests(*env, data_dir@, *tile)
                == AcquisitionState::Unknown.requests(*env, data_dir@, *tile),
            state.outcome(*env) == AcquisitionState::Unknown.outcome(*env),
            actions@.len() + state.distance() <= 4,
        decreases state.distance(),
    {
        match next_action(&state, data_dir, tile) {
            None => {
                assert(views(actions@) + Seq::<ActionView>::empty() =~= views(actions@));
                proof {
                    lemma_requests_follow_trace(
                        AcquisitionState::Unknown,
                        *env,
                        data_dir@,
                        *tile,
                    );
                }
                return (actions, Ok(()));
            },
            Some(action) => {
                let ok = env.answer_to(&action);
                let ghost before = actions@;
                let ghost request = action@;
                actions.push(action);
                assert(views(actions@) =~= views(before) + seq![request]);
                match advance(state, ok) {
                    Ok(next) => {
                        assert(views(before) + (seq![request] + next.requests(
                            *env,
                            data_dir@,
                            *tile,
                        )) =~= views(actions@) + next.requests(*env, data_dir@, *tile));
                        state = next;
                    },
                    Err(error) => {
                        proof {
                            lemma_requests_follow_trace(
                                AcquisitionState::Unknown,
                                *env,
                                data_dir@,
                                *tile,
                            );
                        }
                        return (actions, Err(error));
                    },
                }
            },
        }
    }
}

/// The requests that are made are those of the trace, one for one: the paths
/// they are about change nothing in what is asked, nor in its order.
pub proof fn lemma_requests_follow_trace(
    state: AcquisitionState,
    env: Environment,
    data_dir: Seq<char>,
    tile: Tile,
)
    ensures
        kinds(state.requests(env, data_dir, tile)) == state.trace(env),
    decreases state.distance(),
{
    match state.action(data_dir, tile) {
        None => {
            assert(kinds(state.requests(env, data_dir, tile)) =~= state.trace(env));
        },
        Some(request) => match state.advanced(env.answer(request.kind())) {
            Ok(next) => {
                lemma_requests_follow_trace(next, env, data_dir, tile);
                assert(kinds(seq![request] + next.requests(env, data_dir, tile)) =~= seq![
                    request.kind(),
                ] + kinds(next.requests(env, data_dir, tile)));
            },
            Err(_) => {
                assert(kinds(seq![request]) =~= seq![request.kind()]);
            },
        },
    }
}

/// From any state on, no more requests are made than the state is far from the
/// end: four at most, and one fewer after every request that was answered.
pub proof fn lemma_trace_is_short(state: AcquisitionState, env: Environment)
    ensures
        state.trace(env).len() <= state.distance() <= 4,
    decreases state.distance(),
{
    match state.kind() {
        None => {},
        Some(kind) => match state.advanced(env.answer(kind)) {
            Ok(next) => lemma_trace_is_short(next, env),
            Err(_) => {},
        },
    }
}

/// Where the raster file is there already, acquisition looks for it and does
/// nothing else: nothing is downloaded and nothing is extracted.
pub proof fn lemma_fast_path(env: Environment)
    requires
        env.raster_present,
    ensures
        AcquisitionState::Unknown.trace(env) == seq![ActionKind::CheckRaster],
        !AcquisitionState::Unknown.trace(env).contains(ActionKind::Download),
        !AcquisitionState::Unknown.trace(env).contains(ActionKind::Extract),
        AcquisitionState::Unknown.outcome(env) == Ok::<(), DemError>(()),
{
    reveal_with_fuel(AcquisitionState::trace, 3);
    reveal_with_fuel(AcquisitionState::outcome, 3);
    assert(AcquisitionState::Unknown.trace(env) =~= seq![ActionKind::CheckRaster]);
}

/// Where only the archive is there, it is extracted once and nothing is
/// downloaded.
pub proof fn lemma_extract_path(env: Environment)
    requires
        !env.raster_present,
        env.archive_present,
    ensures
        AcquisitionState::Unknown.trace(env) == seq![
            ActionKind::CheckRaster,
            ActionKind::CheckArchive,
            ActionKind::Extract,
        ],
        AcquisitionState::Unknown.outcome(env) == if env.extract_ok {
            Ok::<(), DemError>(())
        } else {
            Err::<(), DemError>(DemError::ExtractFailed)
        },
{
    reveal_with_fuel(AcquisitionState::trace, 5);
    reveal_with_fuel(AcquisitionState::outcome, 5);
    assert(AcquisitionState::Unknown.trace(env) =~= seq![
        ActionKind::CheckRaster,
        ActionKind::CheckArchive,
        ActionKind::Extract,
    ]);
}

/// Where neither file is there and the download succeeds, the archive is
/// downloaded once and then extracted once, in that order.
pub proof fn lemma_full_path(env: Environment)
    requires
        !env.raster_present,
        !env.archive_present,
        env.download_ok,
    ensures
        AcquisitionState::Unknown.trace(env) == seq![
            ActionKind::CheckRaster,
            ActionKind::CheckArchive,
            ActionKind::Download,
            ActionKind::Extract,
        ],
        AcquisitionState::Unknown.outcome(env) == if env.extract_ok {
            Ok::<(), DemError>(())
        } else {
            Err::<(), DemError>(DemError::ExtractFailed)
        },
{
    reveal_with_fuel(AcquisitionState::trace, 6);
    reveal_with_fuel(AcquisitionState::outcome, 6);
    assert(AcquisitionState::Unknown.trace(env) =~= seq![
        ActionKind::CheckRaster,
        ActionKind::CheckArchive,
        ActionKind::Download,
        ActionKind::Extract,
    ]);
}

/// A download that fails ends the acquisition there: nothing is extracted.
pub proof fn lemma_failed_download(env: Environment)
    requires
        !env.raster_present,
        !env.archive_present,
        !env.download_ok,
    ensures
        AcquisitionState::Unknown.trace(env) == seq![
            ActionKind::CheckRaster,
            ActionKind::CheckArchive,
            ActionKind::Download,
        ],
        AcquisitionState::Unknown.outcome(env) == Err::<(), DemError>(DemError::FetchFailed),
{
    reveal_with_fuel(AcquisitionState::trace, 5);
    reveal_with_fuel(AcquisitionState::outcome, 5);
    assert(AcquisitionState::Unknown.trace(env) =~= seq![
        ActionKind::CheckRaster,
        ActionKind::CheckArchive,
        ActionKind::Download,
    ]);
}

} // verus!
