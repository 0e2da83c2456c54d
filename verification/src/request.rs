use vstd::prelude::*;
use crate::acquisition::{
    advance, next_action, views, AcquisitionState, Action, ActionView, Environment,
};
use crate::coordinate::Location;
use crate::dataset::Dataset;
use crate::error::DemError;
use crate::tile::{resolve_tiles, Tile};

verus! {

/// Which of the two corner tiles of a request is being acquired, and how far
/// its acquisition has come. The second tile is not looked at before the
/// first is cached, and the request is through when the second is.
#[derive(Clone, Copy, Debug, PartialEq, Eq, Structural)]
pub enum Stage {
    First(AcquisitionState),
    Second(AcquisitionState),
}

/// A request for the grid between two corner points: the tiles of the two
/// corners, the tile of the first corner first, and the stage of their
/// acquisition.
#[derive(Clone, Copy, Debug, PartialEq, Eq, Structural)]
pub struct Request {
    pub first: Tile,
    pub second: Tile,
    pub stage: Stage,
}

impl Stage {
    /// The same stage, with a first tile that is cached read as a second tile
    /// of which nothing is known yet.
    pub open spec fn settled(self) -> Stage {
        match self {
            Stage::First(AcquisitionState::Cached) => Stage::Second(AcquisitionState::Unknown),
            _ => self,
        }
    }

    /// The most requests that can still follow from this stage.
    pub open spec fn distance(self) -> nat {
        match self.settled() {
            Stage::First(state) => 4 + state.distance(),
            Stage::Second(state) => state.distance(),
        }
    }
}

impl Request {
    /// The request as it starts: nothing is known of either tile.
    pub open spec fn fresh(first: Tile, second: Tile) -> Request {
        Request { first, second, stage: Stage::First(AcquisitionState::Unknown) }
    }

    /// The tile that is being acquired.
    pub open spec fn tile(self) -> Tile {
        match self.stage.settled() {
            Stage::First(_) => self.first,
            Stage::Second(_) => self.second,
        }
    }

    /// How far the acquisition of the tile that is being acquired has come.
    pub open spec fn tile_state(self) -> AcquisitionState {
        match self.stage.settled() {
            Stage::First(state) => state,
            Stage::Second(state) => state,
        }
    }

    /// Both tiles are cached: nothing is left to ask.
    pub open spec fn done(self) -> bool {
        self.stage.settled() == Stage::Second(AcquisitionState::Cached)
    }

    /// What has to be asked next, for tiles whose files lie under `data_dir`:
    /// the request of the tile that is being acquired.
    pub open spec fn action(self, data_dir: Seq<char>) -> Option<ActionView> {
        self.tile_state().action(data_dir, self.tile())
    }

    /// The request after its question was answered with `ok`. The first tile,
    /// once cached, gives way to the second; a failure of either tile ends
    /// the request.
    pub open spec fn advanced(self, ok: bool) -> Result<Request, DemError> {
        match self.tile_state().advanced(ok) {
            Err(error) => Err(error),
            Ok(next) => Ok(
                Request {
                    first: self.first,
                    second: self.second,
                    stage: match self.stage.settled() {
                        Stage::First(_) => Stage::First(next).settled(),
                        Stage::Second(_) => Stage::Second(next),
                    },
                },
            ),
        }
    }

    /// The world that answers for the tile that is being acquired: `env_1`
    /// for the first tile, `env_2` for the second.
    pub open spec fn world(self, env_1: Environment, env_2: Environment) -> Environment {
        match self.stage.settled() {
            Stage::First(_) => env_1,
            Stage::Second(_) => env_2,
        }
    }

    /// Everything that is asked from here on, in its order, when the world
    /// answers as `env_1` says for the first tile and as `env_2` says for the
    /// second.
    pub open spec fn requests(self, env_1: Environment, env_2: Environment, data_dir: Seq<char>) -> Seq<
        ActionView,
    >
        decreases self.stage.distance(),
    {
        match self.action(data_dir) {
            None => Seq::empty(),
            Some(request) => match self.advanced(self.world(env_1, env_2).answer(request.kind())) {
                Ok(next) => seq![request] + next.requests(env_1, env_2, data_dir),
                Err(_) => seq![request],
            },
        }
    }

    /// How the request ends from here on: with both tiles cached, or with the
    /// first failure of either.
    pub open spec fn outcome(self, env_1: Environment, env_2: Environment) -> Result<(), DemError>
        decreases self.stage.distance(),
    {
        match self.tile_state().kind() {
            None => Ok(()),
            Some(kind) => match self.advanced(self.world(env_1, env_2).answer(kind)) {
                Ok(next) => next.outcome(env_1, env_2),
                Err(error) => Err(error),
            },
        }
    }

    /// Starts the request for the grid of `dataset` between two corner
    /// points, if the catalog lists the tiles of both corners. A tile that it
    /// does not list fails the request before anything is asked: nothing is
    /// looked for, downloaded or extracted.
    pub fn start(dataset: Dataset, point_1: &Location, point_2: &Location) -> (request: Result<
        Request,
        DemError,
    >)
        ensures
            request == if Tile::containing(*point_1, dataset).listed() && Tile::containing(
                *point_2,
                dataset,
            ).listed() {
                Ok::<Request, DemError>(
                    Request::fresh(
                        Tile::containing(*point_1, dataset),
                        Tile::containing(*point_2, dataset),
                    ),
                )
            } else {
                Err::<Request, DemError>(DemError::TileUnavailable)
            },
    {
        match resolve_tiles(dataset, point_1, point_2) {
            Ok((first, second)) => Ok(
                Request { first, second, stage: Stage::First(AcquisitionState::Unknown) },
            ),
            Err(error) => Err(error),
        }
    }

    fn settle(&self) -> (settled: (Tile, AcquisitionState, bool))
        ensures
            settled.0 == self.tile(),
            settled.1 == self.tile_state(),
            settled.2 == (self.stage.settled() is Second),
    {
        match self.stage {
            Stage::First(AcquisitionState::Cached) => (self.second, AcquisitionState::Unknown, true),
            Stage::First(state) => (self.first, state, false),
            Stage::Second(state) => (self.second, state, true),
        }
    }

    /// The tile that is being acquired.
    pub fn current_tile(&self) -> (tile: Tile)
        ensures
            tile == self.tile(),
    {
        self.settle().0
    }

    /// What to ask next, for tiles whose files lie under `data_dir`; `None`
    /// once both tiles are cached.
    pub fn next_action(&self, data_dir: &str) -> (action: Option<Action>)
        ensures
            match action {
                Some(a) => self.action(data_dir@) == Some(a@),
                None => self.action(data_dir@).is_none() && self.done(),
            },
    {
        let (tile, state, _) = self.settle();
        next_action(&state, data_dir, &tile)
    }

    /// The request after its question was answered with `ok`: the file is
    /// there, or the operation succeeded. A failed download gives
    /// `FetchFailed` and a failed extraction `ExtractFailed`, for either
    /// tile, and the request is over. Every step brings the end nearer.
    pub fn advance(self, ok: bool) -> (next: Result<Request, DemError>)
        ensures
            next == self.advanced(ok),
            next matches Ok(n) ==> n.stage.distance() < self.stage.distance() || self.done(),
    {
        let (_, state, on_second) = self.settle();
        match advance(state, ok) {
            Err(error) => Err(error),
            Ok(next) => {
                let stage = if on_second {
                    Stage::Second(next)
                } else {
                    match next {
                        AcquisitionState::Cached => Stage::Second(AcquisitionState::Unknown),
                        _ => Stage::First(next),
                    }
                };
                Ok(Request { first: self.first, second: self.second, stage })
            },
        }
    }
}

/// Goes through the rest of `request`, for tiles whose files lie under
/// `data_dir`, in a world that answers as `env_1` says for the first tile and
/// as `env_2` says for the second, touching nothing: everything that would be
/// asked, each request with its paths and in their order, and how the request
/// would end.
pub fn dry_run_request(request: Request, env_1: &Environment, env_2: &Environment, data_dir: &str) -> (run: (
    Vec<Action>,
    Result<(), DemError>,
))
    ensures
        views(run.0@) == request.requests(*env_1, *env_2, data_dir@),
        run.1 == request.outcome(*env_1, *env_2),
        run.0@.len() <= request.stage.distance() <= 8,
{
    let mut current = request;
    let mut actions: Vec<Action> = Vec::new();
    assert(views(actions@) + current.requests(*env_1, *env_2, data_dir@) =~= request.requests(
        *env_1,
        *env_2,
        data_dir@,
    ));
    loop
        invariant
            views(actions@) + current.requests(*env_1, *env_2, data_dir@) == request.requests(
                *env_1,
                *env_2,
                data_dir@,
            ),
            current.outcome(*env_1, *env_2) == request.outcome(*env_1, *env_2),
            actions@.len() + current.stage.distance() <= request.stage.distance() <= 8,
        decreases current.stage.distance(),
    {
        match current.next_action(data_dir) {
            None => {
                assert(views(actions@) + Seq::<ActionView>::empty() =~= views(actions@));
                return (actions, Ok(()));
            },
            Some(action) => {
                let on_second = current.settle().2;
                let ok = if on_second {
                    env_2.answer_to(&action)
                } else {
                    env_1.answer_to(&action)
                };
                let ghost before = actions@;
                let ghost asked = action@;
                actions.push(action);
                assert(views(actions@) =~= views(before) + seq![asked]);
                match current.advance(ok) {
                    Ok(next) => {
                        assert(views(before) + (seq![asked] + next.requests(
                            *env_1,
                            *env_2,
                            data_dir@,
                        )) =~= views(actions@) + next.requests(*env_1, *env_2, data_dir@));
                        current = next;
                    },
                    Err(error) => {
                        return (actions, Err(error));
                    },
                }
            },
        }
    }
}

/// What follows the first tile, if its acquisition ends well: everything
/// that is asked of the second tile, of which nothing is known yet.
pub open spec fn then_second(
    first_outcome: Result<(), DemError>,
    second: Tile,
    env_2: Environment,
    data_dir: Seq<char>,
) -> Seq<ActionView> {
    match first_outcome {
        Ok(_) => AcquisitionState::Unknown.requests(env_2, data_dir, second),
        Err(_) => Seq::empty(),
    }
}

proof fn lemma_on_second(request: Request, env_1: Environment, env_2: Environment, data_dir: Seq<char>)
    requires
        request.stage.settled() is Second,
    ensures
        request.requests(env_1, env_2, data_dir) == request.tile_state().requests(
            env_2,
            data_dir,
            request.second,
        ),
        request.outcome(env_1, env_2) == request.tile_state().outcome(env_2),
    decreases request.stage.distance(),
{
    match request.action(data_dir) {
        None => {},
        Some(asked) => match request.advanced(env_2.answer(asked.kind())) {
            Ok(next) => lemma_on_second(next, env_1, env_2, data_dir),
            Err(_) => {},
        },
    }
}

proof fn lemma_on_first(request: Request, env_1: Environment, env_2: Environment, data_dir: Seq<char>)
    requires
        request.stage.settled() is First,
    ensures
        request.requests(env_1, env_2, data_dir) == request.tile_state().requests(
            env_1,
            data_dir,
            request.first,
        ) + then_second(request.tile_state().outcome(env_1), request.second, env_2, data_dir),
        request.outcome(env_1, env_2) == match request.tile_state().outcome(env_1) {
            Ok(_) => AcquisitionState::Unknown.outcome(env_2),
            Err(error) => Err(error),
        },
    decreases request.stage.distance(),
{
    let state = request.tile_state();
    let asked = state.action(data_dir, request.first).unwrap();
    let rest = then_second(state.outcome(env_1), request.second, env_2, data_dir);
    match request.advanced(env_1.answer(asked.kind())) {
        Ok(next) => {
            let after = state.advanced(env_1.answer(asked.kind())).unwrap();
            if after == AcquisitionState::Cached {
                lemma_on_second(next, env_1, env_2, data_dir);
                assert(state.outcome(env_1) == after.outcome(env_1));
                assert(after.requests(env_1, data_dir, request.first) =~= Seq::<ActionView>::empty());
            } else {
                lemma_on_first(next, env_1, env_2, data_dir);
            }
            assert(seq![asked] + (after.requests(env_1, data_dir, request.first) + rest) =~= (seq![
                asked,
            ] + after.requests(env_1, data_dir, request.first)) + rest);
        },
        Err(_) => {
            assert(seq![asked] + rest =~= seq![asked]);
        },
    }
}

/// The two tiles of a request are acquired one after the other. Everything
/// is asked of the first tile as if it were alone; the second tile follows,
/// as if it were alone too, only if the first was cached. A failure of the
/// first tile ends the request, and nothing is asked of the second.
pub proof fn lemma_request_in_order(
    first: Tile,
    second: Tile,
    env_1: Environment,
    env_2: Environment,
    data_dir: Seq<char>,
)
    ensures
        Request::fresh(first, second).requests(env_1, env_2, data_dir)
            == AcquisitionState::Unknown.requests(env_1, data_dir, first) + then_second(
            AcquisitionState::Unknown.outcome(env_1),
            second,
            env_2,
            data_dir,
        ),
        Request::fresh(first, second).outcome(env_1, env_2) == match AcquisitionState::Unknown.outcome(
            env_1,
        ) {
            Ok(_) => AcquisitionState::Unknown.outcome(env_2),
            Err(error) => Err(error),
        },
{
    lemma_on_first(Request::fresh(first, second), env_1, env_2, data_dir);
}

} // verus!
