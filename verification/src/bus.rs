//! Finding the bus device.
//!
//! The bus is looked for among its interface paths, in order. A path is
//! opened, an event for overlapped I/O is created, and the bus is asked whether
//! it speaks this crate's protocol version. The first path that passes all
//! three is the bus. A path that cannot be opened, or whose device refuses the
//! version, is passed over; failing to create the event ends the search. When
//! every path has been passed over, the search fails with the last path's
//! error, and without any path there is no bus.

use vstd::prelude::*;
use crate::action::{Action, ActionView};
use crate::error::Error;
use crate::paths::copy_path;
use crate::protocol::{check_version_request, spec_check_version};

verus! {

/// The bus device, known by the interface path it was opened at.
#[derive(Debug)]
pub struct GamepadBus {
    path: Vec<u16>,
}

impl View for GamepadBus {
    type V = Seq<u16>;

    closed spec fn view(&self) -> Seq<u16> {
        self.path@
    }
}

/// Where a search stands on its current path.
#[derive(Clone, Copy, Debug, PartialEq, Eq, Structural)]
pub enum BusStage {
    /// The current path is being opened.
    Opening,
    /// The path is open; the event for overlapped I/O is being created.
    CreatingEvent,
    /// The bus behind the path is being asked for the protocol version.
    CheckingVersion,
}

/// A search for the bus that is under way.
#[derive(Debug)]
pub struct BusSearch {
    paths: Vec<Vec<u16>>,
    index: usize,
    stage: BusStage,
}

pub struct BusSearchView {
    pub paths: Seq<Seq<u16>>,
    pub index: int,
    pub stage: BusStage,
}

impl View for BusSearch {
    type V = BusSearchView;

    closed spec fn view(&self) -> BusSearchView {
        BusSearchView {
            paths: self.paths@.map_values(|p: Vec<u16>| p@),
            index: self.index as int,
            stage: self.stage,
        }
    }
}

/// The result of one step of a search.
#[derive(Debug)]
pub enum BusStep {
    /// The search goes on with this action.
    Next(BusSearch, Action),
    /// The device at this path is the bus.
    Found(GamepadBus),
    /// The search is over without a bus.
    Failed(Error),
}

pub enum BusStepView {
    Next(BusSearchView, ActionView),
    Found(Seq<u16>),
    Failed(Error),
}

impl View for BusStep {
    type V = BusStepView;

    open spec fn view(&self) -> BusStepView {
        match self {
            BusStep::Next(s, a) => BusStepView::Next(s@, a@),
            BusStep::Found(b) => BusStepView::Found(b@),
            BusStep::Failed(e) => BusStepView::Failed(*e),
        }
    }
}

/// The first step of a search among `paths`.
pub open spec fn bus_start(paths: Seq<Seq<u16>>) -> BusStepView {
    if paths.len() == 0 {
        BusStepView::Failed(Error::BusNotFound)
    } else {
        BusStepView::Next(
            BusSearchView { paths, index: 0, stage: BusStage::Opening },
            ActionView::OpenPath(paths[0]),
        )
    }
}

/// The step after the current path was given up with `err`: on to the next
/// path, or, after the last one, failure with `err`.
pub open spec fn bus_pass_over(s: BusSearchView, err: Error) -> BusStepView {
    if s.index + 1 < s.paths.len() {
        BusStepView::Next(
            BusSearchView { paths: s.paths, index: s.index + 1, stage: BusStage::Opening },
            ActionView::OpenPath(s.paths[s.index + 1]),
        )
    } else {
        BusStepView::Failed(err)
    }
}

/// The step that follows `outcome` in search `s`.
pub open spec fn bus_next(s: BusSearchView, outcome: Result<(), i32>) -> BusStepView {
    match s.stage {
        BusStage::Opening => match outcome {
            Ok(()) => BusStepView::Next(
                BusSearchView { stage: BusStage::CreatingEvent, ..s },
                ActionView::CreateEvent,
            ),
            Err(code) => bus_pass_over(s, Error::Win32(code)),
        },
        BusStage::CreatingEvent => match outcome {
            Ok(()) => BusStepView::Next(
                BusSearchView { stage: BusStage::CheckingVersion, ..s },
                ActionView::Ioctl(spec_check_version()),
            ),
            Err(code) => BusStepView::Failed(Error::Win32(code)),
        },
        BusStage::CheckingVersion => match outcome {
            Ok(()) => BusStepView::Found(s.paths[s.index]),
            Err(_) => bus_pass_over(s, Error::VersionMismatch),
        },
    }
}

/// The step reached from `step` after the caller reported `outcomes`, one
/// after the other, for as long as the search went on.
pub open spec fn bus_run(step: BusStepView, outcomes: Seq<Result<(), i32>>) -> BusStepView
    decreases outcomes.len(),
{
    if outcomes.len() == 0 {
        step
    } else {
        match step {
            BusStepView::Next(s, _) => bus_run(bus_next(s, outcomes[0]), outcomes.drop_first()),
            _ => step,
        }
    }
}

/// How one path can fail the search.
pub enum PathTrial {
    /// The path cannot be opened; the `HRESULT` says why.
    CannotOpen(i32),
    /// The path opens and gets its event, but the device refuses the version.
    RefusesVersion(i32),
}

/// The outcomes the caller reports for a path that fails as `t` says.
pub open spec fn trial_outcomes(t: PathTrial) -> Seq<Result<(), i32>> {
    match t {
        PathTrial::CannotOpen(code) => seq![Err(code)],
        PathTrial::RefusesVersion(code) => seq![Ok(()), Ok(()), Err(code)],
    }
}

/// The error a failing path leaves behind.
pub open spec fn trial_error(t: PathTrial) -> Error {
    match t {
        PathTrial::CannotOpen(code) => Error::Win32(code),
        PathTrial::RefusesVersion(_) => Error::VersionMismatch,
    }
}

/// The outcomes for paths that fail one after the other.
pub open spec fn trials_outcomes(ts: Seq<PathTrial>) -> Seq<Result<(), i32>> {
    ts.map_values(|t: PathTrial| trial_outcomes(t)).flatten()
}

/// The outcomes for a path that passes: it opens, gets its event, and accepts the version.
pub open spec fn passing_outcomes() -> Seq<Result<(), i32>> {
    seq![Ok(()), Ok(()), Ok(())]
}

/// The search about to open path `i` of `paths`.
pub open spec fn bus_opening(paths: Seq<Seq<u16>>, i: int) -> BusStepView {
    BusStepView::Next(
        BusSearchView { paths, index: i, stage: BusStage::Opening },
        ActionView::OpenPath(paths[i]),
    )
}

proof fn lemma_bus_run_concat(step: BusStepView, a: Seq<Result<(), i32>>, b: Seq<Result<(), i32>>)
    ensures
        bus_run(step, a + b) == bus_run(bus_run(step, a), b),
    decreases a.len(),
{
    if a.len() == 0 {
        assert(a + b =~= b);
    } else {
        assert((a + b).drop_first() =~= a.drop_first() + b);
        assert((a + b)[0] == a[0]);
        match step {
            BusStepView::Next(s, _) => {
                lemma_bus_run_concat(bus_next(s, a[0]), a.drop_first(), b);
            },
            _ => {
                assert(bus_run(step, a + b) == step);
                if b.len() > 0 {
                }
            },
        }
    }
}

proof fn lemma_stopped_stays(step: BusStepView, outcomes: Seq<Result<(), i32>>)
    requires
        !(step is Next),
    ensures
        bus_run(step, outcomes) == step,
{
    if outcomes.len() > 0 {
    }
}

proof fn lemma_one_trial(paths: Seq<Seq<u16>>, i: int, t: PathTrial)
    requires
        0 <= i < paths.len(),
    ensures
        bus_run(bus_opening(paths, i), trial_outcomes(t)) == (if i + 1 < paths.len() {
            bus_opening(paths, i + 1)
        } else {
            BusStepView::Failed(trial_error(t))
        }),
{
    let o = trial_outcomes(t);
    let s0 = BusSearchView { paths, index: i, stage: BusStage::Opening };
    let empty = Seq::<Result<(), i32>>::empty();
    match t {
        PathTrial::CannotOpen(code) => {
            assert(o.drop_first() =~= empty);
            let after = bus_next(s0, Err(code));
            assert(bus_run(after, empty) == after);
            assert(bus_run(bus_opening(paths, i), o) == bus_run(after, o.drop_first()));
            if i + 1 < paths.len() {
                assert(after == bus_opening(paths, i + 1));
            }
        },
        PathTrial::RefusesVersion(code) => {
            let o1 = o.drop_first();
            let o2 = o1.drop_first();
            assert(o1 =~= seq![Ok(()), Err(code)]);
            assert(o2 =~= seq![Err(code)]);
            assert(o2.drop_first() =~= empty);
            let s1 = BusSearchView { stage: BusStage::CreatingEvent, ..s0 };
            let s2 = BusSearchView { stage: BusStage::CheckingVersion, ..s0 };
            let after = bus_next(s2, Err(code));
            assert(bus_run(after, empty) == after);
            assert(bus_run(BusStepView::Next(s2, ActionView::Ioctl(spec_check_version())), o2) == after);
            assert(bus_run(BusStepView::Next(s1, ActionView::CreateEvent), o1) == after);
            assert(bus_run(bus_opening(paths, i), o) == after);
            if i + 1 < paths.len() {
                assert(after == bus_opening(paths, i + 1));
            }
        },
    }
}

proof fn lemma_trials_from(paths: Seq<Seq<u16>>, i: int, ts: Seq<PathTrial>)
    requires
        0 <= i,
        i + ts.len() <= paths.len(),
        i < paths.len(),
    ensures
        bus_run(bus_opening(paths, i), trials_outcomes(ts)) == (if i + ts.len() < paths.len() {
            bus_opening(paths, i + ts.len())
        } else {
            BusStepView::Failed(trial_error(ts.last()))
        }),
    decreases ts.len(),
{
    let f = |t: PathTrial| trial_outcomes(t);
    if ts.len() == 0 {
        assert(ts.map_values(f) =~= Seq::<Seq<Result<(), i32>>>::empty());
    } else {
        let first = ts[0];
        let rest = ts.drop_first();
        assert(ts.map_values(f).drop_first() =~= rest.map_values(f));
        assert(ts.map_values(f).first() == trial_outcomes(first));
        assert(trials_outcomes(ts) == trial_outcomes(first) + trials_outcomes(rest));
        lemma_bus_run_concat(bus_opening(paths, i), trial_outcomes(first), trials_outcomes(rest));
        lemma_one_trial(paths, i, first);
        if i + 1 < paths.len() {
            lemma_trials_from(paths, i + 1, rest);
            if rest.len() > 0 {
                assert(rest.last() == ts.last());
            }
        } else {
            assert(rest.len() == 0);
            assert(ts.last() == first);
            lemma_stopped_stays(BusStepView::Failed(trial_error(first)), trials_outcomes(rest));
        }
    }
}

/// The bus is the first path that passes: when the paths before it fail, each
/// in its own way, the search finds the path after them.
pub proof fn lemma_bus_search_takes_first_passing_path(paths: Seq<Seq<u16>>, failing: Seq<PathTrial>)
    requires
        failing.len() < paths.len(),
    ensures
        bus_run(bus_start(paths), trials_outcomes(failing) + passing_outcomes())
            == BusStepView::Found(paths[failing.len() as int]),
{
    lemma_trials_from(paths, 0, failing);
    lemma_bus_run_concat(bus_start(paths), trials_outcomes(failing), passing_outcomes());
    let k = failing.len() as int;
    assert(bus_start(paths) == bus_opening(paths, 0));
    let p = passing_outcomes();
    assert(p.drop_first() =~= seq![Ok(()), Ok(())]);
    assert(p.drop_first().drop_first() =~= seq![Ok(())]);
    assert(p.drop_first().drop_first().drop_first() =~= Seq::<Result<(), i32>>::empty());
    let s0 = BusSearchView { paths, index: k, stage: BusStage::Opening };
    let s1 = BusSearchView { stage: BusStage::CreatingEvent, ..s0 };
    let s2 = BusSearchView { stage: BusStage::CheckingVersion, ..s0 };
    assert(bus_next(s0, Ok(())) == BusStepView::Next(s1, ActionView::CreateEvent));
    assert(bus_next(s1, Ok(())) == BusStepView::Next(s2, ActionView::Ioctl(spec_check_version())));
    assert(bus_next(s2, Ok(())) == BusStepView::Found(paths[k]));
    let found = BusStepView::Found(paths[k]);
    assert(bus_run(found, Seq::<Result<(), i32>>::empty()) == found);
    assert(bus_run(BusStepView::Next(s2, ActionView::Ioctl(spec_check_version())), seq![Ok(())]) == found);
    assert(bus_run(BusStepView::Next(s1, ActionView::CreateEvent), seq![Ok(()), Ok(())]) == found);
    assert(bus_run(bus_opening(paths, k), p) == found);
}

/// When every path fails, the search fails with the error of the last path.
pub proof fn lemma_bus_search_fails_with_last_error(paths: Seq<Seq<u16>>, failing: Seq<PathTrial>)
    requires
        failing.len() == paths.len(),
        paths.len() > 0,
    ensures
        bus_run(bus_start(paths), trials_outcomes(failing)) == BusStepView::Failed(
            trial_error(failing.last()),
        ),
{
    assert(bus_start(paths) == bus_opening(paths, 0));
    lemma_trials_from(paths, 0, failing);
}

impl GamepadBus {
    /// The interface path of the bus, zero-terminated.
    pub fn path(&self) -> (r: &Vec<u16>)
        ensures
            r@ == self@,
    {
        &self.path
    }

    /// Starts looking for the bus among `paths`, in order.
    pub fn connect(paths: Vec<Vec<u16>>) -> (r: BusStep)
        ensures
            r@ == bus_start(paths@.map_values(|p: Vec<u16>| p@)),
    {
        if paths.len() == 0 {
            return BusStep::Failed(Error::BusNotFound);
        }
        let first = copy_path(&paths[0]);
        BusStep::Next(
            BusSearch { paths, index: 0, stage: BusStage::Opening },
            Action::OpenPath(first),
        )
    }
}

impl BusSearch {
    #[verifier::type_invariant]
    spec fn well_formed(self) -> bool {
        self.index < self.paths@.len()
    }

    /// The interface path being tried.
    pub fn current_path(&self) -> (r: &Vec<u16>)
        ensures
            0 <= self@.index < self@.paths.len(),
            r@ == self@.paths[self@.index],
    {
        proof {
            use_type_invariant(self);
        }
        &self.paths[self.index]
    }

    fn pass_over(self, err: Error) -> (r: BusStep)
        ensures
            r@ == bus_pass_over(self@, err),
    {
        proof {
            use_type_invariant(&self);
        }
        if self.index < self.paths.len() - 1 {
            let next = self.index + 1;
            let p = copy_path(&self.paths[next]);
            BusStep::Next(
                BusSearch { paths: self.paths, index: next, stage: BusStage::Opening },
                Action::OpenPath(p),
            )
        } else {
            BusStep::Failed(err)
        }
    }

    /// Takes the outcome (`Ok`, or the failure's `HRESULT`) of the action last
    /// asked for, and decides the next step.
    pub fn advance(self, outcome: Result<(), i32>) -> (r: BusStep)
        ensures
            r@ == bus_next(self@, outcome),
    {
        proof {
            use_type_invariant(&self);
        }
        match self.stage {
            BusStage::Opening => match outcome {
                Ok(()) => BusStep::Next(
                    BusSearch { paths: self.paths, index: self.index, stage: BusStage::CreatingEvent },
                    Action::CreateEvent,
                ),
                Err(code) => self.pass_over(Error::Win32(code)),
            },
            BusStage::CreatingEvent => match outcome {
                Ok(()) => BusStep::Next(
                    BusSearch {
                        paths: self.paths,
                        index: self.index,
                        stage: BusStage::CheckingVersion,
                    },
                    Action::Ioctl(check_version_request()),
                ),
                Err(code) => BusStep::Failed(Error::Win32(code)),
            },
            BusStage::CheckingVersion => match outcome {
                Ok(()) => {
                    let mut paths = self.paths;
                    let path = paths.remove(self.index);
                    BusStep::Found(GamepadBus { path })
                },
                Err(_) => self.pass_over(Error::VersionMismatch),
            },
        }
    }
}

} // verus!
