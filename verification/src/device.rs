//! The virtual controller as a whole, and how one is set up.
//!
//! Setting a controller up finds the bus, plugs a wired Xbox 360 controller
//! into it and waits until the system has picked it up. When the system does
//! not pick it up, the controller is unplugged again, whatever that request's
//! outcome, and the setup fails with the error of the wait. A controller that
//! is set up is to be unplugged again when it is no longer used.

use vstd::prelude::*;
use crate::action::{Action, ActionView};
use crate::bus::{
    bus_next, bus_run, bus_start, BusSearch, BusSearchView, BusStep, BusStepView, GamepadBus,
};
use crate::error::Error;
use crate::protocol::{
    spec_plugin, spec_submit_report, spec_unplug, spec_user_index, spec_wait_ready, IoctlRequest,
};
use crate::report::XGamepad;
use crate::target::{
    attached, plugin_next, plugin_start, request_result, sent_result,
    unplug_request_of, wait_ready_result, when_attached, NotificationListener,
    NotificationListenerView, PluginSearch, PluginSearchView, PluginStep, PluginStepView,
    plugin_try, refusals, PluginStage, XusbTarget, XusbTargetView, SERIAL_LIMIT,
};
use crate::wire::read_u32;

verus! {

/// A virtual Xbox 360 controller, plugged into the bus.
#[derive(Debug)]
pub struct AllunoGamepad {
    inner: XusbTarget,
}

impl View for AllunoGamepad {
    type V = XusbTargetView;

    closed spec fn view(&self) -> XusbTargetView {
        self.inner@
    }
}

/// Where a setup stands.
#[derive(Debug)]
pub enum SetupStage {
    /// The bus's interface paths are being listed.
    ListingPaths,
    /// The bus is being looked for.
    FindingBus(BusSearch),
    /// The controller is being plugged in.
    Plugging(PluginSearch),
    /// The controller is plugged in; the system is picking it up.
    WaitingReady(XusbTarget),
    /// The system did not pick the controller up; it is being unplugged
    /// before the setup fails with this error.
    Unplugging(XusbTarget, Error),
}

/// A setup that is under way.
#[derive(Debug)]
pub struct GamepadSetup {
    stage: SetupStage,
}

pub enum SetupView {
    ListingPaths,
    FindingBus(BusSearchView),
    Plugging(PluginSearchView),
    WaitingReady(XusbTargetView),
    Unplugging(XusbTargetView, Error),
}

impl View for GamepadSetup {
    type V = SetupView;

    closed spec fn view(&self) -> SetupView {
        match self.stage {
            SetupStage::ListingPaths => SetupView::ListingPaths,
            SetupStage::FindingBus(s) => SetupView::FindingBus(s@),
            SetupStage::Plugging(s) => SetupView::Plugging(s@),
            SetupStage::WaitingReady(t) => SetupView::WaitingReady(t@),
            SetupStage::Unplugging(t, e) => SetupView::Unplugging(t@, e),
        }
    }
}

/// The result of one step of a setup.
#[derive(Debug)]
pub enum SetupStep {
    /// The setup goes on with this action.
    Next(GamepadSetup, Action),
    /// The controller is ready.
    Ready(AllunoGamepad),
    /// The setup failed.
    Failed(Error),
}

pub enum SetupStepView {
    Next(SetupView, ActionView),
    Ready(XusbTargetView),
    Failed(Error),
}

impl View for SetupStep {
    type V = SetupStepView;

    open spec fn view(&self) -> SetupStepView {
        match self {
            SetupStep::Next(s, a) => SetupStepView::Next(s@, a@),
            SetupStep::Ready(g) => SetupStepView::Ready(g@),
            SetupStep::Failed(e) => SetupStepView::Failed(*e),
        }
    }
}

/// The first step of a setup: list the bus's interface paths.
pub open spec fn setup_start() -> SetupStepView {
    SetupStepView::Next(SetupView::ListingPaths, ActionView::ListBusPaths)
}

/// The setup step for a plug-in step: a plugged-in controller is waited for.
pub open spec fn setup_plugging(step: PluginStepView) -> SetupStepView {
    match step {
        PluginStepView::Next(s, a) => SetupStepView::Next(SetupView::Plugging(s), a),
        PluginStepView::Plugged(t) => match when_attached(t, spec_wait_ready(t.serial_no)) {
            Ok(req) => SetupStepView::Next(SetupView::WaitingReady(t), ActionView::Ioctl(req)),
            Err(e) => SetupStepView::Failed(e),
        },
        PluginStepView::Failed(e) => SetupStepView::Failed(e),
    }
}

/// The setup step for a bus-search step: once the bus is found, a controller is plugged into it.
pub open spec fn setup_finding_bus(step: BusStepView) -> SetupStepView {
    match step {
        BusStepView::Next(s, a) => SetupStepView::Next(SetupView::FindingBus(s), a),
        BusStepView::Found(bus) => setup_plugging(plugin_start(bus)),
        BusStepView::Failed(e) => SetupStepView::Failed(e),
    }
}

/// The step reached from `step` after the caller reported `outcomes`, one
/// after the other, for as long as the setup went on.
pub open spec fn setup_run(step: SetupStepView, outcomes: Seq<Result<(), i32>>) -> SetupStepView
    decreases outcomes.len(),
{
    if outcomes.len() == 0 {
        step
    } else {
        match step {
            SetupStepView::Next(s, _) => setup_run(setup_next(s, outcomes[0]), outcomes.drop_first()),
            _ => step,
        }
    }
}

proof fn lemma_setup_follows_failed_search(step: BusStepView, outcomes: Seq<Result<(), i32>>)
    requires
        bus_run(step, outcomes) is Failed,
    ensures
        setup_run(setup_finding_bus(step), outcomes) == SetupStepView::Failed(
            bus_run(step, outcomes)->Failed_0,
        ),
    decreases outcomes.len(),
{
    if outcomes.len() == 0 {
    } else {
        match step {
            BusStepView::Next(s, _) => {
                lemma_setup_follows_failed_search(bus_next(s, outcomes[0]), outcomes.drop_first());
            },
            BusStepView::Found(_) => {
            },
            BusStepView::Failed(e) => {
                assert(setup_run(SetupStepView::Failed(e), outcomes) == SetupStepView::Failed(e));
            },
        }
    }
}

/// Without a bus there is no controller: when the caller reports the same
/// outcomes to a setup as to a search for the bus among the same paths, and the
/// search ends without a bus, the setup fails with the search's error.
pub proof fn lemma_no_bus_no_gamepad(paths: Seq<Seq<u16>>, outcomes: Seq<Result<(), i32>>)
    requires
        bus_run(bus_start(paths), outcomes) is Failed,
    ensures
        setup_run(setup_finding_bus(bus_start(paths)), outcomes) == SetupStepView::Failed(
            bus_run(bus_start(paths), outcomes)->Failed_0,
        ),
{
    lemma_setup_follows_failed_search(bus_start(paths), outcomes);
}

proof fn lemma_setup_run_stopped(step: SetupStepView, outcomes: Seq<Result<(), i32>>)
    requires
        !(step is Next),
    ensures
        setup_run(step, outcomes) == step,
{
    if outcomes.len() > 0 {
    }
}

proof fn lemma_setup_plugging_from(bus: Seq<u16>, serial_no: u32, count: nat, code: i32)
    requires
        1 <= serial_no < SERIAL_LIMIT,
    ensures
        setup_run(setup_plugging(plugin_try(bus, serial_no)), refusals(count, code).push(Ok(())))
            == (if serial_no + count < SERIAL_LIMIT {
            SetupStepView::Next(
                SetupView::WaitingReady(
                    XusbTargetView { bus, serial_no: (serial_no + count) as u32 },
                ),
                ActionView::Ioctl(spec_wait_ready((serial_no + count) as u32)),
            )
        } else {
            SetupStepView::Failed(Error::NoFreeSlot)
        }),
    decreases count,
{
    let outcomes = refusals(count, code).push(Ok(()));
    let p = PluginSearchView { bus, stage: PluginStage::Plugging(serial_no) };
    let empty = Seq::<Result<(), i32>>::empty();
    assert(setup_plugging(plugin_try(bus, serial_no)) == SetupStepView::Next(
        SetupView::Plugging(p),
        ActionView::Ioctl(spec_plugin(serial_no)),
    ));
    if count == 0 {
        assert(outcomes.drop_first() =~= empty);
        assert(outcomes[0] == Ok::<(), i32>(()));
        let done = setup_next(SetupView::Plugging(p), Ok(()));
        assert(setup_run(done, empty) == done);
    } else {
        let rest = outcomes.drop_first();
        assert(rest =~= refusals((count - 1) as nat, code).push(Ok(())));
        assert(outcomes[0] == Err::<(), i32>(code));
        let after = setup_next(SetupView::Plugging(p), Err(code));
        assert(setup_run(setup_plugging(plugin_try(bus, serial_no)), outcomes) == setup_run(after, rest));
        if serial_no + 1 < SERIAL_LIMIT {
            assert(after == setup_plugging(plugin_try(bus, (serial_no + 1) as u32)));
            lemma_setup_plugging_from(bus, (serial_no + 1) as u32, (count - 1) as nat, code);
        } else {
            assert(after == SetupStepView::Failed(Error::NoFreeSlot));
            lemma_setup_run_stopped(after, rest);
        }
    }
}

/// Once the bus is found, a setup plugs its controller in under the first
/// serial number the bus accepts: when the event is created and the bus
/// refuses `count` numbers before it accepts one, the setup waits for the
/// controller with number `count + 1`, and once that wait succeeds the pad is
/// ready with that number. When the bus has refused every number below
/// [`SERIAL_LIMIT`], the setup fails with no free slot.
pub proof fn lemma_setup_plugs_in_first_accepted_serial(bus: Seq<u16>, count: nat, code: i32)
    ensures
        setup_run(
            setup_finding_bus(BusStepView::Found(bus)),
            seq![Ok(())] + refusals(count, code).push(Ok(())),
        ) == (if count + 1 < SERIAL_LIMIT {
            SetupStepView::Next(
                SetupView::WaitingReady(XusbTargetView { bus, serial_no: (count + 1) as u32 }),
                ActionView::Ioctl(spec_wait_ready((count + 1) as u32)),
            )
        } else {
            SetupStepView::Failed(Error::NoFreeSlot)
        }),
        count + 1 < SERIAL_LIMIT ==> setup_run(
            setup_finding_bus(BusStepView::Found(bus)),
            seq![Ok(())] + refusals(count, code).push(Ok(())).push(Ok(())),
        ) == SetupStepView::Ready(XusbTargetView { bus, serial_no: (count + 1) as u32 }),
{
    let tail = refusals(count, code).push(Ok(()));
    let outcomes = seq![Ok(())] + tail;
    let start = setup_finding_bus(BusStepView::Found(bus));
    let s0 = PluginSearchView { bus, stage: PluginStage::CreatingEvent };
    assert(start == SetupStepView::Next(SetupView::Plugging(s0), ActionView::CreateEvent));
    assert(outcomes.drop_first() =~= tail);
    assert(outcomes[0] == Ok::<(), i32>(()));
    assert(setup_next(SetupView::Plugging(s0), Ok(())) == setup_plugging(plugin_try(bus, 1)));
    lemma_setup_plugging_from(bus, 1, count, code);
    if count + 1 < SERIAL_LIMIT {
        let longer = outcomes.push(Ok(()));
        let t = XusbTargetView { bus, serial_no: (count + 1) as u32 };
        let waiting = SetupStepView::Next(
            SetupView::WaitingReady(t),
            ActionView::Ioctl(spec_wait_ready((count + 1) as u32)),
        );
        lemma_setup_run_concat(start, outcomes, seq![Ok(())]);
        assert(outcomes + seq![Ok(())] =~= longer);
        assert(seq![Ok(())] + tail.push(Ok(())) =~= longer);
        let ready = SetupStepView::Ready(t);
        assert(seq![Ok::<(), i32>(())].drop_first() =~= Seq::<Result<(), i32>>::empty());
        assert(setup_run(ready, Seq::<Result<(), i32>>::empty()) == ready);
        assert(setup_run(waiting, seq![Ok(())]) == ready);
    }
}

proof fn lemma_setup_run_concat(
    step: SetupStepView,
    a: Seq<Result<(), i32>>,
    b: Seq<Result<(), i32>>,
)
    ensures
        setup_run(step, a + b) == setup_run(setup_run(step, a), b),
    decreases a.len(),
{
    if a.len() == 0 {
        assert(a + b =~= b);
    } else {
        assert((a + b).drop_first() =~= a.drop_first() + b);
        assert((a + b)[0] == a[0]);
        match step {
            SetupStepView::Next(s, _) => {
                lemma_setup_run_concat(setup_next(s, a[0]), a.drop_first(), b);
            },
            _ => {
                lemma_setup_run_stopped(step, a + b);
                lemma_setup_run_stopped(step, a);
                lemma_setup_run_stopped(step, b);
            },
        }
    }
}

/// The step that follows `outcome` in setup `s`.
pub open spec fn setup_next(s: SetupView, outcome: Result<(), i32>) -> SetupStepView {
    match s {
        SetupView::ListingPaths => SetupStepView::Next(s, ActionView::ListBusPaths),
        SetupView::FindingBus(b) => setup_finding_bus(bus_next(b, outcome)),
        SetupView::Plugging(p) => setup_plugging(plugin_next(p, outcome)),
        SetupView::WaitingReady(t) => match wait_ready_result(outcome) {
            Ok(()) => SetupStepView::Ready(t),
            Err(e) => match unplug_request_of(t) {
                Some(req) => SetupStepView::Next(SetupView::Unplugging(t, e), ActionView::Ioctl(req)),
                None => SetupStepView::Failed(e),
            },
        },
        SetupView::Unplugging(_, e) => SetupStepView::Failed(e),
    }
}

fn from_plugin_step(step: PluginStep) -> (r: SetupStep)
    requires
        step matches PluginStep::Plugged(t) ==> 1 <= t@.serial_no < SERIAL_LIMIT,
    ensures
        r@ == setup_plugging(step@),
{
    match step {
        PluginStep::Next(s, a) => SetupStep::Next(GamepadSetup { stage: SetupStage::Plugging(s) }, a),
        PluginStep::Plugged(t) => match t.wait_ready() {
            Ok(req) => SetupStep::Next(
                GamepadSetup { stage: SetupStage::WaitingReady(t) },
                Action::Ioctl(req),
            ),
            Err(e) => SetupStep::Failed(e),
        },
        PluginStep::Failed(e) => SetupStep::Failed(e),
    }
}

fn from_bus_step(step: BusStep) -> (r: SetupStep)
    ensures
        r@ == setup_finding_bus(step@),
{
    match step {
        BusStep::Next(s, a) => SetupStep::Next(GamepadSetup { stage: SetupStage::FindingBus(s) }, a),
        BusStep::Found(bus) => from_plugin_step(XusbTarget::plugin(bus)),
        BusStep::Failed(e) => SetupStep::Failed(e),
    }
}

impl GamepadSetup {
    #[verifier::type_invariant]
    spec fn well_formed(self) -> bool {
        &&& self.stage matches SetupStage::WaitingReady(t) ==> 1 <= t@.serial_no < SERIAL_LIMIT
        &&& self.stage matches SetupStage::Unplugging(t, _) ==> attached(t@)
    }

    /// Whether the setup waits for the bus's interface paths.
    pub fn awaits_paths(&self) -> (r: bool)
        ensures
            r == (self@ is ListingPaths),
    {
        match self.stage {
            SetupStage::ListingPaths => true,
            _ => false,
        }
    }

    /// Takes the interface paths of the bus, as the caller listed them, and
    /// starts looking for the bus among them.
    pub fn paths_listed(self, paths: Vec<Vec<u16>>) -> (r: SetupStep)
        requires
            self@ is ListingPaths,
        ensures
            r@ == setup_finding_bus(bus_start(paths@.map_values(|p: Vec<u16>| p@))),
    {
        from_bus_step(GamepadBus::connect(paths))
    }

    /// Takes the outcome (`Ok`, or the failure's `HRESULT`) of the action last
    /// asked for, and decides the next step. A controller that comes out ready
    /// is plugged in.
    pub fn advance(self, outcome: Result<(), i32>) -> (r: SetupStep)
        requires
            !(self@ is ListingPaths),
        ensures
            r@ == setup_next(self@, outcome),
            r matches SetupStep::Ready(g) ==> attached(g@) && 1 <= g@.serial_no < SERIAL_LIMIT,
            self@ matches SetupView::WaitingReady(t) ==> match wait_ready_result(outcome) {
                Ok(()) => r@ == SetupStepView::Ready(t),
                Err(e) => r@ == SetupStepView::Next(
                    SetupView::Unplugging(t, e),
                    ActionView::Ioctl(spec_unplug(t.serial_no)),
                ),
            },
    {
        proof {
            use_type_invariant(&self);
        }
        match self.stage {
            SetupStage::ListingPaths => SetupStep::Next(self, Action::ListBusPaths),
            SetupStage::FindingBus(s) => from_bus_step(s.advance(outcome)),
            SetupStage::Plugging(p) => from_plugin_step(p.advance(outcome)),
            SetupStage::WaitingReady(t) => match XusbTarget::wait_ready_outcome(outcome) {
                Ok(()) => SetupStep::Ready(AllunoGamepad { inner: t }),
                Err(e) => match t.unplug() {
                    Some(req) => SetupStep::Next(
                        GamepadSetup { stage: SetupStage::Unplugging(t, e) },
                        Action::Ioctl(req),
                    ),
                    None => SetupStep::Failed(e),
                },
            },
            SetupStage::Unplugging(_, e) => SetupStep::Failed(e),
        }
    }
}

impl AllunoGamepad {
    /// A pad is plugged in under a serial number the bus accepted, from the
    /// end of its setup until it is unplugged, which ends the pad.
    #[verifier::type_invariant]
    spec fn plugged_in(self) -> bool {
        1 <= self.inner@.serial_no < SERIAL_LIMIT
    }

    /// Starts setting up a virtual Xbox 360 controller.
    pub fn new() -> (r: SetupStep)
        ensures
            r@ == setup_start(),
    {
        Self::with_name("Alluno Virtual Gamepad")
    }

    /// Starts setting up a virtual Xbox 360 controller with a device name. The
    /// bus driver gives its controllers no name, so the name plays no part here.
    pub fn with_name(name: &str) -> (r: SetupStep)
        ensures
            r@ == setup_start(),
    {
        SetupStep::Next(GamepadSetup { stage: SetupStage::ListingPaths }, Action::ListBusPaths)
    }

    /// Whether the backend is present: whether a search for the bus, run to
    /// its end, found it.
    pub fn is_available(search: &BusStep) -> (r: bool)
        ensures
            r == (search is Found),
    {
        match search {
            BusStep::Found(_) => true,
            _ => false,
        }
    }

    /// The request that submits an XInput-compatible input report. A pad is
    /// plugged in for as long as it exists, so the request is always made.
    pub fn update(&mut self, report: &XGamepad) -> (r: Result<IoctlRequest, Error>)
        ensures
            final(self)@ == old(self)@,
            1 <= old(self)@.serial_no < SERIAL_LIMIT,
            r matches Ok(req) && req@ == spec_submit_report(old(self)@.serial_no, *report),
    {
        proof {
            use_type_invariant(&*self);
        }
        self.inner.report_request(report)
    }

    /// How the submission of a report ended.
    pub fn update_outcome(outcome: Result<(), i32>) -> (r: Result<(), Error>)
        ensures
            r == sent_result(outcome),
    {
        XusbTarget::sent(outcome)
    }

    /// A listener for the force feedback (rumble and player LED) that games
    /// send to the controller.
    pub fn spawn_notification(&self) -> (r: Result<NotificationListener, Error>)
        ensures
            1 <= self@.serial_no < SERIAL_LIMIT,
            r matches Ok(l) && l@ == (NotificationListenerView {
                bus: self@.bus,
                serial_no: self@.serial_no,
            }),
    {
        proof {
            use_type_invariant(self);
        }
        self.inner.spawn_notification()
    }

    /// The request that asks for the controller's XInput player slot; a pad
    /// always makes it.
    pub fn user_index(&mut self) -> (r: Option<IoctlRequest>)
        ensures
            final(self)@ == old(self)@,
            1 <= old(self)@.serial_no < SERIAL_LIMIT,
            r matches Some(req) && req@ == spec_user_index(old(self)@.serial_no),
    {
        proof {
            use_type_invariant(&*self);
        }
        match self.inner.user_index_query() {
            Ok(req) => Some(req),
            Err(_) => None,
        }
    }

    /// The player slot that a finished user-index request gives; none when the
    /// request failed.
    pub fn user_index_reply(outcome: Result<(), i32>, reply: &Vec<u8>) -> (r: Option<u32>)
        requires
            outcome is Ok ==> reply@.len() >= 12,
        ensures
            r == (match outcome {
                Ok(()) => Some(read_u32(reply@, 8)),
                Err(_) => None,
            }),
    {
        match XusbTarget::user_index_reply(outcome, reply) {
            Ok(idx) => Some(idx),
            Err(_) => None,
        }
    }

    /// Ends the pad: the plugged-in controller it was, and the request that
    /// unplugs it. How that request ends goes to
    /// [`XusbTarget::finish_unplug`].
    pub fn unplug(self) -> (r: (XusbTarget, IoctlRequest))
        ensures
            r.0@ == self@,
            1 <= self@.serial_no < SERIAL_LIMIT,
            r.1@ == spec_unplug(self@.serial_no),
    {
        proof {
            use_type_invariant(&self);
        }
        let target = self.inner;
        match target.unplug() {
            Some(req) => (target, req),
            None => {
                assert(false);
                (target, crate::protocol::unplug_request(0))
            },
        }
    }
}

} // verus!
