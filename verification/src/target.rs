//! A virtual Xbox 360 controller on the bus.
//!
//! A controller is plugged in under a serial number that the bus accepts: the
//! numbers are tried from 1 upwards, and when the bus has refused every number
//! below `u16::MAX` there is no free slot. A plugged-in controller has a
//! non-zero serial number; unplugging it sets the number back to zero. Every
//! operation on a controller that is not plugged in fails with
//! [`Error::NotPluggedIn`] without asking anything of the bus.

use vstd::prelude::*;
use crate::action::{Action, ActionView};
use crate::bus::GamepadBus;
use crate::error::{
    hresult_bits_from_win32, lemma_hresult_constants, Error, ERROR_INVALID_PARAMETER,
    HRESULT_INVALID_PARAMETER,
};
use crate::paths::copy_path;
use crate::protocol::{
    notification_from_reply, notification_request, plugin_request, spec_notification,
    spec_notification_of, spec_plugin, spec_submit_report, spec_unplug, spec_user_index,
    spec_wait_ready, submit_report_request, unplug_request, user_index_from_reply,
    user_index_request, wait_ready_request, IoctlRequest, RequestView,
};
use crate::report::{GamepadNotification, XGamepad};
use crate::wire::{i32_bits, read_u32};

verus! {

/// The serial numbers a controller can have lie below this bound.
pub const SERIAL_LIMIT: u32 = 0xFFFF;

/// A controller on the bus.
#[derive(Debug)]
pub struct XusbTarget {
    bus: GamepadBus,
    serial_no: u32,
}

pub struct XusbTargetView {
    /// The interface path of the bus the controller is on.
    pub bus: Seq<u16>,
    /// The controller's serial number on the bus; zero once unplugged.
    pub serial_no: u32,
}

impl View for XusbTarget {
    type V = XusbTargetView;

    closed spec fn view(&self) -> XusbTargetView {
        XusbTargetView { bus: self.bus@, serial_no: self.serial_no }
    }
}

/// Whether a controller is plugged in.
pub open spec fn attached(t: XusbTargetView) -> bool {
    t.serial_no != 0
}

/// The request that a controller sends for an operation: `req` when it is
/// plugged in, [`Error::NotPluggedIn`] otherwise.
pub open spec fn when_attached(t: XusbTargetView, req: RequestView) -> Result<RequestView, Error> {
    if attached(t) {
        Ok(req)
    } else {
        Err(Error::NotPluggedIn)
    }
}

/// A request or an error, as a value.
pub open spec fn request_result(r: Result<IoctlRequest, Error>) -> Result<RequestView, Error> {
    match r {
        Ok(req) => Ok(req@),
        Err(e) => Err(e),
    }
}

/// How a request that reads no reply ended: the failure's `HRESULT` becomes
/// [`Error::Win32`].
pub open spec fn sent_result(outcome: Result<(), i32>) -> Result<(), Error> {
    match outcome {
        Ok(()) => Ok(()),
        Err(code) => Err(Error::Win32(code)),
    }
}

/// How waiting for readiness ended: the bus answers `ERROR_INVALID_PARAMETER`
/// when it does not know the wait, and the controller is then taken as ready.
pub open spec fn wait_ready_result(outcome: Result<(), i32>) -> Result<(), Error> {
    match outcome {
        Ok(()) => Ok(()),
        Err(code) => if code == HRESULT_INVALID_PARAMETER {
            Ok(())
        } else {
            Err(Error::Win32(code))
        },
    }
}

/// The request that unplugs controller `t`: none once it is no longer plugged in.
pub open spec fn unplug_request_of(t: XusbTargetView) -> Option<RequestView> {
    if attached(t) {
        Some(spec_unplug(t.serial_no))
    } else {
        None
    }
}

/// Controller `t` after its unplug request ended with `outcome`.
pub open spec fn after_unplug(t: XusbTargetView, outcome: Result<(), i32>) -> XusbTargetView {
    match outcome {
        Ok(()) => XusbTargetView { serial_no: 0, ..t },
        Err(_) => t,
    }
}

/// Once an unplug succeeded, the controller is no longer plugged in: a second
/// unplug sends nothing, and every other operation answers
/// [`Error::NotPluggedIn`] without asking anything of the bus.
pub proof fn lemma_unplug_is_final(t: XusbTargetView, req: RequestView)
    ensures
        !attached(after_unplug(t, Ok(()))),
        unplug_request_of(after_unplug(t, Ok(()))) is None,
        when_attached(after_unplug(t, Ok(())), req) == Err::<RequestView, Error>(
            Error::NotPluggedIn,
        ),
{
}

/// A call that takes a controller by `&mut`.
pub enum TargetCall {
    Update(XGamepad),
    GetUserIndex,
    FinishUnplug(Result<(), i32>),
}

/// Controller `t` after `call`: only an unplug changes it.
pub open spec fn target_after(t: XusbTargetView, call: TargetCall) -> XusbTargetView {
    match call {
        TargetCall::FinishUnplug(outcome) => after_unplug(t, outcome),
        _ => t,
    }
}

/// Whether `call` is an unplug that succeeded.
pub open spec fn is_successful_unplug(call: TargetCall) -> bool {
    call matches TargetCall::FinishUnplug(outcome) && outcome is Ok
}

/// Controller `t` after `calls`, one after the other.
pub open spec fn target_run(t: XusbTargetView, calls: Seq<TargetCall>) -> XusbTargetView
    decreases calls.len(),
{
    if calls.len() == 0 {
        t
    } else {
        target_after(target_run(t, calls.drop_last()), calls.last())
    }
}

/// Whatever calls a controller goes through, it stays on its bus and keeps its
/// serial number or has zero; the number changes only through an unplug that
/// succeeded, and once it is zero it stays zero, so that the controller then
/// answers every operation with [`Error::NotPluggedIn`].
pub proof fn lemma_serial_only_drops_to_zero(t: XusbTargetView, calls: Seq<TargetCall>)
    ensures
        target_run(t, calls).bus == t.bus,
        target_run(t, calls).serial_no == t.serial_no || target_run(t, calls).serial_no == 0,
        target_run(t, calls).serial_no != t.serial_no ==> exists|i: int|
            0 <= i < calls.len() && is_successful_unplug(#[trigger] calls[i]),
        !attached(t) ==> !attached(target_run(t, calls)),
    decreases calls.len(),
{
    if calls.len() > 0 {
        let prev = calls.drop_last();
        lemma_serial_only_drops_to_zero(t, prev);
        let u = target_run(t, prev);
        if target_run(t, calls).serial_no != t.serial_no {
            if u.serial_no != t.serial_no {
                let i = choose|i: int| 0 <= i < prev.len() && is_successful_unplug(#[trigger] prev[i]);
                assert(calls[i] == prev[i]);
            } else {
                assert(calls[calls.len() - 1] == calls.last());
                match calls.last() {
                    TargetCall::FinishUnplug(outcome) => {
                        match outcome {
                            Ok(()) => {
                                assert(is_successful_unplug(calls[calls.len() - 1]));
                            },
                            Err(_) => {
                                assert(target_run(t, calls) == u);
                            },
                        }
                    },
                    _ => {
                        assert(target_run(t, calls) == u);
                    },
                }
            }
        }
    }
}

/// Waiting for readiness ends as ready exactly when the wait succeeded or
/// failed with the `HRESULT` of `ERROR_INVALID_PARAMETER`; every other failure
/// is reported as it came.
pub proof fn lemma_wait_ready_tolerates_only_invalid_parameter(code: i32)
    ensures
        wait_ready_result(Ok(())) == Ok::<(), Error>(()),
        wait_ready_result(Err(code)) is Ok <==> i32_bits(code) == hresult_bits_from_win32(
            ERROR_INVALID_PARAMETER,
        ),
        wait_ready_result(Err(code)) is Err ==> wait_ready_result(Err(code)) == Err::<(), Error>(
            Error::Win32(code),
        ),
        code != HRESULT_INVALID_PARAMETER ==> wait_ready_result(Err(code)) == Err::<(), Error>(
            Error::Win32(code),
        ),
{
    lemma_hresult_constants();
}

/// Where a plug-in stands.
#[derive(Clone, Copy, Debug, PartialEq, Eq, Structural)]
pub enum PluginStage {
    /// The event for overlapped I/O is being created.
    CreatingEvent,
    /// The bus is being asked to plug the controller in under this serial number.
    Plugging(u32),
}

/// A plug-in that is under way.
#[derive(Debug)]
pub struct PluginSearch {
    bus: GamepadBus,
    stage: PluginStage,
}

pub struct PluginSearchView {
    pub bus: Seq<u16>,
    pub stage: PluginStage,
}

impl View for PluginSearch {
    type V = PluginSearchView;

    closed spec fn view(&self) -> PluginSearchView {
        PluginSearchView { bus: self.bus@, stage: self.stage }
    }
}

/// The result of one step of a plug-in.
#[derive(Debug)]
pub enum PluginStep {
    /// The plug-in goes on with this action.
    Next(PluginSearch, Action),
    /// The controller is plugged in.
    Plugged(XusbTarget),
    /// The controller could not be plugged in.
    Failed(Error),
}

pub enum PluginStepView {
    Next(PluginSearchView, ActionView),
    Plugged(XusbTargetView),
    Failed(Error),
}

impl View for PluginStep {
    type V = PluginStepView;

    open spec fn view(&self) -> PluginStepView {
        match self {
            PluginStep::Next(s, a) => PluginStepView::Next(s@, a@),
            PluginStep::Plugged(t) => PluginStepView::Plugged(t@),
            PluginStep::Failed(e) => PluginStepView::Failed(*e),
        }
    }
}

/// The first step of plugging a controller into `bus`.
pub open spec fn plugin_start(bus: Seq<u16>) -> PluginStepView {
    PluginStepView::Next(
        PluginSearchView { bus, stage: PluginStage::CreatingEvent },
        ActionView::CreateEvent,
    )
}

/// Asking the bus to plug the controller in under `serial_no`.
pub open spec fn plugin_try(bus: Seq<u16>, serial_no: u32) -> PluginStepView {
    PluginStepView::Next(
        PluginSearchView { bus, stage: PluginStage::Plugging(serial_no) },
        ActionView::Ioctl(spec_plugin(serial_no)),
    )
}

/// The step that follows `outcome` in plug-in `s`.
pub open spec fn plugin_next(s: PluginSearchView, outcome: Result<(), i32>) -> PluginStepView {
    match s.stage {
        PluginStage::CreatingEvent => match outcome {
            Ok(()) => plugin_try(s.bus, 1),
            Err(code) => PluginStepView::Failed(Error::Win32(code)),
        },
        PluginStage::Plugging(serial_no) => match outcome {
            Ok(()) => PluginStepView::Plugged(XusbTargetView { bus: s.bus, serial_no }),
            Err(_) => if serial_no + 1 >= SERIAL_LIMIT {
                PluginStepView::Failed(Error::NoFreeSlot)
            } else {
                plugin_try(s.bus, (serial_no + 1) as u32)
            },
        },
    }
}

/// The step reached from `step` after the caller reported `outcomes`, one
/// after the other, for as long as the plug-in went on.
pub open spec fn plugin_run(step: PluginStepView, outcomes: Seq<Result<(), i32>>) -> PluginStepView
    decreases outcomes.len(),
{
    if outcomes.len() == 0 {
        step
    } else {
        match step {
            PluginStepView::Next(s, _) => plugin_run(plugin_next(s, outcomes[0]), outcomes.drop_first()),
            _ => step,
        }
    }
}

/// `count` refusals in a row.
pub open spec fn refusals(count: nat, code: i32) -> Seq<Result<(), i32>> {
    Seq::new(count, |i: int| Err(code))
}

proof fn lemma_refused_from(bus: Seq<u16>, serial_no: u32, count: nat, code: i32)
    requires
        1 <= serial_no < SERIAL_LIMIT,
    ensures
        plugin_run(plugin_try(bus, serial_no), refusals(count, code).push(Ok(()))) == (if serial_no
            + count < SERIAL_LIMIT {
            PluginStepView::Plugged(XusbTargetView { bus, serial_no: (serial_no + count) as u32 })
        } else {
            PluginStepView::Failed(Error::NoFreeSlot)
        }),
    decreases count,
{
    let outcomes = refusals(count, code).push(Ok(()));
    let s = PluginSearchView { bus, stage: PluginStage::Plugging(serial_no) };
    if count == 0 {
        assert(outcomes.drop_first() =~= Seq::empty());
        assert(outcomes[0] == Ok::<(), i32>(()));
        let done = plugin_next(s, Ok(()));
        assert(plugin_run(done, outcomes.drop_first()) == done);
    } else {
        assert(outcomes.drop_first() =~= refusals((count - 1) as nat, code).push(Ok(())));
        assert(outcomes[0] == Err::<(), i32>(code));
        if serial_no + 1 < SERIAL_LIMIT {
            lemma_refused_from(bus, (serial_no + 1) as u32, (count - 1) as nat, code);
        } else {
            let rest = outcomes.drop_first();
            assert(plugin_run(PluginStepView::Failed(Error::NoFreeSlot), rest) == PluginStepView::Failed(
                Error::NoFreeSlot,
            )) by {
                if rest.len() > 0 {
                }
            }
        }
    }
}

/// Plugging in gives the controller the first serial number that the bus
/// accepts: when the event is created and the bus refuses `count` numbers before
/// it accepts one, the controller gets number `count + 1`; once the bus has
/// refused every number below [`SERIAL_LIMIT`], there is no free slot.
pub proof fn lemma_plugin_takes_first_accepted_serial(bus: Seq<u16>, count: nat, code: i32)
    ensures
        plugin_run(plugin_start(bus), seq![Ok(())] + refusals(count, code).push(Ok(()))) == (if count
            + 1 < SERIAL_LIMIT {
            PluginStepView::Plugged(XusbTargetView { bus, serial_no: (count + 1) as u32 })
        } else {
            PluginStepView::Failed(Error::NoFreeSlot)
        }),
{
    let outcomes = seq![Ok(())] + refusals(count, code).push(Ok(()));
    assert(outcomes.drop_first() =~= refusals(count, code).push(Ok(())));
    lemma_refused_from(bus, 1, count, code);
}

/// Asks for the next force-feedback notifications of one controller.
#[derive(Debug)]
pub struct NotificationListener {
    bus_path: Vec<u16>,
    serial_no: u32,
}

pub struct NotificationListenerView {
    pub bus: Seq<u16>,
    pub serial_no: u32,
}

impl View for NotificationListener {
    type V = NotificationListenerView;

    closed spec fn view(&self) -> NotificationListenerView {
        NotificationListenerView { bus: self.bus_path@, serial_no: self.serial_no }
    }
}

impl NotificationListener {
    /// The interface path of the bus, to be opened once more for the listener's own use.
    pub fn bus_path(&self) -> (r: &Vec<u16>)
        ensures
            r@ == self@.bus,
    {
        &self.bus_path
    }

    /// The request that waits for the next notification.
    pub fn request(&self) -> (r: IoctlRequest)
        ensures
            r@ == spec_notification(self@.serial_no),
    {
        notification_request(self.serial_no)
    }

    /// The listener's start, once its own event for overlapped I/O has been
    /// created: without that event it ends before it sends any request.
    pub fn event_created(self, outcome: Result<(), i32>) -> (r: Option<NotificationListener>)
        ensures
            outcome is Ok ==> (r matches Some(l) && l@ == self@),
            outcome is Err ==> r is None,
    {
        match outcome {
            Ok(()) => Some(self),
            Err(_) => None,
        }
    }

    /// What a finished notification request gives: the force feedback that
    /// the driver wrote into `reply`, and the listener back for the next
    /// request; once a request failed, nothing, and the listener is gone, so
    /// that no request follows.
    pub fn on_reply(self, outcome: Result<(), i32>, reply: &Vec<u8>) -> (r: Option<
        (GamepadNotification, NotificationListener),
    >)
        requires
            outcome is Ok ==> reply@.len() >= 11,
        ensures
            outcome is Ok ==> (r matches Some((n, l)) && n == spec_notification_of(reply@) && l@
                == self@),
            outcome is Err ==> r is None,
    {
        match outcome {
            Ok(()) => Some((notification_from_reply(reply), self)),
            Err(_) => None,
        }
    }
}

impl XusbTarget {
    /// Starts plugging a controller into `bus`.
    pub fn plugin(bus: GamepadBus) -> (r: PluginStep)
        ensures
            r@ == plugin_start(bus@),
    {
        PluginStep::Next(PluginSearch { bus, stage: PluginStage::CreatingEvent }, Action::CreateEvent)
    }

    /// The bus the controller is on.
    pub fn bus(&self) -> (r: &GamepadBus)
        ensures
            r@ == self@.bus,
    {
        &self.bus
    }

    /// Whether the controller is plugged in.
    pub fn is_attached(&self) -> (r: bool)
        ensures
            r == attached(self@),
    {
        self.serial_no != 0
    }

    /// The request that waits until the system has picked the controller up.
    pub fn wait_ready(&self) -> (r: Result<IoctlRequest, Error>)
        ensures
            request_result(r) == when_attached(self@, spec_wait_ready(self@.serial_no)),
    {
        if !self.is_attached() {
            return Err(Error::NotPluggedIn);
        }
        Ok(wait_ready_request(self.serial_no))
    }

    /// How waiting for readiness ended.
    pub fn wait_ready_outcome(outcome: Result<(), i32>) -> (r: Result<(), Error>)
        ensures
            r == wait_ready_result(outcome),
    {
        match outcome {
            Ok(()) => Ok(()),
            Err(code) => if code == HRESULT_INVALID_PARAMETER {
                Ok(())
            } else {
                Err(Error::Win32(code))
            },
        }
    }

    /// The request that submits `report` as the controller's input.
    pub fn update(&mut self, report: &XGamepad) -> (r: Result<IoctlRequest, Error>)
        ensures
            final(self)@ == target_after(old(self)@, TargetCall::Update(*report)),
            request_result(r) == when_attached(
                old(self)@,
                spec_submit_report(old(self)@.serial_no, *report),
            ),
    {
        self.report_request(report)
    }

    pub(crate) fn report_request(&self, report: &XGamepad) -> (r: Result<IoctlRequest, Error>)
        ensures
            request_result(r) == when_attached(self@, spec_submit_report(self@.serial_no, *report)),
    {
        if !self.is_attached() {
            return Err(Error::NotPluggedIn);
        }
        Ok(submit_report_request(self.serial_no, report))
    }

    /// How a request that reads no reply ended.
    pub fn sent(outcome: Result<(), i32>) -> (r: Result<(), Error>)
        ensures
            r == sent_result(outcome),
    {
        match outcome {
            Ok(()) => Ok(()),
            Err(code) => Err(Error::Win32(code)),
        }
    }

    /// The request that asks for the controller's XInput user index.
    pub fn get_user_index(&mut self) -> (r: Result<IoctlRequest, Error>)
        ensures
            final(self)@ == target_after(old(self)@, TargetCall::GetUserIndex),
            request_result(r) == when_attached(old(self)@, spec_user_index(old(self)@.serial_no)),
    {
        self.user_index_query()
    }

    pub(crate) fn user_index_query(&self) -> (r: Result<IoctlRequest, Error>)
        ensures
            request_result(r) == when_attached(self@, spec_user_index(self@.serial_no)),
    {
        if !self.is_attached() {
            return Err(Error::NotPluggedIn);
        }
        Ok(user_index_request(self.serial_no))
    }

    /// The user index that a finished user-index request gives: the one the
    /// driver wrote into `reply`, or the request's failure.
    pub fn user_index_reply(outcome: Result<(), i32>, reply: &Vec<u8>) -> (r: Result<u32, Error>)
        requires
            outcome is Ok ==> reply@.len() >= 12,
        ensures
            r == (match outcome {
                Ok(()) => Ok(read_u32(reply@, 8)),
                Err(code) => Err(Error::Win32(code)),
            }),
    {
        match outcome {
            Ok(()) => Ok(user_index_from_reply(reply)),
            Err(code) => Err(Error::Win32(code)),
        }
    }

    /// A listener for the force feedback that games send to the controller.
    pub fn spawn_notification(&self) -> (r: Result<NotificationListener, Error>)
        ensures
            attached(self@) ==> (r matches Ok(l) && l@ == NotificationListenerView {
                bus: self@.bus,
                serial_no: self@.serial_no,
            }),
            !attached(self@) ==> r == Err::<NotificationListener, Error>(Error::NotPluggedIn),
    {
        if !self.is_attached() {
            return Err(Error::NotPluggedIn);
        }
        Ok(NotificationListener { bus_path: copy_path(self.bus.path()), serial_no: self.serial_no })
    }

    /// The request that unplugs the controller; none when it is not plugged in,
    /// and unplugging is then done.
    pub fn unplug(&self) -> (r: Option<IoctlRequest>)
        ensures
            match r {
                Some(req) => unplug_request_of(self@) == Some(req@),
                None => unplug_request_of(self@) is None,
            },
    {
        if !self.is_attached() {
            return None;
        }
        Some(unplug_request(self.serial_no))
    }

    /// How the unplug request ended: once it succeeded the controller is no
    /// longer plugged in; after a failure it still is.
    pub fn finish_unplug(&mut self, outcome: Result<(), i32>) -> (r: Result<(), Error>)
        ensures
            r == sent_result(outcome),
            final(self)@ == after_unplug(old(self)@, outcome),
            final(self)@ == target_after(old(self)@, TargetCall::FinishUnplug(outcome)),
    {
        match outcome {
            Ok(()) => {
                self.serial_no = 0;
                Ok(())
            },
            Err(code) => Err(Error::Win32(code)),
        }
    }
}

impl PluginSearch {
    #[verifier::type_invariant]
    spec fn well_formed(self) -> bool {
        self.stage matches PluginStage::Plugging(n) ==> 1 <= n < SERIAL_LIMIT
    }

    /// Takes the outcome (`Ok`, or the failure's `HRESULT`) of the action last
    /// asked for, and decides the next step.
    pub fn advance(self, outcome: Result<(), i32>) -> (r: PluginStep)
        ensures
            r@ == plugin_next(self@, outcome),
            r matches PluginStep::Plugged(t) ==> 1 <= t@.serial_no < SERIAL_LIMIT,
    {
        proof {
            use_type_invariant(&self);
        }
        match self.stage {
            PluginStage::CreatingEvent => match outcome {
                Ok(()) => PluginStep::Next(
                    PluginSearch { bus: self.bus, stage: PluginStage::Plugging(1) },
                    Action::Ioctl(plugin_request(1)),
                ),
                Err(code) => PluginStep::Failed(Error::Win32(code)),
            },
            PluginStage::Plugging(serial_no) => match outcome {
                Ok(()) => PluginStep::Plugged(XusbTarget { bus: self.bus, serial_no }),
                Err(_) => {
                    let next = serial_no + 1;
                    if next >= SERIAL_LIMIT {
                        PluginStep::Failed(Error::NoFreeSlot)
                    } else {
                        PluginStep::Next(
                            PluginSearch { bus: self.bus, stage: PluginStage::Plugging(next) },
                            Action::Ioctl(plugin_request(next)),
                        )
                    }
                },
            },
        }
    }
}

} // verus!
