use alluno_gamepad_sys::action::Action;
use alluno_gamepad_sys::error::HRESULT_INVALID_PARAMETER;
use alluno_gamepad_sys::protocol::{
    IOCTL_CHECK_VERSION, IOCTL_PLUGIN_TARGET, IOCTL_UNPLUG_TARGET, IOCTL_WAIT_DEVICE_READY,
};
use alluno_gamepad_sys::target::SERIAL_LIMIT;
use alluno_gamepad_sys::wire::get_u32;
use alluno_gamepad_sys::{
    AllunoGamepad, BusStep, Error, GamepadBus, NotificationListener, PluginStep, SetupStep,
    XGamepad, XusbTarget,
};

fn path(tag: u16) -> Vec<u16> {
    vec![b'\\' as u16, tag, 0]
}

/// Runs a bus search to its end, answering each action with the next outcome.
fn run_bus(paths: Vec<Vec<u16>>, outcomes: &[Result<(), i32>]) -> (BusStep, Vec<String>) {
    let mut log = Vec::new();
    let mut step = GamepadBus::connect(paths);
    let mut it = outcomes.iter();
    while let BusStep::Next(search, action) = step {
        log.push(match &action {
            Action::OpenPath(p) => {
                assert_eq!(p, search.current_path());
                format!("open {}", p[1])
            }
            Action::CreateEvent => "event".to_string(),
            Action::Ioctl(r) => format!("ioctl {:x}", r.code),
            Action::ListBusPaths => "list".to_string(),
        });
        step = search.advance(*it.next().expect("an outcome for every action"));
    }
    (step, log)
}

fn found_path(step: &BusStep) -> Option<Vec<u16>> {
    match step {
        BusStep::Found(bus) => Some(bus.path().clone()),
        _ => None,
    }
}

fn failed(step: &BusStep) -> Option<Error> {
    match step {
        BusStep::Failed(e) => Some(*e),
        _ => None,
    }
}

fn found_bus() -> GamepadBus {
    match run_bus(vec![path(1)], &[Ok(()), Ok(()), Ok(())]).0 {
        BusStep::Found(bus) => bus,
        other => panic!("{other:?}"),
    }
}

fn plugged_target() -> XusbTarget {
    let mut step = XusbTarget::plugin(found_bus());
    loop {
        step = match step {
            PluginStep::Next(s, _) => s.advance(Ok(())),
            PluginStep::Plugged(t) => return t,
            PluginStep::Failed(e) => panic!("{e:?}"),
        }
    }
}

#[test]
fn bus_search_without_paths_finds_nothing() {
    let (step, log) = run_bus(Vec::new(), &[]);
    assert_eq!(failed(&step), Some(Error::BusNotFound));
    assert!(log.is_empty());
}

#[test]
fn bus_search_takes_first_working_path() {
    let (step, log) = run_bus(vec![path(1), path(2)], &[Ok(()), Ok(()), Ok(())]);
    assert_eq!(found_path(&step), Some(path(1)));
    assert_eq!(log, vec!["open 1", "event", &format!("ioctl {:x}", IOCTL_CHECK_VERSION)]);
}

#[test]
fn bus_search_passes_over_unopenable_and_refusing_paths() {
    let (step, log) = run_bus(
        vec![path(1), path(2), path(3)],
        &[Err(-5), Ok(()), Ok(()), Err(-6), Ok(()), Ok(()), Ok(())],
    );
    assert_eq!(found_path(&step), Some(path(3)));
    assert_eq!(log[0], "open 1");
    assert_eq!(log[1], "open 2");
    assert_eq!(log[4], "open 3");
}

#[test]
fn bus_search_fails_with_last_error() {
    let (step, _) = run_bus(vec![path(1), path(2)], &[Ok(()), Ok(()), Err(-6), Err(-7)]);
    assert_eq!(failed(&step), Some(Error::Win32(-7)));
    let (step, _) = run_bus(vec![path(1), path(2)], &[Err(-7), Ok(()), Ok(()), Err(-6)]);
    assert_eq!(failed(&step), Some(Error::VersionMismatch));
}

#[test]
fn bus_search_stops_when_event_fails() {
    let (step, log) = run_bus(vec![path(1), path(2)], &[Ok(()), Err(-9)]);
    assert_eq!(failed(&step), Some(Error::Win32(-9)));
    assert_eq!(log.len(), 2);
}

#[test]
fn plugin_tries_serials_upwards() {
    let mut step = XusbTarget::plugin(found_bus());
    let mut tried = Vec::new();
    let mut refusals = 3;
    loop {
        step = match step {
            PluginStep::Next(s, Action::CreateEvent) => s.advance(Ok(())),
            PluginStep::Next(s, Action::Ioctl(req)) => {
                assert_eq!(req.code, IOCTL_PLUGIN_TARGET);
                tried.push(get_u32(&req.buffer, 4));
                if refusals > 0 {
                    refusals -= 1;
                    s.advance(Err(-1))
                } else {
                    s.advance(Ok(()))
                }
            }
            PluginStep::Next(_, other) => panic!("{other:?}"),
            PluginStep::Plugged(t) => {
                assert!(t.is_attached());
                assert_eq!(t.bus().path(), &path(1));
                break;
            }
            PluginStep::Failed(e) => panic!("{e:?}"),
        }
    }
    assert_eq!(tried, vec![1, 2, 3, 4]);
}

#[test]
fn plugin_runs_out_of_slots() {
    let mut step = XusbTarget::plugin(found_bus());
    let mut last = 0;
    loop {
        step = match step {
            PluginStep::Next(s, Action::Ioctl(req)) => {
                last = get_u32(&req.buffer, 4);
                s.advance(Err(-1))
            }
            PluginStep::Next(s, _) => s.advance(Ok(())),
            PluginStep::Plugged(t) => panic!("{t:?}"),
            PluginStep::Failed(e) => {
                assert_eq!(e, Error::NoFreeSlot);
                break;
            }
        }
    }
    assert_eq!(last, SERIAL_LIMIT - 1);
}

#[test]
fn plugin_fails_without_event() {
    match XusbTarget::plugin(found_bus()) {
        PluginStep::Next(s, Action::CreateEvent) => match s.advance(Err(-3)) {
            PluginStep::Failed(e) => assert_eq!(e, Error::Win32(-3)),
            other => panic!("{other:?}"),
        },
        other => panic!("{other:?}"),
    }
}

#[test]
fn wait_ready_tolerates_unknown_wait() {
    assert_eq!(XusbTarget::wait_ready_outcome(Ok(())), Ok(()));
    assert_eq!(XusbTarget::wait_ready_outcome(Err(HRESULT_INVALID_PARAMETER)), Ok(()));
    assert_eq!(XusbTarget::wait_ready_outcome(Err(-4)), Err(Error::Win32(-4)));
    let t = plugged_target();
    assert_eq!(t.wait_ready().unwrap().code, IOCTL_WAIT_DEVICE_READY);
}

#[test]
fn unplugged_target_refuses_everything() {
    let mut t = plugged_target();
    let req = t.unplug().expect("plugged in");
    assert_eq!(get_u32(&req.buffer, 4), 1);
    assert_eq!(t.finish_unplug(Err(-2)), Err(Error::Win32(-2)));
    assert!(t.is_attached());
    assert_eq!(t.finish_unplug(Ok(())), Ok(()));
    assert!(!t.is_attached());
    assert!(t.unplug().is_none());
    assert_eq!(t.wait_ready().unwrap_err(), Error::NotPluggedIn);
    assert_eq!(t.update(&XGamepad::default()).unwrap_err(), Error::NotPluggedIn);
    assert_eq!(t.get_user_index().unwrap_err(), Error::NotPluggedIn);
    assert_eq!(t.spawn_notification().unwrap_err(), Error::NotPluggedIn);
}

#[test]
fn sent_requests_report_their_failure() {
    assert_eq!(XusbTarget::sent(Ok(())), Ok(()));
    assert_eq!(XusbTarget::sent(Err(-8)), Err(Error::Win32(-8)));
    assert_eq!(AllunoGamepad::update_outcome(Err(-8)), Err(Error::Win32(-8)));
    let reply = vec![12, 0, 0, 0, 1, 0, 0, 0, 3, 0, 0, 0];
    assert_eq!(XusbTarget::user_index_reply(Ok(()), &reply), Ok(3));
    assert_eq!(XusbTarget::user_index_reply(Err(-8), &reply), Err(Error::Win32(-8)));
}

#[test]
fn listener_stops_on_failure() {
    let t = plugged_target();
    let listener = t.spawn_notification().unwrap();
    let listener: NotificationListener = listener.event_created(Ok(())).expect("event created");
    let req = listener.request();
    assert_eq!(get_u32(&req.buffer, 4), 1);
    let reply = vec![12, 0, 0, 0, 1, 0, 0, 0, 9, 8, 2, 0];
    let (n, listener) = listener.on_reply(Ok(()), &reply).unwrap();
    assert_eq!((n.large_motor, n.small_motor, n.led_number), (9, 8, 2));
    assert_eq!(get_u32(&listener.request().buffer, 4), 1);
    assert!(listener.on_reply(Err(-1), &reply).is_none());
    let again = t.spawn_notification().unwrap();
    assert!(again.event_created(Err(-5)).is_none());
    assert!(t.is_attached());
}

/// Runs a whole setup; `outcome` answers the n-th action.
fn run_setup(paths: Vec<Vec<u16>>, outcome: impl Fn(usize, &Action) -> Result<(), i32>) -> SetupStep {
    let mut step = AllunoGamepad::with_name("pad");
    let mut n = 0;
    loop {
        step = match step {
            SetupStep::Next(setup, Action::ListBusPaths) => {
                assert!(setup.awaits_paths());
                setup.paths_listed(paths.clone())
            }
            SetupStep::Next(setup, action) => {
                assert!(!setup.awaits_paths());
                let o = outcome(n, &action);
                n += 1;
                setup.advance(o)
            }
            done => return done,
        };
    }
}

#[test]
fn setup_plugs_in_and_waits() {
    let codes = std::cell::RefCell::new(Vec::new());
    let step = run_setup(vec![path(1)], |_, a| {
        if let Action::Ioctl(r) = a {
            codes.borrow_mut().push(r.code);
        }
        Ok(())
    });
    match step {
        SetupStep::Ready(mut pad) => {
            let req = pad.user_index().unwrap();
            assert_eq!(get_u32(&req.buffer, 4), 1);
        }
        other => panic!("{other:?}"),
    }
    assert_eq!(
        codes.into_inner(),
        vec![IOCTL_CHECK_VERSION, IOCTL_PLUGIN_TARGET, IOCTL_WAIT_DEVICE_READY]
    );
}

#[test]
fn setup_reports_each_failure() {
    match run_setup(Vec::new(), |_, _| Ok(())) {
        SetupStep::Failed(e) => assert_eq!(e, Error::BusNotFound),
        other => panic!("{other:?}"),
    }
    let unplugs = std::cell::RefCell::new(Vec::new());
    let step = run_setup(vec![path(1)], |n, a| {
        if let Action::Ioctl(r) = a {
            if r.code == IOCTL_UNPLUG_TARGET {
                unplugs.borrow_mut().push(get_u32(&r.buffer, 4));
                return Err(-12);
            }
        }
        if n == 5 { Err(-11) } else { Ok(()) }
    });
    match step {
        SetupStep::Failed(e) => assert_eq!(e, Error::Win32(-11)),
        other => panic!("{other:?}"),
    }
    assert_eq!(unplugs.into_inner(), vec![1]);
    match run_setup(vec![path(1)], |n, _| if n == 5 { Err(HRESULT_INVALID_PARAMETER) } else { Ok(()) }) {
        SetupStep::Ready(_) => {}
        other => panic!("{other:?}"),
    }
}
