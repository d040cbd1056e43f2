use alluno_gamepad_sys::action::Action;
use alluno_gamepad_sys::{xbuttons, AllunoGamepad, GamepadBus, SetupStep, XGamepad};

fn bus_path() -> Vec<u16> {
    let mut p: Vec<u16> = "\\\\?\\ROOT#SYSTEM#0001".encode_utf16().collect();
    p.push(0);
    p
}

/// Drives a setup against a bus that accepts everything.
fn make_pad() -> Option<AllunoGamepad> {
    let mut step = AllunoGamepad::new();
    let mut listed = false;
    for _ in 0..32 {
        step = match step {
            SetupStep::Next(setup, Action::ListBusPaths) => {
                assert!(!listed);
                listed = true;
                setup.paths_listed(vec![bus_path()])
            }
            SetupStep::Next(setup, _) => setup.advance(Ok(())),
            SetupStep::Ready(pad) => return Some(pad),
            SetupStep::Failed(e) => {
                println!("setup failed: {e:?}");
                return None;
            }
        };
    }
    None
}

fn reply_with_u32_at_8(v: u32) -> Vec<u8> {
    let mut b = vec![12, 0, 0, 0, 1, 0, 0, 0];
    b.extend_from_slice(&v.to_le_bytes());
    b
}

#[test]
fn test_available() {
    let mut step = GamepadBus::connect(vec![bus_path()]);
    while let alluno_gamepad_sys::BusStep::Next(search, _) = step {
        step = search.advance(Ok(()));
    }
    assert!(AllunoGamepad::is_available(&step));
    let none = GamepadBus::connect(Vec::new());
    assert!(!AllunoGamepad::is_available(&none));
}

#[test]
fn test_create_drop() {
    let Some(pad) = make_pad() else {
        panic!("setup against an accepting bus must succeed");
    };
    let (mut target, req) = pad.unplug();
    assert_eq!(req.code, alluno_gamepad_sys::protocol::IOCTL_UNPLUG_TARGET);
    target.finish_unplug(Ok(())).unwrap();
    assert!(!target.is_attached());
    assert!(target.unplug().is_none());
    drop(target);
}

#[test]
fn test_submit_report() {
    let Some(mut pad) = make_pad() else {
        panic!("setup against an accepting bus must succeed");
    };
    let report = XGamepad {
        buttons: xbuttons::A | xbuttons::UP,
        left_trigger: 128,
        thumb_lx: i16::MAX,
        ..Default::default()
    };
    let req = pad.update(&report).expect("update failed");
    assert_eq!(req.code, alluno_gamepad_sys::protocol::IOCTL_XUSB_SUBMIT_REPORT);
    assert_eq!(
        req.buffer,
        vec![20, 0, 0, 0, 1, 0, 0, 0, 0x01, 0x10, 128, 0, 0xFF, 0x7F, 0, 0, 0, 0, 0, 0]
    );
    assert!(AllunoGamepad::update_outcome(Ok(())).is_ok());
    let req = pad.update(&XGamepad::default()).expect("update failed");
    assert_eq!(&req.buffer[8..], &[0u8; 12]);
}

#[test]
fn test_user_index() {
    let Some(mut pad) = make_pad() else {
        panic!("setup against an accepting bus must succeed");
    };
    let req = pad.user_index().expect("a plugged-in pad asks for its slot");
    assert!(req.read_output);
    let reply = reply_with_u32_at_8(1);
    if let Some(idx) = AllunoGamepad::user_index_reply(Ok(()), &reply) {
        assert!(idx < 4);
    }
    assert_eq!(AllunoGamepad::user_index_reply(Ok(()), &reply), Some(1));
    assert_eq!(AllunoGamepad::user_index_reply(Err(-1), &reply), None);
}

#[test]
fn test_spawn_notification() {
    let Some(pad) = make_pad() else {
        panic!("setup against an accepting bus must succeed");
    };
    let listener = pad.spawn_notification().expect("spawn failed");
    assert_eq!(listener.bus_path(), &bus_path());
}
