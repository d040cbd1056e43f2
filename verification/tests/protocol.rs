use alluno_gamepad_sys::error::{HRESULT_INVALID_PARAMETER, HRESULT_IO_PENDING};
use alluno_gamepad_sys::paths::{device_interface_paths, interface_list_len, CR_SUCCESS};
use alluno_gamepad_sys::protocol::{
    check_version_request, ioctl_started, notification_from_reply, notification_request,
    plugin_request, submit_report_request, unplug_request, user_index_from_reply,
    user_index_request, wait_ready_request, IOCTL_CHECK_VERSION, IOCTL_PLUGIN_TARGET,
    IOCTL_UNPLUG_TARGET, IOCTL_WAIT_DEVICE_READY, IOCTL_XUSB_GET_USER_INDEX,
    IOCTL_XUSB_REQUEST_NOTIFICATION,
};
use alluno_gamepad_sys::wire::{bits_of_i16, bits_of_i32, get_u32, push_u16, push_u32};
use alluno_gamepad_sys::{xbuttons, Error, GamepadKind, GamepadNotification, XGamepad};

fn units(s: &str) -> Vec<u16> {
    s.encode_utf16().collect()
}

#[test]
fn little_endian_fields() {
    let mut b = Vec::new();
    push_u16(&mut b, 0x1234);
    push_u32(&mut b, 0xA1B2_C3D4);
    assert_eq!(b, vec![0x34, 0x12, 0xD4, 0xC3, 0xB2, 0xA1]);
    assert_eq!(get_u32(&b, 2), 0xA1B2_C3D4);
    assert_eq!(bits_of_i16(-1), 0xFFFF);
    assert_eq!(bits_of_i16(i16::MIN), 0x8000);
    assert_eq!(bits_of_i16(i16::MAX), 0x7FFF);
    assert_eq!(bits_of_i32(-2), 0xFFFF_FFFE);
    assert_eq!(bits_of_i32(7), 7);
}

#[test]
fn report_layout_matches_xinput() {
    let report = XGamepad {
        buttons: xbuttons::Y | xbuttons::DOWN,
        left_trigger: 1,
        right_trigger: 255,
        thumb_lx: -1,
        thumb_ly: i16::MIN,
        thumb_rx: 0x0102,
        thumb_ry: 0,
    };
    let req = submit_report_request(7, &report);
    assert_eq!(
        req.buffer,
        vec![20, 0, 0, 0, 7, 0, 0, 0, 0x02, 0x80, 1, 255, 0xFF, 0xFF, 0x00, 0x80, 0x02, 0x01, 0, 0]
    );
}

#[test]
fn default_values() {
    let r = XGamepad::default();
    assert_eq!(r.buttons, 0);
    assert_eq!((r.left_trigger, r.right_trigger), (0, 0));
    assert_eq!((r.thumb_lx, r.thumb_ly, r.thumb_rx, r.thumb_ry), (0, 0, 0, 0));
    assert_eq!(
        GamepadNotification::default(),
        GamepadNotification { large_motor: 0, small_motor: 0, led_number: 0 }
    );
    assert_eq!(GamepadKind::default(), GamepadKind::Xbox360);
}

#[test]
fn button_flags() {
    let all = [
        xbuttons::UP,
        xbuttons::DOWN,
        xbuttons::LEFT,
        xbuttons::RIGHT,
        xbuttons::START,
        xbuttons::BACK,
        xbuttons::LTHUMB,
        xbuttons::RTHUMB,
        xbuttons::LB,
        xbuttons::RB,
        xbuttons::GUIDE,
        xbuttons::A,
        xbuttons::B,
        xbuttons::X,
        xbuttons::Y,
    ];
    let mut seen = 0u16;
    for f in all {
        assert_eq!(f.count_ones(), 1);
        assert_eq!(seen & f, 0);
        seen |= f;
    }
    assert_eq!(seen, 0xF7FF);
}

#[test]
fn request_headers_state_size_and_serial() {
    let v = check_version_request();
    assert_eq!(v.code, IOCTL_CHECK_VERSION);
    assert_eq!(v.buffer, vec![8, 0, 0, 0, 1, 0, 0, 0]);
    assert!(!v.read_output);

    let p = plugin_request(0x0102);
    assert_eq!(p.code, IOCTL_PLUGIN_TARGET);
    assert_eq!(p.buffer, vec![16, 0, 0, 0, 2, 1, 0, 0, 0, 0, 0, 0, 0x5E, 0x04, 0x8E, 0x02]);

    let u = unplug_request(3);
    assert_eq!(u.code, IOCTL_UNPLUG_TARGET);
    assert_eq!(u.buffer, vec![8, 0, 0, 0, 3, 0, 0, 0]);

    let w = wait_ready_request(3);
    assert_eq!(w.code, IOCTL_WAIT_DEVICE_READY);
    assert_eq!(w.buffer, vec![8, 0, 0, 0, 3, 0, 0, 0]);

    let n = notification_request(4);
    assert_eq!(n.code, IOCTL_XUSB_REQUEST_NOTIFICATION);
    assert_eq!(n.buffer, vec![12, 0, 0, 0, 4, 0, 0, 0, 0, 0, 0, 0]);
    assert!(n.read_output);

    let i = user_index_request(5);
    assert_eq!(i.code, IOCTL_XUSB_GET_USER_INDEX);
    assert_eq!(i.buffer, vec![12, 0, 0, 0, 5, 0, 0, 0, 0, 0, 0, 0]);
    assert!(i.read_output);

    for r in [&v, &p, &u, &w, &n, &i] {
        assert_eq!(get_u32(&r.buffer, 0) as usize, r.buffer.len());
    }
}

#[test]
fn replies_are_read_at_their_offsets() {
    let reply = vec![12, 0, 0, 0, 4, 0, 0, 0, 200, 17, 3, 0];
    assert_eq!(
        notification_from_reply(&reply),
        GamepadNotification { large_motor: 200, small_motor: 17, led_number: 3 }
    );
    let reply = vec![12, 0, 0, 0, 5, 0, 0, 0, 2, 0, 0, 0];
    assert_eq!(user_index_from_reply(&reply), 2);
}

#[test]
fn pending_requests_are_awaited() {
    assert_eq!(ioctl_started(Ok(())), Ok(()));
    assert_eq!(ioctl_started(Err(HRESULT_IO_PENDING)), Ok(()));
    assert_eq!(ioctl_started(Err(HRESULT_INVALID_PARAMETER)), Err(HRESULT_INVALID_PARAMETER));
    assert_eq!(HRESULT_IO_PENDING as u32, 0x8007_03E5);
    assert_eq!(HRESULT_INVALID_PARAMETER as u32, 0x8007_0057);
}

#[test]
fn error_messages() {
    assert_eq!(
        Error::BusNotFound.message(),
        Some("gamepad bus device not found (driver not installed)")
    );
    assert_eq!(Error::VersionMismatch.message(), Some("gamepad bus driver API version mismatch"));
    assert_eq!(Error::NoFreeSlot.message(), Some("no free virtual gamepad slot"));
    assert_eq!(Error::NotPluggedIn.message(), Some("virtual gamepad is not plugged in"));
    assert_eq!(Error::Win32(-1).message(), None);
    assert_eq!(Error::Io(12).message(), None);
}

#[test]
fn interface_list_size_query() {
    assert_eq!(interface_list_len(CR_SUCCESS, 40), Some(40));
    assert_eq!(interface_list_len(CR_SUCCESS, 0), None);
    assert_eq!(interface_list_len(0x1A, 40), None);
}

#[test]
fn interface_paths_split_at_zero_units() {
    let mut buf = units("AB");
    buf.push(0);
    buf.extend(units("C"));
    buf.push(0);
    buf.push(0);
    let paths = device_interface_paths(CR_SUCCESS, &buf);
    assert_eq!(paths, vec![vec![65, 66, 0], vec![67, 0]]);

    let buf = vec![0, 0, 68, 0, 0, 69];
    assert_eq!(device_interface_paths(CR_SUCCESS, &buf), vec![vec![68, 0], vec![69, 0]]);
    assert_eq!(device_interface_paths(CR_SUCCESS, &vec![0, 0]), Vec::<Vec<u16>>::new());
    assert_eq!(device_interface_paths(CR_SUCCESS, &Vec::new()), Vec::<Vec<u16>>::new());
    assert_eq!(device_interface_paths(0x1A, &vec![65, 0, 0]), Vec::<Vec<u16>>::new());
}

#[test]
fn interface_paths_keep_every_unit() {
    let buf: Vec<u16> = vec![1, 2, 0, 3, 0, 0, 4, 5, 6, 0, 0];
    let paths = device_interface_paths(CR_SUCCESS, &buf);
    for p in &paths {
        assert!(p.len() >= 2);
        assert_eq!(*p.last().unwrap(), 0);
        assert!(p[..p.len() - 1].iter().all(|&c| c != 0));
    }
    let joined: Vec<u16> = paths.iter().flat_map(|p| p[..p.len() - 1].to_vec()).collect();
    let nonzero: Vec<u16> = buf.iter().copied().filter(|&c| c != 0).collect();
    assert_eq!(joined, nonzero);
}
