//! The bus driver's I/O control requests: their codes, the bytes each one
//! carries, and how its replies are read.
//!
//! Every request starts with its own size in bytes and, once a controller is
//! plugged in, the controller's serial number, both as little-endian `u32`.

use vstd::prelude::*;
use crate::error::HRESULT_IO_PENDING;
use crate::report::{report_bytes, GamepadNotification, XGamepad};
use crate::wire::{
    bits_of_i32, get_u32, i32_bits, le_u16, le_u32, lemma_read_le_u32, push_u16, push_u32, read_u32,
};

verus! {

pub const IOCTL_PLUGIN_TARGET: u32 = 0x2AA004;
pub const IOCTL_UNPLUG_TARGET: u32 = 0x2AA008;
pub const IOCTL_CHECK_VERSION: u32 = 0x2AA00C;
pub const IOCTL_WAIT_DEVICE_READY: u32 = 0x2AA010;
pub const IOCTL_XUSB_REQUEST_NOTIFICATION: u32 = 0x2AE804;
pub const IOCTL_XUSB_SUBMIT_REPORT: u32 = 0x2AA808;
pub const IOCTL_XUSB_GET_USER_INDEX: u32 = 0x2AE81C;

/// The protocol version this crate speaks.
pub const API_VERSION_COMMON: u32 = 0x0001;
/// The bus's number for a wired Xbox 360 controller.
pub const TARGET_TYPE_XBOX360_WIRED: i32 = 0;
pub const X360_VENDOR_ID: u16 = 0x045E;
pub const X360_PRODUCT_ID: u16 = 0x028E;

/// One I/O control request to the bus device. The same buffer carries the
/// input and, when `read_output` is set, receives the driver's reply.
#[derive(Debug)]
pub struct IoctlRequest {
    pub code: u32,
    pub buffer: Vec<u8>,
    pub read_output: bool,
}

/// A request as a value: its code, its bytes, and whether the driver writes a
/// reply into them.
pub struct RequestView {
    pub code: u32,
    pub bytes: Seq<u8>,
    pub read_output: bool,
}

impl View for IoctlRequest {
    type V = RequestView;

    open spec fn view(&self) -> RequestView {
        RequestView { code: self.code, bytes: self.buffer@, read_output: self.read_output }
    }
}

/// The version check: size and version.
pub open spec fn check_version_bytes() -> Seq<u8> {
    le_u32(8) + le_u32(API_VERSION_COMMON)
}

/// Plugging in a wired Xbox 360 controller with serial number `serial_no`.
pub open spec fn plugin_bytes(serial_no: u32) -> Seq<u8> {
    le_u32(16) + le_u32(serial_no) + le_u32(i32_bits(TARGET_TYPE_XBOX360_WIRED)) + le_u16(
        X360_VENDOR_ID,
    ) + le_u16(X360_PRODUCT_ID)
}

/// A request that names a controller and nothing else (unplug, wait until ready).
pub open spec fn serial_only_bytes(serial_no: u32) -> Seq<u8> {
    le_u32(8) + le_u32(serial_no)
}

/// Submitting `report` for controller `serial_no`.
pub open spec fn submit_report_bytes(serial_no: u32, report: XGamepad) -> Seq<u8> {
    le_u32(20) + le_u32(serial_no) + report_bytes(report)
}

/// Asking for the next force-feedback notification of controller `serial_no`:
/// large motor, small motor and LED start at zero, followed by one byte of padding.
pub open spec fn notification_bytes(serial_no: u32) -> Seq<u8> {
    le_u32(12) + le_u32(serial_no) + seq![0u8, 0u8, 0u8, 0u8]
}

/// Asking for the XInput user index of controller `serial_no`; the index starts at zero.
pub open spec fn user_index_bytes(serial_no: u32) -> Seq<u8> {
    le_u32(12) + le_u32(serial_no) + le_u32(0)
}

pub open spec fn spec_check_version() -> RequestView {
    RequestView { code: IOCTL_CHECK_VERSION, bytes: check_version_bytes(), read_output: false }
}

pub open spec fn spec_plugin(serial_no: u32) -> RequestView {
    RequestView { code: IOCTL_PLUGIN_TARGET, bytes: plugin_bytes(serial_no), read_output: false }
}

pub open spec fn spec_unplug(serial_no: u32) -> RequestView {
    RequestView { code: IOCTL_UNPLUG_TARGET, bytes: serial_only_bytes(serial_no), read_output: false }
}

pub open spec fn spec_wait_ready(serial_no: u32) -> RequestView {
    RequestView {
        code: IOCTL_WAIT_DEVICE_READY,
        bytes: serial_only_bytes(serial_no),
        read_output: false,
    }
}

pub open spec fn spec_submit_report(serial_no: u32, report: XGamepad) -> RequestView {
    RequestView {
        code: IOCTL_XUSB_SUBMIT_REPORT,
        bytes: submit_report_bytes(serial_no, report),
        read_output: false,
    }
}

pub open spec fn spec_notification(serial_no: u32) -> RequestView {
    RequestView {
        code: IOCTL_XUSB_REQUEST_NOTIFICATION,
        bytes: notification_bytes(serial_no),
        read_output: true,
    }
}

pub open spec fn spec_user_index(serial_no: u32) -> RequestView {
    RequestView {
        code: IOCTL_XUSB_GET_USER_INDEX,
        bytes: user_index_bytes(serial_no),
        read_output: true,
    }
}

/// The size that a request's first four bytes state.
pub open spec fn stated_size(bytes: Seq<u8>) -> u32 {
    read_u32(bytes, 0)
}

/// The serial number that a request's bytes four to seven state.
pub open spec fn stated_serial(bytes: Seq<u8>) -> u32 {
    read_u32(bytes, 4)
}

fn new_request(code: u32, size: u32, serial_no: u32) -> (r: IoctlRequest)
    ensures
        r.code == code,
        r.buffer@ == le_u32(size) + le_u32(serial_no),
        !r.read_output,
{
    let mut buffer: Vec<u8> = Vec::new();
    push_u32(&mut buffer, size);
    push_u32(&mut buffer, serial_no);
    IoctlRequest { code, buffer, read_output: false }
}

/// Asks the bus whether it speaks this crate's protocol version.
pub fn check_version_request() -> (r: IoctlRequest)
    ensures
        r@ == spec_check_version(),
{
    new_request(IOCTL_CHECK_VERSION, 8, API_VERSION_COMMON)
}

/// Asks the bus to plug in a wired Xbox 360 controller with serial number `serial_no`.
pub fn plugin_request(serial_no: u32) -> (r: IoctlRequest)
    ensures
        r@ == spec_plugin(serial_no),
{
    let mut r = new_request(IOCTL_PLUGIN_TARGET, 16, serial_no);
    push_u32(&mut r.buffer, bits_of_i32(TARGET_TYPE_XBOX360_WIRED));
    push_u16(&mut r.buffer, X360_VENDOR_ID);
    push_u16(&mut r.buffer, X360_PRODUCT_ID);
    assert(r.buffer@ =~= plugin_bytes(serial_no));
    r
}

/// Asks the bus to unplug controller `serial_no`.
pub fn unplug_request(serial_no: u32) -> (r: IoctlRequest)
    ensures
        r@ == spec_unplug(serial_no),
{
    new_request(IOCTL_UNPLUG_TARGET, 8, serial_no)
}

/// Waits until the system has picked up controller `serial_no`.
pub fn wait_ready_request(serial_no: u32) -> (r: IoctlRequest)
    ensures
        r@ == spec_wait_ready(serial_no),
{
    new_request(IOCTL_WAIT_DEVICE_READY, 8, serial_no)
}

/// Submits `report` as the input state of controller `serial_no`.
pub fn submit_report_request(serial_no: u32, report: &XGamepad) -> (r: IoctlRequest)
    ensures
        r@ == spec_submit_report(serial_no, *report),
{
    let mut r = new_request(IOCTL_XUSB_SUBMIT_REPORT, 20, serial_no);
    report.write_to(&mut r.buffer);
    assert(r.buffer@ =~= submit_report_bytes(serial_no, *report));
    r
}

/// Waits for the next force-feedback output that a game sends to controller `serial_no`.
pub fn notification_request(serial_no: u32) -> (r: IoctlRequest)
    ensures
        r@ == spec_notification(serial_no),
{
    let mut r = new_request(IOCTL_XUSB_REQUEST_NOTIFICATION, 12, serial_no);
    r.buffer.push(0);
    r.buffer.push(0);
    r.buffer.push(0);
    r.buffer.push(0);
    r.read_output = true;
    assert(r.buffer@ =~= notification_bytes(serial_no));
    r
}

/// Asks for the XInput user index of controller `serial_no`.
pub fn user_index_request(serial_no: u32) -> (r: IoctlRequest)
    ensures
        r@ == spec_user_index(serial_no),
{
    let mut r = new_request(IOCTL_XUSB_GET_USER_INDEX, 12, serial_no);
    push_u32(&mut r.buffer, 0);
    r.read_output = true;
    r
}

/// The force feedback that the driver wrote into a notification reply.
pub open spec fn spec_notification_of(reply: Seq<u8>) -> GamepadNotification {
    GamepadNotification { large_motor: reply[8], small_motor: reply[9], led_number: reply[10] }
}

/// A notification reply is read where the request keeps its fields, right
/// after the eight header bytes: large motor, small motor, then the LED.
pub proof fn lemma_notification_fields(reply: Seq<u8>)
    requires
        reply.len() >= 11,
    ensures
        spec_notification_of(reply).large_motor == reply[8],
        spec_notification_of(reply).small_motor == reply[9],
        spec_notification_of(reply).led_number == reply[10],
        notification_bytes(0).len() == 12,
{
}

/// Reads the force feedback out of a notification reply.
pub fn notification_from_reply(reply: &Vec<u8>) -> (r: GamepadNotification)
    requires
        reply@.len() >= 11,
    ensures
        r == spec_notification_of(reply@),
        r.large_motor == reply@[8],
        r.small_motor == reply@[9],
        r.led_number == reply@[10],
{
    GamepadNotification { large_motor: reply[8], small_motor: reply[9], led_number: reply[10] }
}

/// Reads the user index out of a user-index reply.
pub fn user_index_from_reply(reply: &Vec<u8>) -> (r: u32)
    requires
        reply@.len() >= 12,
    ensures
        r == read_u32(reply@, 8),
{
    get_u32(reply, 8)
}

proof fn lemma_header(size: u32, serial_no: u32, rest: Seq<u8>)
    ensures
        stated_size(le_u32(size) + le_u32(serial_no) + rest) == size,
        stated_serial(le_u32(size) + le_u32(serial_no) + rest) == serial_no,
        (le_u32(size) + le_u32(serial_no) + rest).len() == 8 + rest.len(),
{
    let s = le_u32(size) + le_u32(serial_no) + rest;
    lemma_read_le_u32(size);
    lemma_read_le_u32(serial_no);
    assert(read_u32(s, 0) == read_u32(le_u32(size), 0));
    assert(read_u32(s, 4) == read_u32(le_u32(serial_no), 0));
}

/// Every request that names a controller states its own length as its size
/// and the controller's serial number after it; the version check states its
/// length and the protocol version.
pub proof fn lemma_requests_state_size_and_serial(serial_no: u32, report: XGamepad)
    ensures
        stated_size(check_version_bytes()) == check_version_bytes().len(),
        stated_serial(check_version_bytes()) == API_VERSION_COMMON,
        stated_size(plugin_bytes(serial_no)) == plugin_bytes(serial_no).len(),
        stated_serial(plugin_bytes(serial_no)) == serial_no,
        stated_size(serial_only_bytes(serial_no)) == serial_only_bytes(serial_no).len(),
        stated_serial(serial_only_bytes(serial_no)) == serial_no,
        stated_size(submit_report_bytes(serial_no, report)) == submit_report_bytes(
            serial_no,
            report,
        ).len(),
        stated_serial(submit_report_bytes(serial_no, report)) == serial_no,
        stated_size(notification_bytes(serial_no)) == notification_bytes(serial_no).len(),
        stated_serial(notification_bytes(serial_no)) == serial_no,
        stated_size(user_index_bytes(serial_no)) == user_index_bytes(serial_no).len(),
        stated_serial(user_index_bytes(serial_no)) == serial_no,
{
    lemma_header(8, API_VERSION_COMMON, Seq::empty());
    assert(check_version_bytes() =~= le_u32(8) + le_u32(API_VERSION_COMMON) + Seq::empty());
    let plug_rest = le_u32(i32_bits(TARGET_TYPE_XBOX360_WIRED)) + le_u16(X360_VENDOR_ID) + le_u16(
        X360_PRODUCT_ID,
    );
    lemma_header(16, serial_no, plug_rest);
    assert(plugin_bytes(serial_no) =~= le_u32(16) + le_u32(serial_no) + plug_rest);
    lemma_header(8, serial_no, Seq::empty());
    assert(serial_only_bytes(serial_no) =~= le_u32(8) + le_u32(serial_no) + Seq::empty());
    lemma_header(20, serial_no, report_bytes(report));
    lemma_header(12, serial_no, seq![0u8, 0u8, 0u8, 0u8]);
    lemma_header(12, serial_no, le_u32(0));
}

/// Decides how a request goes on after `DeviceIoControl` returned: it is awaited
/// (`Ok`) when the call succeeded or is still pending, and it has failed
/// with the call's `HRESULT` otherwise.
pub fn ioctl_started(start: Result<(), i32>) -> (r: Result<(), i32>)
    ensures
        r == match start {
            Ok(()) => Ok(()),
            Err(code) => if code == HRESULT_IO_PENDING {
                Ok(())
            } else {
                Err(code)
            },
        },
{
    match start {
        Ok(()) => Ok(()),
        Err(code) => if code == HRESULT_IO_PENDING {
            Ok(())
        } else {
            Err(code)
        },
    }
}

} // verus!
