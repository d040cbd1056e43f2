//! The input report that a virtual controller submits, and the output that
//! games send back to it.

use vstd::prelude::*;
use crate::wire::{bits_of_i16, i16_bits, le_u16, push_u16};

verus! {

/// An XInput-compatible input report.
#[derive(Clone, Copy, Debug, PartialEq, Eq, Structural)]
pub struct XGamepad {
    pub buttons: u16,
    pub left_trigger: u8,
    pub right_trigger: u8,
    pub thumb_lx: i16,
    pub thumb_ly: i16,
    pub thumb_rx: i16,
    pub thumb_ry: i16,
}

impl Default for XGamepad {
    /// A report with nothing pressed and both sticks centred.
    fn default() -> (r: Self)
        ensures
            r == (XGamepad {
                buttons: 0,
                left_trigger: 0,
                right_trigger: 0,
                thumb_lx: 0,
                thumb_ly: 0,
                thumb_rx: 0,
                thumb_ry: 0,
            }),
    {
        XGamepad {
            buttons: 0,
            left_trigger: 0,
            right_trigger: 0,
            thumb_lx: 0,
            thumb_ly: 0,
            thumb_rx: 0,
            thumb_ry: 0,
        }
    }
}

/// Force feedback that a game sent to the controller.
#[derive(Clone, Copy, Debug, PartialEq, Eq, Structural)]
pub struct GamepadNotification {
    pub large_motor: u8,
    pub small_motor: u8,
    pub led_number: u8,
}

impl Default for GamepadNotification {
    /// Both motors off and no player LED.
    fn default() -> (r: Self)
        ensures
            r == (GamepadNotification { large_motor: 0, small_motor: 0, led_number: 0 }),
    {
        GamepadNotification { large_motor: 0, small_motor: 0, led_number: 0 }
    }
}

/// Which virtual controller to emulate.
#[derive(Clone, Copy, Debug, PartialEq, Eq, Structural)]
pub enum GamepadKind {
    /// Xbox 360 (XInput).
    Xbox360,
    /// Sony DualShock 4 (DirectInput).
    DualShock4,
}

impl Default for GamepadKind {
    /// The Xbox 360 controller.
    fn default() -> (r: Self)
        ensures
            r == GamepadKind::Xbox360,
    {
        GamepadKind::Xbox360
    }
}

/// The twelve bytes of a report laid out as the bus driver reads them:
/// buttons, the two triggers, then the four stick axes.
pub open spec fn report_bytes(r: XGamepad) -> Seq<u8> {
    le_u16(r.buttons) + seq![r.left_trigger, r.right_trigger] + le_u16(i16_bits(r.thumb_lx))
        + le_u16(i16_bits(r.thumb_ly)) + le_u16(i16_bits(r.thumb_rx)) + le_u16(
        i16_bits(r.thumb_ry),
    )
}

proof fn lemma_le_u16_injective(a: u16, b: u16)
    requires
        le_u16(a) == le_u16(b),
    ensures
        a == b,
{
    assert(le_u16(a)[0] == le_u16(b)[0]);
    assert(le_u16(a)[1] == le_u16(b)[1]);
    assert(a == 256 * (a / 256) + a % 256);
    assert(b == 256 * (b / 256) + b % 256);
}

proof fn lemma_i16_bits_injective(a: i16, b: i16)
    requires
        i16_bits(a) == i16_bits(b),
    ensures
        a == b,
{
}

/// The wire form of a report loses nothing: two reports with the same bytes are
/// the same report.
pub proof fn lemma_report_bytes_injective(a: XGamepad, b: XGamepad)
    requires
        report_bytes(a) == report_bytes(b),
    ensures
        a == b,
{
    let (x, y) = (report_bytes(a), report_bytes(b));
    assert(x.len() == 12);
    assert(x.subrange(0, 2) =~= le_u16(a.buttons));
    assert(y.subrange(0, 2) =~= le_u16(b.buttons));
    lemma_le_u16_injective(a.buttons, b.buttons);
    assert(x[2] == a.left_trigger && y[2] == b.left_trigger);
    assert(x[3] == a.right_trigger && y[3] == b.right_trigger);
    assert(x.subrange(4, 6) =~= le_u16(i16_bits(a.thumb_lx)));
    assert(y.subrange(4, 6) =~= le_u16(i16_bits(b.thumb_lx)));
    lemma_le_u16_injective(i16_bits(a.thumb_lx), i16_bits(b.thumb_lx));
    lemma_i16_bits_injective(a.thumb_lx, b.thumb_lx);
    assert(x.subrange(6, 8) =~= le_u16(i16_bits(a.thumb_ly)));
    assert(y.subrange(6, 8) =~= le_u16(i16_bits(b.thumb_ly)));
    lemma_le_u16_injective(i16_bits(a.thumb_ly), i16_bits(b.thumb_ly));
    lemma_i16_bits_injective(a.thumb_ly, b.thumb_ly);
    assert(x.subrange(8, 10) =~= le_u16(i16_bits(a.thumb_rx)));
    assert(y.subrange(8, 10) =~= le_u16(i16_bits(b.thumb_rx)));
    lemma_le_u16_injective(i16_bits(a.thumb_rx), i16_bits(b.thumb_rx));
    lemma_i16_bits_injective(a.thumb_rx, b.thumb_rx);
    assert(x.subrange(10, 12) =~= le_u16(i16_bits(a.thumb_ry)));
    assert(y.subrange(10, 12) =~= le_u16(i16_bits(b.thumb_ry)));
    lemma_le_u16_injective(i16_bits(a.thumb_ry), i16_bits(b.thumb_ry));
    lemma_i16_bits_injective(a.thumb_ry, b.thumb_ry);
}

/// The 16-bit field stored little-endian at `at`, as an unsigned number.
pub open spec fn field_u16(bytes: Seq<u8>, at: int) -> int {
    bytes[at] + 256 * bytes[at + 1]
}

/// A signed 16-bit value as the unsigned number of its two's-complement bits.
pub open spec fn twos_complement(v: i16) -> int {
    if v < 0 {
        v + 65536
    } else {
        v as int
    }
}

proof fn lemma_le_u16_reads_back(v: u16)
    ensures
        le_u16(v).len() == 2,
        le_u16(v)[0] + 256 * le_u16(v)[1] == v,
{
    assert(v == 256 * (v / 256) + v % 256);
}

/// The wire form of a report is its fields as they stand, in their order:
/// the buttons in bytes 0 and 1, the left and right trigger in bytes 2 and 3,
/// and the left stick's x and y, then the right stick's x and y, two bytes
/// each from byte 4 on, every field little-endian and the stick axes in two's
/// complement.
pub proof fn lemma_report_fields(r: XGamepad)
    ensures
        report_bytes(r).len() == 12,
        field_u16(report_bytes(r), 0) == r.buttons,
        report_bytes(r)[2] == r.left_trigger,
        report_bytes(r)[3] == r.right_trigger,
        field_u16(report_bytes(r), 4) == twos_complement(r.thumb_lx),
        field_u16(report_bytes(r), 6) == twos_complement(r.thumb_ly),
        field_u16(report_bytes(r), 8) == twos_complement(r.thumb_rx),
        field_u16(report_bytes(r), 10) == twos_complement(r.thumb_ry),
{
    let x = report_bytes(r);
    lemma_le_u16_reads_back(r.buttons);
    lemma_le_u16_reads_back(i16_bits(r.thumb_lx));
    lemma_le_u16_reads_back(i16_bits(r.thumb_ly));
    lemma_le_u16_reads_back(i16_bits(r.thumb_rx));
    lemma_le_u16_reads_back(i16_bits(r.thumb_ry));
    assert(x[0] == le_u16(r.buttons)[0] && x[1] == le_u16(r.buttons)[1]);
    assert(x[4] == le_u16(i16_bits(r.thumb_lx))[0] && x[5] == le_u16(i16_bits(r.thumb_lx))[1]);
    assert(x[6] == le_u16(i16_bits(r.thumb_ly))[0] && x[7] == le_u16(i16_bits(r.thumb_ly))[1]);
    assert(x[8] == le_u16(i16_bits(r.thumb_rx))[0] && x[9] == le_u16(i16_bits(r.thumb_rx))[1]);
    assert(x[10] == le_u16(i16_bits(r.thumb_ry))[0] && x[11] == le_u16(i16_bits(r.thumb_ry))[1]);
}

impl XGamepad {
    /// Appends the report's wire form to `buf`.
    pub fn write_to(&self, buf: &mut Vec<u8>)
        ensures
            final(buf)@ == old(buf)@ + report_bytes(*self),
    {
        push_u16(buf, self.buttons);
        buf.push(self.left_trigger);
        buf.push(self.right_trigger);
        push_u16(buf, bits_of_i16(self.thumb_lx));
        push_u16(buf, bits_of_i16(self.thumb_ly));
        push_u16(buf, bits_of_i16(self.thumb_rx));
        push_u16(buf, bits_of_i16(self.thumb_ry));
        assert(buf@ =~= old(buf)@ + report_bytes(*self));
    }
}

} // verus!
