//! Linux uhid event encoding for the virtual FIDO device: the events written
//! to /dev/uhid to create and destroy the device and to inject input reports,
//! and the decoding of the output-report events read from it. The caller
//! does the file I/O.
use vstd::prelude::*;
use crate::ctap_virtual_device::{FIDO_HID_REPORT_DESCRIPTOR, VIRTUAL_FIDO_PID, VIRTUAL_FIDO_VID};

verus! {

/// uhid event type UHID_CREATE2.
pub const UHID_CREATE2: u32 = 11;

/// uhid event type UHID_DESTROY.
pub const UHID_DESTROY: u32 = 1;

/// uhid event type UHID_INPUT2.
pub const UHID_INPUT2: u32 = 12;

/// uhid event type UHID_OUTPUT.
pub const UHID_OUTPUT: u32 = 6;

/// Size of the kernel's `uhid_event` struct.
pub const UHID_EVENT_SIZE: usize = 4380;

/// Device version reported in UHID_CREATE2 (0x0100).
pub const DEVICE_VERSION: u32 = 0x0100;

/// USB bus type (BUS_USB).
pub const BUS_USB: u16 = 3;

/// Name of the virtual device: "RustDesk Virtual FIDO Device".
pub const DEVICE_NAME: [u8; 28] = [
    0x52, 0x75, 0x73, 0x74, 0x44, 0x65, 0x73, 0x6b, 0x20, 0x56, 0x69, 0x72, 0x74, 0x75, 0x61, 0x6c,
    0x20, 0x46, 0x49, 0x44, 0x4f, 0x20, 0x44, 0x65, 0x76, 0x69, 0x63, 0x65,
];

// Offsets in a UHID_CREATE2 event (the request starts at offset 4).
pub const CREATE2_NAME_OFF: usize = 4;
pub const CREATE2_RD_SIZE_OFF: usize = 260;
pub const CREATE2_BUS_OFF: usize = 262;
pub const CREATE2_VENDOR_OFF: usize = 264;
pub const CREATE2_PRODUCT_OFF: usize = 268;
pub const CREATE2_VERSION_OFF: usize = 272;
pub const CREATE2_RD_DATA_OFF: usize = 280;

// Offsets in UHID_INPUT2 and UHID_OUTPUT events.
pub const INPUT2_SIZE_OFF: usize = 4;
pub const INPUT2_DATA_OFF: usize = 6;
pub const OUTPUT_DATA_OFF: usize = 4;
pub const OUTPUT_SIZE_OFF: usize = 4100;

/// Little-endian bytes of a `u32`.
pub open spec fn le_u32(v: u32) -> Seq<u8> {
    seq![(v % 0x100) as u8, ((v / 0x100) % 0x100) as u8, ((v / 0x10000) % 0x100) as u8, (v / 0x1000000) as u8]
}

/// Little-endian bytes of a `u16`.
pub open spec fn le_u16(v: u16) -> Seq<u8> {
    seq![(v % 0x100) as u8, (v / 0x100) as u8]
}

/// `bytes` placed at offset `at` of `base`.
pub open spec fn place(base: Seq<u8>, at: int, bytes: Seq<u8>) -> Seq<u8> {
    Seq::new(base.len(), |i: int| if at <= i < at + bytes.len() { bytes[i - at] } else { base[i] })
}

pub open spec fn zero_event() -> Seq<u8> {
    Seq::new(UHID_EVENT_SIZE as nat, |i: int| 0u8)
}

/// The UHID_CREATE2 event: event type, device name, report descriptor size,
/// USB bus, vendor and product IDs, device version 0x0100, country 0 and the FIDO report
/// descriptor, every other byte zero.
pub open spec fn create2_event_bytes() -> Seq<u8> {
    let e0 = place(zero_event(), 0, le_u32(UHID_CREATE2));
    let e1 = place(e0, CREATE2_NAME_OFF as int, DEVICE_NAME@);
    let e2 = place(e1, CREATE2_RD_SIZE_OFF as int, le_u16(34));
    let e3 = place(e2, CREATE2_BUS_OFF as int, le_u16(BUS_USB));
    let e4 = place(e3, CREATE2_VENDOR_OFF as int, le_u32(VIRTUAL_FIDO_VID as u32));
    let e5 = place(e4, CREATE2_PRODUCT_OFF as int, le_u32(VIRTUAL_FIDO_PID as u32));
    let e6 = place(e5, CREATE2_VERSION_OFF as int, le_u32(DEVICE_VERSION));
    place(e6, CREATE2_RD_DATA_OFF as int, FIDO_HID_REPORT_DESCRIPTOR@)
}

/// The UHID_DESTROY event: the event type, every other byte zero.
pub open spec fn destroy_event_bytes() -> Seq<u8> {
    place(zero_event(), 0, le_u32(UHID_DESTROY))
}

/// The UHID_INPUT2 event for a 64-byte input report: event type, size 64,
/// then the report, every other byte zero.
pub open spec fn input2_event_bytes(report: Seq<u8>) -> Seq<u8> {
    let e0 = place(zero_event(), 0, le_u32(UHID_INPUT2));
    let e1 = place(e0, INPUT2_SIZE_OFF as int, le_u16(64));
    place(e1, INPUT2_DATA_OFF as int, report)
}

fn write_bytes(buf: &mut Vec<u8>, at: usize, bytes: &[u8])
    requires
        at + bytes@.len() <= old(buf)@.len(),
    ensures
        final(buf)@ == place(old(buf)@, at as int, bytes@),
{
    let ghost b0 = buf@;
    let total = buf.len();
    let mut i: usize = 0;
    while i < bytes.len()
        invariant
            total == b0.len(),
            at + bytes@.len() <= b0.len(),
            0 <= i <= bytes@.len(),
            buf@.len() == b0.len(),
            forall|j: int|
                0 <= j < b0.len() ==> #[trigger] buf@[j] == (if at <= j < at + i { bytes@[j - at] } else { b0[j] }),
        decreases bytes@.len() - i,
    {
        buf.set(at + i, bytes[i]);
        i = i + 1;
    }
    assert(buf@ =~= place(b0, at as int, bytes@));
}

fn u32_le_bytes(v: u32) -> (r: [u8; 4])
    ensures
        r@ == le_u32(v),
{
    let r = [(v % 0x100) as u8, ((v / 0x100) % 0x100) as u8, ((v / 0x10000) % 0x100) as u8, (v / 0x1000000) as u8];
    assert(r@ =~= le_u32(v));
    r
}

fn u16_le_bytes(v: u16) -> (r: [u8; 2])
    ensures
        r@ == le_u16(v),
{
    let r = [(v % 0x100) as u8, (v / 0x100) as u8];
    assert(r@ =~= le_u16(v));
    r
}

fn zeroed_event() -> (r: Vec<u8>)
    ensures
        r@ == zero_event(),
{
    let v = vec![0u8; UHID_EVENT_SIZE];
    assert(v@ =~= zero_event());
    v
}

/// The UHID_CREATE2 event that creates the virtual FIDO device.
pub fn create2_event() -> (r: Vec<u8>)
    ensures
        r@ == create2_event_bytes(),
{
    let mut buf = zeroed_event();
    write_bytes(&mut buf, 0, u32_le_bytes(UHID_CREATE2).as_slice());
    write_bytes(&mut buf, CREATE2_NAME_OFF, DEVICE_NAME.as_slice());
    write_bytes(&mut buf, CREATE2_RD_SIZE_OFF, u16_le_bytes(34).as_slice());
    write_bytes(&mut buf, CREATE2_BUS_OFF, u16_le_bytes(BUS_USB).as_slice());
    write_bytes(&mut buf, CREATE2_VENDOR_OFF, u32_le_bytes(VIRTUAL_FIDO_VID as u32).as_slice());
    write_bytes(&mut buf, CREATE2_PRODUCT_OFF, u32_le_bytes(VIRTUAL_FIDO_PID as u32).as_slice());
    write_bytes(&mut buf, CREATE2_VERSION_OFF, u32_le_bytes(DEVICE_VERSION).as_slice());
    write_bytes(&mut buf, CREATE2_RD_DATA_OFF, FIDO_HID_REPORT_DESCRIPTOR.as_slice());
    buf
}

/// The UHID_DESTROY event that removes the virtual FIDO device.
pub fn destroy_event() -> (r: Vec<u8>)
    ensures
        r@ == destroy_event_bytes(),
{
    let mut buf = zeroed_event();
    write_bytes(&mut buf, 0, u32_le_bytes(UHID_DESTROY).as_slice());
    buf
}

/// The UHID_INPUT2 event that injects a 64-byte input report (towards the
/// browser).
pub fn input2_event(report: &[u8; 64]) -> (r: Vec<u8>)
    ensures
        r@ == input2_event_bytes(report@),
{
    let mut buf = zeroed_event();
    write_bytes(&mut buf, 0, u32_le_bytes(UHID_INPUT2).as_slice());
    write_bytes(&mut buf, INPUT2_SIZE_OFF, u16_le_bytes(64).as_slice());
    write_bytes(&mut buf, INPUT2_DATA_OFF, report.as_slice());
    buf
}

/// What one event read from /dev/uhid means for reading an output report.
pub enum UhidOutput {
    /// Not an output report (too short to hold an event type, or another
    /// event such as UHID_START or UHID_OPEN): read on.
    Skip,
    /// An output report shorter than 64 bytes, of this size: read on.
    TooShort(u16),
    /// The 64-byte output report (towards the virtual device).
    Report([u8; 64]),
}

pub enum UhidOutputView {
    Skip,
    TooShort(u16),
    Report(Seq<u8>),
}

impl View for UhidOutput {
    type V = UhidOutputView;

    open spec fn view(&self) -> UhidOutputView {
        match self {
            UhidOutput::Skip => UhidOutputView::Skip,
            UhidOutput::TooShort(n) => UhidOutputView::TooShort(*n),
            UhidOutput::Report(r) => UhidOutputView::Report(r@),
        }
    }
}

/// The meaning of an event of `n` bytes read into `event`: a UHID_OUTPUT
/// event whose 16-bit size is 65 and whose data starts with report ID 0
/// carries the report in data bytes 1..65; one whose size is at least 64
/// carries it in data bytes 0..64; a smaller one is too short.
pub open spec fn spec_output_event(event: Seq<u8>, n: int) -> UhidOutputView {
    if n < 4 {
        UhidOutputView::Skip
    } else if event.subrange(0, 4) != le_u32(UHID_OUTPUT) {
        UhidOutputView::Skip
    } else {
        let size = event[OUTPUT_SIZE_OFF as int] as int + event[OUTPUT_SIZE_OFF + 1] as int * 256;
        if size == 65 && event[OUTPUT_DATA_OFF as int] == 0 {
            UhidOutputView::Report(event.subrange(OUTPUT_DATA_OFF + 1, OUTPUT_DATA_OFF + 65))
        } else if size >= 64 {
            UhidOutputView::Report(event.subrange(OUTPUT_DATA_OFF as int, OUTPUT_DATA_OFF + 64))
        } else {
            UhidOutputView::TooShort(size as u16)
        }
    }
}

fn copy_report(event: &[u8], from: usize) -> (r: [u8; 64])
    requires
        from + 64 <= event@.len(),
    ensures
        r@ == event@.subrange(from as int, from + 64),
{
    let mut r = [0u8; 64];
    let total = event.len();
    let mut i: usize = 0;
    while i < 64
        invariant
            total == event@.len(),
            from + 64 <= event@.len(),
            0 <= i <= 64,
            r@.len() == 64,
            forall|j: int| 0 <= j < i ==> #[trigger] r@[j] == event@[from + j],
        decreases 64 - i,
    {
        r[i] = event[from + i];
        i = i + 1;
    }
    assert(r@ =~= event@.subrange(from as int, from + 64));
    r
}

/// Decode an event of `n` bytes read from /dev/uhid into `event`.
pub fn parse_output_event(event: &[u8], n: usize) -> (r: UhidOutput)
    requires
        event@.len() == UHID_EVENT_SIZE,
    ensures
        r@ == spec_output_event(event@, n as int),
{
    if n < 4 {
        return UhidOutput::Skip;
    }
    let t = u32_le_bytes(UHID_OUTPUT);
    if event[0] != t[0] || event[1] != t[1] || event[2] != t[2] || event[3] != t[3] {
        assert(event@.subrange(0, 4) != le_u32(UHID_OUTPUT)) by {
            if event@.subrange(0, 4) == le_u32(UHID_OUTPUT) {
                assert(event@.subrange(0, 4)[0] == event@[0]);
                assert(event@.subrange(0, 4)[1] == event@[1]);
                assert(event@.subrange(0, 4)[2] == event@[2]);
                assert(event@.subrange(0, 4)[3] == event@[3]);
            }
        }
        return UhidOutput::Skip;
    }
    assert(event@.subrange(0, 4) =~= le_u32(UHID_OUTPUT));
    let size: u16 = (event[OUTPUT_SIZE_OFF] as u16) + (event[OUTPUT_SIZE_OFF + 1] as u16) * 256;
    if size == 65 && event[OUTPUT_DATA_OFF] == 0x00 {
        UhidOutput::Report(copy_report(event, OUTPUT_DATA_OFF + 1))
    } else if size >= 64 {
        UhidOutput::Report(copy_report(event, OUTPUT_DATA_OFF))
    } else {
        UhidOutput::TooShort(size)
    }
}

} // verus!
