//! The virtual pointer's wire format and button state: fixed-size event
//! records, the device descriptor, and the event batches each pointer
//! operation emits. Multi-byte fields are little-endian; the record's two
//! time fields are 64-bit and written as zero.
use vstd::prelude::*;

verus! {

pub const EV_SYN: u16 = 0x00;
pub const EV_KEY: u16 = 0x01;
pub const EV_REL: u16 = 0x02;
pub const SYN_REPORT: u16 = 0;
pub const REL_X: u16 = 0x00;
pub const REL_Y: u16 = 0x01;
pub const REL_HWHEEL: u16 = 0x06;
pub const REL_WHEEL: u16 = 0x08;
pub const BTN_LEFT: u16 = 0x110;
pub const BTN_RIGHT: u16 = 0x111;
pub const BTN_MIDDLE: u16 = 0x112;

/// Bytes in one event record: two 64-bit time fields, type, code, value.
pub const EVENT_RECORD_LEN: usize = 24;

/// Bytes of the device name field of the descriptor.
pub const DEVICE_NAME_LEN: usize = 80;

/// Bytes in the device descriptor: name, four 16-bit ids, the force-feedback
/// count, and four tables of 64 absolute-axis values.
pub const DESCRIPTOR_LEN: usize = 1116;

pub const BUS_USB: u16 = 0x03;
pub const VENDOR_ID: u16 = 0x1234;
pub const PRODUCT_ID: u16 = 0x5678;
pub const VERSION_ID: u16 = 1;

/// One input event: a type, a code and a value.
#[derive(Clone, Copy, Debug, PartialEq, Eq, Structural)]
pub struct InputEvent {
    pub type_: u16,
    pub code: u16,
    pub value: i32,
}

/// `n` zero bytes.
pub open spec fn zeros(n: nat) -> Seq<u8> {
    Seq::new(n, |i: int| 0u8)
}

/// A 16-bit value, low byte first.
pub open spec fn le16(v: u16) -> Seq<u8> {
    seq![(v % 256) as u8, (v / 256) as u8]
}

/// A 32-bit value, low byte first.
pub open spec fn le32(v: nat) -> Seq<u8> {
    seq![(v % 256) as u8, (v / 256 % 256) as u8, (v / 65536 % 256) as u8, (v / 16777216 % 256) as u8]
}

/// The two's-complement bit pattern of an `i32`, as a number.
pub open spec fn twos(v: i32) -> nat {
    if v >= 0 {
        v as nat
    } else {
        (v + 4294967296) as nat
    }
}

/// The record of an event: zero time, then type, code and value.
pub open spec fn event_record(e: InputEvent) -> Seq<u8> {
    zeros(16) + le16(e.type_) + le16(e.code) + le32(twos(e.value))
}

/// The event a record holds: time ignored.
pub open spec fn decode_record(b: Seq<u8>) -> InputEvent {
    let t = b[16] + 256 * b[17];
    let c = b[18] + 256 * b[19];
    let u = b[20] + 256 * b[21] + 65536 * b[22] + 16777216 * b[23];
    InputEvent {
        type_: t as u16,
        code: c as u16,
        value: (if u < 2147483648 { u } else { u - 4294967296 }) as i32,
    }
}

/// The records of a batch of events, one after another.
pub open spec fn records_of(es: Seq<InputEvent>, bytes: Seq<u8>) -> bool {
    &&& bytes.len() == es.len() * 24
    &&& forall|i: int|
        0 <= i < es.len() ==> bytes.subrange(i * 24, i * 24 + 24) == event_record(
            #[trigger] es[i],
        )
}

/// The synchronisation record that ends every batch.
pub open spec fn syn() -> InputEvent {
    InputEvent { type_: EV_SYN, code: SYN_REPORT, value: 0 }
}

/// The events of a relative move: the nonzero axis deltas, then one sync.
pub open spec fn move_batch(dx: i32, dy: i32) -> Seq<InputEvent> {
    (if dx != 0 { seq![InputEvent { type_: EV_REL, code: REL_X, value: dx }] } else { seq![] })
        + (if dy != 0 { seq![InputEvent { type_: EV_REL, code: REL_Y, value: dy }] } else { seq![] })
        + seq![syn()]
}

/// A button going down (`pressed`) or up, then a sync.
pub open spec fn button_batch(code: u16, pressed: bool) -> Seq<InputEvent> {
    seq![InputEvent { type_: EV_KEY, code, value: if pressed { 1i32 } else { 0i32 } }, syn()]
}

/// The button code of button 0 (left), 1 (middle) or 2 (right).
pub open spec fn button_code_of(button: u8) -> Option<u16> {
    if button == 0 {
        Some(BTN_LEFT)
    } else if button == 1 {
        Some(BTN_MIDDLE)
    } else if button == 2 {
        Some(BTN_RIGHT)
    } else {
        None
    }
}

/// A vertical scroll: the wheel axis counts scrolling down as negative.
pub open spec fn wheel_batch(amount: i32) -> Seq<InputEvent> {
    seq![InputEvent { type_: EV_REL, code: REL_WHEEL, value: -amount as i32 }, syn()]
}

/// What releasing a drag emits: the left button going up, only if it is held.
pub open spec fn release_batch(held: bool) -> Seq<InputEvent> {
    if held {
        button_batch(BTN_LEFT, false)
    } else {
        seq![]
    }
}

fn put_le16(out: &mut Vec<u8>, v: u16)
    ensures
        final(out)@ == old(out)@ + le16(v),
{
    out.push((v % 256) as u8);
    out.push((v / 256) as u8);
    proof {
        assert(final(out)@ =~= old(out)@ + le16(v));
    }
}

fn put_le32(out: &mut Vec<u8>, v: u32)
    ensures
        final(out)@ == old(out)@ + le32(v as nat),
{
    out.push((v % 256) as u8);
    out.push((v / 256 % 256) as u8);
    out.push((v / 65536 % 256) as u8);
    out.push((v / 16777216 % 256) as u8);
    proof {
        assert(final(out)@ =~= old(out)@ + le32(v as nat));
    }
}

fn put_zeros(out: &mut Vec<u8>, n: usize)
    ensures
        final(out)@ == old(out)@ + zeros(n as nat),
{
    let mut i: usize = 0;
    while i < n
        invariant
            i <= n,
            out@ == old(out)@ + zeros(i as nat),
        decreases n - i,
    {
        out.push(0u8);
        i = i + 1;
        proof {
            assert(out@ =~= old(out)@ + zeros(i as nat));
        }
    }
}

impl InputEvent {
    pub fn new(type_: u16, code: u16, value: i32) -> (r: Self)
        ensures
            r == (InputEvent { type_, code, value }),
    {
        InputEvent { type_, code, value }
    }

    fn append_record(&self, out: &mut Vec<u8>)
        ensures
            final(out)@ == old(out)@ + event_record(*self),
    {
        put_zeros(out, 16);
        put_le16(out, self.type_);
        put_le16(out, self.code);
        let bits: u32 = if self.value >= 0 {
            self.value as u32
        } else {
            (self.value as i64 + 4294967296) as u32
        };
        put_le32(out, bits);
        proof {
            assert(final(out)@ =~= old(out)@ + event_record(*self));
        }
    }

    /// The 24-byte record of this event.
    pub fn to_bytes(&self) -> (r: Vec<u8>)
        ensures
            r@ == event_record(*self),
    {
        let mut out: Vec<u8> = Vec::new();
        self.append_record(&mut out);
        proof {
            assert(out@ =~= event_record(*self));
        }
        out
    }

    /// The event a 24-byte record holds; `None` for any other length.
    pub fn from_bytes(bytes: &[u8]) -> (r: Option<InputEvent>)
        ensures
            bytes@.len() == 24 ==> r == Some(decode_record(bytes@)),
            bytes@.len() != 24 ==> r is None,
    {
        if bytes.len() != EVENT_RECORD_LEN {
            return None;
        }
        let t = bytes[16] as u16 + 256 * bytes[17] as u16;
        let c = bytes[18] as u16 + 256 * bytes[19] as u16;
        let u = bytes[20] as u32 + 256 * bytes[21] as u32 + 65536 * bytes[22] as u32 + 16777216
            * bytes[23] as u32;
        let value: i32 = if u < 2147483648 {
            u as i32
        } else {
            (u as i64 - 4294967296) as i32
        };
        Some(InputEvent { type_: t, code: c, value })
    }
}

/// The records of `events`, one after another, ready for a single write.
pub fn encode_events(events: &Vec<InputEvent>) -> (r: Vec<u8>)
    requires
        events@.len() * 24 <= usize::MAX,
    ensures
        records_of(events@, r@),
{
    let mut out: Vec<u8> = Vec::new();
    let mut i: usize = 0;
    while i < events.len()
        invariant
            i <= events@.len(),
            records_of(events@.take(i as int), out@),
        decreases events@.len() - i,
    {
        let ghost before = out@;
        events[i].append_record(&mut out);
        proof {
            let es = events@.take(i + 1);
            assert forall|j: int| 0 <= j < es.len() implies out@.subrange(j * 24, j * 24 + 24)
                == event_record(#[trigger] es[j]) by {
                if j < i {
                    assert(out@.subrange(j * 24, j * 24 + 24) =~= before.subrange(j * 24, j * 24 + 24));
                    assert(es[j] == events@.take(i as int)[j]);
                } else {
                    assert(out@.subrange(j * 24, j * 24 + 24) =~= event_record(events@[i as int]));
                }
            }
        }
        i = i + 1;
    }
    proof {
        assert(events@.take(events@.len() as int) =~= events@);
    }
    out
}

/// The device descriptor: `name` zero-padded to the name field, bus, vendor,
/// product and version ids, and every remaining field zero.
pub fn descriptor_bytes(name: &[u8]) -> (r: Vec<u8>)
    requires
        name@.len() <= DEVICE_NAME_LEN,
    ensures
        r@ == name@ + zeros((DEVICE_NAME_LEN - name@.len()) as nat) + le16(BUS_USB) + le16(VENDOR_ID)
            + le16(PRODUCT_ID) + le16(VERSION_ID) + zeros(1028),
        r@.len() == DESCRIPTOR_LEN,
{
    let mut out: Vec<u8> = Vec::new();
    let mut i: usize = 0;
    while i < name.len()
        invariant
            i <= name@.len(),
            out@ == name@.take(i as int),
        decreases name@.len() - i,
    {
        out.push(name[i]);
        i = i + 1;
        proof {
            assert(out@ =~= name@.take(i as int));
        }
    }
    proof {
        assert(name@.take(name@.len() as int) =~= name@);
    }
    put_zeros(&mut out, DEVICE_NAME_LEN - name.len());
    put_le16(&mut out, BUS_USB);
    put_le16(&mut out, VENDOR_ID);
    put_le16(&mut out, PRODUCT_ID);
    put_le16(&mut out, VERSION_ID);
    put_zeros(&mut out, 1028);
    out
}

/// The events of a relative move by `(dx, dy)`: zero deltas are left out,
/// and both axes share one sync so they apply together.
pub fn move_events(dx: i32, dy: i32) -> (r: Vec<InputEvent>)
    ensures
        r@ == move_batch(dx, dy),
{
    let mut out: Vec<InputEvent> = Vec::new();
    if dx != 0 {
        out.push(InputEvent::new(EV_REL, REL_X, dx));
    }
    if dy != 0 {
        out.push(InputEvent::new(EV_REL, REL_Y, dy));
    }
    out.push(InputEvent::new(EV_SYN, SYN_REPORT, 0));
    proof {
        assert(out@ =~= move_batch(dx, dy));
    }
    out
}

/// The code of button 0 (left), 1 (middle) or 2 (right); `None` otherwise.
pub fn button_code(button: u8) -> (r: Option<u16>)
    ensures
        r == button_code_of(button),
{
    if button == 0 {
        Some(BTN_LEFT)
    } else if button == 1 {
        Some(BTN_MIDDLE)
    } else if button == 2 {
        Some(BTN_RIGHT)
    } else {
        None
    }
}

fn button_events_of(code: u16, pressed: bool) -> (r: Vec<InputEvent>)
    ensures
        r@ == button_batch(code, pressed),
{
    let v = vec![InputEvent::new(EV_KEY, code, if pressed { 1 } else { 0 }), InputEvent::new(EV_SYN, SYN_REPORT, 0)];
    proof {
        assert(v@ =~= button_batch(code, pressed));
    }
    v
}

/// Button `button` going down or up; `None` for an unknown button.
pub fn button_events(button: u8, pressed: bool) -> (r: Option<Vec<InputEvent>>)
    ensures
        button_code_of(button) is None ==> r is None,
        button_code_of(button) matches Some(code) ==> r matches Some(v) && v@ == button_batch(code, pressed),
{
    match button_code(button) {
        Some(code) => Some(button_events_of(code, pressed)),
        None => None,
    }
}

/// A click: the press batch and the release batch, to be sent with a short
/// pause between them so the desktop sees a click rather than a drag.
pub fn click_events(button: u8) -> (r: Option<(Vec<InputEvent>, Vec<InputEvent>)>)
    ensures
        button_code_of(button) is None ==> r is None,
        button_code_of(button) matches Some(code) ==> r matches Some(p) && p.0@ == button_batch(
            code,
            true,
        ) && p.1@ == button_batch(code, false),
{
    match button_code(button) {
        Some(code) => Some((button_events_of(code, true), button_events_of(code, false))),
        None => None,
    }
}

/// A vertical scroll: positive `amount` scrolls down, which the wheel axis
/// counts as negative.
pub fn scroll_events(amount: i32) -> (r: Vec<InputEvent>)
    requires
        amount != i32::MIN,
    ensures
        r@ == wheel_batch(amount),
{
    let wheel: i32 = -amount;
    let v = vec![InputEvent::new(EV_REL, REL_WHEEL, wheel), InputEvent::new(EV_SYN, SYN_REPORT, 0)];
    proof {
        assert(v@ =~= wheel_batch(amount));
    }
    v
}

/// A horizontal scroll by `amount`, sign kept.
pub fn hscroll_events(amount: i32) -> (r: Vec<InputEvent>)
    ensures
        r@ == seq![InputEvent { type_: EV_REL, code: REL_HWHEEL, value: amount }, syn()],
{
    let v = vec![InputEvent::new(EV_REL, REL_HWHEEL, amount), InputEvent::new(EV_SYN, SYN_REPORT, 0)];
    proof {
        assert(v@ =~= seq![InputEvent { type_: EV_REL, code: REL_HWHEEL, value: amount }, syn()]);
    }
    v
}

/// Whether the left button is held down for a drag: true exactly when a
/// press was emitted and its release was not.
#[derive(Clone, Copy, Debug, PartialEq, Eq, Structural)]
pub struct PointerState {
    pub drag_button_held: bool,
}

impl PointerState {
    pub fn new() -> (r: Self)
        ensures
            !r.drag_button_held,
    {
        PointerState { drag_button_held: false }
    }

    pub fn is_dragging(&self) -> (r: bool)
        ensures
            r == self.drag_button_held,
    {
        self.drag_button_held
    }

    /// Flips the drag: the left button goes down if it was up, up if it was down.
    pub fn toggle_drag(&mut self) -> (r: Vec<InputEvent>)
        ensures
            final(self).drag_button_held == !old(self).drag_button_held,
            r@ == button_batch(BTN_LEFT, final(self).drag_button_held),
    {
        self.drag_button_held = !self.drag_button_held;
        button_events_of(BTN_LEFT, self.drag_button_held)
    }

    /// Ends a drag: the left button goes up if it is held; otherwise nothing.
    pub fn release_drag(&mut self) -> (r: Vec<InputEvent>)
        ensures
            !final(self).drag_button_held,
            r@ == release_batch(old(self).drag_button_held),
    {
        if self.drag_button_held {
            self.drag_button_held = false;
            button_events_of(BTN_LEFT, false)
        } else {
            let v: Vec<InputEvent> = Vec::new();
            proof {
                assert(v@ =~= release_batch(false));
            }
            v
        }
    }
}

/// Releasing a held drag twice in a row emits exactly one button-up record
/// (with its sync); the second release emits nothing.
pub proof fn lemma_release_drag_twice()
    ensures
        release_batch(true) + release_batch(false) == seq![
            InputEvent { type_: EV_KEY, code: BTN_LEFT, value: 0 },
            syn(),
        ],
        release_batch(false).len() == 0,
{
    assert(release_batch(true) + release_batch(false) =~= seq![
        InputEvent { type_: EV_KEY, code: BTN_LEFT, value: 0 },
        syn(),
    ]);
}

/// A record decodes to the event it was made from.
pub proof fn lemma_record_round_trip(e: InputEvent)
    ensures
        event_record(e).len() == 24,
        decode_record(event_record(e)) == e,
{
    let b = event_record(e);
    assert(b[16] == (e.type_ % 256) as u8);
    assert(b[17] == (e.type_ / 256) as u8);
    assert(b[18] == (e.code % 256) as u8);
    assert(b[19] == (e.code / 256) as u8);
    let u = twos(e.value);
    assert(b[20] == (u % 256) as u8);
    assert(b[21] == (u / 256 % 256) as u8);
    assert(b[22] == (u / 65536 % 256) as u8);
    assert(b[23] == (u / 16777216 % 256) as u8);
    assert(b[20] + 256 * b[21] + 65536 * b[22] + 16777216 * b[23] == u);
}

} // verus!
