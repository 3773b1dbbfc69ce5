//! The radio driver as a state machine over mathematical values.
//!
//! A state is a [`DriverView`]. Each entry point of the driver has a step
//! function here that gives the next state, and, where the entry point hands
//! something back, a function that gives that value. The executable driver
//! is specified by these functions, and the laws of the driver are proved
//! about them.

use crate::radio::{RadioStatus, Upcall};
use crate::returncode::ReturnCode;
use vstd::prelude::*;

verus! {

/// The registration record: two callbacks and two granted buffers.
pub struct AppView<C> {
    /// Callback for a completed transmission.
    pub tx_callback: Option<C>,
    /// Callback for a received packet.
    pub rx_callback: Option<C>,
    /// Buffer that received payloads are written to.
    pub app_read: Option<Seq<u8>>,
    /// Buffer that outgoing payloads are read from.
    pub app_write: Option<Seq<u8>>,
}

impl<C> AppView<C> {
    /// The record with nothing registered.
    pub open spec fn empty() -> Self {
        AppView { tx_callback: None, rx_callback: None, app_read: None, app_write: None }
    }
}

/// The state of the driver.
pub struct DriverView<C> {
    /// True from the radio's acceptance of a frame until its completion.
    pub busy: bool,
    /// The registration record, absent until the first registration.
    pub app: Option<AppView<C>>,
    /// The kernel transmission buffer, absent while it is not at the driver's
    /// disposal.
    pub kernel_tx: Option<Seq<u8>>,
    /// The frame that was handed out for the radio and awaits the radio's
    /// answer. The buffer is still the driver's until the radio accepts it.
    pub pending_tx: Option<Seq<u8>>,
}

impl<C> DriverView<C> {
    /// The state of a new driver: idle, no record, no buffer, no frame out.
    pub open spec fn initial() -> Self {
        DriverView { busy: false, app: None, kernel_tx: None, pending_tx: None }
    }

    /// The registration record, an absent one read as the empty record.
    pub open spec fn record(self) -> AppView<C> {
        match self.app {
            Some(a) => a,
            None => AppView::empty(),
        }
    }

    /// This state with `a` as its registration record.
    pub open spec fn with_record(self, a: AppView<C>) -> Self {
        DriverView { app: Some(a), ..self }
    }
}

/// The state after the driver is given `buf` as its transmission buffer.
pub open spec fn config_buffer_step<C>(s: DriverView<C>, buf: Seq<u8>) -> DriverView<C> {
    DriverView { kernel_tx: Some(buf), ..s }
}

/// The result of granting a buffer under selector `allow_num`.
pub open spec fn allow_code(allow_num: usize) -> ReturnCode {
    if allow_num == 0 || allow_num == 1 {
        ReturnCode::SUCCESS
    } else {
        ReturnCode::ENOSUPPORT
    }
}

/// The state after granting `slice` under selector `allow_num`: selector 0
/// replaces the read buffer, selector 1 the write buffer, and any other
/// selector changes nothing. The other three slots keep what they held.
pub open spec fn allow_step<C>(s: DriverView<C>, allow_num: usize, slice: Seq<u8>) -> DriverView<C> {
    if allow_num == 0 {
        s.with_record(AppView { app_read: Some(slice), ..s.record() })
    } else if allow_num == 1 {
        s.with_record(AppView { app_write: Some(slice), ..s.record() })
    } else {
        s
    }
}

/// The result of registering a callback under selector `subscribe_num`.
pub open spec fn subscribe_code(subscribe_num: usize) -> ReturnCode {
    if subscribe_num == 0 || subscribe_num == 1 {
        ReturnCode::SUCCESS
    } else {
        ReturnCode::ENOSUPPORT
    }
}

/// The state after registering `callback` under selector `subscribe_num`:
/// selector 0 replaces the transmit callback, selector 1 the receive
/// callback, and any other selector changes nothing.
pub open spec fn subscribe_step<C>(
    s: DriverView<C>,
    subscribe_num: usize,
    callback: C,
) -> DriverView<C> {
    if subscribe_num == 0 {
        s.with_record(AppView { tx_callback: Some(callback), ..s.record() })
    } else if subscribe_num == 1 {
        s.with_record(AppView { rx_callback: Some(callback), ..s.record() })
    } else {
        s
    }
}

/// The 16-bit value in bits 0 to 15 of a command argument.
pub open spec fn arg_low16(arg1: usize) -> u16 {
    (arg1 % 0x1_0000) as u16
}

/// The payload length in bits 16 to 23 of a transmit argument.
pub open spec fn arg_length(arg1: usize) -> u8 {
    ((arg1 / 0x1_0000) % 0x100) as u8
}

/// What a command asks of its caller.
pub enum CommandActionView {
    /// Answer the process with this code.
    Reply(ReturnCode),
    /// Set the radio's 16-bit address and answer with the radio's result.
    SetAddress(u16),
    /// Set the radio's PAN identifier and answer with the radio's result.
    SetPan(u16),
    /// Hand the frame in `buf` to the radio, for `dest`, `len` bytes on the air.
    Transmit { dest: u16, buf: Seq<u8>, len: u8 },
}

/// Whether a payload of `len` bytes can be staged and sent: the driver has
/// its buffer at its disposal, a write buffer of at least `len` bytes is
/// granted, the payload fits in the kernel buffer behind the payload offset,
/// and the length on the air fits in a byte.
pub open spec fn payload_fits<C>(s: DriverView<C>, len: u8, radio: RadioStatus) -> bool {
    &&& s.kernel_tx matches Some(kbuf)
    &&& s.record().app_write matches Some(src)
    &&& len <= src.len()
    &&& radio.payload_offset + len <= kbuf.len()
    &&& len + radio.header_size <= u8::MAX
}

/// The kernel buffer with the first `len` bytes of `src` written from index
/// `offset` on, and every other byte as it was.
pub open spec fn staged(kbuf: Seq<u8>, src: Seq<u8>, offset: int, len: int) -> Seq<u8> {
    Seq::new(
        kbuf.len(),
        |i: int|
            if offset <= i < offset + len {
                src[i - offset]
            } else {
                kbuf[i]
            },
    )
}

/// The code with which a transmit request is refused, the checks taken in
/// order: busy, radio off, no kernel buffer, payload does not fit. `None`
/// when the request goes to the radio.
pub open spec fn transmit_refusal<C>(
    s: DriverView<C>,
    arg1: usize,
    radio: RadioStatus,
) -> Option<ReturnCode> {
    if s.busy {
        Some(ReturnCode::EBUSY)
    } else if !radio.ready {
        Some(ReturnCode::EOFF)
    } else if s.kernel_tx is None {
        Some(ReturnCode::ENOMEM)
    } else if !payload_fits(s, arg_length(arg1), radio) {
        Some(ReturnCode::ESIZE)
    } else {
        None
    }
}

/// The frame that a transmit request stages: the kernel buffer with the
/// payload from the write buffer at the radio's payload offset.
pub open spec fn staged_frame<C>(s: DriverView<C>, arg1: usize, radio: RadioStatus) -> Seq<u8>
    recommends
        transmit_refusal(s, arg1, radio) is None,
{
    staged(
        s.kernel_tx->0,
        s.record().app_write->0,
        radio.payload_offset as int,
        arg_length(arg1) as int,
    )
}

/// What command `cmd_num` with argument `arg1` asks of its caller.
pub open spec fn command_action<C>(
    s: DriverView<C>,
    cmd_num: usize,
    arg1: usize,
    radio: RadioStatus,
) -> CommandActionView {
    if cmd_num == 0 {
        CommandActionView::Reply(ReturnCode::SUCCESS)
    } else if cmd_num == 1 {
        CommandActionView::SetAddress(arg_low16(arg1))
    } else if cmd_num == 2 {
        CommandActionView::SetPan(arg_low16(arg1))
    } else if cmd_num == 5 {
        match transmit_refusal(s, arg1, radio) {
            Some(code) => CommandActionView::Reply(code),
            None => CommandActionView::Transmit {
                dest: arg_low16(arg1),
                buf: staged_frame(s, arg1, radio),
                len: (arg_length(arg1) + radio.header_size) as u8,
            },
        }
    } else if cmd_num == 6 {
        if radio.ready {
            CommandActionView::Reply(ReturnCode::SUCCESS)
        } else {
            CommandActionView::Reply(ReturnCode::EOFF)
        }
    } else {
        CommandActionView::Reply(ReturnCode::ENOSUPPORT)
    }
}

/// The state after command `cmd_num`: a transmit request that goes to the
/// radio takes the kernel buffer out of the driver's disposal and keeps the
/// staged frame as pending; nothing else changes the state.
pub open spec fn command_step<C>(
    s: DriverView<C>,
    cmd_num: usize,
    arg1: usize,
    radio: RadioStatus,
) -> DriverView<C> {
    if cmd_num == 5 && transmit_refusal(s, arg1, radio) is None {
        DriverView { kernel_tx: None, pending_tx: Some(staged_frame(s, arg1, radio)), ..s }
    } else {
        s
    }
}

/// The state after the radio answered a transmit request with `status`.
/// With a frame pending, acceptance sets the busy flag and the frame is the
/// radio's, and a rejection puts the frame back at the driver's disposal.
/// With no frame pending the answer changes nothing.
pub open spec fn transmit_result_step<C>(s: DriverView<C>, status: ReturnCode) -> DriverView<C> {
    match s.pending_tx {
        Some(frame) => if status == ReturnCode::SUCCESS {
            DriverView { busy: true, pending_tx: None, ..s }
        } else {
            DriverView { kernel_tx: Some(frame), pending_tx: None, ..s }
        },
        None => s,
    }
}

/// The state after the radio completed a transmission and returned `buf`:
/// the driver has `buf` at its disposal and is idle. The registration
/// record is as it was.
pub open spec fn send_done_step<C>(s: DriverView<C>, buf: Seq<u8>) -> DriverView<C> {
    DriverView { busy: false, kernel_tx: Some(buf), ..s }
}

/// The callback that a completed transmission schedules, if one is registered.
pub open spec fn send_done_upcall<C>(s: DriverView<C>, result: ReturnCode) -> Option<Upcall<C>> {
    match s.record().tx_callback {
        Some(callback) => Some(Upcall { callback, result }),
        None => None,
    }
}

/// The number of bytes that a reception copies: the bytes of `buf` from
/// `offset` up to the reported length `len`, capped by what `buf` holds and
/// by the room in the destination.
pub open spec fn copy_count(dest_len: nat, buf_len: nat, len: u8, offset: u8) -> nat {
    let end = if len <= buf_len {
        len as nat
    } else {
        buf_len
    };
    let payload = if offset <= end {
        (end - offset) as nat
    } else {
        0
    };
    if payload <= dest_len {
        payload
    } else {
        dest_len
    }
}

/// The destination buffer after a reception: its first `copy_count` bytes
/// are those of `buf` from `offset` on, the rest is as it was.
pub open spec fn delivered(dest: Seq<u8>, buf: Seq<u8>, len: u8, offset: u8) -> Seq<u8> {
    Seq::new(
        dest.len(),
        |i: int|
            if i < copy_count(dest.len(), buf.len(), len, offset) {
                buf[offset + i]
            } else {
                dest[i]
            },
    )
}

/// The state after a reception of `len` bytes in `buf`: with a read buffer
/// registered, the payload is delivered into it; nothing else changes, and
/// without a read buffer nothing changes at all.
pub open spec fn receive_step<C>(
    s: DriverView<C>,
    buf: Seq<u8>,
    len: u8,
    offset: u8,
) -> DriverView<C> {
    match s.record().app_read {
        Some(dest) => s.with_record(
            AppView { app_read: Some(delivered(dest, buf, len, offset)), ..s.record() },
        ),
        None => s,
    }
}

/// The callback that a reception schedules: the receive callback, if a read
/// buffer and the callback are both registered.
pub open spec fn receive_upcall<C>(s: DriverView<C>, result: ReturnCode) -> Option<Upcall<C>> {
    match (s.record().app_read, s.record().rx_callback) {
        (Some(_), Some(callback)) => Some(Upcall { callback, result }),
        _ => None,
    }
}

/// One call of an entry point of the driver, with its arguments.
pub enum Event<C> {
    /// The driver is given a transmission buffer.
    ConfigBuffer { buf: Seq<u8> },
    /// A process grants a buffer.
    Allow { allow_num: usize, slice: Seq<u8> },
    /// A process registers a callback.
    Subscribe { subscribe_num: usize, callback: C },
    /// A process issues a command.
    Command { cmd_num: usize, arg1: usize, radio: RadioStatus },
    /// The radio answers a transmit request.
    TransmitResult { status: ReturnCode },
    /// The radio completes a transmission.
    SendDone { buf: Seq<u8>, result: ReturnCode },
    /// The radio delivers a packet.
    Receive { buf: Seq<u8>, len: u8, result: ReturnCode, payload_offset: u8 },
}

/// The state after one call.
pub open spec fn step<C>(s: DriverView<C>, e: Event<C>) -> DriverView<C> {
    match e {
        Event::ConfigBuffer { buf } => config_buffer_step(s, buf),
        Event::Allow { allow_num, slice } => allow_step(s, allow_num, slice),
        Event::Subscribe { subscribe_num, callback } => subscribe_step(s, subscribe_num, callback),
        Event::Command { cmd_num, arg1, radio } => command_step(s, cmd_num, arg1, radio),
        Event::TransmitResult { status } => transmit_result_step(s, status),
        Event::SendDone { buf, result } => send_done_step(s, buf),
        Event::Receive { buf, len, result, payload_offset } => receive_step(
            s,
            buf,
            len,
            payload_offset,
        ),
    }
}

/// The state after a sequence of calls, the first call first.
pub open spec fn run<C>(s: DriverView<C>, events: Seq<Event<C>>) -> DriverView<C>
    decreases events.len(),
{
    if events.len() == 0 {
        s
    } else {
        step(run(s, events.drop_last()), events.last())
    }
}

/// One of the four slots of the registration record.
pub enum Slot {
    ReadBuffer,
    WriteBuffer,
    TxCallback,
    RxCallback,
}

/// What a slot of the registration record holds.
pub enum SlotValue<C> {
    Buffer(Option<Seq<u8>>),
    Callback(Option<C>),
}

impl<C> AppView<C> {
    /// What `slot` holds in this record.
    pub open spec fn slot(self, slot: Slot) -> SlotValue<C> {
        match slot {
            Slot::ReadBuffer => SlotValue::Buffer(self.app_read),
            Slot::WriteBuffer => SlotValue::Buffer(self.app_write),
            Slot::TxCallback => SlotValue::Callback(self.tx_callback),
            Slot::RxCallback => SlotValue::Callback(self.rx_callback),
        }
    }
}

impl<C> Event<C> {
    /// Whether this call grants a buffer or registers a callback.
    pub open spec fn is_registration(self) -> bool {
        self is Allow || self is Subscribe
    }

    /// The slot that this call writes, if it is a registration with a
    /// selector that the driver supports.
    pub open spec fn target(self) -> Option<Slot> {
        match self {
            Event::Allow { allow_num, .. } => if allow_num == 0 {
                Some(Slot::ReadBuffer)
            } else if allow_num == 1 {
                Some(Slot::WriteBuffer)
            } else {
                None
            },
            Event::Subscribe { subscribe_num, .. } => if subscribe_num == 0 {
                Some(Slot::TxCallback)
            } else if subscribe_num == 1 {
                Some(Slot::RxCallback)
            } else {
                None
            },
            _ => None,
        }
    }

    /// What this call hands over: the granted buffer or the callback.
    pub open spec fn registered(self) -> SlotValue<C>
        recommends
            self.is_registration(),
    {
        match self {
            Event::Allow { slice, .. } => SlotValue::Buffer(Some(slice)),
            Event::Subscribe { callback, .. } => SlotValue::Callback(Some(callback)),
            _ => SlotValue::Buffer(None),
        }
    }
}

} // verus!
