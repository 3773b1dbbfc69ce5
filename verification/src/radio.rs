//! System-call driver for a packet radio.
//!
//! The driver moves payloads between buffers that a process has granted and
//! the one kernel transmission buffer, and keeps at most one transmission in
//! flight. It does not hold the radio. A caller asks the radio what the
//! driver needs to know, passes the answers in, and carries out the action
//! that comes back: answering the process, calling the radio, scheduling a
//! callback.
//!
//! `C` is the type of a callback handle. The driver stores such handles,
//! returns a copy of one when its callback is due, and never looks inside
//! one.

use crate::radio_model::{
    allow_code, allow_step, arg_length, arg_low16, command_action, command_step,
    config_buffer_step, copy_count, delivered, receive_step, receive_upcall, send_done_step,
    send_done_upcall, staged, subscribe_code, subscribe_step, transmit_result_step, AppView,
    CommandActionView, DriverView,
};
use crate::returncode::ReturnCode;
use vstd::prelude::*;

verus! {

/// What the radio reports about itself when a command is dispatched.
#[derive(Clone, Copy, Debug, PartialEq, Eq, Structural)]
pub struct RadioStatus {
    /// Whether the radio is powered and able to take a request.
    pub ready: bool,
    /// Bytes that the radio adds to every payload on the air.
    pub header_size: u8,
    /// Index in a frame buffer at which the payload starts.
    pub payload_offset: u8,
}

/// A callback that is due, with the result code to schedule it with.
#[derive(Debug, PartialEq, Eq)]
pub struct Upcall<C> {
    pub callback: C,
    pub result: ReturnCode,
}

/// The registration record of the driver's client.
#[derive(Debug, PartialEq, Eq)]
pub struct App<C> {
    /// Callback for a completed transmission.
    pub tx_callback: Option<C>,
    /// Callback for a received packet.
    pub rx_callback: Option<C>,
    /// Granted buffer that received payloads are written to.
    pub app_read: Option<Vec<u8>>,
    /// Granted buffer that outgoing payloads are read from.
    pub app_write: Option<Vec<u8>>,
}

impl<C> View for App<C> {
    type V = AppView<C>;

    open spec fn view(&self) -> AppView<C> {
        AppView {
            tx_callback: self.tx_callback,
            rx_callback: self.rx_callback,
            app_read: match self.app_read {
                Some(b) => Some(b@),
                None => None,
            },
            app_write: match self.app_write {
                Some(b) => Some(b@),
                None => None,
            },
        }
    }
}

/// What a command asks of its caller.
#[derive(Debug, PartialEq, Eq)]
pub enum CommandAction {
    /// Answer the process with this code.
    Reply(ReturnCode),
    /// Set the radio's 16-bit address and answer with the radio's result.
    SetAddress(u16),
    /// Set the radio's PAN identifier and answer with the radio's result.
    SetPan(u16),
    /// Hand the frame in `buf` to the radio, for `dest`, `len` bytes on the
    /// air, and report the radio's answer with
    /// [`RadioDriver::transmit_result`]. `buf` is a copy of the frame: the
    /// driver keeps the frame itself until the radio has accepted it.
    Transmit { dest: u16, buf: Vec<u8>, len: u8 },
}

impl View for CommandAction {
    type V = CommandActionView;

    open spec fn view(&self) -> CommandActionView {
        match *self {
            CommandAction::Reply(code) => CommandActionView::Reply(code),
            CommandAction::SetAddress(addr) => CommandActionView::SetAddress(addr),
            CommandAction::SetPan(pan) => CommandActionView::SetPan(pan),
            CommandAction::Transmit { dest, buf, len } => CommandActionView::Transmit {
                dest,
                buf: buf@,
                len,
            },
        }
    }
}

/// What a reception asks of its caller.
#[derive(Debug, PartialEq, Eq)]
pub struct ReceiveAction<C> {
    /// The receive buffer, to be given back to the radio.
    pub buf: Vec<u8>,
    /// The callback to schedule, if one is due.
    pub upcall: Option<Upcall<C>>,
}

/// The driver: a busy flag, the registration record, the kernel
/// transmission buffer and the frame that awaits the radio's answer.
pub struct RadioDriver<C> {
    busy: bool,
    app: Option<App<C>>,
    kernel_tx: Option<Vec<u8>>,
    pending_tx: Option<Vec<u8>>,
}

impl<C> View for RadioDriver<C> {
    type V = DriverView<C>;

    closed spec fn view(&self) -> DriverView<C> {
        DriverView {
            busy: self.busy,
            app: match self.app {
                Some(a) => Some(a@),
                None => None,
            },
            kernel_tx: match self.kernel_tx {
                Some(b) => Some(b@),
                None => None,
            },
            pending_tx: match self.pending_tx {
                Some(b) => Some(b@),
                None => None,
            },
        }
    }
}

/// Splits a transmit argument into the destination address, from bits 0 to
/// 15, and the payload length, from bits 16 to 23. Higher bits are ignored.
pub fn decode_transmit_arg(arg1: usize) -> (r: (u16, u8))
    ensures
        r.0 == arg_low16(arg1),
        r.1 == arg_length(arg1),
{
    let len: usize = (arg1 >> 16) & 0xff;
    let addr: usize = arg1 & 0xffff;
    assert((arg1 >> 16) & 0xff == (arg1 / 0x1_0000) % 0x100) by (bit_vector);
    assert(arg1 & 0xffff == arg1 % 0x1_0000) by (bit_vector);
    (addr as u16, len as u8)
}

/// Copies the first `len` bytes of `src` into `kbuf` from index `offset` on.
fn stage_payload(kbuf: &mut Vec<u8>, src: &Vec<u8>, offset: usize, len: usize)
    requires
        len <= src.len(),
        offset + len <= old(kbuf).len(),
    ensures
        final(kbuf)@ == staged(old(kbuf)@, src@, offset as int, len as int),
{
    let mut i: usize = 0;
    while i < len
        invariant
            i <= len <= src.len(),
            offset + len <= kbuf.len(),
            kbuf@ == staged(old(kbuf)@, src@, offset as int, i as int),
        decreases len - i,
    {
        kbuf.set(offset + i, src[i]);
        i += 1;
    }
}

/// A new buffer with the bytes of `buf`.
fn copy_of(buf: &Vec<u8>) -> (copy: Vec<u8>)
    ensures
        copy@ == buf@,
{
    let mut copy: Vec<u8> = Vec::with_capacity(buf.len());
    let mut i: usize = 0;
    while i < buf.len()
        invariant
            i <= buf.len(),
            copy@ == buf@.subrange(0, i as int),
        decreases buf.len() - i,
    {
        copy.push(buf[i]);
        i += 1;
    }
    copy
}

/// Copies the received payload, the bytes of `buf` from `offset` up to the
/// reported length `len`, to the front of `dest`, as far as `buf` holds them
/// and `dest` has room.
fn deliver_payload(dest: &mut Vec<u8>, buf: &Vec<u8>, len: u8, offset: u8)
    ensures
        final(dest)@ == delivered(old(dest)@, buf@, len, offset),
{
    let end: usize = if (len as usize) <= buf.len() {
        len as usize
    } else {
        buf.len()
    };
    let start: usize = offset as usize;
    let payload: usize = if start <= end {
        end - start
    } else {
        0
    };
    let count: usize = if payload <= dest.len() {
        payload
    } else {
        dest.len()
    };
    let mut i: usize = 0;
    while i < count
        invariant
            i <= count <= dest.len(),
            count > 0 ==> start + count <= buf.len(),
            dest.len() == old(dest).len(),
            count == copy_count(old(dest)@.len(), buf@.len(), len, offset),
            forall|j: int|
                0 <= j < dest.len() ==> dest@[j] == if j < i {
                    buf@[start + j]
                } else {
                    old(dest)@[j]
                },
        decreases count - i,
    {
        dest.set(i, buf[start + i]);
        i += 1;
    }
}

impl<C> RadioDriver<C> {
    /// A driver that is idle and has neither a registration record nor a
    /// transmission buffer nor a frame out.
    pub fn new() -> (driver: Self)
        ensures
            driver@ == DriverView::<C>::initial(),
    {
        RadioDriver { busy: false, app: None, kernel_tx: None, pending_tx: None }
    }

    /// Gives the driver `tx_buf` as its kernel transmission buffer, in place
    /// of the one it held, if any.
    pub fn config_buffer(&mut self, tx_buf: Vec<u8>)
        ensures
            final(self)@ == config_buffer_step(old(self)@, tx_buf@),
    {
        self.kernel_tx = Some(tx_buf);
    }

    /// Dispatches command `cmd_num` with argument `arg1`.
    ///
    /// | `cmd_num` | action |
    /// |---|---|
    /// | 0 | presence check: reply `SUCCESS` |
    /// | 1 | set the node address to bits 0 to 15 of `arg1` |
    /// | 2 | set the PAN identifier to bits 0 to 15 of `arg1` |
    /// | 3, 4 | channel and transmit power: reply `ENOSUPPORT` |
    /// | 5 | transmit, see [`RadioDriver::transmit`] |
    /// | 6 | power status: reply `SUCCESS` if the radio is ready, else `EOFF` |
    /// | other | reply `ENOSUPPORT` |
    pub fn command(
        &mut self,
        cmd_num: usize,
        arg1: usize,
        radio: RadioStatus,
    ) -> (action: CommandAction)
        ensures
            action@ == command_action(old(self)@, cmd_num, arg1, radio),
            final(self)@ == command_step(old(self)@, cmd_num, arg1, radio),
    {
        match cmd_num {
            0 => CommandAction::Reply(ReturnCode::SUCCESS),
            1 => {
                let (addr, _) = decode_transmit_arg(arg1);
                CommandAction::SetAddress(addr)
            },
            2 => {
                let (pan, _) = decode_transmit_arg(arg1);
                CommandAction::SetPan(pan)
            },
            3 => CommandAction::Reply(ReturnCode::ENOSUPPORT),
            4 => CommandAction::Reply(ReturnCode::ENOSUPPORT),
            5 => self.transmit(arg1, radio),
            6 => {
                if radio.ready {
                    CommandAction::Reply(ReturnCode::SUCCESS)
                } else {
                    CommandAction::Reply(ReturnCode::EOFF)
                }
            },
            _ => CommandAction::Reply(ReturnCode::ENOSUPPORT),
        }
    }

    /// Issues a transmit request: bits 0 to 15 of `arg1` are the destination
    /// address, bits 16 to 23 the payload length.
    ///
    /// The request is refused, and the driver left as it was, with
    /// - `EBUSY` while a transmission is in flight, else
    /// - `EOFF` if the radio is not ready, else
    /// - `ENOMEM` if the driver has no transmission buffer at its disposal,
    ///   else
    /// - `ESIZE` if no write buffer is granted or it is shorter than the
    ///   payload length, if the payload does not fit in the transmission
    ///   buffer behind the radio's payload offset, or if payload and header
    ///   together exceed 255 bytes.
    ///
    /// Otherwise the payload is copied from the write buffer into the
    /// transmission buffer at the payload offset, and the caller is asked to
    /// hand the frame to the radio with a length of payload plus header.
    /// Until the radio's answer is reported the buffer is pending: it is no
    /// longer at the driver's disposal, so that another request finds none,
    /// and it is not lost if the radio rejects the frame. The busy flag is
    /// not set yet: that happens when the radio's acceptance is reported.
    pub fn transmit(&mut self, arg1: usize, radio: RadioStatus) -> (action: CommandAction)
        ensures
            action@ == command_action(old(self)@, 5, arg1, radio),
            final(self)@ == command_step(old(self)@, 5, arg1, radio),
    {
        if self.busy {
            return CommandAction::Reply(ReturnCode::EBUSY);
        } else if !radio.ready {
            return CommandAction::Reply(ReturnCode::EOFF);
        } else if self.kernel_tx.is_none() {
            return CommandAction::Reply(ReturnCode::ENOMEM);
        }
        let (dest, len) = decode_transmit_arg(arg1);
        let src: &Vec<u8> = match &self.app {
            Some(App { app_write: Some(src), .. }) => src,
            _ => return CommandAction::Reply(ReturnCode::ESIZE),
        };
        let klen: usize = match &self.kernel_tx {
            Some(kbuf) => kbuf.len(),
            None => 0,
        };
        let offset: usize = radio.payload_offset as usize;
        let count: usize = len as usize;
        if src.len() < count || klen < offset + count || u8::MAX - len < radio.header_size {
            return CommandAction::Reply(ReturnCode::ESIZE);
        }
        let mut kbuf: Vec<u8> = self.kernel_tx.take().unwrap();
        stage_payload(&mut kbuf, src, offset, count);
        let frame: Vec<u8> = copy_of(&kbuf);
        self.pending_tx = Some(kbuf);
        let transmit_len: u8 = len + radio.header_size;
        CommandAction::Transmit { dest, buf: frame, len: transmit_len }
    }

    /// Grants the driver a buffer: selector 0 the buffer that received
    /// payloads are written to, selector 1 the buffer that outgoing payloads
    /// are read from. The buffer replaces the one granted before under the
    /// same selector, and nothing else in the record changes. Any other
    /// selector is answered with `ENOSUPPORT` and changes nothing.
    pub fn allow(&mut self, allow_num: usize, slice: Vec<u8>) -> (rc: ReturnCode)
        ensures
            rc == allow_code(allow_num),
            final(self)@ == allow_step(old(self)@, allow_num, slice@),
    {
        match allow_num {
            0 => {
                let appc = match self.app.take() {
                    None => App {
                        tx_callback: None,
                        rx_callback: None,
                        app_read: Some(slice),
                        app_write: None,
                    },
                    Some(mut appc) => {
                        appc.app_read = Some(slice);
                        appc
                    },
                };
                self.app = Some(appc);
                ReturnCode::SUCCESS
            },
            1 => {
                let appc = match self.app.take() {
                    None => App {
                        tx_callback: None,
                        rx_callback: None,
                        app_read: None,
                        app_write: Some(slice),
                    },
                    Some(mut appc) => {
                        appc.app_write = Some(slice);
                        appc
                    },
                };
                self.app = Some(appc);
                ReturnCode::SUCCESS
            },
            _ => ReturnCode::ENOSUPPORT,
        }
    }

    /// Registers a callback: selector 0 for completed transmissions,
    /// selector 1 for received packets. The callback replaces the one
    /// registered before under the same selector, and nothing else in the
    /// record changes. Any other selector is answered with `ENOSUPPORT` and
    /// changes nothing.
    pub fn subscribe(&mut self, subscribe_num: usize, callback: C) -> (rc: ReturnCode)
        ensures
            rc == subscribe_code(subscribe_num),
            final(self)@ == subscribe_step(old(self)@, subscribe_num, callback),
    {
        match subscribe_num {
            0 => {
                let appc = match self.app.take() {
                    None => App {
                        tx_callback: Some(callback),
                        rx_callback: None,
                        app_read: None,
                        app_write: None,
                    },
                    Some(mut appc) => {
                        appc.tx_callback = Some(callback);
                        appc
                    },
                };
                self.app = Some(appc);
                ReturnCode::SUCCESS
            },
            1 => {
                let appc = match self.app.take() {
                    None => App {
                        tx_callback: None,
                        rx_callback: Some(callback),
                        app_read: None,
                        app_write: None,
                    },
                    Some(mut appc) => {
                        appc.rx_callback = Some(callback);
                        appc
                    },
                };
                self.app = Some(appc);
                ReturnCode::SUCCESS
            },
            _ => ReturnCode::ENOSUPPORT,
        }
    }

    /// Takes the radio's answer to the transmit request whose frame is
    /// pending and returns the code for the process, which is `status`
    /// itself.
    ///
    /// `SUCCESS` means that the radio accepted the frame: the busy flag is
    /// set until [`RadioDriver::send_done`], and the frame is the radio's.
    /// Any other code is a rejection: the flag stays as it was and the frame
    /// buffer is at the driver's disposal again, ready for the next request.
    /// An answer that comes while no frame is pending changes nothing.
    pub fn transmit_result(&mut self, status: ReturnCode) -> (rc: ReturnCode)
        ensures
            rc == status,
            final(self)@ == transmit_result_step(old(self)@, status),
    {
        match self.pending_tx.take() {
            Some(frame) => {
                if status == ReturnCode::SUCCESS {
                    self.busy = true;
                } else {
                    self.kernel_tx = Some(frame);
                }
            },
            None => {},
        }
        status
    }

    /// Completion of a transmission: the radio returns the frame buffer
    /// `buf` with the outcome `result`.
    ///
    /// The driver has `buf` at its disposal and is idle, whether or not
    /// anything is registered. If a transmit callback is registered it is
    /// returned, to be scheduled with `result`; it stays registered.
    pub fn send_done(&mut self, buf: Vec<u8>, result: ReturnCode) -> (upcall: Option<Upcall<C>>)
        where
            C: Copy,
        ensures
            upcall == send_done_upcall(old(self)@, result),
            final(self)@ == send_done_step(old(self)@, buf@),
    {
        self.kernel_tx = Some(buf);
        self.busy = false;
        match &self.app {
            Some(App { tx_callback: Some(callback), .. }) => Some(
                Upcall { callback: *callback, result },
            ),
            _ => None,
        }
    }

    /// Reception of a packet: the radio hands over `buf`, of which the first
    /// `len` bytes are valid, with the outcome `result`. `payload_offset` is
    /// the radio's payload offset.
    ///
    /// If a read buffer is registered, the payload, the bytes of `buf` from
    /// `payload_offset` up to `len`, is copied to its front. A payload longer
    /// than the read buffer is cut to the buffer's length, and bytes that
    /// `buf` does not hold are not copied. The receive callback, if one is
    /// registered, is then returned, to be scheduled with `result`; it stays
    /// registered. Without a read buffer the packet is dropped.
    ///
    /// In every case `buf` comes back unchanged, to be given to the radio for
    /// the next packet.
    pub fn receive(
        &mut self,
        buf: Vec<u8>,
        len: u8,
        result: ReturnCode,
        payload_offset: u8,
    ) -> (action: ReceiveAction<C>)
        where
            C: Copy,
        ensures
            action.buf@ == buf@,
            action.upcall == receive_upcall(old(self)@, result),
            final(self)@ == receive_step(old(self)@, buf@, len, payload_offset),
    {
        let upcall = match &mut self.app {
            Some(app) => match &mut app.app_read {
                Some(dest) => {
                    deliver_payload(dest, &buf, len, payload_offset);
                    match app.rx_callback {
                        Some(callback) => Some(Upcall { callback, result }),
                        None => None,
                    }
                },
                None => None,
            },
            None => None,
        };
        ReceiveAction { buf, upcall }
    }

    /// Whether a transmission is in flight.
    pub fn is_busy(&self) -> (b: bool)
        ensures
            b == self@.busy,
    {
        self.busy
    }

    /// The registration record, if anything has been registered.
    pub fn app(&self) -> (r: Option<&App<C>>)
        ensures
            match r {
                Some(a) => self@.app == Some(a@),
                None => self@.app is None,
            },
    {
        self.app.as_ref()
    }

    /// The kernel transmission buffer, if it is at the driver's disposal.
    pub fn kernel_tx(&self) -> (r: Option<&Vec<u8>>)
        ensures
            match r {
                Some(b) => self@.kernel_tx == Some(b@),
                None => self@.kernel_tx is None,
            },
    {
        self.kernel_tx.as_ref()
    }

    /// The frame that awaits the radio's answer, if one does.
    pub fn pending_tx(&self) -> (r: Option<&Vec<u8>>)
        ensures
            match r {
                Some(b) => self@.pending_tx == Some(b@),
                None => self@.pending_tx is None,
            },
    {
        self.pending_tx.as_ref()
    }
}

} // verus!
