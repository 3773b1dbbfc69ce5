//! Application layer of the signbus: frames a message for the protocol
//! layer below.
//!
//! A frame is three header bytes, the frame type, the API type and the
//! message type, followed by the message. The layer owns one payload buffer,
//! builds the frame in it and hands it out for the protocol layer to send.

use crate::returncode::ReturnCode;
use vstd::prelude::*;

verus! {

/// The registration record of a signbus client: a callback and the buffers
/// for both directions of both bus roles. A client handle of type `C` is
/// stored and never looked into.
#[derive(Debug, PartialEq, Eq)]
pub struct App<C> {
    pub callback: Option<C>,
    pub master_tx_buffer: Option<Vec<u8>>,
    pub master_rx_buffer: Option<Vec<u8>>,
    pub slave_tx_buffer: Option<Vec<u8>>,
    pub slave_rx_buffer: Option<Vec<u8>>,
}

impl<C> App<C> {
    /// Whether nothing is registered.
    pub open spec fn is_empty(&self) -> bool {
        &&& self.callback is None
        &&& self.master_tx_buffer is None
        &&& self.master_rx_buffer is None
        &&& self.slave_tx_buffer is None
        &&& self.slave_rx_buffer is None
    }
}

impl<C> Default for App<C> {
    /// The record with nothing registered.
    fn default() -> (app: App<C>)
        ensures
            app.is_empty(),
    {
        App {
            callback: None,
            master_tx_buffer: None,
            master_rx_buffer: None,
            slave_tx_buffer: None,
            slave_rx_buffer: None,
        }
    }
}

/// The kind of a frame, sent as its first byte.
#[derive(Clone, Copy, Debug, PartialEq, Eq, Structural)]
pub enum SignbusFrameType {
    NotificationFrame,
    CommandFrame,
    ResponseFrame,
    ErrorFrame,
}

impl SignbusFrameType {
    /// The byte that stands for this frame type on the bus.
    pub open spec fn spec_code(self) -> u8 {
        match self {
            SignbusFrameType::NotificationFrame => 0,
            SignbusFrameType::CommandFrame => 1,
            SignbusFrameType::ResponseFrame => 2,
            SignbusFrameType::ErrorFrame => 3,
        }
    }

    /// The byte that stands for this frame type on the bus.
    #[verifier::when_used_as_spec(spec_code)]
    pub fn code(self) -> (c: u8)
        ensures
            c == self.spec_code(),
    {
        match self {
            SignbusFrameType::NotificationFrame => 0,
            SignbusFrameType::CommandFrame => 1,
            SignbusFrameType::ResponseFrame => 2,
            SignbusFrameType::ErrorFrame => 3,
        }
    }
}

/// The API that a frame addresses, sent as its second byte.
#[derive(Clone, Copy, Debug, PartialEq, Eq, Structural)]
pub enum SignbusApiType {
    InitializationApiType,
    StorageApiType,
    NetworkingApiType,
    ProcessingApiType,
    EnergyApiType,
    TimeLocationApiType,
    EdisonApiType,
    JsonApiType,
    WatchdogApiType,
    HighestApiType,
}

impl SignbusApiType {
    /// The byte that stands for this API on the bus.
    pub open spec fn spec_code(self) -> u8 {
        match self {
            SignbusApiType::InitializationApiType => 1,
            SignbusApiType::StorageApiType => 2,
            SignbusApiType::NetworkingApiType => 3,
            SignbusApiType::ProcessingApiType => 4,
            SignbusApiType::EnergyApiType => 5,
            SignbusApiType::TimeLocationApiType => 6,
            SignbusApiType::EdisonApiType => 7,
            SignbusApiType::JsonApiType => 8,
            SignbusApiType::WatchdogApiType => 9,
            SignbusApiType::HighestApiType => 10,
        }
    }

    /// The byte that stands for this API on the bus.
    #[verifier::when_used_as_spec(spec_code)]
    pub fn code(self) -> (c: u8)
        ensures
            c == self.spec_code(),
    {
        match self {
            SignbusApiType::InitializationApiType => 1,
            SignbusApiType::StorageApiType => 2,
            SignbusApiType::NetworkingApiType => 3,
            SignbusApiType::ProcessingApiType => 4,
            SignbusApiType::EnergyApiType => 5,
            SignbusApiType::TimeLocationApiType => 6,
            SignbusApiType::EdisonApiType => 7,
            SignbusApiType::JsonApiType => 8,
            SignbusApiType::WatchdogApiType => 9,
            SignbusApiType::HighestApiType => 10,
        }
    }
}

/// The payload buffer with a frame built at its front: the three header
/// bytes, then `message`, and behind the frame every byte as it was.
pub open spec fn framed(
    payload: Seq<u8>,
    frame_type: SignbusFrameType,
    api_type: SignbusApiType,
    message_type: u8,
    message: Seq<u8>,
) -> Seq<u8> {
    Seq::new(
        payload.len(),
        |i: int|
            if i == 0 {
                frame_type.spec_code()
            } else if i == 1 {
                api_type.spec_code()
            } else if i == 2 {
                message_type
            } else if i < 3 + message.len() {
                message[i - 3]
            } else {
                payload[i]
            },
    )
}

/// What a send asks of its caller, over mathematical values.
pub enum SendActionView {
    Done(ReturnCode),
    Send { address: u8, payload: Seq<u8>, len: u16 },
}

/// What a send asks of its caller.
#[derive(Debug, PartialEq, Eq)]
pub enum SendAction {
    /// Nothing goes out; this is the result of the send.
    Done(ReturnCode),
    /// Hand the first `len` bytes of `payload` to the protocol layer, for
    /// `address`. The protocol layer's result is the result of the send.
    Send { address: u8, payload: Vec<u8>, len: u16 },
}

impl View for SendAction {
    type V = SendActionView;

    open spec fn view(&self) -> SendActionView {
        match *self {
            SendAction::Done(code) => SendActionView::Done(code),
            SendAction::Send { address, payload, len } => SendActionView::Send {
                address,
                payload: payload@,
                len,
            },
        }
    }
}

/// The application layer: the payload buffer, until a send hands it out.
pub struct SignbusAppLayer {
    payload: Option<Vec<u8>>,
}

impl View for SignbusAppLayer {
    type V = Option<Seq<u8>>;

    closed spec fn view(&self) -> Option<Seq<u8>> {
        match self.payload {
            Some(p) => Some(p@),
            None => None,
        }
    }
}

impl SignbusAppLayer {
    /// A layer that owns `payload` as its buffer.
    pub fn new(payload: Vec<u8>) -> (layer: SignbusAppLayer)
        ensures
            layer@ == Some(payload@),
    {
        SignbusAppLayer { payload: Some(payload) }
    }

    /// The payload buffer, if the layer still owns it.
    pub fn payload(&self) -> (r: Option<&Vec<u8>>)
        ensures
            match r {
                Some(p) => self@ == Some(p@),
                None => self@ is None,
            },
    {
        self.payload.as_ref()
    }

    /// Frames the first `message_length` bytes of `message` and hands the
    /// frame out for `address`.
    ///
    /// While the layer owns its payload buffer, the frame is built at the
    /// front of the buffer and the buffer leaves the layer, with the frame's
    /// length, three more than `message_length`. Once the buffer has left,
    /// a send does nothing and its result is `SUCCESS`.
    ///
    /// The frame must fit: its length in 16 bits and, while the layer owns
    /// the buffer, in the buffer, and `message` must hold `message_length`
    /// bytes.
    pub fn signbus_app_send(
        &mut self,
        address: u8,
        frame_type: SignbusFrameType,
        api_type: SignbusApiType,
        message_type: u8,
        message_length: u16,
        message: &[u8],
    ) -> (action: SendAction)
        requires
            3 + message_length <= u16::MAX,
            old(self)@ matches Some(p) ==> 3 + message_length <= p.len() && message_length
                <= message@.len(),
        ensures
            final(self)@ is None,
            match old(self)@ {
                Some(p) => action@ == (SendActionView::Send {
                    address,
                    payload: framed(
                        p,
                        frame_type,
                        api_type,
                        message_type,
                        message@.subrange(0, message_length as int),
                    ),
                    len: (3 + message_length) as u16,
                }),
                None => action@ == SendActionView::Done(ReturnCode::SUCCESS),
            },
    {
        let len: u16 = 1 + 1 + 1 + message_length;
        match self.payload.take() {
            Some(mut payload) => {
                let ghost before = payload@;
                payload.set(0, frame_type.code());
                payload.set(1, api_type.code());
                payload.set(2, message_type);
                let count: usize = message_length as usize;
                let mut i: usize = 0;
                while i < count
                    invariant
                        i <= count,
                        count == message_length,
                        count <= message@.len(),
                        3 + count <= payload.len(),
                        payload@ == framed(
                            before,
                            frame_type,
                            api_type,
                            message_type,
                            message@.subrange(0, i as int),
                        ),
                    decreases count - i,
                {
                    payload.set(3 + i, message[i]);
                    i += 1;
                }
                SendAction::Send { address, payload, len }
            },
            None => SendAction::Done(ReturnCode::SUCCESS),
        }
    }
}

} // verus!
