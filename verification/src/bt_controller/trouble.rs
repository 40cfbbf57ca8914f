//! The packet-oriented HCI transport over ESP-IDF's virtual HCI (VHCI)
//! interface.
//!
//! ESP-IDF exposes one VHCI endpoint for the whole program. Its callbacks
//! deliver controller packets into a receive queue; readers take packets out
//! of it in arrival order, and a receive error is reported before any packet
//! that is still queued. Only one transport can be active at a time.
use vstd::prelude::*;

use std::collections::TryReserveError;
use std::collections::VecDeque;
use bt_hci::{ControllerToHostPacket, FromHciBytes, FromHciBytesError};

use crate::esp_error::{EspError, ESP_ERR_INVALID_STATE};
use crate::text::{decimal, push_decimal};

verus! {

/// A packet that the controller handed to the host.
#[derive(Debug)]
pub enum RxMessage {
    /// The bytes of a packet.
    Packet(Vec<u8>),
    /// ESP-IDF called back with a null packet pointer.
    NullPacket,
}

/// The ways in which HCI bytes can fail to parse (`bt_hci::FromHciBytesError`).
#[derive(Debug, Clone, Copy, PartialEq, Eq, Structural)]
pub enum HciBytesError {
    /// The input is shorter or longer than the packet it starts.
    InvalidSize,
    /// A field of the input holds a value that is not allowed.
    InvalidValue,
}

/// The kinds of I/O error that transport errors are reported as
/// (the variants of `embedded_io::ErrorKind` that this transport uses).
#[derive(Debug, Clone, Copy, PartialEq, Eq, Structural)]
pub enum IoErrorKind {
    NotConnected,
    OutOfMemory,
    InvalidData,
    InvalidInput,
    WriteZero,
}

/// Errors produced by the ESP-IDF VHCI transport.
#[derive(Debug, Clone, Copy, PartialEq, Eq, Structural)]
pub enum TransportError {
    /// The transport was used after its callback endpoint stopped.
    Inactive,
    /// Memory could not be allocated for a controller packet.
    ReceiveAllocationFailed(usize),
    /// ESP-IDF supplied a null packet pointer.
    NullReceivePacket,
    /// The buffer passed to `read` could not hold the packet.
    ReceiveBufferTooSmall {
        /// Packet length in bytes.
        required: usize,
        /// Supplied buffer length in bytes.
        available: usize,
    },
    /// A host packet exceeded the ESP-IDF VHCI API's `u16` length limit.
    TransmitPacketTooLarge(usize),
    /// Memory could not be allocated for a host packet.
    TransmitAllocationFailed(usize),
    /// An HCI packet was malformed.
    InvalidPacket(HciBytesError),
    /// Serialization into the transmit buffer unexpectedly failed.
    Serialize,
}

/// The text of a parse error, as `{:?}` writes it.
pub open spec fn hci_bytes_error_text(e: HciBytesError) -> Seq<char> {
    match e {
        HciBytesError::InvalidSize => "InvalidSize"@,
        HciBytesError::InvalidValue => "InvalidValue"@,
    }
}

/// The text of a transport error, as its `Display` writes it.
pub open spec fn transport_error_text(e: TransportError) -> Seq<char> {
    match e {
        TransportError::Inactive => "VHCI transport is inactive"@,
        TransportError::ReceiveAllocationFailed(len) => "failed to allocate a "@ + decimal(
            len as nat,
        ) + "-byte controller packet"@,
        TransportError::NullReceivePacket => "ESP-IDF supplied a null packet pointer"@,
        TransportError::ReceiveBufferTooSmall { required, available } =>
            "receive buffer is too small: requires "@ + decimal(required as nat) + " bytes, but only "@
            + decimal(available as nat) + " are available"@,
        TransportError::TransmitPacketTooLarge(len) => decimal(len as nat)
            + "-byte host packet exceeds the VHCI length limit"@,
        TransportError::TransmitAllocationFailed(len) => "failed to allocate a "@ + decimal(
            len as nat,
        ) + "-byte host packet"@,
        TransportError::InvalidPacket(error) => "invalid HCI packet: "@ + hci_bytes_error_text(
            error,
        ),
        TransportError::Serialize => "failed to serialize the host packet"@,
    }
}

/// The I/O error kind that a transport error is reported as.
pub open spec fn spec_error_kind(e: TransportError) -> IoErrorKind {
    match e {
        TransportError::Inactive => IoErrorKind::NotConnected,
        TransportError::ReceiveAllocationFailed(_) => IoErrorKind::OutOfMemory,
        TransportError::TransmitAllocationFailed(_) => IoErrorKind::OutOfMemory,
        TransportError::NullReceivePacket => IoErrorKind::InvalidData,
        TransportError::InvalidPacket(_) => IoErrorKind::InvalidData,
        TransportError::ReceiveBufferTooSmall { .. } => IoErrorKind::OutOfMemory,
        TransportError::TransmitPacketTooLarge(_) => IoErrorKind::InvalidInput,
        TransportError::Serialize => IoErrorKind::WriteZero,
    }
}

impl TransportError {
    /// The error as text (its `Display`).
    pub fn to_string(&self) -> (r: String)
        ensures
            r@ == transport_error_text(*self),
    {
        let mut s = String::new();
        match *self {
            TransportError::Inactive => {
                s.append("VHCI transport is inactive");
            },
            TransportError::ReceiveAllocationFailed(len) => {
                s.append("failed to allocate a ");
                push_decimal(&mut s, len);
                s.append("-byte controller packet");
            },
            TransportError::NullReceivePacket => {
                s.append("ESP-IDF supplied a null packet pointer");
            },
            TransportError::ReceiveBufferTooSmall { required, available } => {
                s.append("receive buffer is too small: requires ");
                push_decimal(&mut s, required);
                s.append(" bytes, but only ");
                push_decimal(&mut s, available);
                s.append(" are available");
            },
            TransportError::TransmitPacketTooLarge(len) => {
                push_decimal(&mut s, len);
                s.append("-byte host packet exceeds the VHCI length limit");
            },
            TransportError::TransmitAllocationFailed(len) => {
                s.append("failed to allocate a ");
                push_decimal(&mut s, len);
                s.append("-byte host packet");
            },
            TransportError::InvalidPacket(error) => {
                s.append("invalid HCI packet: ");
                match error {
                    HciBytesError::InvalidSize => s.append("InvalidSize"),
                    HciBytesError::InvalidValue => s.append("InvalidValue"),
                }
            },
            TransportError::Serialize => {
                s.append("failed to serialize the host packet");
            },
        }
        assert(s@ =~= transport_error_text(*self));
        s
    }

    /// The I/O error kind this error is reported as.
    pub fn kind(&self) -> (r: IoErrorKind)
        ensures
            r == spec_error_kind(*self),
    {
        match self {
            TransportError::Inactive => IoErrorKind::NotConnected,
            TransportError::ReceiveAllocationFailed(_) => IoErrorKind::OutOfMemory,
            TransportError::TransmitAllocationFailed(_) => IoErrorKind::OutOfMemory,
            TransportError::NullReceivePacket => IoErrorKind::InvalidData,
            TransportError::InvalidPacket(_) => IoErrorKind::InvalidData,
            TransportError::ReceiveBufferTooSmall { .. } => IoErrorKind::OutOfMemory,
            TransportError::TransmitPacketTooLarge(_) => IoErrorKind::InvalidInput,
            TransportError::Serialize => IoErrorKind::WriteZero,
        }
    }
}

impl From<HciBytesError> for TransportError {
    fn from(value: HciBytesError) -> (r: Self) {
        TransportError::InvalidPacket(value)
    }
}

impl vstd::std_specs::convert::FromSpecImpl<HciBytesError> for TransportError {
    open spec fn obeys_from_spec() -> bool {
        true
    }

    open spec fn from_spec(v: HciBytesError) -> Self {
        TransportError::InvalidPacket(v)
    }
}

impl RxMessage {
    /// The bytes of the packet, or `None` for a null packet.
    pub open spec fn view(&self) -> Option<Seq<u8>> {
        match self {
            RxMessage::Packet(bytes) => Some(bytes@),
            RxMessage::NullPacket => None,
        }
    }
}

/// The length reported for a message whose storage could not be allocated:
/// the packet's length, or 0 for a null packet.
pub open spec fn message_len(m: Option<Seq<u8>>) -> nat {
    match m {
        Some(bytes) => bytes.len(),
        None => 0,
    }
}

/// The state of the VHCI endpoint, as values: whether a transport is
/// active, the messages received and not yet read (oldest first), and the
/// receive error waiting to be reported.
pub struct VhciView {
    pub active: bool,
    pub queue: Seq<Option<Seq<u8>>>,
    pub error: Option<TransportError>,
}

impl VhciView {
    /// Starting a transport: refused while one is active; otherwise the
    /// endpoint becomes active with an empty queue and no pending error.
    pub open spec fn activate(self) -> (VhciView, bool) {
        if self.active {
            (self, false)
        } else {
            (VhciView { active: true, queue: Seq::empty(), error: None }, true)
        }
    }

    /// Stopping a transport: inactive, with nothing queued and no error.
    pub open spec fn shutdown(self) -> VhciView {
        VhciView { active: false, queue: Seq::empty(), error: None }
    }

    /// Recording a receive error; it replaces any earlier one.
    pub open spec fn record_error(self, e: TransportError) -> VhciView {
        VhciView { error: Some(e), ..self }
    }

    /// Queueing a message: appended at the back when queue storage could be
    /// allocated, otherwise dropped and reported as an allocation failure.
    pub open spec fn enqueue(self, m: Option<Seq<u8>>, allocated: bool) -> VhciView {
        if allocated {
            VhciView { queue: self.queue.push(m), ..self }
        } else {
            self.record_error(TransportError::ReceiveAllocationFailed(message_len(m) as usize))
        }
    }

    /// What the receive callback does with `data` (`None`: a null pointer):
    /// nothing while inactive; otherwise the packet is copied (if its storage
    /// can be allocated) and queued.
    pub open spec fn receive(
        self,
        data: Option<Seq<u8>>,
        packet_allocated: bool,
        queue_allocated: bool,
    ) -> VhciView {
        if !self.active {
            self
        } else {
            match data {
                None => self.enqueue(None, queue_allocated),
                Some(bytes) => if packet_allocated {
                    self.enqueue(Some(bytes), queue_allocated)
                } else {
                    self.record_error(TransportError::ReceiveAllocationFailed(bytes.len() as usize))
                },
            }
        }
    }

    /// Taking the next thing for a reader: a pending error first (clearing
    /// it), else the oldest queued message, else nothing.
    pub open spec fn take_next(self) -> (VhciView, Result<Option<Option<Seq<u8>>>, TransportError>) {
        match self.error {
            Some(e) => (VhciView { error: None, ..self }, Err(e)),
            None => if self.queue.len() == 0 {
                (self, Ok(None))
            } else {
                (VhciView { queue: self.queue.drop_first(), ..self }, Ok(Some(self.queue[0])))
            },
        }
    }
}

/// The view of what `take_next` hands out.
pub open spec fn next_view(r: Result<Option<RxMessage>, TransportError>) -> Result<
    Option<Option<Seq<u8>>>,
    TransportError,
> {
    match r {
        Ok(Some(m)) => Ok(Some(m.view())),
        Ok(None) => Ok(None),
        Err(e) => Err(e),
    }
}

/// The bytes handed to the receive callback (`None`: a null pointer).
pub open spec fn data_view(data: Option<&[u8]>) -> Option<Seq<u8>> {
    match data {
        Some(d) => Some(d@),
        None => None,
    }
}

/// The program-wide VHCI endpoint: shared by the ESP-IDF callbacks and the
/// active transport.
pub struct VhciEndpoint {
    active: bool,
    queue: VecDeque<RxMessage>,
    error: Option<TransportError>,
    /// How many more messages the queue is known to hold without asking the
    /// allocator again: what the last successful reservation guaranteed
    /// (`VecDeque::try_reserve` leaves room for at least that many more),
    /// less what was queued since.
    spare: usize,
}

/// How many more messages to reserve room for when the queue holds `len`
/// and has no spare room: enough for a capacity of at least four and at
/// least twice the length, the amortized growth of a `VecDeque`.
pub open spec fn queue_growth(len: nat) -> nat {
    if len < 4 {
        (4 - len) as nat
    } else {
        len
    }
}

/// The spare room left after one more message was queued into a queue of
/// `len` messages with `spare` room: one slot fewer, or, when there was none,
/// what the new reservation gave less the slot just used.
pub open spec fn spare_after_push(spare: nat, len: nat) -> nat {
    if spare > 0 {
        (spare - 1) as nat
    } else {
        (queue_growth(len) - 1) as nat
    }
}

impl View for VhciEndpoint {
    type V = VhciView;

    closed spec fn view(&self) -> VhciView {
        VhciView {
            active: self.active,
            queue: self.queue@.map_values(|m: RxMessage| m.view()),
            error: self.error,
        }
    }
}

impl VhciEndpoint {
    /// How many more messages can be queued before the allocator has to be
    /// asked for room again.
    pub closed spec fn spare(&self) -> nat {
        self.spare as nat
    }
}

/// Reserves room for `additional` more bytes.
///
/// Calls `Vec::try_reserve_exact`. std documents that it leaves the contents
/// unchanged and returns an error when the capacity overflows or the
/// allocator fails; whether it fails depends on the allocator, so the result
/// is left free.
#[verifier::external_body]
fn vec_try_reserve_exact(v: &mut Vec<u8>, additional: usize) -> (r: Result<(), TryReserveError>)
    ensures
        final(v)@ == old(v)@,
{
    v.try_reserve_exact(additional)
}

/// Reserves room for `additional` more messages.
///
/// Calls `VecDeque::try_reserve`. std documents that it leaves the contents
/// unchanged and returns an error when the capacity overflows or the
/// allocator fails; whether it fails depends on the allocator, so the result
/// is left free.
#[verifier::external_body]
fn deque_try_reserve(q: &mut VecDeque<RxMessage>, additional: usize) -> (r: Result<(), TryReserveError>)
    ensures
        final(q)@ == old(q)@,
{
    q.try_reserve(additional)
}

/// The copy of `bytes` in storage that was reserved for it (`reserved`):
/// `None` when the reservation failed.
pub fn copy_if_reserved(copy: Vec<u8>, bytes: &[u8], reserved: bool) -> (r: Option<Vec<u8>>)
    requires
        copy@.len() == 0,
    ensures
        reserved ==> (r matches Some(v) && v@ == bytes@),
        !reserved ==> r is None,
{
    if !reserved {
        return None;
    }
    let mut copy = copy;
    let mut i: usize = 0;
    while i < bytes.len()
        invariant
            i <= bytes@.len(),
            copy@ == bytes@.subrange(0, i as int),
        decreases bytes.len() - i,
    {
        copy.push(bytes[i]);
        assert(copy@ =~= bytes@.subrange(0, i + 1));
        i = i + 1;
    }
    assert(copy@ =~= bytes@);
    Some(copy)
}

/// Copies a received packet into storage of its own, or gives `None` when
/// that storage cannot be allocated. Room for exactly `bytes.len()` bytes is
/// asked of the allocator; its answer is not known in advance, and
/// `copy_if_reserved` states what follows from each answer.
pub fn copy_packet(bytes: &[u8]) -> (r: Option<Vec<u8>>)
    ensures
        r matches Some(v) ==> v@ == bytes@,
{
    let mut copy: Vec<u8> = Vec::new();
    let reserved = vec_try_reserve_exact(&mut copy, bytes.len()).is_ok();
    copy_if_reserved(copy, bytes, reserved)
}

impl VhciEndpoint {
    /// An inactive endpoint with nothing queued.
    pub fn new() -> (r: Self)
        ensures
            r@ == (VhciView { active: false, queue: Seq::empty(), error: None }),
            r.spare() == 0,
    {
        let r = VhciEndpoint { active: false, queue: VecDeque::new(), error: None, spare: 0 };
        assert(r@.queue =~= Seq::<Option<Seq<u8>>>::empty());
        r
    }

    /// Whether a transport is active.
    pub fn is_active(&self) -> (r: bool)
        ensures
            r == self@.active,
    {
        self.active
    }

    /// Fails with `Inactive` unless a transport is active; the check that
    /// `read` and `write` start with.
    pub fn ensure_active(&self) -> (r: Result<(), TransportError>)
        ensures
            r is Ok <==> self@.active,
            r matches Err(e) ==> e == TransportError::Inactive,
    {
        if self.active {
            Ok(())
        } else {
            Err(TransportError::Inactive)
        }
    }

    /// Claims the endpoint for a new transport: fails with
    /// `ESP_ERR_INVALID_STATE` while another is active, and otherwise
    /// activates it with the queue and the pending error cleared.
    pub fn activate(&mut self) -> (r: Result<(), EspError>)
        ensures
            final(self)@ == old(self)@.activate().0,
            final(self).spare() == old(self).spare(),
            r is Ok <==> old(self)@.activate().1,
            r matches Err(e) ==> e.spec_code() == ESP_ERR_INVALID_STATE,
    {
        if self.active {
            Err(EspError::invalid_state())
        } else {
            self.active = true;
            self.queue.clear();
            self.error = None;
            assert(self@.queue =~= Seq::<Option<Seq<u8>>>::empty());
            Ok(())
        }
    }

    /// Gives the endpoint up again after the callbacks could not be
    /// registered; the transport was never created.
    pub fn deactivate(&mut self)
        ensures
            final(self)@ == (VhciView { active: false, ..old(self)@ }),
            final(self).spare() == old(self).spare(),
    {
        self.active = false;
    }

    /// Stops the transport (its `drop`): inactive, with nothing queued and no error.
    pub fn shutdown(&mut self)
        ensures
            final(self)@ == old(self)@.shutdown(),
            final(self).spare() == old(self).spare(),
    {
        self.active = false;
        self.queue.clear();
        self.error = None;
        assert(self@.queue =~= Seq::<Option<Seq<u8>>>::empty());
    }

    /// The callback ESP-IDF makes when the controller can take another host
    /// packet: whether to wake a waiting writer, which is done only while a
    /// transport is active.
    pub fn notify_host_send_available(&self) -> (r: bool)
        ensures
            r == self@.active,
    {
        self.active
    }

    /// Records a receive error for the next reader.
    pub fn record_rx_error(&mut self, error: TransportError)
        ensures
            final(self)@ == old(self)@.record_error(error),
            final(self).spare() == old(self).spare(),
    {
        self.error = Some(error);
    }

    /// Queues a received message once room for it has been asked for:
    /// appended at the back when the reservation succeeded (`reserved`),
    /// otherwise dropped and recorded as `ReceiveAllocationFailed` with the
    /// packet's length (0 for a null packet).
    pub fn enqueue_reserved(&mut self, message: RxMessage, reserved: bool)
        ensures
            final(self)@ == old(self)@.enqueue(message.view(), reserved),
            final(self).spare() == if reserved && old(self).spare() > 0 {
                (old(self).spare() - 1) as nat
            } else {
                old(self).spare()
            },
    {
        let len: usize = match &message {
            RxMessage::Packet(bytes) => bytes.len(),
            RxMessage::NullPacket => 0,
        };
        let ghost m = message.view();
        if reserved {
            if self.spare > 0 {
                self.spare = self.spare - 1;
            }
            self.queue.push_back(message);
            assert(self@.queue =~= old(self)@.queue.push(m));
        } else {
            self.error = Some(TransportError::ReceiveAllocationFailed(len));
            assert(self@.queue =~= old(self)@.queue);
        }
    }

    /// Makes sure the queue has room for one more message: true at once when
    /// spare room is left; otherwise room for `queue_growth(len)` more
    /// messages is asked of the allocator, and on success that becomes the
    /// spare room. The allocator's answer is not known in advance.
    fn reserve_one(&mut self) -> (r: bool)
        ensures
            final(self)@ == old(self)@,
            old(self).spare() > 0 ==> r && final(self).spare() == old(self).spare(),
            old(self).spare() == 0 && r ==> final(self).spare() == queue_growth(
                old(self)@.queue.len(),
            ),
            old(self).spare() == 0 && !r ==> final(self).spare() == 0,
    {
        if self.spare > 0 {
            return true;
        }
        let len = self.queue.len();
        let growth: usize = if len < 4 {
            4 - len
        } else {
            len
        };
        let reserved = deque_try_reserve(&mut self.queue, growth).is_ok();
        if reserved {
            self.spare = growth;
        }
        assert(self@.queue =~= old(self)@.queue);
        reserved
    }

    /// Queues a received message, or records an allocation failure when the
    /// queue cannot grow. A reader is to be woken either way. While spare
    /// room is left the message is always queued; otherwise room is asked of
    /// the allocator (see `reserve_one`), whose answer is not known in
    /// advance, and `enqueue_reserved` states what follows from each answer.
    pub fn enqueue_rx(&mut self, message: RxMessage)
        ensures
            final(self)@ == old(self)@.enqueue(message.view(), true)
                || final(self)@ == old(self)@.enqueue(message.view(), false),
            old(self).spare() > 0 ==> final(self)@ == old(self)@.enqueue(message.view(), true),
            final(self)@ == old(self)@.enqueue(message.view(), true) ==> final(self).spare()
                == spare_after_push(old(self).spare(), old(self)@.queue.len()),
            final(self)@ != old(self)@.enqueue(message.view(), true) ==> final(self).spare()
                == old(self).spare(),
    {
        let reserved = self.reserve_one();
        self.enqueue_reserved(message, reserved);
    }

    /// What the receive callback does once the allocations it needed have
    /// answered: `copied` is the copy of the packet's bytes (`None`: its
    /// storage could not be allocated), `queue_reserved` whether the queue
    /// could grow. While inactive nothing changes.
    pub fn receive_outcome(
        &mut self,
        data: Option<&[u8]>,
        copied: Option<Vec<u8>>,
        queue_reserved: bool,
    ) -> (r: bool)
        requires
            data is None ==> copied is None,
            data matches Some(d) ==> (copied matches Some(v) ==> v@ == d@),
        ensures
            r == old(self)@.active,
            final(self)@ == old(self)@.receive(data_view(data), copied is Some, queue_reserved),
            final(self)@.queue.len() > old(self)@.queue.len() && old(self).spare() > 0
                ==> final(self).spare() == old(self).spare() - 1,
            !(final(self)@.queue.len() > old(self)@.queue.len() && old(self).spare() > 0)
                ==> final(self).spare() == old(self).spare(),
    {
        if !self.active {
            return false;
        }
        match data {
            None => {
                self.enqueue_reserved(RxMessage::NullPacket, queue_reserved);
            },
            Some(bytes) => match copied {
                None => {
                    self.record_rx_error(TransportError::ReceiveAllocationFailed(bytes.len()));
                },
                Some(copy) => {
                    self.enqueue_reserved(RxMessage::Packet(copy), queue_reserved);
                },
            },
        }
        true
    }

    /// The callback ESP-IDF makes with a controller packet (`None`: a null
    /// pointer). While inactive it is ignored; otherwise the bytes are
    /// copied and queued. Returns whether a reader is to be woken. Room for
    /// the packet's bytes is asked for first (none for a null packet), then,
    /// when there is something to queue and no spare room is left, room for
    /// more messages (see `reserve_one`). While spare room is left, a copied
    /// packet is always queued, whatever the queue already holds. The
    /// allocator's answers are not known in advance; `receive_outcome` states
    /// what follows from each.
    pub fn notify_host_recv(&mut self, data: Option<&[u8]>) -> (r: bool)
        ensures
            r == old(self)@.active,
            exists|packet_allocated: bool, queue_allocated: bool|
                final(self)@ == #[trigger] old(self)@.receive(
                    data_view(data),
                    packet_allocated,
                    queue_allocated,
                ) && (old(self).spare() > 0 ==> queue_allocated),
            final(self)@.queue.len() > old(self)@.queue.len() ==> final(self).spare()
                == spare_after_push(old(self).spare(), old(self)@.queue.len()),
            final(self)@.queue.len() <= old(self)@.queue.len() ==> final(self).spare()
                == old(self).spare(),
    {
        let ghost dv: Option<Seq<u8>> = data_view(data);
        if !self.active {
            let r = self.receive_outcome(data, None, true);
            assert(self@ == old(self)@.receive(dv, false, true));
            return r;
        }
        let copied: Option<Vec<u8>> = match data {
            Some(bytes) => copy_packet(bytes),
            None => None,
        };
        let enqueueing = match data {
            None => true,
            Some(_) => copied.is_some(),
        };
        let queue_reserved = if enqueueing {
            self.reserve_one()
        } else {
            true
        };
        let ghost packet_allocated = copied is Some;
        let ghost mid = *self;
        let r = self.receive_outcome(data, copied, queue_reserved);
        assert(self@ == old(self)@.receive(dv, packet_allocated, queue_reserved));
        r
    }

    /// The step a reader makes while holding the endpoint: a pending error
    /// first (clearing it), else the oldest message, else `None` (wait for
    /// the next wake-up).
    pub fn take_next(&mut self) -> (r: Result<Option<RxMessage>, TransportError>)
        ensures
            final(self)@ == old(self)@.take_next().0,
            final(self).spare() == old(self).spare(),
            next_view(r) == old(self)@.take_next().1,
    {
        match self.error {
            Some(e) => {
                self.error = None;
                Err(e)
            },
            None => {
                let m = self.queue.pop_front();
                proof {
                    if old(self).queue@.len() > 0 {
                        assert(self@.queue =~= old(self)@.queue.drop_first());
                    }
                }
                Ok(m)
            },
        }
    }
}

/// `bt_hci::ControllerToHostPacket`: a parsed packet from the controller,
/// borrowing the buffer it was parsed from.
#[verifier::external_type_specification]
#[verifier::external_body]
pub struct ExControllerToHostPacket<'a>(ControllerToHostPacket<'a>);

/// The parse error that `bt_hci` reports for these bytes taken as one
/// complete controller-to-host packet (an indicator byte followed by the
/// packet), or `None` when they parse.
pub uninterp spec fn hci_parse_error(bytes: Seq<u8>) -> Option<HciBytesError>;

/// The packet that `bt_hci` parses from these bytes taken as one complete
/// controller-to-host packet, where they parse.
pub uninterp spec fn hci_parsed_packet(bytes: Seq<u8>) -> ControllerToHostPacket<'static>;

/// Parses `bytes` as one complete controller-to-host HCI packet.
///
/// Calls `<ControllerToHostPacket as FromHciBytes>::from_hci_bytes_complete`
/// and converts its `FromHciBytesError` into `HciBytesError`, variant for
/// variant. The outcome depends on the bytes alone: the error is named
/// `hci_parse_error` and the parsed packet `hci_parsed_packet`. `bt_hci`
/// refuses empty input with `InvalidSize`, and a first byte other than an
/// ACL (2), synchronous (3), event (4) or isochronous (5) indicator with
/// `InvalidValue`; the contract states those facts. What the parsed packet
/// holds field by field is not stated.
#[verifier::external_body]
fn parse_controller_packet(bytes: &[u8]) -> (r: Result<ControllerToHostPacket, HciBytesError>)
    ensures
        r is Ok <==> hci_parse_error(bytes@) is None,
        r matches Err(e) ==> hci_parse_error(bytes@) == Some(e),
        r matches Ok(p) ==> p == hci_parsed_packet(bytes@),
        r is Ok ==> bytes@.len() > 0 && 2 <= bytes@[0] <= 5,
        r matches Err(e) ==> (bytes@.len() == 0 ==> e == HciBytesError::InvalidSize),
        r matches Err(e) ==> (bytes@.len() > 0 && !(2 <= bytes@[0] <= 5) ==> e
            == HciBytesError::InvalidValue),
{
    match ControllerToHostPacket::from_hci_bytes_complete(bytes) {
        Ok(packet) => Ok(packet),
        Err(FromHciBytesError::InvalidSize) => Err(HciBytesError::InvalidSize),
        Err(FromHciBytesError::InvalidValue) => Err(HciBytesError::InvalidValue),
    }
}

/// A parse outcome as the transport reports it: a parse error becomes
/// `TransportError::InvalidPacket`.
pub fn into_transport_result<P>(parsed: Result<P, HciBytesError>) -> (r: Result<P, TransportError>)
    ensures
        parsed matches Ok(p) ==> r == Ok::<P, TransportError>(p),
        parsed matches Err(e) ==> r == Err::<P, TransportError>(TransportError::InvalidPacket(e)),
{
    match parsed {
        Ok(p) => Ok(p),
        Err(e) => Err(TransportError::InvalidPacket(e)),
    }
}

/// Copies a received message into the reader's buffer: a null packet is
/// refused with `NullReceivePacket`, a packet longer than the buffer with
/// `ReceiveBufferTooSmall`; otherwise its bytes fill the front of the buffer
/// and their number is returned.
pub fn deliver(message: RxMessage, rx: &mut [u8]) -> (r: Result<usize, TransportError>)
    ensures
        message.view() is None ==> r == Err::<usize, TransportError>(
            TransportError::NullReceivePacket,
        ) && final(rx)@ == old(rx)@,
        message.view() matches Some(bytes) ==> {
            if old(rx)@.len() < bytes.len() {
                &&& r matches Err(TransportError::ReceiveBufferTooSmall { required, available })
                &&& required == bytes.len()
                &&& available == old(rx)@.len()
                &&& final(rx)@ == old(rx)@
            } else {
                &&& r matches Ok(n)
                &&& n == bytes.len()
                &&& final(rx)@ == bytes + old(rx)@.subrange(bytes.len() as int, old(rx)@.len() as int)
            }
        },
{
    let bytes = match message {
        RxMessage::Packet(bytes) => bytes,
        RxMessage::NullPacket => return Err(TransportError::NullReceivePacket),
    };
    let len = bytes.len();
    if rx.len() < len {
        return Err(TransportError::ReceiveBufferTooSmall { required: len, available: rx.len() });
    }
    let mut i: usize = 0;
    while i < len
        invariant
            len == bytes@.len(),
            len <= rx@.len(),
            rx@.len() == old(rx)@.len(),
            i <= len,
            forall|j: int| 0 <= j < i ==> rx@[j] == bytes@[j],
            forall|j: int| i <= j < rx@.len() ==> rx@[j] == old(rx)@[j],
        decreases len - i,
    {
        rx[i] = bytes[i];
        i = i + 1;
    }
    assert(rx@ =~= bytes@ + old(rx)@.subrange(len as int, old(rx)@.len() as int));
    Ok(len)
}

/// The rest of a read once a message has been taken: the message is copied
/// into `rx` and parsed as one complete controller-to-host packet. On a null
/// packet or a buffer that is too small, `rx` is left as it was; otherwise
/// the packet's bytes fill its front and the rest is unchanged, whatever the
/// parse gives.
pub fn read_packet<'a>(message: RxMessage, rx: &'a mut [u8]) -> (r: Result<ControllerToHostPacket<'a>, TransportError>)
    ensures
        message.view() is None ==> (r matches Err(e) && e == TransportError::NullReceivePacket)
            && final(rx)@ == old(rx)@,
        message.view() matches Some(bytes) ==> {
            if old(rx)@.len() < bytes.len() {
                &&& r matches Err(TransportError::ReceiveBufferTooSmall { required, available })
                &&& required == bytes.len()
                &&& available == old(rx)@.len()
                &&& final(rx)@ == old(rx)@
            } else {
                &&& final(rx)@ == bytes + old(rx)@.subrange(bytes.len() as int, old(rx)@.len() as int)
                &&& (r is Ok <==> hci_parse_error(bytes) is None)
                &&& (r matches Ok(p) ==> p == hci_parsed_packet(bytes))
                &&& (r matches Err(e) ==> Some(e) == match hci_parse_error(bytes) {
                    Some(pe) => Some(TransportError::InvalidPacket(pe)),
                    None => None,
                })
            }
        },
{
    let ghost mv = message.view();
    let d = deliver(message, &mut *rx);
    let len = match d {
        Ok(len) => len,
        Err(e) => return Err(e),
    };
    proof {
        let bytes = mv.unwrap();
        assert(rx@.subrange(0, len as int) =~= bytes);
    }
    let filled: &'a [u8] = rx;
    assert(filled@.subrange(0, len as int) == mv.unwrap());
    let (head, _rest) = filled.split_at(len);
    assert(head@ =~= mv.unwrap());
    let parsed = parse_controller_packet(head);
    into_transport_result(parsed)
}

/// A transmit buffer of `len` zero bytes once room for `len` bytes has been
/// asked for in the empty vector `buffer`: the buffer and the length as the
/// VHCI API's `u16` when the reservation succeeded (`reserved`), and
/// `TransmitAllocationFailed` otherwise.
pub fn zeroed_if_reserved(buffer: Vec<u8>, len: usize, reserved: bool) -> (r: Result<
    (Vec<u8>, u16),
    TransportError,
>)
    requires
        buffer@.len() == 0,
        len <= u16::MAX,
    ensures
        reserved ==> (r matches Ok((buf, vhci_len)) && buf@ == Seq::new(len as nat, |i: int| 0u8)
            && vhci_len == len),
        !reserved ==> r == Err::<(Vec<u8>, u16), TransportError>(
            TransportError::TransmitAllocationFailed(len),
        ),
{
    if !reserved {
        return Err(TransportError::TransmitAllocationFailed(len));
    }
    let vhci_len: u16 = len as u16;
    let mut bytes = buffer;
    let mut i: usize = 0;
    while i < len
        invariant
            i <= len,
            bytes@ == Seq::new(i as nat, |j: int| 0u8),
        decreases len - i,
    {
        bytes.push(0u8);
        assert(bytes@ =~= Seq::new((i + 1) as nat, |j: int| 0u8));
        i = i + 1;
    }
    Ok((bytes, vhci_len))
}

/// A host packet's transmit buffer: `len` zero bytes and the length as the
/// VHCI API's `u16`. Packets longer than `u16::MAX` bytes are refused with
/// `TransmitPacketTooLarge`; otherwise room for exactly `len` bytes is asked
/// of the allocator, and a refusal gives `TransmitAllocationFailed`. The
/// allocator's answer is not known in advance; `zeroed_if_reserved` states
/// what follows from each answer.
pub fn transmit_buffer(len: usize) -> (r: Result<(Vec<u8>, u16), TransportError>)
    ensures
        len > u16::MAX ==> r == Err::<(Vec<u8>, u16), TransportError>(
            TransportError::TransmitPacketTooLarge(len),
        ),
        len <= u16::MAX ==> match r {
            Ok((buf, vhci_len)) => buf@ == Seq::new(len as nat, |i: int| 0u8) && vhci_len == len,
            Err(e) => e == TransportError::TransmitAllocationFailed(len),
        },
{
    if len > 0xffff {
        return Err(TransportError::TransmitPacketTooLarge(len));
    }
    let mut buffer: Vec<u8> = Vec::new();
    let reserved = vec_try_reserve_exact(&mut buffer, len).is_ok();
    zeroed_if_reserved(buffer, len, reserved)
}

/// What a writer does next while waiting to hand its packet over.
#[derive(Debug, Clone, Copy, PartialEq, Eq, Structural)]
pub enum TxStep {
    /// Give up: the transport stopped.
    Fail(TransportError),
    /// Hand the packet to ESP-IDF now.
    Send,
    /// Wait to be woken when the controller can take a packet.
    Wait,
}

/// The writer's decision: give up with `Inactive` once the transport has
/// stopped, send when the controller can take a packet, wait otherwise.
pub fn tx_step(active: bool, send_available: bool) -> (r: TxStep)
    ensures
        !active ==> r == TxStep::Fail(TransportError::Inactive),
        active && send_available ==> r == TxStep::Send,
        active && !send_available ==> r == TxStep::Wait,
{
    if !active {
        TxStep::Fail(TransportError::Inactive)
    } else if send_available {
        TxStep::Send
    } else {
        TxStep::Wait
    }
}

/// Only one transport is active at a time: claiming an active endpoint fails
/// and changes nothing, while claiming an inactive one succeeds and starts
/// it with nothing queued and no error.
pub proof fn lemma_activation_is_exclusive(v: VhciView)
    ensures
        v.active ==> !v.activate().1 && v.activate().0 == v,
        !v.active ==> v.activate().1 && v.activate().0.active && v.activate().0.queue.len() == 0
            && v.activate().0.error is None,
        v.activate().0.active,
{
}

/// While no transport is active, received packets are dropped: the callback
/// changes nothing, whatever the allocations do.
pub proof fn lemma_inactive_drops(
    v: VhciView,
    data: Option<Seq<u8>>,
    packet_allocated: bool,
    queue_allocated: bool,
)
    requires
        !v.active,
    ensures
        v.receive(data, packet_allocated, queue_allocated) == v,
{
}

/// Packets are read in the order they were received: two packets received
/// by an active, idle endpoint (with storage available) come out first and
/// second, after which there is nothing to read.
pub proof fn lemma_rx_fifo(v: VhciView, a: Seq<u8>, b: Seq<u8>)
    requires
        v.active,
        v.queue.len() == 0,
        v.error is None,
    ensures
        ({
            let w = v.receive(Some(a), true, true).receive(Some(b), true, true);
            &&& w.take_next().1 == Ok::<Option<Option<Seq<u8>>>, TransportError>(Some(Some(a)))
            &&& w.take_next().0.take_next().1 == Ok::<Option<Option<Seq<u8>>>, TransportError>(
                Some(Some(b)),
            )
            &&& w.take_next().0.take_next().0.take_next().1 == Ok::<
                Option<Option<Seq<u8>>>,
                TransportError,
            >(None)
        }),
{
    let w = v.receive(Some(a), true, true).receive(Some(b), true, true);
    assert(w.queue =~= seq![Some(a), Some(b)]);
    assert(w.take_next().0.queue =~= seq![Some(b)]);
    assert(w.take_next().0.take_next().0.queue =~= Seq::<Option<Seq<u8>>>::empty());
}

/// A receive error is reported to the next reader before any queued packet,
/// and only once; the queued packets stay in place behind it.
pub proof fn lemma_error_reported_first(v: VhciView, e: TransportError)
    ensures
        v.record_error(e).take_next().1 == Err::<Option<Option<Seq<u8>>>, TransportError>(e),
        v.record_error(e).take_next().0.queue == v.queue,
        v.record_error(e).take_next().0.error is None,
{
}

/// A reader is handed a packet only when one was queued, and it is the
/// oldest: with no pending error, the step gives `None` and changes nothing
/// when the queue is empty, and otherwise gives the queue's first message and
/// removes exactly that one.
pub proof fn lemma_read_takes_only_queued(v: VhciView)
    requires
        v.error is None,
    ensures
        v.queue.len() == 0 ==> v.take_next() == (v, Ok::<Option<Option<Seq<u8>>>, TransportError>(
            None,
        )),
        v.take_next().1 matches Ok(Some(m)) ==> v.queue.len() > 0 && m == v.queue[0]
            && v.take_next().0.queue == v.queue.drop_first(),
{
}

/// The endpoint after the receive callback ran once for each packet of
/// `packets`, first to last, with every allocation granted.
pub open spec fn receive_all(v: VhciView, packets: Seq<Seq<u8>>) -> VhciView
    decreases packets.len(),
{
    if packets.len() == 0 {
        v
    } else {
        receive_all(v, packets.drop_last()).receive(Some(packets.last()), true, true)
    }
}

/// The endpoint after `n` reads.
pub open spec fn after_reads(v: VhciView, n: nat) -> VhciView
    decreases n,
{
    if n == 0 {
        v
    } else {
        after_reads(v, (n - 1) as nat).take_next().0
    }
}

/// Packets received in a row by an active endpoint, with every allocation
/// granted, are appended at the back in the order they came, whatever the
/// queue already held, and no error is recorded.
pub proof fn lemma_receive_all_appends(v: VhciView, packets: Seq<Seq<u8>>)
    requires
        v.active,
    ensures
        receive_all(v, packets).queue == v.queue + packets.map_values(|p: Seq<u8>| Some(p)),
        receive_all(v, packets).error == v.error,
        receive_all(v, packets).active,
    decreases packets.len(),
{
    if packets.len() > 0 {
        lemma_receive_all_appends(v, packets.drop_last());
        assert(packets.drop_last().map_values(|p: Seq<u8>| Some(p)).push(Some(packets.last()))
            =~= packets.map_values(|p: Seq<u8>| Some(p)));
        assert(v.queue + packets.map_values(|p: Seq<u8>| Some(p)) =~= (v.queue
            + packets.drop_last().map_values(|p: Seq<u8>| Some(p))).push(Some(packets.last())));
    } else {
        assert(v.queue + packets.map_values(|p: Seq<u8>| Some(p)) =~= v.queue);
    }
}

/// Reads hand out the queued messages first to last, each exactly once:
/// with no pending error, the `i`-th read gives the `i`-th queued message,
/// and once all are read the next read gives nothing.
pub proof fn lemma_reads_in_order(v: VhciView, i: nat)
    requires
        v.error is None,
        i <= v.queue.len(),
    ensures
        after_reads(v, i).queue == v.queue.skip(i as int),
        after_reads(v, i).error is None,
        i < v.queue.len() ==> after_reads(v, i).take_next().1 == Ok::<
            Option<Option<Seq<u8>>>,
            TransportError,
        >(Some(v.queue[i as int])),
        i == v.queue.len() ==> after_reads(v, i).take_next().1 == Ok::<
            Option<Option<Seq<u8>>>,
            TransportError,
        >(None),
    decreases i,
{
    if i == 0 {
        assert(v.queue.skip(0) =~= v.queue);
    } else {
        lemma_reads_in_order(v, (i - 1) as nat);
        assert(v.queue.skip(i - 1).drop_first() =~= v.queue.skip(i as int));
    }
}

/// Stopping a transport forgets everything received: a later transport starts empty.
pub proof fn lemma_shutdown_then_activate(v: VhciView)
    ensures
        v.shutdown().activate().1,
        v.shutdown().activate().0.queue.len() == 0,
        v.shutdown().activate().0.error is None,
{
}

} // verus!
