//! Bluetooth device addresses, UUIDs, operating modes and status codes.
use vstd::prelude::*;

use crate::text::{hex_byte, push_char, push_hex_byte};

pub mod driver;
pub mod memory;
pub mod singleton;
pub mod status;

verus! {

/// `esp_bt_mode_t`: which radios an ESP-IDF Bluetooth call concerns.
#[derive(Debug, Copy, Clone, PartialEq, Eq, Structural)]
pub enum EspBtMode {
    /// `ESP_BT_MODE_IDLE`
    Idle,
    /// `ESP_BT_MODE_BLE`
    Ble,
    /// `ESP_BT_MODE_CLASSIC_BT`
    ClassicBt,
    /// `ESP_BT_MODE_BTDM`: both BLE and Classic Bluetooth.
    Btdm,
}

impl EspBtMode {
    /// The numeric value ESP-IDF uses for the mode.
    pub open spec fn spec_code(self) -> u32 {
        match self {
            EspBtMode::Idle => 0,
            EspBtMode::Ble => 1,
            EspBtMode::ClassicBt => 2,
            EspBtMode::Btdm => 3,
        }
    }

    /// The numeric value ESP-IDF uses for the mode.
    pub fn code(self) -> (r: u32)
        ensures
            r == self.spec_code(),
    {
        match self {
            EspBtMode::Idle => 0,
            EspBtMode::Ble => 1,
            EspBtMode::ClassicBt => 2,
            EspBtMode::Btdm => 3,
        }
    }
}

/// The radios that the Bluetooth controller was configured for
/// (`CONFIG_BTDM_CTRL_MODE_*`).
#[derive(Debug, Copy, Clone, PartialEq, Eq, Structural)]
pub enum ControllerMode {
    /// BLE only.
    BleOnly,
    /// Classic Bluetooth (BR/EDR) only.
    BrEdrOnly,
    /// Both, in dual mode.
    Btdm,
}

/// A Bluetooth operating mode, as a type.
pub trait BtMode {
    /// The ESP-IDF mode of this type under a controller configuration.
    spec fn spec_mode(ctrl: ControllerMode) -> EspBtMode;

    /// The ESP-IDF mode of this type under the controller configuration
    /// `ctrl` that the firmware was built with.
    fn mode(ctrl: ControllerMode) -> (r: EspBtMode)
        ensures
            r == Self::spec_mode(ctrl),
    ;
}

/// Modes in which BLE is available.
pub trait BleEnabled: BtMode {}

/// Modes in which Classic Bluetooth is available.
pub trait BtClassicEnabled: BtMode {}

/// Classic Bluetooth. Exists unless the controller is BLE-only.
#[derive(Clone, Copy)]
pub struct BtClassic(());

impl BtClassicEnabled for BtClassic {}

impl BtMode for BtClassic {
    /// Classic Bluetooth, or dual mode when the controller runs in dual mode.
    open spec fn spec_mode(ctrl: ControllerMode) -> EspBtMode {
        if ctrl == ControllerMode::Btdm {
            EspBtMode::Btdm
        } else {
            EspBtMode::ClassicBt
        }
    }

    fn mode(ctrl: ControllerMode) -> (r: EspBtMode) {
        match ctrl {
            ControllerMode::Btdm => EspBtMode::Btdm,
            _ => EspBtMode::ClassicBt,
        }
    }
}

/// BLE. Exists unless the controller is Classic-only.
#[derive(Clone, Copy)]
pub struct Ble(());

impl BleEnabled for Ble {}

impl BtMode for Ble {
    /// BLE, or dual mode when the controller runs in dual mode.
    open spec fn spec_mode(ctrl: ControllerMode) -> EspBtMode {
        if ctrl == ControllerMode::Btdm {
            EspBtMode::Btdm
        } else {
            EspBtMode::Ble
        }
    }

    fn mode(ctrl: ControllerMode) -> (r: EspBtMode) {
        match ctrl {
            ControllerMode::Btdm => EspBtMode::Btdm,
            _ => EspBtMode::Ble,
        }
    }
}

/// Both BLE and Classic Bluetooth. Exists when the controller runs in dual mode.
#[derive(Clone, Copy)]
pub struct BtDual(());

impl BtClassicEnabled for BtDual {}

impl BleEnabled for BtDual {}

impl BtMode for BtDual {
    /// Always dual mode.
    open spec fn spec_mode(ctrl: ControllerMode) -> EspBtMode {
        EspBtMode::Btdm
    }

    fn mode(ctrl: ControllerMode) -> (r: EspBtMode) {
        EspBtMode::Btdm
    }
}

/// Every mode type selects dual mode when the controller runs in dual mode,
/// and its own radio otherwise.
pub proof fn lemma_modes(ctrl: ControllerMode)
    ensures
        BtDual::spec_mode(ctrl) == EspBtMode::Btdm,
        ctrl == ControllerMode::Btdm ==> Ble::spec_mode(ctrl) == EspBtMode::Btdm
            && BtClassic::spec_mode(ctrl) == EspBtMode::Btdm,
        ctrl != ControllerMode::Btdm ==> Ble::spec_mode(ctrl) == EspBtMode::Ble
            && BtClassic::spec_mode(ctrl) == EspBtMode::ClassicBt,
{
}

/// `esp_bd_addr_t`: the six bytes of a Bluetooth device address.
pub type EspBdAddr = [u8; 6];

/// A Bluetooth device address.
#[derive(Debug, Copy, Clone, PartialEq, Eq)]
pub struct BdAddr(pub EspBdAddr);

impl BdAddr {
    /// The six bytes of the address.
    pub open spec fn bytes(&self) -> Seq<u8> {
        self.0@
    }

    /// The address in its raw form.
    pub fn raw(&self) -> (r: &EspBdAddr)
        ensures
            r@ == self.bytes(),
    {
        &self.0
    }

    /// The address made of these six bytes.
    pub fn from_bytes(bytes: [u8; 6]) -> (r: Self)
        ensures
            r.bytes() == bytes@,
    {
        Self(bytes)
    }

    /// The six bytes of the address.
    pub fn addr(&self) -> (r: [u8; 6])
        ensures
            r@ == self.bytes(),
    {
        self.0
    }

    /// The address as text: six pairs of upper-case hexadecimal digits
    /// separated by colons, as in `"01:23:45:67:89:AB"`.
    pub fn to_string(&self) -> (r: String)
        ensures
            r@ == bd_addr_text(self.bytes()),
    {
        let mut s = String::new();
        let mut i: usize = 0;
        while i < 6
            invariant
                i <= 6,
                self.bytes().len() == 6,
                s@ == bd_addr_text_prefix(self.bytes(), i as nat),
            decreases 6 - i,
        {
            if i > 0 {
                push_char(&mut s, ':');
            }
            push_hex_byte(&mut s, self.0[i]);
            i = i + 1;
        }
        assert(s@ =~= bd_addr_text(self.bytes()));
        s
    }
}

/// The text of the first `n` bytes of an address: each byte as two
/// upper-case hexadecimal digits, with a colon between bytes.
pub open spec fn bd_addr_text_prefix(bytes: Seq<u8>, n: nat) -> Seq<char>
    decreases n,
{
    if n == 0 {
        Seq::empty()
    } else if n == 1 {
        hex_byte(bytes[0])
    } else {
        bd_addr_text_prefix(bytes, (n - 1) as nat).push(':') + hex_byte(bytes[n - 1])
    }
}

/// The text of a whole six-byte address (`{:02X}:{:02X}:...`).
pub open spec fn bd_addr_text(bytes: Seq<u8>) -> Seq<char> {
    bd_addr_text_prefix(bytes, 6)
}

impl From<BdAddr> for EspBdAddr {
    fn from(value: BdAddr) -> (r: Self) {
        value.0
    }
}

impl vstd::std_specs::convert::FromSpecImpl<BdAddr> for EspBdAddr {
    open spec fn obeys_from_spec() -> bool {
        true
    }

    open spec fn from_spec(v: BdAddr) -> Self {
        v.0
    }
}

impl From<EspBdAddr> for BdAddr {
    fn from(value: EspBdAddr) -> (r: Self) {
        Self(value)
    }
}

impl vstd::std_specs::convert::FromSpecImpl<EspBdAddr> for BdAddr {
    open spec fn obeys_from_spec() -> bool {
        true
    }

    open spec fn from_spec(v: EspBdAddr) -> Self {
        BdAddr(v)
    }
}

/// `esp_bt_uuid_t`: a UUID as ESP-IDF stores it. `len` is 2, 4 or 16; the
/// value sits little-endian in the first `len` bytes of `uuid`, the union of
/// the 16-, 32- and 128-bit forms.
#[derive(Debug, Copy, Clone)]
pub struct EspBtUuid {
    pub len: u16,
    pub uuid: [u8; 16],
}

/// Byte `i` of the little-endian encoding of `v`.
pub open spec fn le_byte_u128(v: u128, i: nat) -> u8 {
    ((v >> (8 * i)) & 0xff) as u8
}

/// The little-endian bytes of a 16-bit value.
pub open spec fn le_bytes_u16(v: u16) -> Seq<u8> {
    seq![(v & 0xff) as u8, ((v >> 8) & 0xff) as u8]
}

/// The little-endian bytes of a 32-bit value.
pub open spec fn le_bytes_u32(v: u32) -> Seq<u8> {
    seq![
        (v & 0xff) as u8,
        ((v >> 8) & 0xff) as u8,
        ((v >> 16) & 0xff) as u8,
        ((v >> 24) & 0xff) as u8,
    ]
}

/// The little-endian bytes of a 128-bit value.
pub open spec fn le_bytes_u128(v: u128) -> Seq<u8> {
    Seq::new(16, |i: int| le_byte_u128(v, i as nat))
}

/// A Bluetooth UUID in its 16-, 32- or 128-bit form.
#[derive(Clone, Copy)]
pub struct BtUuid(pub EspBtUuid);

impl BtUuid {
    /// Whether the stored length is one of the three UUID sizes.
    pub open spec fn is_valid(&self) -> bool {
        self.0.len == 2 || self.0.len == 4 || self.0.len == 16
    }

    /// The bytes of the UUID: the first `len` bytes of the union, little-endian.
    pub open spec fn bytes(&self) -> Seq<u8> {
        self.0.uuid@.subrange(0, self.0.len as int)
    }

    /// The UUID in its raw form.
    pub fn raw(&self) -> (r: &EspBtUuid)
        ensures
            *r == self.0,
    {
        &self.0
    }

    /// The UUID in its raw form, consuming it.
    pub fn into_raw(self) -> (r: EspBtUuid)
        ensures
            r == self.0,
    {
        self.0
    }

    /// The 16-bit UUID `uuid`.
    pub fn uuid16(uuid: u16) -> (r: Self)
        ensures
            r.0.len == 2,
            r.is_valid(),
            r.bytes() == le_bytes_u16(uuid),
    {
        let mut bytes = [0u8; 16];
        bytes[0] = (uuid & 0xff) as u8;
        bytes[1] = ((uuid >> 8) & 0xff) as u8;
        let r = Self(EspBtUuid { len: 2, uuid: bytes });
        assert(r.bytes() =~= le_bytes_u16(uuid));
        r
    }

    /// The 32-bit UUID `uuid`.
    pub fn uuid32(uuid: u32) -> (r: Self)
        ensures
            r.0.len == 4,
            r.is_valid(),
            r.bytes() == le_bytes_u32(uuid),
    {
        let mut bytes = [0u8; 16];
        bytes[0] = (uuid & 0xff) as u8;
        bytes[1] = ((uuid >> 8) & 0xff) as u8;
        bytes[2] = ((uuid >> 16) & 0xff) as u8;
        bytes[3] = ((uuid >> 24) & 0xff) as u8;
        let r = Self(EspBtUuid { len: 4, uuid: bytes });
        assert(r.bytes() =~= le_bytes_u32(uuid));
        r
    }

    /// The 128-bit UUID `uuid`, stored as its little-endian bytes.
    pub fn uuid128(uuid: u128) -> (r: Self)
        ensures
            r.0.len == 16,
            r.is_valid(),
            r.bytes() == le_bytes_u128(uuid),
    {
        let mut bytes = [0u8; 16];
        let mut i: usize = 0;
        while i < 16
            invariant
                i <= 16,
                bytes@.len() == 16,
                forall|j: int| 0 <= j < i ==> bytes@[j] == le_byte_u128(uuid, j as nat),
            decreases 16 - i,
        {
            let shift: u32 = (8 * i) as u32;
            bytes[i] = ((uuid >> shift) & 0xff) as u8;
            i = i + 1;
        }
        let r = Self(EspBtUuid { len: 16, uuid: bytes });
        assert(r.bytes() =~= le_bytes_u128(uuid));
        r
    }

    /// The bytes of the UUID: 2, 4 or 16 of them, little-endian.
    pub fn as_bytes(&self) -> (r: &[u8])
        requires
            self.is_valid(),
        ensures
            r@ == self.bytes(),
    {
        let n: usize = self.0.len as usize;
        let all: &[u8] = self.0.uuid.as_slice();
        let (head, _tail) = all.split_at(n);
        head
    }

    /// Whether two UUIDs have the same bytes (the `==` of `BtUuid`).
    pub fn eq_bytes(&self, other: &BtUuid) -> (r: bool)
        requires
            self.is_valid(),
            other.is_valid(),
        ensures
            r == (self.bytes() == other.bytes()),
    {
        let a = self.as_bytes();
        let b = other.as_bytes();
        if a.len() != b.len() {
            assert(a@.len() != b@.len());
            return false;
        }
        let mut i: usize = 0;
        while i < a.len()
            invariant
                a@ == self.bytes(),
                b@ == other.bytes(),
                a@.len() == b@.len(),
                i <= a@.len(),
                forall|j: int| 0 <= j < i ==> a@[j] == b@[j],
            decreases a.len() - i,
        {
            if a[i] != b[i] {
                return false;
            }
            i = i + 1;
        }
        assert(a@ =~= b@);
        true
    }

    /// The debug text of the UUID: `BtUuid {[b0, b1, ...]}` with the bytes in decimal.
    pub fn debug_string(&self) -> (r: String)
        requires
            self.is_valid(),
        ensures
            r@ == uuid_debug_text(self.bytes()),
    {
        let bytes = self.as_bytes();
        let mut s = String::new();
        s.append("BtUuid {[");
        let mut i: usize = 0;
        while i < bytes.len()
            invariant
                i <= bytes@.len(),
                bytes@ == self.bytes(),
                s@ == "BtUuid {["@ + byte_list_text(bytes@.subrange(0, i as int)),
            decreases bytes.len() - i,
        {
            if i > 0 {
                s.append(", ");
            }
            crate::text::push_decimal(&mut s, bytes[i] as usize);
            proof {
                let prev = bytes@.subrange(0, i as int);
                let next = bytes@.subrange(0, i + 1);
                assert(next.drop_last() =~= prev);
                assert(next.last() == bytes@[i as int]);
            }
            i = i + 1;
        }
        s.append("]}");
        assert(bytes@.subrange(0, bytes@.len() as int) =~= bytes@);
        s
    }
}

/// A list of bytes as `{:?}` writes it, without the brackets: the decimal
/// values separated by `", "`.
pub open spec fn byte_list_text(bytes: Seq<u8>) -> Seq<char>
    decreases bytes.len(),
{
    if bytes.len() == 0 {
        Seq::empty()
    } else if bytes.len() == 1 {
        crate::text::decimal(bytes[0] as nat)
    } else {
        byte_list_text(bytes.drop_last()) + ", "@ + crate::text::decimal(bytes.last() as nat)
    }
}

/// The debug text of a UUID with these bytes.
pub open spec fn uuid_debug_text(bytes: Seq<u8>) -> Seq<char> {
    "BtUuid {["@ + byte_list_text(bytes) + "]}"@
}

/// Two 16-bit UUIDs have the same bytes exactly when they are the same number,
/// so `uuid16(a) == uuid16(b)` holds exactly when `a == b`.
pub proof fn lemma_uuid16_eq_iff(a: u16, b: u16)
    ensures
        (le_bytes_u16(a) == le_bytes_u16(b)) <==> a == b,
{
    if le_bytes_u16(a) == le_bytes_u16(b) {
        assert(le_bytes_u16(a)[0] == le_bytes_u16(b)[0]);
        assert(le_bytes_u16(a)[1] == le_bytes_u16(b)[1]);
        assert(((a & 0xff) as u8 == (b & 0xff) as u8 && ((a >> 8) & 0xff) as u8 == ((b >> 8)
            & 0xff) as u8) ==> a == b) by (bit_vector);
    }
}

/// Two 32-bit UUIDs have the same bytes exactly when they are the same number.
pub proof fn lemma_uuid32_eq_iff(a: u32, b: u32)
    ensures
        (le_bytes_u32(a) == le_bytes_u32(b)) <==> a == b,
{
    if le_bytes_u32(a) == le_bytes_u32(b) {
        assert(le_bytes_u32(a)[0] == le_bytes_u32(b)[0]);
        assert(le_bytes_u32(a)[1] == le_bytes_u32(b)[1]);
        assert(le_bytes_u32(a)[2] == le_bytes_u32(b)[2]);
        assert(le_bytes_u32(a)[3] == le_bytes_u32(b)[3]);
        assert(((a & 0xff) as u8 == (b & 0xff) as u8 && ((a >> 8) & 0xff) as u8 == ((b >> 8)
            & 0xff) as u8 && ((a >> 16) & 0xff) as u8 == ((b >> 16) & 0xff) as u8 && ((a >> 24)
            & 0xff) as u8 == ((b >> 24) & 0xff) as u8) ==> a == b) by (bit_vector);
    }
}

/// Two 128-bit UUIDs have the same bytes exactly when they are the same number.
pub proof fn lemma_uuid128_eq_iff(a: u128, b: u128)
    ensures
        (le_bytes_u128(a) == le_bytes_u128(b)) <==> a == b,
{
    if le_bytes_u128(a) == le_bytes_u128(b) {
        assert forall|i: nat| i < 16 implies #[trigger] le_byte_u128(a, i) == le_byte_u128(b, i) by {
            assert(le_bytes_u128(a)[i as int] == le_bytes_u128(b)[i as int]);
        }
        lemma_u128_bytes_determine(a, b);
    }
}

proof fn lemma_u128_bytes_determine(a: u128, b: u128)
    requires
        forall|i: nat| i < 16 ==> #[trigger] le_byte_u128(a, i) == le_byte_u128(b, i),
    ensures
        a == b,
{
    assert(a == b) by (bit_vector)
        requires
            le_byte_u128(a, 0) == le_byte_u128(b, 0),
            le_byte_u128(a, 1) == le_byte_u128(b, 1),
            le_byte_u128(a, 2) == le_byte_u128(b, 2),
            le_byte_u128(a, 3) == le_byte_u128(b, 3),
            le_byte_u128(a, 4) == le_byte_u128(b, 4),
            le_byte_u128(a, 5) == le_byte_u128(b, 5),
            le_byte_u128(a, 6) == le_byte_u128(b, 6),
            le_byte_u128(a, 7) == le_byte_u128(b, 7),
            le_byte_u128(a, 8) == le_byte_u128(b, 8),
            le_byte_u128(a, 9) == le_byte_u128(b, 9),
            le_byte_u128(a, 10) == le_byte_u128(b, 10),
            le_byte_u128(a, 11) == le_byte_u128(b, 11),
            le_byte_u128(a, 12) == le_byte_u128(b, 12),
            le_byte_u128(a, 13) == le_byte_u128(b, 13),
            le_byte_u128(a, 14) == le_byte_u128(b, 14),
            le_byte_u128(a, 15) == le_byte_u128(b, 15),
    ;
}

/// UUIDs of different widths never compare equal: their byte strings have
/// different lengths.
pub proof fn lemma_uuid_widths_differ(a: u16, b: u32, c: u128)
    ensures
        le_bytes_u16(a).len() == 2,
        le_bytes_u32(b).len() == 4,
        le_bytes_u128(c).len() == 16,
        le_bytes_u16(a) != le_bytes_u32(b),
        le_bytes_u16(a) != le_bytes_u128(c),
        le_bytes_u32(b) != le_bytes_u128(c),
{
    assert(le_bytes_u16(a).len() == 2);
    assert(le_bytes_u32(b).len() == 4);
    assert(le_bytes_u128(c).len() == 16);
}

/// Building an address from bytes and reading them back gives the same bytes,
/// and so does going through the raw form.
pub proof fn lemma_bd_addr_roundtrip(bytes: [u8; 6])
    ensures
        BdAddr(bytes).bytes() == bytes@,
        BdAddr(bytes).0 == bytes,
{
}

impl From<BtUuid> for EspBtUuid {
    fn from(uuid: BtUuid) -> (r: Self) {
        uuid.0
    }
}

impl vstd::std_specs::convert::FromSpecImpl<BtUuid> for EspBtUuid {
    open spec fn obeys_from_spec() -> bool {
        true
    }

    open spec fn from_spec(v: BtUuid) -> Self {
        v.0
    }
}

impl From<EspBtUuid> for BtUuid {
    fn from(uuid: EspBtUuid) -> (r: Self) {
        Self(uuid)
    }
}

impl vstd::std_specs::convert::FromSpecImpl<EspBtUuid> for BtUuid {
    open spec fn obeys_from_spec() -> bool {
        true
    }

    open spec fn from_spec(v: EspBtUuid) -> Self {
        BtUuid(v)
    }
}

} // verus!
