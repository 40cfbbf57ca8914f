//! Status codes that ESP-IDF's Bluetooth stack reports (`esp_bt_status_t`).
use vstd::prelude::*;

verus! {

/// A Bluetooth status code.
#[derive(Debug, Copy, Clone, PartialEq, Eq, Structural)]
pub enum BtStatus {
    Success,
    Fail,
    NotReady,
    NoMem,
    Busy,
    Done,
    Unsupported,
    InvalidParam,
    Unhandled,
    AuthFailure,
    RemoteDeviceDown,
    AuthRejected,
    InvalidStaticRandAddr,
    Pending,
    UnacceptedConnInterval,
    ParamOutOfRange,
    Timeout,
    UnsupportedPeerLeDataLen,
    UnsupportedControlLeDataLen,
    IllegalParamFormat,
    MemoryFull,
    EirTooLarge,
    HciSuccess,
    HciIllegalCommand,
    HciNoConnection,
    HciHwFailure,
    HciPageTimeout,
    HciAuthFailure,
    HciKeyMissing,
    HciMemoryFull,
    HciConnTimeout,
    HciConnectionsExhausted,
    HciScosExhausted,
    HciConnectionExists,
    HciCommandDisallowed,
    HciHostResourcesRejected,
    HciHostSecurityRejected,
    HciHostDevideRejected,
    HciHostTimeout,
    HciUnsupportedValue,
    HciIllegalParamFormat,
    HciPeerUser,
    HciPeerLowResources,
    HciPeerPowerOff,
    HciConnectionCauseLocalHost,
    HciRepeatedAttempts,
    HciPairingNotAllowed,
    HciUnkownLmpPdu,
    HciUnsupportedRemFeature,
    HciScoOffsetRejected,
    HciScoInternalRejected,
    HciScoAirMode,
    HciInvalidLmpParam,
    HciUnspecified,
    HciUnsupportedLmpParameters,
    HciRoleChangeNotAllowed,
    HciLmpResponseTimeout,
    HciLmpErrTransactionCollision,
    HciLmpPduNotAllowed,
    HciEntryModeNotAcceptable,
    HciUnitKeyUsed,
    HciUnsupportedQos,
    HciInstantPassed,
    HciUnsupportedPairingWithUnitKey,
    HciDiffTransactionCollision,
    HciUndefined0x2b,
    HciQosInvalidParam,
    HciQosRejected,
    HciUnsupportedChanClassification,
    HciInsufficientSecurity,
    HciParamOutOfRange,
    HciUndefined0x31,
    HciRoleSwitchPending,
    HciUndefined0x33,
    HciReservedSlotViolation,
    HciRoleSwitchFailed,
    HciInqRespDataTooLarge,
    HciSimplePairingNotSupported,
    HciHostBusyPairing,
    HciRejNoSuitableChannel,
    HciControllerBusy,
    HciUnsupportedConnectionInterval,
    HciDirectedAdvertisingTimeout,
    HciConnectionTimeoutDueToMiscFailure,
    HciConnectionEstablishmentFailed,
    HciMacConnectionFailed,
}

/// The error for a number that is no Bluetooth status code.
#[derive(Debug, Copy, Clone, PartialEq, Eq, Structural)]
pub struct TryFromPrimitiveError {
    /// The number that was refused.
    pub number: u32,
}

/// Whether `n` is the code of some status: 0 to 21 for the host stack, and
/// `0x100` plus an HCI error code (0 to `0x3f`) for the controller.
pub open spec fn is_status_code(n: u32) -> bool {
    n <= 21 || (0x100 <= n && n <= 0x13f)
}

impl BtStatus {
    /// The numeric code of a status.
    pub open spec fn spec_code(self) -> u32 {
        match self {
            BtStatus::Success => 0,
            BtStatus::Fail => 1,
            BtStatus::NotReady => 2,
            BtStatus::NoMem => 3,
            BtStatus::Busy => 4,
            BtStatus::Done => 5,
            BtStatus::Unsupported => 6,
            BtStatus::InvalidParam => 7,
            BtStatus::Unhandled => 8,
            BtStatus::AuthFailure => 9,
            BtStatus::RemoteDeviceDown => 10,
            BtStatus::AuthRejected => 11,
            BtStatus::InvalidStaticRandAddr => 12,
            BtStatus::Pending => 13,
            BtStatus::UnacceptedConnInterval => 14,
            BtStatus::ParamOutOfRange => 15,
            BtStatus::Timeout => 16,
            BtStatus::UnsupportedPeerLeDataLen => 17,
            BtStatus::UnsupportedControlLeDataLen => 18,
            BtStatus::IllegalParamFormat => 19,
            BtStatus::MemoryFull => 20,
            BtStatus::EirTooLarge => 21,
            BtStatus::HciSuccess => 0x100,
            BtStatus::HciIllegalCommand => 0x101,
            BtStatus::HciNoConnection => 0x102,
            BtStatus::HciHwFailure => 0x103,
            BtStatus::HciPageTimeout => 0x104,
            BtStatus::HciAuthFailure => 0x105,
            BtStatus::HciKeyMissing => 0x106,
            BtStatus::HciMemoryFull => 0x107,
            BtStatus::HciConnTimeout => 0x108,
            BtStatus::HciConnectionsExhausted => 0x109,
            BtStatus::HciScosExhausted => 0x10a,
            BtStatus::HciConnectionExists => 0x10b,
            BtStatus::HciCommandDisallowed => 0x10c,
            BtStatus::HciHostResourcesRejected => 0x10d,
            BtStatus::HciHostSecurityRejected => 0x10e,
            BtStatus::HciHostDevideRejected => 0x10f,
            BtStatus::HciHostTimeout => 0x110,
            BtStatus::HciUnsupportedValue => 0x111,
            BtStatus::HciIllegalParamFormat => 0x112,
            BtStatus::HciPeerUser => 0x113,
            BtStatus::HciPeerLowResources => 0x114,
            BtStatus::HciPeerPowerOff => 0x115,
            BtStatus::HciConnectionCauseLocalHost => 0x116,
            BtStatus::HciRepeatedAttempts => 0x117,
            BtStatus::HciPairingNotAllowed => 0x118,
            BtStatus::HciUnkownLmpPdu => 0x119,
            BtStatus::HciUnsupportedRemFeature => 0x11a,
            BtStatus::HciScoOffsetRejected => 0x11b,
            BtStatus::HciScoInternalRejected => 0x11c,
            BtStatus::HciScoAirMode => 0x11d,
            BtStatus::HciInvalidLmpParam => 0x11e,
            BtStatus::HciUnspecified => 0x11f,
            BtStatus::HciUnsupportedLmpParameters => 0x120,
            BtStatus::HciRoleChangeNotAllowed => 0x121,
            BtStatus::HciLmpResponseTimeout => 0x122,
            BtStatus::HciLmpErrTransactionCollision => 0x123,
            BtStatus::HciLmpPduNotAllowed => 0x124,
            BtStatus::HciEntryModeNotAcceptable => 0x125,
            BtStatus::HciUnitKeyUsed => 0x126,
            BtStatus::HciUnsupportedQos => 0x127,
            BtStatus::HciInstantPassed => 0x128,
            BtStatus::HciUnsupportedPairingWithUnitKey => 0x129,
            BtStatus::HciDiffTransactionCollision => 0x12a,
            BtStatus::HciUndefined0x2b => 0x12b,
            BtStatus::HciQosInvalidParam => 0x12c,
            BtStatus::HciQosRejected => 0x12d,
            BtStatus::HciUnsupportedChanClassification => 0x12e,
            BtStatus::HciInsufficientSecurity => 0x12f,
            BtStatus::HciParamOutOfRange => 0x130,
            BtStatus::HciUndefined0x31 => 0x131,
            BtStatus::HciRoleSwitchPending => 0x132,
            BtStatus::HciUndefined0x33 => 0x133,
            BtStatus::HciReservedSlotViolation => 0x134,
            BtStatus::HciRoleSwitchFailed => 0x135,
            BtStatus::HciInqRespDataTooLarge => 0x136,
            BtStatus::HciSimplePairingNotSupported => 0x137,
            BtStatus::HciHostBusyPairing => 0x138,
            BtStatus::HciRejNoSuitableChannel => 0x139,
            BtStatus::HciControllerBusy => 0x13a,
            BtStatus::HciUnsupportedConnectionInterval => 0x13b,
            BtStatus::HciDirectedAdvertisingTimeout => 0x13c,
            BtStatus::HciConnectionTimeoutDueToMiscFailure => 0x13d,
            BtStatus::HciConnectionEstablishmentFailed => 0x13e,
            BtStatus::HciMacConnectionFailed => 0x13f,
        }
    }

    /// The numeric code of this status (`status as u32`).
    pub fn code(self) -> (r: u32)
        ensures
            r == self.spec_code(),
    {
        match self {
            BtStatus::Success => 0,
            BtStatus::Fail => 1,
            BtStatus::NotReady => 2,
            BtStatus::NoMem => 3,
            BtStatus::Busy => 4,
            BtStatus::Done => 5,
            BtStatus::Unsupported => 6,
            BtStatus::InvalidParam => 7,
            BtStatus::Unhandled => 8,
            BtStatus::AuthFailure => 9,
            BtStatus::RemoteDeviceDown => 10,
            BtStatus::AuthRejected => 11,
            BtStatus::InvalidStaticRandAddr => 12,
            BtStatus::Pending => 13,
            BtStatus::UnacceptedConnInterval => 14,
            BtStatus::ParamOutOfRange => 15,
            BtStatus::Timeout => 16,
            BtStatus::UnsupportedPeerLeDataLen => 17,
            BtStatus::UnsupportedControlLeDataLen => 18,
            BtStatus::IllegalParamFormat => 19,
            BtStatus::MemoryFull => 20,
            BtStatus::EirTooLarge => 21,
            BtStatus::HciSuccess => 0x100,
            BtStatus::HciIllegalCommand => 0x101,
            BtStatus::HciNoConnection => 0x102,
            BtStatus::HciHwFailure => 0x103,
            BtStatus::HciPageTimeout => 0x104,
            BtStatus::HciAuthFailure => 0x105,
            BtStatus::HciKeyMissing => 0x106,
            BtStatus::HciMemoryFull => 0x107,
            BtStatus::HciConnTimeout => 0x108,
            BtStatus::HciConnectionsExhausted => 0x109,
            BtStatus::HciScosExhausted => 0x10a,
            BtStatus::HciConnectionExists => 0x10b,
            BtStatus::HciCommandDisallowed => 0x10c,
            BtStatus::HciHostResourcesRejected => 0x10d,
            BtStatus::HciHostSecurityRejected => 0x10e,
            BtStatus::HciHostDevideRejected => 0x10f,
            BtStatus::HciHostTimeout => 0x110,
            BtStatus::HciUnsupportedValue => 0x111,
            BtStatus::HciIllegalParamFormat => 0x112,
            BtStatus::HciPeerUser => 0x113,
            BtStatus::HciPeerLowResources => 0x114,
            BtStatus::HciPeerPowerOff => 0x115,
            BtStatus::HciConnectionCauseLocalHost => 0x116,
            BtStatus::HciRepeatedAttempts => 0x117,
            BtStatus::HciPairingNotAllowed => 0x118,
            BtStatus::HciUnkownLmpPdu => 0x119,
            BtStatus::HciUnsupportedRemFeature => 0x11a,
            BtStatus::HciScoOffsetRejected => 0x11b,
            BtStatus::HciScoInternalRejected => 0x11c,
            BtStatus::HciScoAirMode => 0x11d,
            BtStatus::HciInvalidLmpParam => 0x11e,
            BtStatus::HciUnspecified => 0x11f,
            BtStatus::HciUnsupportedLmpParameters => 0x120,
            BtStatus::HciRoleChangeNotAllowed => 0x121,
            BtStatus::HciLmpResponseTimeout => 0x122,
            BtStatus::HciLmpErrTransactionCollision => 0x123,
            BtStatus::HciLmpPduNotAllowed => 0x124,
            BtStatus::HciEntryModeNotAcceptable => 0x125,
            BtStatus::HciUnitKeyUsed => 0x126,
            BtStatus::HciUnsupportedQos => 0x127,
            BtStatus::HciInstantPassed => 0x128,
            BtStatus::HciUnsupportedPairingWithUnitKey => 0x129,
            BtStatus::HciDiffTransactionCollision => 0x12a,
            BtStatus::HciUndefined0x2b => 0x12b,
            BtStatus::HciQosInvalidParam => 0x12c,
            BtStatus::HciQosRejected => 0x12d,
            BtStatus::HciUnsupportedChanClassification => 0x12e,
            BtStatus::HciInsufficientSecurity => 0x12f,
            BtStatus::HciParamOutOfRange => 0x130,
            BtStatus::HciUndefined0x31 => 0x131,
            BtStatus::HciRoleSwitchPending => 0x132,
            BtStatus::HciUndefined0x33 => 0x133,
            BtStatus::HciReservedSlotViolation => 0x134,
            BtStatus::HciRoleSwitchFailed => 0x135,
            BtStatus::HciInqRespDataTooLarge => 0x136,
            BtStatus::HciSimplePairingNotSupported => 0x137,
            BtStatus::HciHostBusyPairing => 0x138,
            BtStatus::HciRejNoSuitableChannel => 0x139,
            BtStatus::HciControllerBusy => 0x13a,
            BtStatus::HciUnsupportedConnectionInterval => 0x13b,
            BtStatus::HciDirectedAdvertisingTimeout => 0x13c,
            BtStatus::HciConnectionTimeoutDueToMiscFailure => 0x13d,
            BtStatus::HciConnectionEstablishmentFailed => 0x13e,
            BtStatus::HciMacConnectionFailed => 0x13f,
        }
    }

    /// The status whose code is `number`, or an error carrying `number`
    /// when there is none.
    pub fn try_from_primitive(number: u32) -> (r: Result<BtStatus, TryFromPrimitiveError>)
        ensures
            r is Ok <==> is_status_code(number),
            r matches Ok(s) ==> s.spec_code() == number,
            r matches Err(e) ==> e.number == number,
    {
        match number {
            0 => Ok(BtStatus::Success),
            1 => Ok(BtStatus::Fail),
            2 => Ok(BtStatus::NotReady),
            3 => Ok(BtStatus::NoMem),
            4 => Ok(BtStatus::Busy),
            5 => Ok(BtStatus::Done),
            6 => Ok(BtStatus::Unsupported),
            7 => Ok(BtStatus::InvalidParam),
            8 => Ok(BtStatus::Unhandled),
            9 => Ok(BtStatus::AuthFailure),
            10 => Ok(BtStatus::RemoteDeviceDown),
            11 => Ok(BtStatus::AuthRejected),
            12 => Ok(BtStatus::InvalidStaticRandAddr),
            13 => Ok(BtStatus::Pending),
            14 => Ok(BtStatus::UnacceptedConnInterval),
            15 => Ok(BtStatus::ParamOutOfRange),
            16 => Ok(BtStatus::Timeout),
            17 => Ok(BtStatus::UnsupportedPeerLeDataLen),
            18 => Ok(BtStatus::UnsupportedControlLeDataLen),
            19 => Ok(BtStatus::IllegalParamFormat),
            20 => Ok(BtStatus::MemoryFull),
            21 => Ok(BtStatus::EirTooLarge),
            0x100 => Ok(BtStatus::HciSuccess),
            0x101 => Ok(BtStatus::HciIllegalCommand),
            0x102 => Ok(BtStatus::HciNoConnection),
            0x103 => Ok(BtStatus::HciHwFailure),
            0x104 => Ok(BtStatus::HciPageTimeout),
            0x105 => Ok(BtStatus::HciAuthFailure),
            0x106 => Ok(BtStatus::HciKeyMissing),
            0x107 => Ok(BtStatus::HciMemoryFull),
            0x108 => Ok(BtStatus::HciConnTimeout),
            0x109 => Ok(BtStatus::HciConnectionsExhausted),
            0x10a => Ok(BtStatus::HciScosExhausted),
            0x10b => Ok(BtStatus::HciConnectionExists),
            0x10c => Ok(BtStatus::HciCommandDisallowed),
            0x10d => Ok(BtStatus::HciHostResourcesRejected),
            0x10e => Ok(BtStatus::HciHostSecurityRejected),
            0x10f => Ok(BtStatus::HciHostDevideRejected),
            0x110 => Ok(BtStatus::HciHostTimeout),
            0x111 => Ok(BtStatus::HciUnsupportedValue),
            0x112 => Ok(BtStatus::HciIllegalParamFormat),
            0x113 => Ok(BtStatus::HciPeerUser),
            0x114 => Ok(BtStatus::HciPeerLowResources),
            0x115 => Ok(BtStatus::HciPeerPowerOff),
            0x116 => Ok(BtStatus::HciConnectionCauseLocalHost),
            0x117 => Ok(BtStatus::HciRepeatedAttempts),
            0x118 => Ok(BtStatus::HciPairingNotAllowed),
            0x119 => Ok(BtStatus::HciUnkownLmpPdu),
            0x11a => Ok(BtStatus::HciUnsupportedRemFeature),
            0x11b => Ok(BtStatus::HciScoOffsetRejected),
            0x11c => Ok(BtStatus::HciScoInternalRejected),
            0x11d => Ok(BtStatus::HciScoAirMode),
            0x11e => Ok(BtStatus::HciInvalidLmpParam),
            0x11f => Ok(BtStatus::HciUnspecified),
            0x120 => Ok(BtStatus::HciUnsupportedLmpParameters),
            0x121 => Ok(BtStatus::HciRoleChangeNotAllowed),
            0x122 => Ok(BtStatus::HciLmpResponseTimeout),
            0x123 => Ok(BtStatus::HciLmpErrTransactionCollision),
            0x124 => Ok(BtStatus::HciLmpPduNotAllowed),
            0x125 => Ok(BtStatus::HciEntryModeNotAcceptable),
            0x126 => Ok(BtStatus::HciUnitKeyUsed),
            0x127 => Ok(BtStatus::HciUnsupportedQos),
            0x128 => Ok(BtStatus::HciInstantPassed),
            0x129 => Ok(BtStatus::HciUnsupportedPairingWithUnitKey),
            0x12a => Ok(BtStatus::HciDiffTransactionCollision),
            0x12b => Ok(BtStatus::HciUndefined0x2b),
            0x12c => Ok(BtStatus::HciQosInvalidParam),
            0x12d => Ok(BtStatus::HciQosRejected),
            0x12e => Ok(BtStatus::HciUnsupportedChanClassification),
            0x12f => Ok(BtStatus::HciInsufficientSecurity),
            0x130 => Ok(BtStatus::HciParamOutOfRange),
            0x131 => Ok(BtStatus::HciUndefined0x31),
            0x132 => Ok(BtStatus::HciRoleSwitchPending),
            0x133 => Ok(BtStatus::HciUndefined0x33),
            0x134 => Ok(BtStatus::HciReservedSlotViolation),
            0x135 => Ok(BtStatus::HciRoleSwitchFailed),
            0x136 => Ok(BtStatus::HciInqRespDataTooLarge),
            0x137 => Ok(BtStatus::HciSimplePairingNotSupported),
            0x138 => Ok(BtStatus::HciHostBusyPairing),
            0x139 => Ok(BtStatus::HciRejNoSuitableChannel),
            0x13a => Ok(BtStatus::HciControllerBusy),
            0x13b => Ok(BtStatus::HciUnsupportedConnectionInterval),
            0x13c => Ok(BtStatus::HciDirectedAdvertisingTimeout),
            0x13d => Ok(BtStatus::HciConnectionTimeoutDueToMiscFailure),
            0x13e => Ok(BtStatus::HciConnectionEstablishmentFailed),
            0x13f => Ok(BtStatus::HciMacConnectionFailed),
            _ => Err(TryFromPrimitiveError { number }),
        }
    }
}

/// The status with code `n`, for a code of some status.
pub closed spec fn status_of(n: u32) -> BtStatus {
    match n {
        0 => BtStatus::Success,
        1 => BtStatus::Fail,
        2 => BtStatus::NotReady,
        3 => BtStatus::NoMem,
        4 => BtStatus::Busy,
        5 => BtStatus::Done,
        6 => BtStatus::Unsupported,
        7 => BtStatus::InvalidParam,
        8 => BtStatus::Unhandled,
        9 => BtStatus::AuthFailure,
        10 => BtStatus::RemoteDeviceDown,
        11 => BtStatus::AuthRejected,
        12 => BtStatus::InvalidStaticRandAddr,
        13 => BtStatus::Pending,
        14 => BtStatus::UnacceptedConnInterval,
        15 => BtStatus::ParamOutOfRange,
        16 => BtStatus::Timeout,
        17 => BtStatus::UnsupportedPeerLeDataLen,
        18 => BtStatus::UnsupportedControlLeDataLen,
        19 => BtStatus::IllegalParamFormat,
        20 => BtStatus::MemoryFull,
        21 => BtStatus::EirTooLarge,
        0x100 => BtStatus::HciSuccess,
        0x101 => BtStatus::HciIllegalCommand,
        0x102 => BtStatus::HciNoConnection,
        0x103 => BtStatus::HciHwFailure,
        0x104 => BtStatus::HciPageTimeout,
        0x105 => BtStatus::HciAuthFailure,
        0x106 => BtStatus::HciKeyMissing,
        0x107 => BtStatus::HciMemoryFull,
        0x108 => BtStatus::HciConnTimeout,
        0x109 => BtStatus::HciConnectionsExhausted,
        0x10a => BtStatus::HciScosExhausted,
        0x10b => BtStatus::HciConnectionExists,
        0x10c => BtStatus::HciCommandDisallowed,
        0x10d => BtStatus::HciHostResourcesRejected,
        0x10e => BtStatus::HciHostSecurityRejected,
        0x10f => BtStatus::HciHostDevideRejected,
        0x110 => BtStatus::HciHostTimeout,
        0x111 => BtStatus::HciUnsupportedValue,
        0x112 => BtStatus::HciIllegalParamFormat,
        0x113 => BtStatus::HciPeerUser,
        0x114 => BtStatus::HciPeerLowResources,
        0x115 => BtStatus::HciPeerPowerOff,
        0x116 => BtStatus::HciConnectionCauseLocalHost,
        0x117 => BtStatus::HciRepeatedAttempts,
        0x118 => BtStatus::HciPairingNotAllowed,
        0x119 => BtStatus::HciUnkownLmpPdu,
        0x11a => BtStatus::HciUnsupportedRemFeature,
        0x11b => BtStatus::HciScoOffsetRejected,
        0x11c => BtStatus::HciScoInternalRejected,
        0x11d => BtStatus::HciScoAirMode,
        0x11e => BtStatus::HciInvalidLmpParam,
        0x11f => BtStatus::HciUnspecified,
        0x120 => BtStatus::HciUnsupportedLmpParameters,
        0x121 => BtStatus::HciRoleChangeNotAllowed,
        0x122 => BtStatus::HciLmpResponseTimeout,
        0x123 => BtStatus::HciLmpErrTransactionCollision,
        0x124 => BtStatus::HciLmpPduNotAllowed,
        0x125 => BtStatus::HciEntryModeNotAcceptable,
        0x126 => BtStatus::HciUnitKeyUsed,
        0x127 => BtStatus::HciUnsupportedQos,
        0x128 => BtStatus::HciInstantPassed,
        0x129 => BtStatus::HciUnsupportedPairingWithUnitKey,
        0x12a => BtStatus::HciDiffTransactionCollision,
        0x12b => BtStatus::HciUndefined0x2b,
        0x12c => BtStatus::HciQosInvalidParam,
        0x12d => BtStatus::HciQosRejected,
        0x12e => BtStatus::HciUnsupportedChanClassification,
        0x12f => BtStatus::HciInsufficientSecurity,
        0x130 => BtStatus::HciParamOutOfRange,
        0x131 => BtStatus::HciUndefined0x31,
        0x132 => BtStatus::HciRoleSwitchPending,
        0x133 => BtStatus::HciUndefined0x33,
        0x134 => BtStatus::HciReservedSlotViolation,
        0x135 => BtStatus::HciRoleSwitchFailed,
        0x136 => BtStatus::HciInqRespDataTooLarge,
        0x137 => BtStatus::HciSimplePairingNotSupported,
        0x138 => BtStatus::HciHostBusyPairing,
        0x139 => BtStatus::HciRejNoSuitableChannel,
        0x13a => BtStatus::HciControllerBusy,
        0x13b => BtStatus::HciUnsupportedConnectionInterval,
        0x13c => BtStatus::HciDirectedAdvertisingTimeout,
        0x13d => BtStatus::HciConnectionTimeoutDueToMiscFailure,
        0x13e => BtStatus::HciConnectionEstablishmentFailed,
        0x13f => BtStatus::HciMacConnectionFailed,
        _ => BtStatus::Success,
    }
}

proof fn lemma_status_of_code(s: BtStatus)
    ensures
        status_of(s.spec_code()) == s,
{
}

impl TryFrom<u32> for BtStatus {
    type Error = TryFromPrimitiveError;

    fn try_from(number: u32) -> (r: Result<BtStatus, TryFromPrimitiveError>) {
        let r = BtStatus::try_from_primitive(number);
        proof {
            if let Ok(s) = r {
                lemma_status_of_code(s);
            }
        }
        r
    }
}

impl vstd::std_specs::convert::TryFromSpecImpl<u32> for BtStatus {
    open spec fn obeys_try_from_spec() -> bool {
        true
    }

    /// The status whose code is `v`, or the error carrying `v`.
    open spec fn try_from_spec(v: u32) -> Result<BtStatus, TryFromPrimitiveError> {
        if is_status_code(v) {
            Ok(status_of(v))
        } else {
            Err(TryFromPrimitiveError { number: v })
        }
    }
}

/// Each status has the number that ESP-IDF's `esp_bt_status_t` gives it:
/// the Bluedroid statuses count up from `ESP_BT_STATUS_SUCCESS` (0), and the
/// controller's HCI statuses sit above `ESP_BT_STATUS_HCI_SUCCESS` (0x100).
pub proof fn lemma_status_codes()
    ensures
        BtStatus::Success.spec_code() == 0,
        BtStatus::Fail.spec_code() == 1,
        BtStatus::NotReady.spec_code() == 2,
        BtStatus::NoMem.spec_code() == 3,
        BtStatus::Busy.spec_code() == 4,
        BtStatus::Done.spec_code() == 5,
        BtStatus::Unsupported.spec_code() == 6,
        BtStatus::InvalidParam.spec_code() == 7,
        BtStatus::Unhandled.spec_code() == 8,
        BtStatus::AuthFailure.spec_code() == 9,
        BtStatus::RemoteDeviceDown.spec_code() == 10,
        BtStatus::AuthRejected.spec_code() == 11,
        BtStatus::InvalidStaticRandAddr.spec_code() == 12,
        BtStatus::Pending.spec_code() == 13,
        BtStatus::UnacceptedConnInterval.spec_code() == 14,
        BtStatus::ParamOutOfRange.spec_code() == 15,
        BtStatus::Timeout.spec_code() == 16,
        BtStatus::UnsupportedPeerLeDataLen.spec_code() == 17,
        BtStatus::UnsupportedControlLeDataLen.spec_code() == 18,
        BtStatus::IllegalParamFormat.spec_code() == 19,
        BtStatus::MemoryFull.spec_code() == 20,
        BtStatus::EirTooLarge.spec_code() == 21,
        BtStatus::HciSuccess.spec_code() == 0x100,
        BtStatus::HciIllegalCommand.spec_code() == 0x101,
        BtStatus::HciNoConnection.spec_code() == 0x102,
        BtStatus::HciHwFailure.spec_code() == 0x103,
        BtStatus::HciPageTimeout.spec_code() == 0x104,
        BtStatus::HciAuthFailure.spec_code() == 0x105,
        BtStatus::HciKeyMissing.spec_code() == 0x106,
        BtStatus::HciMemoryFull.spec_code() == 0x107,
        BtStatus::HciConnTimeout.spec_code() == 0x108,
        BtStatus::HciConnectionsExhausted.spec_code() == 0x109,
        BtStatus::HciScosExhausted.spec_code() == 0x10a,
        BtStatus::HciConnectionExists.spec_code() == 0x10b,
        BtStatus::HciCommandDisallowed.spec_code() == 0x10c,
        BtStatus::HciHostResourcesRejected.spec_code() == 0x10d,
        BtStatus::HciHostSecurityRejected.spec_code() == 0x10e,
        BtStatus::HciHostDevideRejected.spec_code() == 0x10f,
        BtStatus::HciHostTimeout.spec_code() == 0x110,
        BtStatus::HciUnsupportedValue.spec_code() == 0x111,
        BtStatus::HciIllegalParamFormat.spec_code() == 0x112,
        BtStatus::HciPeerUser.spec_code() == 0x113,
        BtStatus::HciPeerLowResources.spec_code() == 0x114,
        BtStatus::HciPeerPowerOff.spec_code() == 0x115,
        BtStatus::HciConnectionCauseLocalHost.spec_code() == 0x116,
        BtStatus::HciRepeatedAttempts.spec_code() == 0x117,
        BtStatus::HciPairingNotAllowed.spec_code() == 0x118,
        BtStatus::HciUnkownLmpPdu.spec_code() == 0x119,
        BtStatus::HciUnsupportedRemFeature.spec_code() == 0x11a,
        BtStatus::HciScoOffsetRejected.spec_code() == 0x11b,
        BtStatus::HciScoInternalRejected.spec_code() == 0x11c,
        BtStatus::HciScoAirMode.spec_code() == 0x11d,
        BtStatus::HciInvalidLmpParam.spec_code() == 0x11e,
        BtStatus::HciUnspecified.spec_code() == 0x11f,
        BtStatus::HciUnsupportedLmpParameters.spec_code() == 0x120,
        BtStatus::HciRoleChangeNotAllowed.spec_code() == 0x121,
        BtStatus::HciLmpResponseTimeout.spec_code() == 0x122,
        BtStatus::HciLmpErrTransactionCollision.spec_code() == 0x123,
        BtStatus::HciLmpPduNotAllowed.spec_code() == 0x124,
        BtStatus::HciEntryModeNotAcceptable.spec_code() == 0x125,
        BtStatus::HciUnitKeyUsed.spec_code() == 0x126,
        BtStatus::HciUnsupportedQos.spec_code() == 0x127,
        BtStatus::HciInstantPassed.spec_code() == 0x128,
        BtStatus::HciUnsupportedPairingWithUnitKey.spec_code() == 0x129,
        BtStatus::HciDiffTransactionCollision.spec_code() == 0x12a,
        BtStatus::HciUndefined0x2b.spec_code() == 0x12b,
        BtStatus::HciQosInvalidParam.spec_code() == 0x12c,
        BtStatus::HciQosRejected.spec_code() == 0x12d,
        BtStatus::HciUnsupportedChanClassification.spec_code() == 0x12e,
        BtStatus::HciInsufficientSecurity.spec_code() == 0x12f,
        BtStatus::HciParamOutOfRange.spec_code() == 0x130,
        BtStatus::HciUndefined0x31.spec_code() == 0x131,
        BtStatus::HciRoleSwitchPending.spec_code() == 0x132,
        BtStatus::HciUndefined0x33.spec_code() == 0x133,
        BtStatus::HciReservedSlotViolation.spec_code() == 0x134,
        BtStatus::HciRoleSwitchFailed.spec_code() == 0x135,
        BtStatus::HciInqRespDataTooLarge.spec_code() == 0x136,
        BtStatus::HciSimplePairingNotSupported.spec_code() == 0x137,
        BtStatus::HciHostBusyPairing.spec_code() == 0x138,
        BtStatus::HciRejNoSuitableChannel.spec_code() == 0x139,
        BtStatus::HciControllerBusy.spec_code() == 0x13a,
        BtStatus::HciUnsupportedConnectionInterval.spec_code() == 0x13b,
        BtStatus::HciDirectedAdvertisingTimeout.spec_code() == 0x13c,
        BtStatus::HciConnectionTimeoutDueToMiscFailure.spec_code() == 0x13d,
        BtStatus::HciConnectionEstablishmentFailed.spec_code() == 0x13e,
        BtStatus::HciMacConnectionFailed.spec_code() == 0x13f,
{
}

/// Every status has a status code, and no two statuses share one: reading
/// back the code of a status gives that status again.
pub proof fn lemma_status_code_roundtrip(a: BtStatus, b: BtStatus)
    ensures
        is_status_code(a.spec_code()),
        a.spec_code() == b.spec_code() ==> a == b,
{
    lemma_status_of_code(a);
    lemma_status_of_code(b);
}

} // verus!
