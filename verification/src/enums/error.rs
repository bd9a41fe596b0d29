//! The error codes that a controller answers a request with.

use crate::decode::{self, Decode, Decoder, ErrorView, Parsed};
use crate::digits::pow10;
use crate::encode::{self, Encode, Encoder, Written};
use crate::enums::{lemma_tag_read_back, lemma_tagged_forward, parse_tagged, read_tag, wire_tagged};
use crate::faithful::Faithful;
use crate::EnumNumber;
use vstd::prelude::*;

verus! {

#[derive(Debug, Default, Clone, Eq, PartialEq)]
pub enum ErrorCode {
    #[default]
    NoError,
    InvalidData,
    ParameterSetIdNotPresent,
    ParameterSetCannotBeSet,
    ParameterSetNotRunning,
    VinUploadSubscriptionExists,
    VinUploadSubscriptionDoesNotExist,
    VinInputSourceNotGranted,
    LastTighteningResultSubscriptionExists,
    LastTighteningResultSubscriptionDoesNotExist,
    AlarmSubscriptionExists,
    AlarmSubscriptionDoesNotExist,
    ParameterSetSelectionSubscriptionExists,
    ParameterSetSelectionSubscriptionDoesNotExist,
    TighteningIdNotFound,
    ConnectionRejectedProtocolBusy,
    JobIdNotPresent,
    JobInfoSubscriptionExists,
    JobInfoSubscriptionDoesNotExist,
    JobCannotBeSet,
    JobNotRunning,
    DynamicJobRequestNotPossible,
    JobBatchDecrementFailed,
    CreatePsetNotPossible,
    ProgrammingControlNotGranted,
    WrongToolTypeForPsetDownload,
    ToolInaccessible,
    JobAbortionInProgress,
    ToolDoesNotExist,
    NotSyncMasterOrStationController,
    MultiSpindleStatusSubscriptionExists,
    MultiSpindleStatusSubscriptionDoesNotExist,
    MultiSpindleResultSubscriptionExists,
    MultiSpindleResultSubscriptionDoesNotExist,
    OtherMasterClientAlreadyConnected,
    LockTypeNotSupported,
    JobLineControlSubscriptionExists,
    JobLineControlSubscriptionDoesNotExist,
    IdentifierInputSourceNotGranted,
    MultipleIdentifiersWorkOrderSubscriptionExists,
    MultipleIdentifiersWorkOrderSubscriptionDoesNotExist,
    StatusExternalMonitoredInputsSubscriptionExists,
    StatusExternalMonitoredInputsSubscriptionDoesNotExist,
    IoDeviceNotConnected,
    FaultyIoDeviceId,
    ToolTagIdUnknown,
    ToolTagIdSubscriptionExists,
    ToolTagIdSubscriptionDoesNotExist,
    ToolMotorTuningFailed,
    NoAlarmPresent,
    ToolCurrentlyInUse,
    NoHistogramAvailable,
    PairingFailed,
    PairingDenied,
    PairingWrongToolType,
    PairingAbortionDenied,
    PairingAbortionFailed,
    PairingDisconnectionFailed,
    PairingInProgress,
    PairingDeniedNoProgramControl,
    UnsupportedExtraDataRevision,
    CalibrationFailed,
    SubscriptionAlreadyExists,
    SubscriptionDoesNotExist,
    SubscribedMIDUnsupported,
    SubscribedMIDRevisionUnsupported,
    RequestedMIDUnsupported,
    RequestedMIDRevisionUnsupported,
    RequestedSpecificDataNotSupported,
    SubscriptionSpecificDataNotSupported,
    CommandFailed,
    AudiEmergencyStatusSubscriptionExists,
    AudiEmergencyStatusSubscriptionDoesNotExist,
    AutomaticManualModeSubscriptionExists,
    AutomaticManualModeSubscriptionDoesNotExist,
    RelayFunctionSubscriptionExists,
    RelayFunctionSubscriptionDoesNotExist,
    SelectorSocketInfoSubscriptionExists,
    SelectorSocketInfoSubscriptionDoesNotExist,
    DigitalInputSubscriptionExists,
    DigitalInputSubscriptionDoesNotExist,
    LockAtBatchDoneSubscriptionExists,
    LockAtBatchDoneSubscriptionDoesNotExist,
    OpenProtocolCommandsDisabled,
    OpenProtocolCommandsDisabledSubscriptionExists,
    OpenProtocolCommandsDisabledSubscriptionDoesNotExist,
    RejectRequestPowerMACSManualMode,
    RejectConnectionClientAlreadyConnected,
    MIDRevisionUnsupported,
    ControllerInternalRequestTimeout,
    UnknownMID,
    IllegalPID,
    TighteningInProgress,
    DeleteOfObjectNotPossible,
    IllegalProgramID,
    IllegalNodeType,
    ApplicationSpecificErrorCode(u16),
    UnknownError(u16),
}

impl DeepView for ErrorCode {
    type V = ErrorCode;

    open spec fn deep_view(&self) -> ErrorCode {
        *self
    }
}

impl ErrorCode {
    /// The number that the value travels as.
    pub open spec fn number(&self) -> EnumNumber {
        match *self {
            ErrorCode::NoError => 0,
            ErrorCode::InvalidData => 1,
            ErrorCode::ParameterSetIdNotPresent => 2,
            ErrorCode::ParameterSetCannotBeSet => 3,
            ErrorCode::ParameterSetNotRunning => 4,
            ErrorCode::VinUploadSubscriptionExists => 6,
            ErrorCode::VinUploadSubscriptionDoesNotExist => 7,
            ErrorCode::VinInputSourceNotGranted => 8,
            ErrorCode::LastTighteningResultSubscriptionExists => 9,
            ErrorCode::LastTighteningResultSubscriptionDoesNotExist => 10,
            ErrorCode::AlarmSubscriptionExists => 11,
            ErrorCode::AlarmSubscriptionDoesNotExist => 12,
            ErrorCode::ParameterSetSelectionSubscriptionExists => 13,
            ErrorCode::ParameterSetSelectionSubscriptionDoesNotExist => 14,
            ErrorCode::TighteningIdNotFound => 15,
            ErrorCode::ConnectionRejectedProtocolBusy => 16,
            ErrorCode::JobIdNotPresent => 17,
            ErrorCode::JobInfoSubscriptionExists => 18,
            ErrorCode::JobInfoSubscriptionDoesNotExist => 19,
            ErrorCode::JobCannotBeSet => 20,
            ErrorCode::JobNotRunning => 21,
            ErrorCode::DynamicJobRequestNotPossible => 22,
            ErrorCode::JobBatchDecrementFailed => 23,
            ErrorCode::CreatePsetNotPossible => 24,
            ErrorCode::ProgrammingControlNotGranted => 25,
            ErrorCode::WrongToolTypeForPsetDownload => 26,
            ErrorCode::ToolInaccessible => 27,
            ErrorCode::JobAbortionInProgress => 28,
            ErrorCode::ToolDoesNotExist => 29,
            ErrorCode::NotSyncMasterOrStationController => 30,
            ErrorCode::MultiSpindleStatusSubscriptionExists => 31,
            ErrorCode::MultiSpindleStatusSubscriptionDoesNotExist => 32,
            ErrorCode::MultiSpindleResultSubscriptionExists => 33,
            ErrorCode::MultiSpindleResultSubscriptionDoesNotExist => 34,
            ErrorCode::OtherMasterClientAlreadyConnected => 35,
            ErrorCode::LockTypeNotSupported => 36,
            ErrorCode::JobLineControlSubscriptionExists => 40,
            ErrorCode::JobLineControlSubscriptionDoesNotExist => 41,
            ErrorCode::IdentifierInputSourceNotGranted => 42,
            ErrorCode::MultipleIdentifiersWorkOrderSubscriptionExists => 43,
            ErrorCode::MultipleIdentifiersWorkOrderSubscriptionDoesNotExist => 44,
            ErrorCode::StatusExternalMonitoredInputsSubscriptionExists => 50,
            ErrorCode::StatusExternalMonitoredInputsSubscriptionDoesNotExist => 51,
            ErrorCode::IoDeviceNotConnected => 52,
            ErrorCode::FaultyIoDeviceId => 53,
            ErrorCode::ToolTagIdUnknown => 54,
            ErrorCode::ToolTagIdSubscriptionExists => 55,
            ErrorCode::ToolTagIdSubscriptionDoesNotExist => 56,
            ErrorCode::ToolMotorTuningFailed => 57,
            ErrorCode::NoAlarmPresent => 58,
            ErrorCode::ToolCurrentlyInUse => 59,
            ErrorCode::NoHistogramAvailable => 60,
            ErrorCode::PairingFailed => 61,
            ErrorCode::PairingDenied => 62,
            ErrorCode::PairingWrongToolType => 63,
            ErrorCode::PairingAbortionDenied => 64,
            ErrorCode::PairingAbortionFailed => 65,
            ErrorCode::PairingDisconnectionFailed => 66,
            ErrorCode::PairingInProgress => 67,
            ErrorCode::PairingDeniedNoProgramControl => 68,
            ErrorCode::UnsupportedExtraDataRevision => 69,
            ErrorCode::CalibrationFailed => 70,
            ErrorCode::SubscriptionAlreadyExists => 71,
            ErrorCode::SubscriptionDoesNotExist => 72,
            ErrorCode::SubscribedMIDUnsupported => 73,
            ErrorCode::SubscribedMIDRevisionUnsupported => 74,
            ErrorCode::RequestedMIDUnsupported => 75,
            ErrorCode::RequestedMIDRevisionUnsupported => 76,
            ErrorCode::RequestedSpecificDataNotSupported => 77,
            ErrorCode::SubscriptionSpecificDataNotSupported => 78,
            ErrorCode::CommandFailed => 79,
            ErrorCode::AudiEmergencyStatusSubscriptionExists => 80,
            ErrorCode::AudiEmergencyStatusSubscriptionDoesNotExist => 81,
            ErrorCode::AutomaticManualModeSubscriptionExists => 82,
            ErrorCode::AutomaticManualModeSubscriptionDoesNotExist => 83,
            ErrorCode::RelayFunctionSubscriptionExists => 84,
            ErrorCode::RelayFunctionSubscriptionDoesNotExist => 85,
            ErrorCode::SelectorSocketInfoSubscriptionExists => 86,
            ErrorCode::SelectorSocketInfoSubscriptionDoesNotExist => 87,
            ErrorCode::DigitalInputSubscriptionExists => 88,
            ErrorCode::DigitalInputSubscriptionDoesNotExist => 89,
            ErrorCode::LockAtBatchDoneSubscriptionExists => 90,
            ErrorCode::LockAtBatchDoneSubscriptionDoesNotExist => 91,
            ErrorCode::OpenProtocolCommandsDisabled => 92,
            ErrorCode::OpenProtocolCommandsDisabledSubscriptionExists => 93,
            ErrorCode::OpenProtocolCommandsDisabledSubscriptionDoesNotExist => 94,
            ErrorCode::RejectRequestPowerMACSManualMode => 95,
            ErrorCode::RejectConnectionClientAlreadyConnected => 96,
            ErrorCode::MIDRevisionUnsupported => 97,
            ErrorCode::ControllerInternalRequestTimeout => 98,
            ErrorCode::UnknownMID => 99,
            ErrorCode::IllegalPID => 100,
            ErrorCode::TighteningInProgress => 101,
            ErrorCode::DeleteOfObjectNotPossible => 102,
            ErrorCode::IllegalProgramID => 103,
            ErrorCode::IllegalNodeType => 104,
            ErrorCode::ApplicationSpecificErrorCode(number) => number,
            ErrorCode::UnknownError(number) => number,
        }
    }

    /// The value that travels as `number`: the value that carries exactly
    /// that number, or else the one whose range holds it, or else the one
    /// that keeps any number.
    pub open spec fn of_number(number: EnumNumber) -> Option<ErrorCode> {
        if number == 0 {
            Some(ErrorCode::NoError)
        } else if number == 1 {
            Some(ErrorCode::InvalidData)
        } else if number == 2 {
            Some(ErrorCode::ParameterSetIdNotPresent)
        } else if number == 3 {
            Some(ErrorCode::ParameterSetCannotBeSet)
        } else if number == 4 {
            Some(ErrorCode::ParameterSetNotRunning)
        } else if number == 6 {
            Some(ErrorCode::VinUploadSubscriptionExists)
        } else if number == 7 {
            Some(ErrorCode::VinUploadSubscriptionDoesNotExist)
        } else if number == 8 {
            Some(ErrorCode::VinInputSourceNotGranted)
        } else if number == 9 {
            Some(ErrorCode::LastTighteningResultSubscriptionExists)
        } else if number == 10 {
            Some(ErrorCode::LastTighteningResultSubscriptionDoesNotExist)
        } else if number == 11 {
            Some(ErrorCode::AlarmSubscriptionExists)
        } else if number == 12 {
            Some(ErrorCode::AlarmSubscriptionDoesNotExist)
        } else if number == 13 {
            Some(ErrorCode::ParameterSetSelectionSubscriptionExists)
        } else if number == 14 {
            Some(ErrorCode::ParameterSetSelectionSubscriptionDoesNotExist)
        } else if number == 15 {
            Some(ErrorCode::TighteningIdNotFound)
        } else if number == 16 {
            Some(ErrorCode::ConnectionRejectedProtocolBusy)
        } else if number == 17 {
            Some(ErrorCode::JobIdNotPresent)
        } else if number == 18 {
            Some(ErrorCode::JobInfoSubscriptionExists)
        } else if number == 19 {
            Some(ErrorCode::JobInfoSubscriptionDoesNotExist)
        } else if number == 20 {
            Some(ErrorCode::JobCannotBeSet)
        } else if number == 21 {
            Some(ErrorCode::JobNotRunning)
        } else if number == 22 {
            Some(ErrorCode::DynamicJobRequestNotPossible)
        } else if number == 23 {
            Some(ErrorCode::JobBatchDecrementFailed)
        } else if number == 24 {
            Some(ErrorCode::CreatePsetNotPossible)
        } else if number == 25 {
            Some(ErrorCode::ProgrammingControlNotGranted)
        } else if number == 26 {
            Some(ErrorCode::WrongToolTypeForPsetDownload)
        } else if number == 27 {
            Some(ErrorCode::ToolInaccessible)
        } else if number == 28 {
            Some(ErrorCode::JobAbortionInProgress)
        } else if number == 29 {
            Some(ErrorCode::ToolDoesNotExist)
        } else if number == 30 {
            Some(ErrorCode::NotSyncMasterOrStationController)
        } else if number == 31 {
            Some(ErrorCode::MultiSpindleStatusSubscriptionExists)
        } else if number == 32 {
            Some(ErrorCode::MultiSpindleStatusSubscriptionDoesNotExist)
        } else if number == 33 {
            Some(ErrorCode::MultiSpindleResultSubscriptionExists)
        } else if number == 34 {
            Some(ErrorCode::MultiSpindleResultSubscriptionDoesNotExist)
        } else if number == 35 {
            Some(ErrorCode::OtherMasterClientAlreadyConnected)
        } else if number == 36 {
            Some(ErrorCode::LockTypeNotSupported)
        } else if number == 40 {
            Some(ErrorCode::JobLineControlSubscriptionExists)
        } else if number == 41 {
            Some(ErrorCode::JobLineControlSubscriptionDoesNotExist)
        } else if number == 42 {
            Some(ErrorCode::IdentifierInputSourceNotGranted)
        } else if number == 43 {
            Some(ErrorCode::MultipleIdentifiersWorkOrderSubscriptionExists)
        } else if number == 44 {
            Some(ErrorCode::MultipleIdentifiersWorkOrderSubscriptionDoesNotExist)
        } else if number == 50 {
            Some(ErrorCode::StatusExternalMonitoredInputsSubscriptionExists)
        } else if number == 51 {
            Some(ErrorCode::StatusExternalMonitoredInputsSubscriptionDoesNotExist)
        } else if number == 52 {
            Some(ErrorCode::IoDeviceNotConnected)
        } else if number == 53 {
            Some(ErrorCode::FaultyIoDeviceId)
        } else if number == 54 {
            Some(ErrorCode::ToolTagIdUnknown)
        } else if number == 55 {
            Some(ErrorCode::ToolTagIdSubscriptionExists)
        } else if number == 56 {
            Some(ErrorCode::ToolTagIdSubscriptionDoesNotExist)
        } else if number == 57 {
            Some(ErrorCode::ToolMotorTuningFailed)
        } else if number == 58 {
            Some(ErrorCode::NoAlarmPresent)
        } else if number == 59 {
            Some(ErrorCode::ToolCurrentlyInUse)
        } else if number == 60 {
            Some(ErrorCode::NoHistogramAvailable)
        } else if number == 61 {
            Some(ErrorCode::PairingFailed)
        } else if number == 62 {
            Some(ErrorCode::PairingDenied)
        } else if number == 63 {
            Some(ErrorCode::PairingWrongToolType)
        } else if number == 64 {
            Some(ErrorCode::PairingAbortionDenied)
        } else if number == 65 {
            Some(ErrorCode::PairingAbortionFailed)
        } else if number == 66 {
            Some(ErrorCode::PairingDisconnectionFailed)
        } else if number == 67 {
            Some(ErrorCode::PairingInProgress)
        } else if number == 68 {
            Some(ErrorCode::PairingDeniedNoProgramControl)
        } else if number == 69 {
            Some(ErrorCode::UnsupportedExtraDataRevision)
        } else if number == 70 {
            Some(ErrorCode::CalibrationFailed)
        } else if number == 71 {
            Some(ErrorCode::SubscriptionAlreadyExists)
        } else if number == 72 {
            Some(ErrorCode::SubscriptionDoesNotExist)
        } else if number == 73 {
            Some(ErrorCode::SubscribedMIDUnsupported)
        } else if number == 74 {
            Some(ErrorCode::SubscribedMIDRevisionUnsupported)
        } else if number == 75 {
            Some(ErrorCode::RequestedMIDUnsupported)
        } else if number == 76 {
            Some(ErrorCode::RequestedMIDRevisionUnsupported)
        } else if number == 77 {
            Some(ErrorCode::RequestedSpecificDataNotSupported)
        } else if number == 78 {
            Some(ErrorCode::SubscriptionSpecificDataNotSupported)
        } else if number == 79 {
            Some(ErrorCode::CommandFailed)
        } else if number == 80 {
            Some(ErrorCode::AudiEmergencyStatusSubscriptionExists)
        } else if number == 81 {
            Some(ErrorCode::AudiEmergencyStatusSubscriptionDoesNotExist)
        } else if number == 82 {
            Some(ErrorCode::AutomaticManualModeSubscriptionExists)
        } else if number == 83 {
            Some(ErrorCode::AutomaticManualModeSubscriptionDoesNotExist)
        } else if number == 84 {
            Some(ErrorCode::RelayFunctionSubscriptionExists)
        } else if number == 85 {
            Some(ErrorCode::RelayFunctionSubscriptionDoesNotExist)
        } else if number == 86 {
            Some(ErrorCode::SelectorSocketInfoSubscriptionExists)
        } else if number == 87 {
            Some(ErrorCode::SelectorSocketInfoSubscriptionDoesNotExist)
        } else if number == 88 {
            Some(ErrorCode::DigitalInputSubscriptionExists)
        } else if number == 89 {
            Some(ErrorCode::DigitalInputSubscriptionDoesNotExist)
        } else if number == 90 {
            Some(ErrorCode::LockAtBatchDoneSubscriptionExists)
        } else if number == 91 {
            Some(ErrorCode::LockAtBatchDoneSubscriptionDoesNotExist)
        } else if number == 92 {
            Some(ErrorCode::OpenProtocolCommandsDisabled)
        } else if number == 93 {
            Some(ErrorCode::OpenProtocolCommandsDisabledSubscriptionExists)
        } else if number == 94 {
            Some(ErrorCode::OpenProtocolCommandsDisabledSubscriptionDoesNotExist)
        } else if number == 95 {
            Some(ErrorCode::RejectRequestPowerMACSManualMode)
        } else if number == 96 {
            Some(ErrorCode::RejectConnectionClientAlreadyConnected)
        } else if number == 97 {
            Some(ErrorCode::MIDRevisionUnsupported)
        } else if number == 98 {
            Some(ErrorCode::ControllerInternalRequestTimeout)
        } else if number == 99 {
            Some(ErrorCode::UnknownMID)
        } else if number == 100 {
            Some(ErrorCode::IllegalPID)
        } else if number == 101 {
            Some(ErrorCode::TighteningInProgress)
        } else if number == 102 {
            Some(ErrorCode::DeleteOfObjectNotPossible)
        } else if number == 103 {
            Some(ErrorCode::IllegalProgramID)
        } else if number == 104 {
            Some(ErrorCode::IllegalNodeType)
        } else if 900 <= number && number <= 999 {
            Some(ErrorCode::ApplicationSpecificErrorCode(number))
        } else {
            Some(ErrorCode::UnknownError(number))
        }
    }

    /// The number that the value travels as.
    pub fn to_number(&self) -> (number: EnumNumber)
        ensures
            number == self.number(),
    {
        match self {
            ErrorCode::NoError => 0,
            ErrorCode::InvalidData => 1,
            ErrorCode::ParameterSetIdNotPresent => 2,
            ErrorCode::ParameterSetCannotBeSet => 3,
            ErrorCode::ParameterSetNotRunning => 4,
            ErrorCode::VinUploadSubscriptionExists => 6,
            ErrorCode::VinUploadSubscriptionDoesNotExist => 7,
            ErrorCode::VinInputSourceNotGranted => 8,
            ErrorCode::LastTighteningResultSubscriptionExists => 9,
            ErrorCode::LastTighteningResultSubscriptionDoesNotExist => 10,
            ErrorCode::AlarmSubscriptionExists => 11,
            ErrorCode::AlarmSubscriptionDoesNotExist => 12,
            ErrorCode::ParameterSetSelectionSubscriptionExists => 13,
            ErrorCode::ParameterSetSelectionSubscriptionDoesNotExist => 14,
            ErrorCode::TighteningIdNotFound => 15,
            ErrorCode::ConnectionRejectedProtocolBusy => 16,
            ErrorCode::JobIdNotPresent => 17,
            ErrorCode::JobInfoSubscriptionExists => 18,
            ErrorCode::JobInfoSubscriptionDoesNotExist => 19,
            ErrorCode::JobCannotBeSet => 20,
            ErrorCode::JobNotRunning => 21,
            ErrorCode::DynamicJobRequestNotPossible => 22,
            ErrorCode::JobBatchDecrementFailed => 23,
            ErrorCode::CreatePsetNotPossible => 24,
            ErrorCode::ProgrammingControlNotGranted => 25,
            ErrorCode::WrongToolTypeForPsetDownload => 26,
            ErrorCode::ToolInaccessible => 27,
            ErrorCode::JobAbortionInProgress => 28,
            ErrorCode::ToolDoesNotExist => 29,
            ErrorCode::NotSyncMasterOrStationController => 30,
            ErrorCode::MultiSpindleStatusSubscriptionExists => 31,
            ErrorCode::MultiSpindleStatusSubscriptionDoesNotExist => 32,
            ErrorCode::MultiSpindleResultSubscriptionExists => 33,
            ErrorCode::MultiSpindleResultSubscriptionDoesNotExist => 34,
            ErrorCode::OtherMasterClientAlreadyConnected => 35,
            ErrorCode::LockTypeNotSupported => 36,
            ErrorCode::JobLineControlSubscriptionExists => 40,
            ErrorCode::JobLineControlSubscriptionDoesNotExist => 41,
            ErrorCode::IdentifierInputSourceNotGranted => 42,
            ErrorCode::MultipleIdentifiersWorkOrderSubscriptionExists => 43,
            ErrorCode::MultipleIdentifiersWorkOrderSubscriptionDoesNotExist => 44,
            ErrorCode::StatusExternalMonitoredInputsSubscriptionExists => 50,
            ErrorCode::StatusExternalMonitoredInputsSubscriptionDoesNotExist => 51,
            ErrorCode::IoDeviceNotConnected => 52,
            ErrorCode::FaultyIoDeviceId => 53,
            ErrorCode::ToolTagIdUnknown => 54,
            ErrorCode::ToolTagIdSubscriptionExists => 55,
            ErrorCode::ToolTagIdSubscriptionDoesNotExist => 56,
            ErrorCode::ToolMotorTuningFailed => 57,
            ErrorCode::NoAlarmPresent => 58,
            ErrorCode::ToolCurrentlyInUse => 59,
            ErrorCode::NoHistogramAvailable => 60,
            ErrorCode::PairingFailed => 61,
            ErrorCode::PairingDenied => 62,
            ErrorCode::PairingWrongToolType => 63,
            ErrorCode::PairingAbortionDenied => 64,
            ErrorCode::PairingAbortionFailed => 65,
            ErrorCode::PairingDisconnectionFailed => 66,
            ErrorCode::PairingInProgress => 67,
            ErrorCode::PairingDeniedNoProgramControl => 68,
            ErrorCode::UnsupportedExtraDataRevision => 69,
            ErrorCode::CalibrationFailed => 70,
            ErrorCode::SubscriptionAlreadyExists => 71,
            ErrorCode::SubscriptionDoesNotExist => 72,
            ErrorCode::SubscribedMIDUnsupported => 73,
            ErrorCode::SubscribedMIDRevisionUnsupported => 74,
            ErrorCode::RequestedMIDUnsupported => 75,
            ErrorCode::RequestedMIDRevisionUnsupported => 76,
            ErrorCode::RequestedSpecificDataNotSupported => 77,
            ErrorCode::SubscriptionSpecificDataNotSupported => 78,
            ErrorCode::CommandFailed => 79,
            ErrorCode::AudiEmergencyStatusSubscriptionExists => 80,
            ErrorCode::AudiEmergencyStatusSubscriptionDoesNotExist => 81,
            ErrorCode::AutomaticManualModeSubscriptionExists => 82,
            ErrorCode::AutomaticManualModeSubscriptionDoesNotExist => 83,
            ErrorCode::RelayFunctionSubscriptionExists => 84,
            ErrorCode::RelayFunctionSubscriptionDoesNotExist => 85,
            ErrorCode::SelectorSocketInfoSubscriptionExists => 86,
            ErrorCode::SelectorSocketInfoSubscriptionDoesNotExist => 87,
            ErrorCode::DigitalInputSubscriptionExists => 88,
            ErrorCode::DigitalInputSubscriptionDoesNotExist => 89,
            ErrorCode::LockAtBatchDoneSubscriptionExists => 90,
            ErrorCode::LockAtBatchDoneSubscriptionDoesNotExist => 91,
            ErrorCode::OpenProtocolCommandsDisabled => 92,
            ErrorCode::OpenProtocolCommandsDisabledSubscriptionExists => 93,
            ErrorCode::OpenProtocolCommandsDisabledSubscriptionDoesNotExist => 94,
            ErrorCode::RejectRequestPowerMACSManualMode => 95,
            ErrorCode::RejectConnectionClientAlreadyConnected => 96,
            ErrorCode::MIDRevisionUnsupported => 97,
            ErrorCode::ControllerInternalRequestTimeout => 98,
            ErrorCode::UnknownMID => 99,
            ErrorCode::IllegalPID => 100,
            ErrorCode::TighteningInProgress => 101,
            ErrorCode::DeleteOfObjectNotPossible => 102,
            ErrorCode::IllegalProgramID => 103,
            ErrorCode::IllegalNodeType => 104,
            ErrorCode::ApplicationSpecificErrorCode(number) => *number,
            ErrorCode::UnknownError(number) => *number,
        }
    }

    /// The value that travels as `number`.
    pub fn from_number(number: EnumNumber) -> (value: Option<Self>)
        ensures
            value == Self::of_number(number),
    {
        if number == 0 {
            Some(ErrorCode::NoError)
        } else if number == 1 {
            Some(ErrorCode::InvalidData)
        } else if number == 2 {
            Some(ErrorCode::ParameterSetIdNotPresent)
        } else if number == 3 {
            Some(ErrorCode::ParameterSetCannotBeSet)
        } else if number == 4 {
            Some(ErrorCode::ParameterSetNotRunning)
        } else if number == 6 {
            Some(ErrorCode::VinUploadSubscriptionExists)
        } else if number == 7 {
            Some(ErrorCode::VinUploadSubscriptionDoesNotExist)
        } else if number == 8 {
            Some(ErrorCode::VinInputSourceNotGranted)
        } else if number == 9 {
            Some(ErrorCode::LastTighteningResultSubscriptionExists)
        } else if number == 10 {
            Some(ErrorCode::LastTighteningResultSubscriptionDoesNotExist)
        } else if number == 11 {
            Some(ErrorCode::AlarmSubscriptionExists)
        } else if number == 12 {
            Some(ErrorCode::AlarmSubscriptionDoesNotExist)
        } else if number == 13 {
            Some(ErrorCode::ParameterSetSelectionSubscriptionExists)
        } else if number == 14 {
            Some(ErrorCode::ParameterSetSelectionSubscriptionDoesNotExist)
        } else if number == 15 {
            Some(ErrorCode::TighteningIdNotFound)
        } else if number == 16 {
            Some(ErrorCode::ConnectionRejectedProtocolBusy)
        } else if number == 17 {
            Some(ErrorCode::JobIdNotPresent)
        } else if number == 18 {
            Some(ErrorCode::JobInfoSubscriptionExists)
        } else if number == 19 {
            Some(ErrorCode::JobInfoSubscriptionDoesNotExist)
        } else if number == 20 {
            Some(ErrorCode::JobCannotBeSet)
        } else if number == 21 {
            Some(ErrorCode::JobNotRunning)
        } else if number == 22 {
            Some(ErrorCode::DynamicJobRequestNotPossible)
        } else if number == 23 {
            Some(ErrorCode::JobBatchDecrementFailed)
        } else if number == 24 {
            Some(ErrorCode::CreatePsetNotPossible)
        } else if number == 25 {
            Some(ErrorCode::ProgrammingControlNotGranted)
        } else if number == 26 {
            Some(ErrorCode::WrongToolTypeForPsetDownload)
        } else if number == 27 {
            Some(ErrorCode::ToolInaccessible)
        } else if number == 28 {
            Some(ErrorCode::JobAbortionInProgress)
        } else if number == 29 {
            Some(ErrorCode::ToolDoesNotExist)
        } else if number == 30 {
            Some(ErrorCode::NotSyncMasterOrStationController)
        } else if number == 31 {
            Some(ErrorCode::MultiSpindleStatusSubscriptionExists)
        } else if number == 32 {
            Some(ErrorCode::MultiSpindleStatusSubscriptionDoesNotExist)
        } else if number == 33 {
            Some(ErrorCode::MultiSpindleResultSubscriptionExists)
        } else if number == 34 {
            Some(ErrorCode::MultiSpindleResultSubscriptionDoesNotExist)
        } else if number == 35 {
            Some(ErrorCode::OtherMasterClientAlreadyConnected)
        } else if number == 36 {
            Some(ErrorCode::LockTypeNotSupported)
        } else if number == 40 {
            Some(ErrorCode::JobLineControlSubscriptionExists)
        } else if number == 41 {
            Some(ErrorCode::JobLineControlSubscriptionDoesNotExist)
        } else if number == 42 {
            Some(ErrorCode::IdentifierInputSourceNotGranted)
        } else if number == 43 {
            Some(ErrorCode::MultipleIdentifiersWorkOrderSubscriptionExists)
        } else if number == 44 {
            Some(ErrorCode::MultipleIdentifiersWorkOrderSubscriptionDoesNotExist)
        } else if number == 50 {
            Some(ErrorCode::StatusExternalMonitoredInputsSubscriptionExists)
        } else if number == 51 {
            Some(ErrorCode::StatusExternalMonitoredInputsSubscriptionDoesNotExist)
        } else if number == 52 {
            Some(ErrorCode::IoDeviceNotConnected)
        } else if number == 53 {
            Some(ErrorCode::FaultyIoDeviceId)
        } else if number == 54 {
            Some(ErrorCode::ToolTagIdUnknown)
        } else if number == 55 {
            Some(ErrorCode::ToolTagIdSubscriptionExists)
        } else if number == 56 {
            Some(ErrorCode::ToolTagIdSubscriptionDoesNotExist)
        } else if number == 57 {
            Some(ErrorCode::ToolMotorTuningFailed)
        } else if number == 58 {
            Some(ErrorCode::NoAlarmPresent)
        } else if number == 59 {
            Some(ErrorCode::ToolCurrentlyInUse)
        } else if number == 60 {
            Some(ErrorCode::NoHistogramAvailable)
        } else if number == 61 {
            Some(ErrorCode::PairingFailed)
        } else if number == 62 {
            Some(ErrorCode::PairingDenied)
        } else if number == 63 {
            Some(ErrorCode::PairingWrongToolType)
        } else if number == 64 {
            Some(ErrorCode::PairingAbortionDenied)
        } else if number == 65 {
            Some(ErrorCode::PairingAbortionFailed)
        } else if number == 66 {
            Some(ErrorCode::PairingDisconnectionFailed)
        } else if number == 67 {
            Some(ErrorCode::PairingInProgress)
        } else if number == 68 {
            Some(ErrorCode::PairingDeniedNoProgramControl)
        } else if number == 69 {
            Some(ErrorCode::UnsupportedExtraDataRevision)
        } else if number == 70 {
            Some(ErrorCode::CalibrationFailed)
        } else if number == 71 {
            Some(ErrorCode::SubscriptionAlreadyExists)
        } else if number == 72 {
            Some(ErrorCode::SubscriptionDoesNotExist)
        } else if number == 73 {
            Some(ErrorCode::SubscribedMIDUnsupported)
        } else if number == 74 {
            Some(ErrorCode::SubscribedMIDRevisionUnsupported)
        } else if number == 75 {
            Some(ErrorCode::RequestedMIDUnsupported)
        } else if number == 76 {
            Some(ErrorCode::RequestedMIDRevisionUnsupported)
        } else if number == 77 {
            Some(ErrorCode::RequestedSpecificDataNotSupported)
        } else if number == 78 {
            Some(ErrorCode::SubscriptionSpecificDataNotSupported)
        } else if number == 79 {
            Some(ErrorCode::CommandFailed)
        } else if number == 80 {
            Some(ErrorCode::AudiEmergencyStatusSubscriptionExists)
        } else if number == 81 {
            Some(ErrorCode::AudiEmergencyStatusSubscriptionDoesNotExist)
        } else if number == 82 {
            Some(ErrorCode::AutomaticManualModeSubscriptionExists)
        } else if number == 83 {
            Some(ErrorCode::AutomaticManualModeSubscriptionDoesNotExist)
        } else if number == 84 {
            Some(ErrorCode::RelayFunctionSubscriptionExists)
        } else if number == 85 {
            Some(ErrorCode::RelayFunctionSubscriptionDoesNotExist)
        } else if number == 86 {
            Some(ErrorCode::SelectorSocketInfoSubscriptionExists)
        } else if number == 87 {
            Some(ErrorCode::SelectorSocketInfoSubscriptionDoesNotExist)
        } else if number == 88 {
            Some(ErrorCode::DigitalInputSubscriptionExists)
        } else if number == 89 {
            Some(ErrorCode::DigitalInputSubscriptionDoesNotExist)
        } else if number == 90 {
            Some(ErrorCode::LockAtBatchDoneSubscriptionExists)
        } else if number == 91 {
            Some(ErrorCode::LockAtBatchDoneSubscriptionDoesNotExist)
        } else if number == 92 {
            Some(ErrorCode::OpenProtocolCommandsDisabled)
        } else if number == 93 {
            Some(ErrorCode::OpenProtocolCommandsDisabledSubscriptionExists)
        } else if number == 94 {
            Some(ErrorCode::OpenProtocolCommandsDisabledSubscriptionDoesNotExist)
        } else if number == 95 {
            Some(ErrorCode::RejectRequestPowerMACSManualMode)
        } else if number == 96 {
            Some(ErrorCode::RejectConnectionClientAlreadyConnected)
        } else if number == 97 {
            Some(ErrorCode::MIDRevisionUnsupported)
        } else if number == 98 {
            Some(ErrorCode::ControllerInternalRequestTimeout)
        } else if number == 99 {
            Some(ErrorCode::UnknownMID)
        } else if number == 100 {
            Some(ErrorCode::IllegalPID)
        } else if number == 101 {
            Some(ErrorCode::TighteningInProgress)
        } else if number == 102 {
            Some(ErrorCode::DeleteOfObjectNotPossible)
        } else if number == 103 {
            Some(ErrorCode::IllegalProgramID)
        } else if number == 104 {
            Some(ErrorCode::IllegalNodeType)
        } else if 900 <= number && number <= 999 {
            Some(ErrorCode::ApplicationSpecificErrorCode(number))
        } else {
            Some(ErrorCode::UnknownError(number))
        }
    }
}

impl Decode for ErrorCode {
    open spec fn zoned() -> bool {
        false
    }

    open spec fn parse(bytes: Seq<u8>, pos: int) -> Parsed<ErrorCode> {
        Err((ErrorView::UnsizedDecodeNotAllowed, pos))
    }

    open spec fn parse_sized(bytes: Seq<u8>, pos: int, size: usize) -> Parsed<ErrorCode> {
        parse_tagged(bytes, pos, size, |number: EnumNumber| Self::of_number(number))
    }

    open spec fn stops(bytes: Seq<u8>, pos: int, at: int) -> bool {
        false
    }

    open spec fn stops_sized(bytes: Seq<u8>, pos: int, size: usize, at: int) -> bool {
        false
    }

    proof fn lemma_forward(bytes: Seq<u8>, pos: int, size: usize) {
        lemma_tagged_forward(bytes, pos, size, |number: EnumNumber| Self::of_number(number));
    }

    fn decode(decoder: &mut Decoder) -> (r: decode::Result<Self>) {
        Err(decode::Error::UnsizedDecodeNotAllowed)
    }

    fn decode_sized(decoder: &mut Decoder, size: usize) -> (r: decode::Result<Self>) {
        let (number, start) = read_tag(decoder, size)?;
        match Self::from_number(number) {
            Some(value) => Ok(value),
            None => Err(decode::Error::InvalidEnumNumber(number, start)),
        }
    }
}

impl Encode for ErrorCode {
    open spec fn wire(&self) -> Written {
        Written::failed(encode::Error::UnsizedEncodeNotAllowed)
    }

    open spec fn wire_sized(&self, size: usize) -> Written {
        wire_tagged(self.number(), size)
    }

    fn encode(&self, encoder: &mut Encoder) -> (r: encode::Result<()>) {
        assert(encoder@ =~= encoder@ + Seq::<u8>::empty());
        Err(encode::Error::UnsizedEncodeNotAllowed)
    }

    fn encode_sized(&self, encoder: &mut Encoder, size: usize) -> (r: encode::Result<()>) {
        self.to_number().encode_sized(encoder, size)
    }
}

impl Faithful for ErrorCode {
    /// The number must fit the width, and must be one that reads as this
    /// very value.
    open spec fn legal_sized(&self, size: usize) -> bool {
        &&& 1 <= size <= 5
        &&& self.number() < pow10(size as nat)
        &&& Self::of_number(self.number()) == Some(*self)
    }

    open spec fn clear_of(&self, tail: Seq<u8>) -> bool {
        true
    }

    proof fn lemma_read_back_sized(&self, size: usize, bytes: Seq<u8>, pos: int) {
        lemma_tag_read_back(self.number(), size, bytes, pos);
    }
}

} // verus!
