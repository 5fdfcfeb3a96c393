//! Status codes of the runtime and the failures they stand for.

use vstd::pervasive::unreached;
use vstd::prelude::*;

verus! {

/// A status code as the runtime reports it, before anything is read into it.
#[derive(Debug, Clone, Copy, PartialEq, Eq, Structural)]
pub struct RawResult(pub u32);

/// The failures the runtime can report.
#[derive(Debug, Clone, Copy, PartialEq, Eq, Structural)]
pub enum Error {
    /// Failed.
    Fail,
    /// No connection.
    NoConnection,
    /// Invalid password.
    InvalidPassword,
    /// You are already logged in elsewhere.
    LoggedInElsewhere,
    /// Protocol version is invalid.
    InvalidProtocolVer,
    /// Parameter is invalid.
    InvalidParam,
    /// File was not found.
    FileNotFound,
    /// Steam is busy.
    Busy,
    /// State is invalid.
    InvalidState,
    /// Name is invalid.
    InvalidName,
    /// E-mail is invalid.
    InvalidEmail,
    /// Duplicate name.
    DuplicateName,
    /// Access denied.
    AccessDenied,
    /// Timed out.
    Timeout,
    /// You are banned.
    Banned,
    /// Account was not found.
    AccountNotFound,
    /// Steam ID is invalid.
    InvalidSteamID,
    /// Service is unavailable.
    ServiceUnavailable,
    /// You are not logged on.
    NotLoggedOn,
    /// The request is still pending.
    Pending,
    /// Encryption failed.
    EncryptionFailure,
    /// Insufficient privileges.
    InsufficientPrivilege,
    /// Limit exceeded.
    LimitExceeded,
    /// Revoked.
    Revoked,
    /// Expired.
    Expired,
    /// Already redeemed.
    AlreadyRedeemed,
    /// Duplicate request.
    DuplicateRequest,
    /// Already owned.
    AlreadyOwned,
    /// IP was not found.
    IPNotFound,
    /// Persist failed.
    PersistFailed,
    /// Could not lock.
    LockingFailed,
    /// Log-in session was replaced.
    LogonSessionReplaced,
    /// Connection failed.
    ConnectFailed,
    /// Handshake failed.
    HandshakeFailed,
    /// IO error occurred.
    IOFailure,
    /// Remote disconnected.
    RemoteDisconnect,
    /// Shopping cart was not found.
    ShoppingCartNotFound,
    /// The sender is blocked.
    Blocked,
    /// The sender is ignored.
    Ignored,
    /// No match.
    NoMatch,
    /// Account disabled.
    AccountDisabled,
    /// Service is read-only.
    ServiceReadOnly,
    /// Account is not featured.
    AccountNotFeatured,
    /// Allowed only because the caller is an administrator.
    AdministratorOK,
    /// The content version does not match.
    ContentVersion,
    /// This connection manager cannot serve the user; another one should be tried.
    TryAnotherCM,
    /// A password is needed to displace the other session.
    PasswordRequiredToKickSession,
    /// The operation is suspended.
    Suspended,
    /// The operation was cancelled.
    Cancelled,
    /// Data is corrupted.
    DataCorruption,
    /// Disk is full.
    DiskFull,
    /// Remote call failed.
    RemoteCallFailed,
    /// Password is not set.
    PasswordUnset,
    /// External account is unlinked.
    ExternalAccountUnlinked,
    /// PSN ticket is invalid.
    PSNTicketInvalid,
    /// External account is already linked.
    ExternalAccountAlreadyLinked,
    /// Remote file conflicted.
    RemoteFileConflict,
    /// Password is illegal.
    IllegalPassword,
    /// Same as previous value.
    SameAsPreviousValue,
    /// Account log-on was denied.
    AccountLogonDenied,
    /// You can not use your old password.
    CannotUseOldPassword,
    /// Log-in authentication code is invalid.
    InvalidLoginAuthCode,
    /// Account log-in was denied due to no e-mail.
    AccountLogonDeniedNoMail,
    /// Hardware is not capable of IPT.
    HardwareNotCapableOfIPT,
    /// IPT could not be initialized.
    IPTInitError,
    /// Parental control restricts this.
    ParentalControlRestricted,
    /// Could not query Facebook.
    FacebookQueryError,
    /// Log-in authentication code has expired.
    ExpiredLoginAuthCode,
    /// IP Log-in restriction failed.
    IPLoginRestrictionFailed,
    /// Account is locked down.
    AccountLockedDown,
    /// Account log-in was denied due to no verified e-mail.
    AccountLogonDeniedVerifiedEmailRequired,
    /// No URL matches.
    NoMatchingURL,
    /// Bad response.
    BadResponse,
    /// Password must be re-entered.
    RequirePasswordReEntry,
    /// Value is out of range.
    ValueOutOfRange,
    /// Unexpected error.
    UnexpectedError,
    /// The feature is disabled.
    Disabled,
    /// Invalid CEG Submission.
    InvalidCEGSubmission,
    /// Device is restricted.
    RestrictedDevice,
    /// Region-locked.
    RegionLocked,
    /// You have exceeded your rate limit.
    RateLimitExceeded,
    /// Account log-in was denied due to no 2FA.
    AccountLoginDeniedNeedTwoFactor,
    /// Item has been deleted.
    ItemDeleted,
    /// Account log-in was denied due to throttling.
    AccountLoginDeniedThrottle,
    /// 2FA code mismatched.
    TwoFactorCodeMismatch,
    /// 2FA activation code mismatched.
    TwoFactorActivationCodeMismatch,
    /// Account is associated to multiple partners.
    AccountAssociatedToMultiplePartners,
    /// Not modified.
    NotModified,
    /// No mobile device.
    NoMobileDevice,
    /// Time is not synchronized.
    TimeNotSynced,
    /// SMS code failed.
    SmsCodeFailed,
    /// Account limit has been exceeded.
    AccountLimitExceeded,
    /// Account activity limit has been exceeded.
    AccountActivityLimitExceeded,
    /// Phone activity limit has been exceeded.
    PhoneActivityLimitExceeded,
    /// The refund went to the wallet.
    RefundToWallet,
    /// Could not send e-mail.
    EmailSendFailure,
    /// The transaction has not settled.
    NotSettled,
    /// A captcha has to be solved first.
    NeedCaptcha,
    /// GSLT denied.
    GSLTDenied,
    /// GS owner was denied.
    GSOwnerDenied,
    /// Item type is invalid.
    InvalidItemType,
    /// You are IP banned.
    IPBanned,
    /// GSLT is expired.
    GSLTExpired,
    /// Funds are insufficient.
    InsufficientFunds,
    /// Too many pending.
    TooManyPending,
    /// No site licenses found.
    NoSiteLicensesFound,
    /// WG network send exceeded.
    WGNetworkSendExceeded,
}

impl RawResult {
    /// Whether the code is one of those this library can read: 1 to 110,
    /// except 4, which stands for nothing.
    pub open spec fn known(self) -> bool {
        1 <= self.0 <= 110 && self.0 != 4
    }

    /// What a code stands for: 1 is success, every other known code one
    /// failure. Two codes, 6 and 50, stand for the same failure. Of a code
    /// that is not known this says nothing.
    pub open spec fn outcome(self) -> Result<(), Error> {
        match self.0 {
            1u32 => Ok(()),
            2u32 => Err(Error::Fail),
            3u32 => Err(Error::NoConnection),
            5u32 => Err(Error::InvalidPassword),
            6u32 => Err(Error::LoggedInElsewhere),
            7u32 => Err(Error::InvalidProtocolVer),
            8u32 => Err(Error::InvalidParam),
            9u32 => Err(Error::FileNotFound),
            10u32 => Err(Error::Busy),
            11u32 => Err(Error::InvalidState),
            12u32 => Err(Error::InvalidName),
            13u32 => Err(Error::InvalidEmail),
            14u32 => Err(Error::DuplicateName),
            15u32 => Err(Error::AccessDenied),
            16u32 => Err(Error::Timeout),
            17u32 => Err(Error::Banned),
            18u32 => Err(Error::AccountNotFound),
            19u32 => Err(Error::InvalidSteamID),
            20u32 => Err(Error::ServiceUnavailable),
            21u32 => Err(Error::NotLoggedOn),
            22u32 => Err(Error::Pending),
            23u32 => Err(Error::EncryptionFailure),
            24u32 => Err(Error::InsufficientPrivilege),
            25u32 => Err(Error::LimitExceeded),
            26u32 => Err(Error::Revoked),
            27u32 => Err(Error::Expired),
            28u32 => Err(Error::AlreadyRedeemed),
            29u32 => Err(Error::DuplicateRequest),
            30u32 => Err(Error::AlreadyOwned),
            31u32 => Err(Error::IPNotFound),
            32u32 => Err(Error::PersistFailed),
            33u32 => Err(Error::LockingFailed),
            34u32 => Err(Error::LogonSessionReplaced),
            35u32 => Err(Error::ConnectFailed),
            36u32 => Err(Error::HandshakeFailed),
            37u32 => Err(Error::IOFailure),
            38u32 => Err(Error::RemoteDisconnect),
            39u32 => Err(Error::ShoppingCartNotFound),
            40u32 => Err(Error::Blocked),
            41u32 => Err(Error::Ignored),
            42u32 => Err(Error::NoMatch),
            43u32 => Err(Error::AccountDisabled),
            44u32 => Err(Error::ServiceReadOnly),
            45u32 => Err(Error::AccountNotFeatured),
            46u32 => Err(Error::AdministratorOK),
            47u32 => Err(Error::ContentVersion),
            48u32 => Err(Error::TryAnotherCM),
            49u32 => Err(Error::PasswordRequiredToKickSession),
            50u32 => Err(Error::LoggedInElsewhere),
            51u32 => Err(Error::Suspended),
            52u32 => Err(Error::Cancelled),
            53u32 => Err(Error::DataCorruption),
            54u32 => Err(Error::DiskFull),
            55u32 => Err(Error::RemoteCallFailed),
            56u32 => Err(Error::PasswordUnset),
            57u32 => Err(Error::ExternalAccountUnlinked),
            58u32 => Err(Error::PSNTicketInvalid),
            59u32 => Err(Error::ExternalAccountAlreadyLinked),
            60u32 => Err(Error::RemoteFileConflict),
            61u32 => Err(Error::IllegalPassword),
            62u32 => Err(Error::SameAsPreviousValue),
            63u32 => Err(Error::AccountLogonDenied),
            64u32 => Err(Error::CannotUseOldPassword),
            65u32 => Err(Error::InvalidLoginAuthCode),
            66u32 => Err(Error::AccountLogonDeniedNoMail),
            67u32 => Err(Error::HardwareNotCapableOfIPT),
            68u32 => Err(Error::IPTInitError),
            69u32 => Err(Error::ParentalControlRestricted),
            70u32 => Err(Error::FacebookQueryError),
            71u32 => Err(Error::ExpiredLoginAuthCode),
            72u32 => Err(Error::IPLoginRestrictionFailed),
            73u32 => Err(Error::AccountLockedDown),
            74u32 => Err(Error::AccountLogonDeniedVerifiedEmailRequired),
            75u32 => Err(Error::NoMatchingURL),
            76u32 => Err(Error::BadResponse),
            77u32 => Err(Error::RequirePasswordReEntry),
            78u32 => Err(Error::ValueOutOfRange),
            79u32 => Err(Error::UnexpectedError),
            80u32 => Err(Error::Disabled),
            81u32 => Err(Error::InvalidCEGSubmission),
            82u32 => Err(Error::RestrictedDevice),
            83u32 => Err(Error::RegionLocked),
            84u32 => Err(Error::RateLimitExceeded),
            85u32 => Err(Error::AccountLoginDeniedNeedTwoFactor),
            86u32 => Err(Error::ItemDeleted),
            87u32 => Err(Error::AccountLoginDeniedThrottle),
            88u32 => Err(Error::TwoFactorCodeMismatch),
            89u32 => Err(Error::TwoFactorActivationCodeMismatch),
            90u32 => Err(Error::AccountAssociatedToMultiplePartners),
            91u32 => Err(Error::NotModified),
            92u32 => Err(Error::NoMobileDevice),
            93u32 => Err(Error::TimeNotSynced),
            94u32 => Err(Error::SmsCodeFailed),
            95u32 => Err(Error::AccountLimitExceeded),
            96u32 => Err(Error::AccountActivityLimitExceeded),
            97u32 => Err(Error::PhoneActivityLimitExceeded),
            98u32 => Err(Error::RefundToWallet),
            99u32 => Err(Error::EmailSendFailure),
            100u32 => Err(Error::NotSettled),
            101u32 => Err(Error::NeedCaptcha),
            102u32 => Err(Error::GSLTDenied),
            103u32 => Err(Error::GSOwnerDenied),
            104u32 => Err(Error::InvalidItemType),
            105u32 => Err(Error::IPBanned),
            106u32 => Err(Error::GSLTExpired),
            107u32 => Err(Error::InsufficientFunds),
            108u32 => Err(Error::TooManyPending),
            109u32 => Err(Error::NoSiteLicensesFound),
            110u32 => Err(Error::WGNetworkSendExceeded),
            _ => arbitrary(),
        }
    }

    /// Tells whether the code is one that `to_result` accepts.
    pub fn is_known(&self) -> (known: bool)
        ensures
            known == self.known(),
    {
        1 <= self.0 && self.0 <= 110 && self.0 != 4
    }

    /// Reads the code: success, or the failure it stands for.
    pub fn to_result(self) -> (result: Result<(), Error>)
        requires
            self.known(),
        ensures
            result == self.outcome(),
            result is Ok <==> self.0 == 1,
    {
        match self.0 {
            1 => Ok(()),
            2 => Err(Error::Fail),
            3 => Err(Error::NoConnection),
            5 => Err(Error::InvalidPassword),
            6 => Err(Error::LoggedInElsewhere),
            7 => Err(Error::InvalidProtocolVer),
            8 => Err(Error::InvalidParam),
            9 => Err(Error::FileNotFound),
            10 => Err(Error::Busy),
            11 => Err(Error::InvalidState),
            12 => Err(Error::InvalidName),
            13 => Err(Error::InvalidEmail),
            14 => Err(Error::DuplicateName),
            15 => Err(Error::AccessDenied),
            16 => Err(Error::Timeout),
            17 => Err(Error::Banned),
            18 => Err(Error::AccountNotFound),
            19 => Err(Error::InvalidSteamID),
            20 => Err(Error::ServiceUnavailable),
            21 => Err(Error::NotLoggedOn),
            22 => Err(Error::Pending),
            23 => Err(Error::EncryptionFailure),
            24 => Err(Error::InsufficientPrivilege),
            25 => Err(Error::LimitExceeded),
            26 => Err(Error::Revoked),
            27 => Err(Error::Expired),
            28 => Err(Error::AlreadyRedeemed),
            29 => Err(Error::DuplicateRequest),
            30 => Err(Error::AlreadyOwned),
            31 => Err(Error::IPNotFound),
            32 => Err(Error::PersistFailed),
            33 => Err(Error::LockingFailed),
            34 => Err(Error::LogonSessionReplaced),
            35 => Err(Error::ConnectFailed),
            36 => Err(Error::HandshakeFailed),
            37 => Err(Error::IOFailure),
            38 => Err(Error::RemoteDisconnect),
            39 => Err(Error::ShoppingCartNotFound),
            40 => Err(Error::Blocked),
            41 => Err(Error::Ignored),
            42 => Err(Error::NoMatch),
            43 => Err(Error::AccountDisabled),
            44 => Err(Error::ServiceReadOnly),
            45 => Err(Error::AccountNotFeatured),
            46 => Err(Error::AdministratorOK),
            47 => Err(Error::ContentVersion),
            48 => Err(Error::TryAnotherCM),
            49 => Err(Error::PasswordRequiredToKickSession),
            50 => Err(Error::LoggedInElsewhere),
            51 => Err(Error::Suspended),
            52 => Err(Error::Cancelled),
            53 => Err(Error::DataCorruption),
            54 => Err(Error::DiskFull),
            55 => Err(Error::RemoteCallFailed),
            56 => Err(Error::PasswordUnset),
            57 => Err(Error::ExternalAccountUnlinked),
            58 => Err(Error::PSNTicketInvalid),
            59 => Err(Error::ExternalAccountAlreadyLinked),
            60 => Err(Error::RemoteFileConflict),
            61 => Err(Error::IllegalPassword),
            62 => Err(Error::SameAsPreviousValue),
            63 => Err(Error::AccountLogonDenied),
            64 => Err(Error::CannotUseOldPassword),
            65 => Err(Error::InvalidLoginAuthCode),
            66 => Err(Error::AccountLogonDeniedNoMail),
            67 => Err(Error::HardwareNotCapableOfIPT),
            68 => Err(Error::IPTInitError),
            69 => Err(Error::ParentalControlRestricted),
            70 => Err(Error::FacebookQueryError),
            71 => Err(Error::ExpiredLoginAuthCode),
            72 => Err(Error::IPLoginRestrictionFailed),
            73 => Err(Error::AccountLockedDown),
            74 => Err(Error::AccountLogonDeniedVerifiedEmailRequired),
            75 => Err(Error::NoMatchingURL),
            76 => Err(Error::BadResponse),
            77 => Err(Error::RequirePasswordReEntry),
            78 => Err(Error::ValueOutOfRange),
            79 => Err(Error::UnexpectedError),
            80 => Err(Error::Disabled),
            81 => Err(Error::InvalidCEGSubmission),
            82 => Err(Error::RestrictedDevice),
            83 => Err(Error::RegionLocked),
            84 => Err(Error::RateLimitExceeded),
            85 => Err(Error::AccountLoginDeniedNeedTwoFactor),
            86 => Err(Error::ItemDeleted),
            87 => Err(Error::AccountLoginDeniedThrottle),
            88 => Err(Error::TwoFactorCodeMismatch),
            89 => Err(Error::TwoFactorActivationCodeMismatch),
            90 => Err(Error::AccountAssociatedToMultiplePartners),
            91 => Err(Error::NotModified),
            92 => Err(Error::NoMobileDevice),
            93 => Err(Error::TimeNotSynced),
            94 => Err(Error::SmsCodeFailed),
            95 => Err(Error::AccountLimitExceeded),
            96 => Err(Error::AccountActivityLimitExceeded),
            97 => Err(Error::PhoneActivityLimitExceeded),
            98 => Err(Error::RefundToWallet),
            99 => Err(Error::EmailSendFailure),
            100 => Err(Error::NotSettled),
            101 => Err(Error::NeedCaptcha),
            102 => Err(Error::GSLTDenied),
            103 => Err(Error::GSOwnerDenied),
            104 => Err(Error::InvalidItemType),
            105 => Err(Error::IPBanned),
            106 => Err(Error::GSLTExpired),
            107 => Err(Error::InsufficientFunds),
            108 => Err(Error::TooManyPending),
            109 => Err(Error::NoSiteLicensesFound),
            110 => Err(Error::WGNetworkSendExceeded),
            _ => unreached(),
        }
    }
}

/// No failure hides another: two known codes stand for the same outcome
/// only when they are the same code, or the pair 6 and 50.
pub proof fn lemma_codes_are_told_apart(one: RawResult, other: RawResult)
    requires
        one.known(),
        other.known(),
        one.outcome() == other.outcome(),
    ensures
        one == other || (one.0 == 6 && other.0 == 50) || (one.0 == 50 && other.0 == 6),
{
}

} // verus!
