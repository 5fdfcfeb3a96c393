use easy_steamworks::{Error, RawResult};

#[test]
fn status_one_is_success() {
    assert!(RawResult(1).is_known());
    assert_eq!(RawResult(1).to_result(), Ok(()));
}

#[test]
fn status_two_is_the_generic_failure() {
    assert_eq!(RawResult(2).to_result(), Err(Error::Fail));
}

#[test]
fn two_codes_stand_for_logged_in_elsewhere() {
    assert_eq!(RawResult(6).to_result(), Err(Error::LoggedInElsewhere));
    assert_eq!(RawResult(50).to_result(), Err(Error::LoggedInElsewhere));
}

#[test]
fn codes_outside_the_table_are_not_known() {
    assert!(!RawResult(0).is_known());
    assert!(!RawResult(4).is_known());
    assert!(!RawResult(111).is_known());
    assert!(!RawResult(u32::MAX).is_known());
}

#[test]
fn every_code_of_the_table_is_known() {
    for code in 1..=110u32 {
        assert_eq!(RawResult(code).is_known(), code != 4);
    }
}

#[test]
fn every_failure_code_gives_its_failure() {
    let table = [
        (2, Error::Fail),
        (3, Error::NoConnection),
        (5, Error::InvalidPassword),
        (6, Error::LoggedInElsewhere),
        (7, Error::InvalidProtocolVer),
        (8, Error::InvalidParam),
        (9, Error::FileNotFound),
        (10, Error::Busy),
        (11, Error::InvalidState),
        (12, Error::InvalidName),
        (13, Error::InvalidEmail),
        (14, Error::DuplicateName),
        (15, Error::AccessDenied),
        (16, Error::Timeout),
        (17, Error::Banned),
        (18, Error::AccountNotFound),
        (19, Error::InvalidSteamID),
        (20, Error::ServiceUnavailable),
        (21, Error::NotLoggedOn),
        (22, Error::Pending),
        (23, Error::EncryptionFailure),
        (24, Error::InsufficientPrivilege),
        (25, Error::LimitExceeded),
        (26, Error::Revoked),
        (27, Error::Expired),
        (28, Error::AlreadyRedeemed),
        (29, Error::DuplicateRequest),
        (30, Error::AlreadyOwned),
        (31, Error::IPNotFound),
        (32, Error::PersistFailed),
        (33, Error::LockingFailed),
        (34, Error::LogonSessionReplaced),
        (35, Error::ConnectFailed),
        (36, Error::HandshakeFailed),
        (37, Error::IOFailure),
        (38, Error::RemoteDisconnect),
        (39, Error::ShoppingCartNotFound),
        (40, Error::Blocked),
        (41, Error::Ignored),
        (42, Error::NoMatch),
        (43, Error::AccountDisabled),
        (44, Error::ServiceReadOnly),
        (45, Error::AccountNotFeatured),
        (46, Error::AdministratorOK),
        (47, Error::ContentVersion),
        (48, Error::TryAnotherCM),
        (49, Error::PasswordRequiredToKickSession),
        (50, Error::LoggedInElsewhere),
        (51, Error::Suspended),
        (52, Error::Cancelled),
        (53, Error::DataCorruption),
        (54, Error::DiskFull),
        (55, Error::RemoteCallFailed),
        (56, Error::PasswordUnset),
        (57, Error::ExternalAccountUnlinked),
        (58, Error::PSNTicketInvalid),
        (59, Error::ExternalAccountAlreadyLinked),
        (60, Error::RemoteFileConflict),
        (61, Error::IllegalPassword),
        (62, Error::SameAsPreviousValue),
        (63, Error::AccountLogonDenied),
        (64, Error::CannotUseOldPassword),
        (65, Error::InvalidLoginAuthCode),
        (66, Error::AccountLogonDeniedNoMail),
        (67, Error::HardwareNotCapableOfIPT),
        (68, Error::IPTInitError),
        (69, Error::ParentalControlRestricted),
        (70, Error::FacebookQueryError),
        (71, Error::ExpiredLoginAuthCode),
        (72, Error::IPLoginRestrictionFailed),
        (73, Error::AccountLockedDown),
        (74, Error::AccountLogonDeniedVerifiedEmailRequired),
        (75, Error::NoMatchingURL),
        (76, Error::BadResponse),
        (77, Error::RequirePasswordReEntry),
        (78, Error::ValueOutOfRange),
        (79, Error::UnexpectedError),
        (80, Error::Disabled),
        (81, Error::InvalidCEGSubmission),
        (82, Error::RestrictedDevice),
        (83, Error::RegionLocked),
        (84, Error::RateLimitExceeded),
        (85, Error::AccountLoginDeniedNeedTwoFactor),
        (86, Error::ItemDeleted),
        (87, Error::AccountLoginDeniedThrottle),
        (88, Error::TwoFactorCodeMismatch),
        (89, Error::TwoFactorActivationCodeMismatch),
        (90, Error::AccountAssociatedToMultiplePartners),
        (91, Error::NotModified),
        (92, Error::NoMobileDevice),
        (93, Error::TimeNotSynced),
        (94, Error::SmsCodeFailed),
        (95, Error::AccountLimitExceeded),
        (96, Error::AccountActivityLimitExceeded),
        (97, Error::PhoneActivityLimitExceeded),
        (98, Error::RefundToWallet),
        (99, Error::EmailSendFailure),
        (100, Error::NotSettled),
        (101, Error::NeedCaptcha),
        (102, Error::GSLTDenied),
        (103, Error::GSOwnerDenied),
        (104, Error::InvalidItemType),
        (105, Error::IPBanned),
        (106, Error::GSLTExpired),
        (107, Error::InsufficientFunds),
        (108, Error::TooManyPending),
        (109, Error::NoSiteLicensesFound),
        (110, Error::WGNetworkSendExceeded),
    ];
    assert_eq!(table.len(), 108);
    for (code, error) in table {
        assert_eq!(RawResult(code).to_result(), Err(error));
    }
}

#[test]
fn only_two_codes_share_a_failure() {
    for a in 2..=110u32 {
        for b in (a + 1)..=110u32 {
            if a == 4 || b == 4 {
                continue;
            }
            let same = RawResult(a).to_result() == RawResult(b).to_result();
            assert_eq!(same, a == 6 && b == 50);
        }
    }
}
