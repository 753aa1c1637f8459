use vstd::prelude::*;

verus! {

/// The closed taxonomy of decoding failures.  Every grammar checkpoint that
/// can be violated has its own variant; no variant is reused across
/// unrelated checkpoints, so a caller can tell exactly which expected token
/// was missing or malformed.
#[derive(Debug)]
pub enum ParseError {
    DateTooShort,
    NonEndingHost,
    MissingProcess,
    NonEndingQueue,
    NonEndingProcess,
    UnknownProcess,
    BadProcessID,
    BounceBad,
    BounceBadQueueID,
    PickupBadUID,
    PickupBadFrom,
    ForwardBadHost,
    ForwardNoMessage,
    ForwardNoTo,
    ForwardBadTo,
    ForwardBadOrigTo,
    ForwardNoRelay,
    ForwardBadRelay,
    ForwardBadConn,
    ForwardNoDelays,
    ForwardNoDelay,
    ForwardNoDSN,
    ForwardBadDSN,
    PickupDSNNotInt,
    ForwardDSNBadLen,
    ForwardNoStatus,
    SmtpdUnknownFormat,
    SmtpdNonEndingOrigQueue,
    SmtpdNoOrigClient,
    SmtpdNonEndingMethod,
    SmtpdUnknownMethod,
    SmtpdNoUsername,
    RejectBadMessage,
    RejectNoFrom,
    RejectBadFrom,
    RejectNoTo,
    RejectBadTo,
    RejectNoProto,
    RejectBadProto,
    RejectUnknownProto,
    RejectNoHelo,
    RejectBadHelo,
    CleanupNoMessageID,
    QmgrNoFrom,
    QmgrBadFrom,
    QmgrNoSize,
    QmgrBadSize,
    QmgrSizeNotInt,
    QmgrNoNrcpt,
    QmgrBadNrcpt,
    QmgrNotActive,
    QmgrNrcptNotInt,
}

impl ParseError {
    /// The fixed human-readable label of each failure kind.
    pub open spec fn spec_label(&self) -> Seq<char> {
        match self {
            ParseError::DateTooShort => "Date Too Short"@,
            ParseError::NonEndingHost => "Non Ending Host"@,
            ParseError::MissingProcess => "Missing Process"@,
            ParseError::NonEndingQueue => "Non Ending Queue"@,
            ParseError::NonEndingProcess => "Non Ending Process"@,
            ParseError::UnknownProcess => "Unknown Process name"@,
            ParseError::BadProcessID => "Bad Process ID"@,
            ParseError::BounceBad => "Bounce unknown format"@,
            ParseError::BounceBadQueueID => "Bounce child queue id illegal char"@,
            ParseError::PickupBadUID => "Pickup Bad UID"@,
            ParseError::PickupBadFrom => "Pickup Bad From"@,
            ParseError::ForwardBadHost => "Forward non ending host"@,
            ParseError::ForwardNoMessage => "Forward no message"@,
            ParseError::ForwardNoTo => "Forward no To"@,
            ParseError::ForwardBadTo => "Forward non ending To"@,
            ParseError::ForwardBadOrigTo => "Forward non ending Orig_to"@,
            ParseError::ForwardNoRelay => "Forward no Relay"@,
            ParseError::ForwardBadRelay => "Forward non ending Relay"@,
            ParseError::ForwardBadConn => "Forward non ending Conn_use"@,
            ParseError::ForwardNoDelays => "Forward no Delays"@,
            ParseError::ForwardNoDelay => "Forward no Delay"@,
            ParseError::ForwardNoDSN => "Forward no DSN"@,
            ParseError::ForwardBadDSN => "Forward non ending DSN"@,
            ParseError::PickupDSNNotInt => "Forward DSN containing non u8"@,
            ParseError::ForwardDSNBadLen => "Forward DSN not containing 3 u8"@,
            ParseError::ForwardNoStatus => "Forward no Status"@,
            ParseError::SmtpdUnknownFormat => "Smtpd with comma but no know format"@,
            ParseError::SmtpdNonEndingOrigQueue => "Smtpd with origin queue ID but nothing else"@,
            ParseError::SmtpdNoOrigClient => "Smtpd with origin queue ID but no origin client"@,
            ParseError::SmtpdNonEndingMethod => "Smtpd with non ending method"@,
            ParseError::SmtpdUnknownMethod => "Smtpd with unkown method"@,
            ParseError::SmtpdNoUsername => "Smtpd without a username"@,
            ParseError::RejectBadMessage => "Reject non ending message"@,
            ParseError::RejectNoFrom => "Reject no from"@,
            ParseError::RejectBadFrom => "Reject non ending from"@,
            ParseError::RejectNoTo => "Reject no to"@,
            ParseError::RejectBadTo => "Reject non ending to"@,
            ParseError::RejectNoProto => "Reject no proto"@,
            ParseError::RejectBadProto => "Reject non endin proto"@,
            ParseError::RejectUnknownProto => "Reject unknown proto"@,
            ParseError::RejectNoHelo => "Reject no helo"@,
            ParseError::RejectBadHelo => "Reject non ending helo"@,
            ParseError::CleanupNoMessageID => "Cleanup without any message id"@,
            ParseError::QmgrNoFrom => "Qmgr no from"@,
            ParseError::QmgrBadFrom => "Qmgr non ending from"@,
            ParseError::QmgrNoSize => "Qmgr no size"@,
            ParseError::QmgrBadSize => "Qmgr non ending size"@,
            ParseError::QmgrSizeNotInt => "Qmgr size is not an int"@,
            ParseError::QmgrNoNrcpt => "Qmgr no nrcpt"@,
            ParseError::QmgrBadNrcpt => "Qmgr non ending nrcpt"@,
            ParseError::QmgrNotActive => "Qmgr not in active queue"@,
            ParseError::QmgrNrcptNotInt => "Qmgr nrcpt is not and int"@,
        }
    }

    /// The human-readable label of this failure kind.
    pub fn label(&self) -> (r: String)
        ensures
            r@ == self.spec_label(),
    {
        match self {
            ParseError::DateTooShort => "Date Too Short".to_owned(),
            ParseError::NonEndingHost => "Non Ending Host".to_owned(),
            ParseError::MissingProcess => "Missing Process".to_owned(),
            ParseError::NonEndingQueue => "Non Ending Queue".to_owned(),
            ParseError::NonEndingProcess => "Non Ending Process".to_owned(),
            ParseError::UnknownProcess => "Unknown Process name".to_owned(),
            ParseError::BadProcessID => "Bad Process ID".to_owned(),
            ParseError::BounceBad => "Bounce unknown format".to_owned(),
            ParseError::BounceBadQueueID => "Bounce child queue id illegal char".to_owned(),
            ParseError::PickupBadUID => "Pickup Bad UID".to_owned(),
            ParseError::PickupBadFrom => "Pickup Bad From".to_owned(),
            ParseError::ForwardBadHost => "Forward non ending host".to_owned(),
            ParseError::ForwardNoMessage => "Forward no message".to_owned(),
            ParseError::ForwardNoTo => "Forward no To".to_owned(),
            ParseError::ForwardBadTo => "Forward non ending To".to_owned(),
            ParseError::ForwardBadOrigTo => "Forward non ending Orig_to".to_owned(),
            ParseError::ForwardNoRelay => "Forward no Relay".to_owned(),
            ParseError::ForwardBadRelay => "Forward non ending Relay".to_owned(),
            ParseError::ForwardBadConn => "Forward non ending Conn_use".to_owned(),
            ParseError::ForwardNoDelays => "Forward no Delays".to_owned(),
            ParseError::ForwardNoDelay => "Forward no Delay".to_owned(),
            ParseError::ForwardNoDSN => "Forward no DSN".to_owned(),
            ParseError::ForwardBadDSN => "Forward non ending DSN".to_owned(),
            ParseError::PickupDSNNotInt => "Forward DSN containing non u8".to_owned(),
            ParseError::ForwardDSNBadLen => "Forward DSN not containing 3 u8".to_owned(),
            ParseError::ForwardNoStatus => "Forward no Status".to_owned(),
            ParseError::SmtpdUnknownFormat => "Smtpd with comma but no know format".to_owned(),
            ParseError::SmtpdNonEndingOrigQueue => "Smtpd with origin queue ID but nothing else".to_owned(),
            ParseError::SmtpdNoOrigClient => "Smtpd with origin queue ID but no origin client".to_owned(),
            ParseError::SmtpdNonEndingMethod => "Smtpd with non ending method".to_owned(),
            ParseError::SmtpdUnknownMethod => "Smtpd with unkown method".to_owned(),
            ParseError::SmtpdNoUsername => "Smtpd without a username".to_owned(),
            ParseError::RejectBadMessage => "Reject non ending message".to_owned(),
            ParseError::RejectNoFrom => "Reject no from".to_owned(),
            ParseError::RejectBadFrom => "Reject non ending from".to_owned(),
            ParseError::RejectNoTo => "Reject no to".to_owned(),
            ParseError::RejectBadTo => "Reject non ending to".to_owned(),
            ParseError::RejectNoProto => "Reject no proto".to_owned(),
            ParseError::RejectBadProto => "Reject non endin proto".to_owned(),
            ParseError::RejectUnknownProto => "Reject unknown proto".to_owned(),
            ParseError::RejectNoHelo => "Reject no helo".to_owned(),
            ParseError::RejectBadHelo => "Reject non ending helo".to_owned(),
            ParseError::CleanupNoMessageID => "Cleanup without any message id".to_owned(),
            ParseError::QmgrNoFrom => "Qmgr no from".to_owned(),
            ParseError::QmgrBadFrom => "Qmgr non ending from".to_owned(),
            ParseError::QmgrNoSize => "Qmgr no size".to_owned(),
            ParseError::QmgrBadSize => "Qmgr non ending size".to_owned(),
            ParseError::QmgrSizeNotInt => "Qmgr size is not an int".to_owned(),
            ParseError::QmgrNoNrcpt => "Qmgr no nrcpt".to_owned(),
            ParseError::QmgrBadNrcpt => "Qmgr non ending nrcpt".to_owned(),
            ParseError::QmgrNotActive => "Qmgr not in active queue".to_owned(),
            ParseError::QmgrNrcptNotInt => "Qmgr nrcpt is not and int".to_owned(),
        }
    }
}

} // verus!
