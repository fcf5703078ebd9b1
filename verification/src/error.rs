//! The two kinds of failure an operation can surface: the transport failed,
//! or the response body did not match the expected shape.

use vstd::prelude::*;

verus! {

/// The field of a response record that a parse failure names, or `Body`
/// when the response body itself is not a JSON document of the right shape.
#[derive(Eq, PartialEq, Structural, Copy, Clone, Debug)]
pub enum Field {
    Body,
    Answer,
    Id,
    BatchUuid,
    Network,
    FromAccount,
    FromIp,
    ToAccount,
    ToIp,
    MinMs,
    AvgMs,
    MaxMs,
    Mdev,
    ObservedAt,
    CreatedAt,
    UpdatedAt,
    Account,
    Name,
    KeybaseId,
    WwwUrl,
    Details,
    TotalScore,
    RootDistanceScore,
    VoteDistanceScore,
    SkippedSlotScore,
    SoftwareVersion,
    SoftwareVersionScore,
    StakeConcentrationScore,
    DataCenterConcentrationScore,
    PublishedInformationScore,
    SecurityReportScore,
    ActiveStake,
    Commission,
    Delinquent,
    DataCenterKey,
    DataCenterHost,
    AutonomousSystemNumber,
    VoteAccount,
    SkippedSlots,
    SkippedSlotPercent,
    PingTimeField,
    Url,
    Epoch,
    LeaderSlots,
    BlocksProduced,
    StartingSlot,
    SlotsInEpoch,
    Epochs,
    EpochsCount,
}

/// The mathematical form of a parse failure.
pub struct ParseErrorV {
    pub field: Field,
    pub value: Option<Seq<char>>,
}

/// A response body that does not match the expected record shape: the field
/// at fault, and the raw value when one can be shown.
#[derive(Debug)]
pub struct ParseError {
    pub field: Field,
    pub value: Option<String>,
}

impl View for ParseError {
    type V = ParseErrorV;

    open spec fn view(&self) -> ParseErrorV {
        ParseErrorV { field: self.field, value: self.value.deep_view() }
    }
}

impl DeepView for ParseError {
    type V = ParseErrorV;

    open spec fn deep_view(&self) -> ParseErrorV {
        self@
    }
}

/// The mathematical form of an operation failure.
pub enum ClientErrorV {
    Transport(Seq<char>),
    Parse(ParseErrorV),
}

/// Why an operation failed: the transport could not deliver the request, or
/// the response body did not decode. Nothing is retried and nothing is
/// substituted; the failure goes to the caller as it is.
#[derive(Debug)]
pub enum ClientError {
    /// The transport's own description of a connection, DNS or TLS failure.
    Transport(String),
    /// The response body did not match the expected record shape.
    Parse(ParseError),
}

impl View for ClientError {
    type V = ClientErrorV;

    open spec fn view(&self) -> ClientErrorV {
        match self {
            ClientError::Transport(t) => ClientErrorV::Transport(t@),
            ClientError::Parse(e) => ClientErrorV::Parse(e@),
        }
    }
}

impl DeepView for ClientError {
    type V = ClientErrorV;

    open spec fn deep_view(&self) -> ClientErrorV {
        self@
    }
}

} // verus!
