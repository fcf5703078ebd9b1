//! Typed records for the service's JSON responses, with their mathematical
//! views. Each record consolidates the schema variants the service has used
//! over time into one permissive shape: a field the service sometimes omits
//! or sends as null is an `Option`, and a numeric field it sometimes sends
//! as text is a `Dec`, kept in its lexical form. Identifiers, addresses and
//! timestamps are kept as the text the service sent.

use vstd::prelude::*;

use crate::num::Dec;

verus! {

/// Target deployment of the monitored chain: the production network or its
/// test network. Spelled `mainnet` / `testnet` in the service's URL paths
/// and JSON payloads.
#[derive(Eq, PartialEq, Debug, Copy, Clone, Structural)]
pub enum Network {
    Test,
    Main,
}

impl Network {
    /// The lowercase spelling used in URL path segments and payloads.
    pub open spec fn spec_segment(self) -> Seq<char> {
        match self {
            Network::Test => "testnet"@,
            Network::Main => "mainnet"@,
        }
    }

    /// The lowercase path segment of the network, as the service's URLs
    /// spell it.
    pub fn segment(&self) -> (r: &'static str)
        ensures
            r@ == self.spec_segment(),
    {
        proof {
            reveal_strlit("mainnet");
            reveal_strlit("testnet");
        }
        match self {
            Network::Main => "mainnet",
            Network::Test => "testnet",
        }
    }
}

/// The network a payload names, when it names one.
pub open spec fn spec_network_of(s: Seq<char>) -> Option<Network> {
    if s == "mainnet"@ {
        Some(Network::Main)
    } else if s == "testnet"@ {
        Some(Network::Test)
    } else {
        None
    }
}

/// The order in which a validator listing can be asked for.
#[derive(Eq, PartialEq, Debug, Copy, Clone, Structural)]
pub enum ValidatorsOrder {
    Score,
    Name,
    Stake,
}

impl ValidatorsOrder {
    /// The lowercase spelling used as the `order` query value.
    pub open spec fn spec_key(self) -> Seq<char> {
        match self {
            ValidatorsOrder::Score => "score"@,
            ValidatorsOrder::Name => "name"@,
            ValidatorsOrder::Stake => "stake"@,
        }
    }

    /// The query value that asks for this order.
    pub fn key(&self) -> (r: &'static str)
        ensures
            r@ == self.spec_key(),
    {
        proof {
            reveal_strlit("score");
            reveal_strlit("name");
            reveal_strlit("stake");
        }
        match self {
            ValidatorsOrder::Score => "score",
            ValidatorsOrder::Name => "name",
            ValidatorsOrder::Stake => "stake",
        }
    }
}

/// Liveness probe reply.
#[derive(Debug)]
pub struct Ping {
    pub answer: String,
}

/// The mathematical form of a `Ping`.
pub struct PingV {
    pub answer: Seq<char>,
}

impl View for Ping {
    type V = PingV;

    open spec fn view(&self) -> PingV {
        PingV { answer: self.answer@ }
    }
}

impl DeepView for Ping {
    type V = PingV;

    open spec fn deep_view(&self) -> PingV {
        self@
    }
}

/// A latency sample between two nodes. The latency figures arrive as text
/// or as numbers and may be absent; the timestamps may be absent.
#[derive(Debug)]
pub struct PingTime {
    pub id: u64,
    pub batch_uuid: String,
    pub network: Network,
    pub from_account: String,
    pub from_ip: String,
    pub to_account: String,
    pub to_ip: String,
    pub min_ms: Option<Dec>,
    pub avg_ms: Option<Dec>,
    pub max_ms: Option<Dec>,
    pub mdev: Option<Dec>,
    pub observed_at: Option<String>,
    pub created_at: Option<String>,
    pub updated_at: Option<String>,
}

/// The mathematical form of a `PingTime`.
pub struct PingTimeV {
    pub id: u64,
    pub batch_uuid: Seq<char>,
    pub network: Network,
    pub from_account: Seq<char>,
    pub from_ip: Seq<char>,
    pub to_account: Seq<char>,
    pub to_ip: Seq<char>,
    pub min_ms: Option<Seq<char>>,
    pub avg_ms: Option<Seq<char>>,
    pub max_ms: Option<Seq<char>>,
    pub mdev: Option<Seq<char>>,
    pub observed_at: Option<Seq<char>>,
    pub created_at: Option<Seq<char>>,
    pub updated_at: Option<Seq<char>>,
}

impl View for PingTime {
    type V = PingTimeV;

    open spec fn view(&self) -> PingTimeV {
        PingTimeV {
            id: self.id,
            batch_uuid: self.batch_uuid@,
            network: self.network,
            from_account: self.from_account@,
            from_ip: self.from_ip@,
            to_account: self.to_account@,
            to_ip: self.to_ip@,
            min_ms: self.min_ms.deep_view(),
            avg_ms: self.avg_ms.deep_view(),
            max_ms: self.max_ms.deep_view(),
            mdev: self.mdev.deep_view(),
            observed_at: self.observed_at.deep_view(),
            created_at: self.created_at.deep_view(),
            updated_at: self.updated_at.deep_view(),
        }
    }
}

impl DeepView for PingTime {
    type V = PingTimeV;

    open spec fn deep_view(&self) -> PingTimeV {
        self@
    }
}

pub type PingTimes = Vec<PingTime>;

/// A validator's current scoring snapshot. Most fields are optional or
/// nullable across the service's schema versions; the skipped-slot percent
/// arrives as text and is zero when absent.
#[derive(Debug)]
pub struct ValidatorDetail {
    pub network: Network,
    pub account: String,
    pub name: Option<String>,
    pub keybase_id: Option<String>,
    pub www_url: Option<String>,
    pub details: Option<String>,
    pub created_at: Option<String>,
    pub updated_at: Option<String>,
    pub total_score: i32,
    pub root_distance_score: i32,
    pub vote_distance_score: i32,
    pub skipped_slot_score: i32,
    pub software_version: Option<String>,
    pub software_version_score: i32,
    pub stake_concentration_score: Option<i32>,
    pub data_center_concentration_score: Option<i32>,
    pub published_information_score: i32,
    pub security_report_score: i32,
    pub active_stake: Option<u64>,
    pub commission: Option<u32>,
    pub delinquent: Option<bool>,
    pub data_center_key: Option<String>,
    pub data_center_host: Option<String>,
    pub autonomous_system_number: u32,
    pub vote_account: Option<String>,
    pub skipped_slots: Option<u64>,
    pub skipped_slot_percent: Dec,
    pub ping_time: Option<String>,
    pub url: String,
}

/// The mathematical form of a `ValidatorDetail`.
pub struct ValidatorDetailV {
    pub network: Network,
    pub account: Seq<char>,
    pub name: Option<Seq<char>>,
    pub keybase_id: Option<Seq<char>>,
    pub www_url: Option<Seq<char>>,
    pub details: Option<Seq<char>>,
    pub created_at: Option<Seq<char>>,
    pub updated_at: Option<Seq<char>>,
    pub total_score: i32,
    pub root_distance_score: i32,
    pub vote_distance_score: i32,
    pub skipped_slot_score: i32,
    pub software_version: Option<Seq<char>>,
    pub software_version_score: i32,
    pub stake_concentration_score: Option<i32>,
    pub data_center_concentration_score: Option<i32>,
    pub published_information_score: i32,
    pub security_report_score: i32,
    pub active_stake: Option<u64>,
    pub commission: Option<u32>,
    pub delinquent: Option<bool>,
    pub data_center_key: Option<Seq<char>>,
    pub data_center_host: Option<Seq<char>>,
    pub autonomous_system_number: u32,
    pub vote_account: Option<Seq<char>>,
    pub skipped_slots: Option<u64>,
    pub skipped_slot_percent: Seq<char>,
    pub ping_time: Option<Seq<char>>,
    pub url: Seq<char>,
}

impl View for ValidatorDetail {
    type V = ValidatorDetailV;

    open spec fn view(&self) -> ValidatorDetailV {
        ValidatorDetailV {
            network: self.network,
            account: self.account@,
            name: self.name.deep_view(),
            keybase_id: self.keybase_id.deep_view(),
            www_url: self.www_url.deep_view(),
            details: self.details.deep_view(),
            created_at: self.created_at.deep_view(),
            updated_at: self.updated_at.deep_view(),
            total_score: self.total_score,
            root_distance_score: self.root_distance_score,
            vote_distance_score: self.vote_distance_score,
            skipped_slot_score: self.skipped_slot_score,
            software_version: self.software_version.deep_view(),
            software_version_score: self.software_version_score,
            stake_concentration_score: self.stake_concentration_score,
            data_center_concentration_score: self.data_center_concentration_score,
            published_information_score: self.published_information_score,
            security_report_score: self.security_report_score,
            active_stake: self.active_stake,
            commission: self.commission,
            delinquent: self.delinquent,
            data_center_key: self.data_center_key.deep_view(),
            data_center_host: self.data_center_host.deep_view(),
            autonomous_system_number: self.autonomous_system_number,
            vote_account: self.vote_account.deep_view(),
            skipped_slots: self.skipped_slots,
            skipped_slot_percent: self.skipped_slot_percent@,
            ping_time: self.ping_time.deep_view(),
            url: self.url@,
        }
    }
}

impl DeepView for ValidatorDetail {
    type V = ValidatorDetailV;

    open spec fn deep_view(&self) -> ValidatorDetailV {
        self@
    }
}

pub type Validators = Vec<ValidatorDetail>;

/// One epoch's block-production record for a validator.
#[derive(Debug)]
pub struct ValidatorBlock {
    pub epoch: u64,
    pub leader_slots: u64,
    pub blocks_produced: u64,
    pub skipped_slots: u64,
    pub skipped_slot_percent: Dec,
    pub created_at: Option<String>,
    pub batch_uuid: String,
}

/// The mathematical form of a `ValidatorBlock`.
pub struct ValidatorBlockV {
    pub epoch: u64,
    pub leader_slots: u64,
    pub blocks_produced: u64,
    pub skipped_slots: u64,
    pub skipped_slot_percent: Seq<char>,
    pub created_at: Option<Seq<char>>,
    pub batch_uuid: Seq<char>,
}

impl View for ValidatorBlock {
    type V = ValidatorBlockV;

    open spec fn view(&self) -> ValidatorBlockV {
        ValidatorBlockV {
            epoch: self.epoch,
            leader_slots: self.leader_slots,
            blocks_produced: self.blocks_produced,
            skipped_slots: self.skipped_slots,
            skipped_slot_percent: self.skipped_slot_percent@,
            created_at: self.created_at.deep_view(),
            batch_uuid: self.batch_uuid@,
        }
    }
}

impl DeepView for ValidatorBlock {
    type V = ValidatorBlockV;

    open spec fn deep_view(&self) -> ValidatorBlockV {
        self@
    }
}

pub type ValidatorBlockHistory = Vec<ValidatorBlock>;

/// A network epoch descriptor.
#[derive(Debug)]
pub struct Epoch {
    pub epoch: u64,
    pub starting_slot: u64,
    pub slots_in_epoch: u64,
    pub network: Network,
    pub created_at: Option<String>,
}

/// The mathematical form of an `Epoch`.
pub struct EpochV {
    pub epoch: u64,
    pub starting_slot: u64,
    pub slots_in_epoch: u64,
    pub network: Network,
    pub created_at: Option<Seq<char>>,
}

impl View for Epoch {
    type V = EpochV;

    open spec fn view(&self) -> EpochV {
        EpochV {
            epoch: self.epoch,
            starting_slot: self.starting_slot,
            slots_in_epoch: self.slots_in_epoch,
            network: self.network,
            created_at: self.created_at.deep_view(),
        }
    }
}

impl DeepView for Epoch {
    type V = EpochV;

    open spec fn deep_view(&self) -> EpochV {
        self@
    }
}

/// A page of epochs together with the total number of epochs the service
/// knows of.
#[derive(Debug)]
pub struct EpochIndex {
    pub epochs: Vec<Epoch>,
    pub epochs_count: u64,
}

/// The mathematical form of an `EpochIndex`.
pub struct EpochIndexV {
    pub epochs: Seq<EpochV>,
    pub epochs_count: u64,
}

impl View for EpochIndex {
    type V = EpochIndexV;

    open spec fn view(&self) -> EpochIndexV {
        EpochIndexV { epochs: self.epochs.deep_view(), epochs_count: self.epochs_count }
    }
}

impl DeepView for EpochIndex {
    type V = EpochIndexV;

    open spec fn deep_view(&self) -> EpochIndexV {
        self@
    }
}

} // verus!
