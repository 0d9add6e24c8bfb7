//! The data model of the block-sync pipeline.
//!
//! A `Podping` is a tagged value decoded from a custom-JSON operation; its
//! payload is the canonical serialized JSON that the writers persist.
//! A `HiveBlockWithNum` is one on-chain block reduced to what the pipeline
//! reads: its number, its UTC timestamp at second precision, and the ordered
//! transactions that carried podpings.

use vstd::prelude::*;

verus! {

/// A podping notification of one of the five on-chain schema versions.
/// Every variant carries its canonical serialized payload; the newest
/// version additionally carries a session identifier and a nanosecond
/// timestamp, which its sink file name embeds.
#[derive(Debug, Clone)]
pub enum Podping {
    V0 { payload: Vec<u8> },
    V02 { payload: Vec<u8> },
    V03 { payload: Vec<u8> },
    V10 { payload: Vec<u8> },
    V11 { session_id: Vec<u8>, timestamp_ns: u64, payload: Vec<u8> },
}

impl Podping {
    /// The serialized JSON payload a writer persists for this podping.
    pub open spec fn payload_view(self) -> Seq<u8> {
        match self {
            Podping::V0 { payload } => payload@,
            Podping::V02 { payload } => payload@,
            Podping::V03 { payload } => payload@,
            Podping::V10 { payload } => payload@,
            Podping::V11 { payload, .. } => payload@,
        }
    }

    pub fn payload(&self) -> (r: &Vec<u8>)
        ensures
            r@ == self.payload_view(),
    {
        match self {
            Podping::V0 { payload } => payload,
            Podping::V02 { payload } => payload,
            Podping::V03 { payload } => payload,
            Podping::V10 { payload } => payload,
            Podping::V11 { payload, .. } => payload,
        }
    }

    /// The version tag, as it appears in a console line.
    pub open spec fn variant_name_view(self) -> Seq<u8> {
        match self {
            Podping::V0 { .. } => seq![86u8, 48u8],
            Podping::V02 { .. } => seq![86u8, 48u8, 50u8],
            Podping::V03 { .. } => seq![86u8, 48u8, 51u8],
            Podping::V10 { .. } => seq![86u8, 49u8, 48u8],
            Podping::V11 { .. } => seq![86u8, 49u8, 49u8],
        }
    }

    pub fn variant_name(&self) -> (r: Vec<u8>)
        ensures
            r@ == self.variant_name_view(),
    {
        let mut out: Vec<u8> = Vec::new();
        out.push(86);
        match self {
            Podping::V0 { .. } => {
                out.push(48);
            },
            Podping::V02 { .. } => {
                out.push(48);
                out.push(50);
            },
            Podping::V03 { .. } => {
                out.push(48);
                out.push(51);
            },
            Podping::V10 { .. } => {
                out.push(49);
                out.push(48);
            },
            Podping::V11 { .. } => {
                out.push(49);
                out.push(49);
            },
        }
        proof {
            assert(out@ =~= self.variant_name_view());
        }
        out
    }
}

/// A UTC calendar instant at second precision, held as plain fields so the
/// pipeline's path construction and timestamp comparisons are over plain
/// values.
#[derive(Debug, Clone, Copy, PartialEq, Eq, Structural)]
pub struct Timestamp {
    pub year: u32,
    pub month: u32,
    pub day: u32,
    pub hour: u32,
    pub minute: u32,
    pub second: u32,
}

impl Timestamp {
    /// A well-formed calendar instant. Day bounds are the coarse calendar
    /// bounds; finer month-length rules are the chain's concern.
    pub open spec fn wf(self) -> bool {
        1 <= self.month <= 12 && 1 <= self.day <= 31 && self.hour < 24 && self.minute < 60
            && self.second < 60
    }

    /// Lexicographic order on (year, month, day, hour, minute, second):
    /// `self` is at or after `other`.
    pub open spec fn ge_spec(self, other: Timestamp) -> bool {
        !self.lt_spec(other)
    }

    /// `self` is strictly before `other`.
    pub open spec fn lt_spec(self, other: Timestamp) -> bool {
        if self.year != other.year {
            self.year < other.year
        } else if self.month != other.month {
            self.month < other.month
        } else if self.day != other.day {
            self.day < other.day
        } else if self.hour != other.hour {
            self.hour < other.hour
        } else if self.minute != other.minute {
            self.minute < other.minute
        } else {
            self.second < other.second
        }
    }

    /// Decides whether `self` is at or after `other`.
    pub fn ge(&self, other: &Timestamp) -> (r: bool)
        ensures
            r == self.ge_spec(*other),
    {
        if self.year != other.year {
            self.year > other.year
        } else if self.month != other.month {
            self.month > other.month
        } else if self.day != other.day {
            self.day > other.day
        } else if self.hour != other.hour {
            self.hour > other.hour
        } else if self.minute != other.minute {
            self.minute > other.minute
        } else {
            self.second >= other.second
        }
    }
}

/// One transaction's surviving podpings, in on-chain order.
#[derive(Debug, Clone)]
pub struct BlockTransaction {
    pub tx_id: Vec<u8>,
    pub podpings: Vec<Podping>,
}

/// One on-chain block as the scanner emits it. Empty `transactions` is
/// legal and means the block carried no podpings; such a block still
/// advances the watermark.
#[derive(Debug, Clone)]
pub struct HiveBlockWithNum {
    pub block_num: u64,
    pub timestamp: Timestamp,
    pub transactions: Vec<BlockTransaction>,
}

} // verus!
