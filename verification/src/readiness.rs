//! Readiness model of the monitored node.
//!
//! A readiness report is either a plain integer state code or a database
//! migration sub-state with progress counters. Only the state code
//! [`STATE_READY`] counts as ready; every other code and the migration
//! variant count as initializing. The wire form keeps the two variants in an
//! optional field; encoding and decoding round-trip, and an absent field
//! decodes to the NOT_READY state.

use crate::text::{dec_digit, spec_decimal, spec_signed_decimal, append_decimal, i32_to_decimal};
use vstd::prelude::*;
use vstd::string::StringExecFns;

verus! {

pub const STATE_NOT_READY: i32 = 0;

pub const STATE_STARTING_UP: i32 = 1;

pub const STATE_DATABASE_INITIALIZING: i32 = 10;

pub const STATE_RECOVERING_PREPARING: i32 = 20;

pub const STATE_RECOVERING_REBUILDING: i32 = 21;

pub const STATE_RECOVERING_REBUILDING_DATABASE: i32 = 22;

pub const STATE_BUILDING_CONTEXT_BLOCKCHAIN: i32 = 32;

pub const STATE_BUILDING_CONTEXT_BOOTSTRAP: i32 = 34;

pub const STATE_READY: i32 = 100;

/// The state code reported by [`ReadinessStatus::as_i32`] for a migration
/// sub-state, which has no code of its own.
pub const MIGRATION_STATE_CODE: i32 = 50;

/// Progress counters of an in-progress database migration.
///
/// The wire report carries the percentage as a fraction; it is held here in
/// tenths of a percent (`455` stands for `45.5%`), the precision at which it
/// is rendered.
#[derive(Clone, Copy, Debug, PartialEq, Eq)]
pub struct MigrationProgress {
    pub current_block: u64,
    pub total_blocks: u64,
    pub progress_tenths: u64,
    pub current_db_version: u64,
    pub target_db_version: u64,
}

/// Readiness of the monitored node: exactly one of a plain state code or a
/// migration sub-state.
#[derive(Clone, Copy, Debug, PartialEq, Eq)]
pub enum ReadinessStatus {
    State(i32),
    Migration(MigrationProgress),
}

/// Wire form of a readiness report: an optional tagged variant and a
/// timestamp.
#[derive(Clone, Copy, Debug, PartialEq, Eq)]
pub enum WireReadinessVariant {
    State(i32),
    Migration(MigrationProgress),
}

/// Wire form of a readiness report as carried by the node's remote interface.
#[derive(Clone, Copy, Debug, PartialEq, Eq)]
pub struct WireReadinessStatus {
    pub status: Option<WireReadinessVariant>,
    pub timestamp: u64,
}

/// The wire encoding of a readiness value: the matching variant is set and
/// the timestamp defaults to zero.
pub open spec fn spec_encode_readiness(s: ReadinessStatus) -> WireReadinessStatus {
    match s {
        ReadinessStatus::State(code) => WireReadinessStatus {
            status: Some(WireReadinessVariant::State(code)),
            timestamp: 0,
        },
        ReadinessStatus::Migration(progress) => WireReadinessStatus {
            status: Some(WireReadinessVariant::Migration(progress)),
            timestamp: 0,
        },
    }
}

/// The decoding of a wire readiness report: an absent variant yields the
/// NOT_READY state.
pub open spec fn spec_decode_readiness(w: WireReadinessStatus) -> ReadinessStatus {
    match w.status {
        Some(WireReadinessVariant::State(code)) => ReadinessStatus::State(code),
        Some(WireReadinessVariant::Migration(progress)) => ReadinessStatus::Migration(progress),
        None => ReadinessStatus::State(STATE_NOT_READY),
    }
}

/// Whether `code` is one of the state codes with a label of its own.
pub open spec fn spec_known_state_code(code: i32) -> bool {
    code == STATE_NOT_READY || code == STATE_STARTING_UP || code == STATE_DATABASE_INITIALIZING
        || code == STATE_RECOVERING_PREPARING || code == STATE_RECOVERING_REBUILDING
        || code == STATE_RECOVERING_REBUILDING_DATABASE
        || code == STATE_BUILDING_CONTEXT_BLOCKCHAIN || code == STATE_BUILDING_CONTEXT_BOOTSTRAP
        || code == STATE_READY
}

/// The label of a known state code.
pub open spec fn spec_state_code_label(code: i32) -> Seq<char>
    recommends
        spec_known_state_code(code),
{
    if code == STATE_NOT_READY {
        "Not Ready"@
    } else if code == STATE_STARTING_UP {
        "Starting Up"@
    } else if code == STATE_DATABASE_INITIALIZING {
        "Database Initializing"@
    } else if code == STATE_RECOVERING_PREPARING {
        "Recovering - Preparing"@
    } else if code == STATE_RECOVERING_REBUILDING {
        "Recovering - Rebuilding"@
    } else if code == STATE_RECOVERING_REBUILDING_DATABASE {
        "Recovering - Rebuilding Database"@
    } else if code == STATE_BUILDING_CONTEXT_BLOCKCHAIN {
        "Building Context - Blockchain"@
    } else if code == STATE_BUILDING_CONTEXT_BOOTSTRAP {
        "Building Context - Bootstrap"@
    } else {
        "Ready"@
    }
}

/// The short label of a readiness value.
pub open spec fn spec_short_label(s: ReadinessStatus) -> Seq<char> {
    match s {
        ReadinessStatus::State(code) => if spec_known_state_code(code) {
            spec_state_code_label(code)
        } else {
            "Unknown State"@
        },
        ReadinessStatus::Migration(_) => "Migrating Database"@,
    }
}

/// The detailed label of a readiness value: the migration variant expands
/// into a progress string, an unknown state code is spelled out.
pub open spec fn spec_detailed_label(s: ReadinessStatus) -> Seq<char> {
    match s {
        ReadinessStatus::State(code) => if spec_known_state_code(code) {
            spec_state_code_label(code)
        } else {
            "Unknown State ("@ + spec_signed_decimal(code as int) + ")"@
        },
        ReadinessStatus::Migration(p) => "Migrating DB v"@ + spec_decimal(
            p.current_db_version as nat,
        ) + " -> v"@ + spec_decimal(p.target_db_version as nat) + " ("@ + spec_decimal(
            (p.progress_tenths / 10) as nat,
        ) + "."@ + seq![dec_digit((p.progress_tenths % 10) as nat)] + "% - "@ + spec_decimal(
            p.current_block as nat,
        ) + "/"@ + spec_decimal(p.total_blocks as nat) + ")"@,
    }
}

impl ReadinessStatus {
    /// The migration sub-state, if this value is one.
    pub open spec fn spec_migration_progress(self) -> Option<MigrationProgress> {
        match self {
            ReadinessStatus::Migration(p) => Some(p),
            ReadinessStatus::State(_) => None,
        }
    }

    /// True exactly for the READY state code.
    pub fn is_ready(&self) -> (r: bool)
        ensures
            r == (*self == ReadinessStatus::State(STATE_READY)),
    {
        match self {
            ReadinessStatus::State(code) => *code == STATE_READY,
            ReadinessStatus::Migration(_) => false,
        }
    }

    /// True for every readiness value but the READY state code.
    pub fn is_initializing(&self) -> (r: bool)
        ensures
            r == (*self != ReadinessStatus::State(STATE_READY)),
    {
        !self.is_ready()
    }

    /// The raw state code, with [`MIGRATION_STATE_CODE`] standing in for the
    /// migration variant.
    pub fn as_i32(&self) -> (r: i32)
        ensures
            r == (match *self {
                ReadinessStatus::State(code) => code,
                ReadinessStatus::Migration(_) => MIGRATION_STATE_CODE,
            }),
    {
        match self {
            ReadinessStatus::State(code) => *code,
            ReadinessStatus::Migration(_) => MIGRATION_STATE_CODE,
        }
    }

    /// The short human-readable label.
    pub fn as_str(&self) -> (r: &'static str)
        ensures
            r@ == spec_short_label(*self),
    {
        match self {
            ReadinessStatus::State(code) => {
                let code = *code;
                if code == STATE_NOT_READY {
                    "Not Ready"
                } else if code == STATE_STARTING_UP {
                    "Starting Up"
                } else if code == STATE_DATABASE_INITIALIZING {
                    "Database Initializing"
                } else if code == STATE_RECOVERING_PREPARING {
                    "Recovering - Preparing"
                } else if code == STATE_RECOVERING_REBUILDING {
                    "Recovering - Rebuilding"
                } else if code == STATE_RECOVERING_REBUILDING_DATABASE {
                    "Recovering - Rebuilding Database"
                } else if code == STATE_BUILDING_CONTEXT_BLOCKCHAIN {
                    "Building Context - Blockchain"
                } else if code == STATE_BUILDING_CONTEXT_BOOTSTRAP {
                    "Building Context - Bootstrap"
                } else if code == STATE_READY {
                    "Ready"
                } else {
                    "Unknown State"
                }
            },
            ReadinessStatus::Migration(_) => "Migrating Database",
        }
    }

    /// The detailed label: `"Migrating DB v{from} -> v{to} ({pct}% - {done}/{total})"`
    /// for a migration, the short label or the spelled-out unknown code
    /// otherwise.
    pub fn detailed_str(&self) -> (r: String)
        ensures
            r@ == spec_detailed_label(*self),
    {
        match self {
            ReadinessStatus::State(code) => {
                let code = *code;
                if code == STATE_NOT_READY || code == STATE_STARTING_UP || code
                    == STATE_DATABASE_INITIALIZING || code == STATE_RECOVERING_PREPARING || code
                    == STATE_RECOVERING_REBUILDING || code == STATE_RECOVERING_REBUILDING_DATABASE
                    || code == STATE_BUILDING_CONTEXT_BLOCKCHAIN || code
                    == STATE_BUILDING_CONTEXT_BOOTSTRAP || code == STATE_READY {
                    let r = self.as_str().to_owned();
                    proof {
                        assert(r@ =~= spec_detailed_label(*self));
                    }
                    r
                } else {
                    let mut r = String::new();
                    r.append("Unknown State (");
                    let rendered = i32_to_decimal(code);
                    r.append(rendered.as_str());
                    r.append(")");
                    proof {
                        assert(r@ =~= spec_detailed_label(*self));
                    }
                    r
                }
            },
            ReadinessStatus::Migration(p) => {
                let mut r = String::new();
                r.append("Migrating DB v");
                append_decimal(&mut r, p.current_db_version);
                r.append(" -> v");
                append_decimal(&mut r, p.target_db_version);
                r.append(" (");
                append_decimal(&mut r, p.progress_tenths / 10);
                r.append(".");
                append_decimal(&mut r, p.progress_tenths % 10);
                r.append("% - ");
                append_decimal(&mut r, p.current_block);
                r.append("/");
                append_decimal(&mut r, p.total_blocks);
                r.append(")");
                proof {
                    assert(spec_decimal((p.progress_tenths % 10) as nat) =~= seq![
                        dec_digit((p.progress_tenths % 10) as nat),
                    ]);
                    assert(r@ =~= spec_detailed_label(*self));
                }
                r
            },
        }
    }

    /// The migration progress counters, if this value is a migration
    /// sub-state.
    pub fn migration_progress(&self) -> (r: Option<MigrationProgress>)
        ensures
            r == self.spec_migration_progress(),
    {
        match self {
            ReadinessStatus::Migration(p) => Some(*p),
            ReadinessStatus::State(_) => None,
        }
    }

    /// Encodes this value for the wire: exactly the matching variant is set.
    pub fn to_wire(&self) -> (r: WireReadinessStatus)
        ensures
            r == spec_encode_readiness(*self),
    {
        match self {
            ReadinessStatus::State(code) => WireReadinessStatus {
                status: Some(WireReadinessVariant::State(*code)),
                timestamp: 0,
            },
            ReadinessStatus::Migration(p) => WireReadinessStatus {
                status: Some(WireReadinessVariant::Migration(*p)),
                timestamp: 0,
            },
        }
    }

    /// Decodes a wire report; an absent variant yields the NOT_READY state.
    pub fn from_wire(w: WireReadinessStatus) -> (r: ReadinessStatus)
        ensures
            r == spec_decode_readiness(w),
    {
        match w.status {
            Some(WireReadinessVariant::State(code)) => ReadinessStatus::State(code),
            Some(WireReadinessVariant::Migration(p)) => ReadinessStatus::Migration(p),
            None => ReadinessStatus::State(STATE_NOT_READY),
        }
    }
}

/// Law: encoding a readiness value and decoding it yields the original value,
/// and decoding a wire report with no variant present yields the NOT_READY
/// state whatever its timestamp.
pub proof fn lemma_readiness_round_trip(s: ReadinessStatus, timestamp: u64)
    ensures
        spec_decode_readiness(spec_encode_readiness(s)) == s,
        spec_decode_readiness(WireReadinessStatus { status: None, timestamp })
            == ReadinessStatus::State(STATE_NOT_READY),
{
}

} // verus!
