//! The sync coordinator's per-tick decision.
//!
//! Each tick of the "wait until synced" loop reads the node's tip info and
//! sync progress, publishes a key/value progress map and a progress fraction,
//! and decides whether the wait is over. The remote calls, the publishing
//! channels and the inter-tick sleep belong to the caller; the decision is
//! here, with the published values pinned exactly.

use crate::service::NodeAdapterService;
use crate::status::ChainMetadataView;
use crate::text::{spec_decimal, u64_to_decimal};
use vstd::prelude::*;

verus! {

/// The sync state the node reports: one of the three named steps, or any
/// other state, which produces no progress output.
#[derive(Clone, Copy, Debug, PartialEq, Eq)]
pub enum WireSyncState {
    Startup,
    Header,
    Block,
    Other,
}

/// The node's tip-info report.
#[derive(Clone, Copy, Debug, PartialEq, Eq)]
pub struct TipInfoView {
    pub initial_sync_achieved: bool,
    pub metadata: Option<ChainMetadataView>,
}

/// The node's sync-progress report.
#[derive(Clone, Copy, Debug, PartialEq, Eq)]
pub struct SyncProgressView {
    pub state: WireSyncState,
    pub local_height: u64,
    pub tip_height: u64,
    pub initial_connected_peers: u64,
}

/// What one tick publishes and decides.
///
/// The progress fraction is kept as an exact pair. It is not clamped: during
/// the Header and Block steps the numerator may exceed the denominator when
/// the local height overshoots the reported tip, and the denominator is
/// passed through even when zero — turning the pair into a ratio, and what a
/// zero denominator then means, is deliberately the consumer's choice.
pub struct SyncTick {
    pub entries: Vec<(String, String)>,
    pub percent_numerator: u64,
    pub percent_denominator: u64,
    pub completed_height: Option<u64>,
}

/// The views of a published key/value list.
pub open spec fn entry_views(entries: Seq<(String, String)>) -> Seq<(Seq<char>, Seq<char>)> {
    entries.map_values(|e: (String, String)| (e.0@, e.1@))
}

/// The key/value progress map published for one tick, in publication order.
/// The `local_height` and `tip_height` fields repeat newer fields under their
/// legacy names, kept for consumers that have not been updated.
pub open spec fn spec_sync_entries(required_peers: u32, p: SyncProgressView) -> Seq<
    (Seq<char>, Seq<char>),
> {
    match p.state {
        WireSyncState::Startup => seq![
            ("step"@, "Startup"@),
            ("initial_connected_peers"@, spec_decimal(p.initial_connected_peers as nat)),
            ("required_peers"@, spec_decimal(required_peers as nat)),
        ],
        WireSyncState::Header => seq![
            ("step"@, "Header"@),
            ("local_header_height"@, spec_decimal(p.local_height as nat)),
            ("tip_header_height"@, spec_decimal(p.tip_height as nat)),
            ("local_block_height"@, spec_decimal(0)),
            ("tip_block_height"@, spec_decimal(p.tip_height as nat)),
            ("local_height"@, spec_decimal(p.local_height as nat)),
            ("tip_height"@, spec_decimal(p.tip_height as nat)),
        ],
        WireSyncState::Block => seq![
            ("step"@, "Block"@),
            ("local_header_height"@, spec_decimal(p.tip_height as nat)),
            ("tip_header_height"@, spec_decimal(p.tip_height as nat)),
            ("local_block_height"@, spec_decimal(p.local_height as nat)),
            ("tip_block_height"@, spec_decimal(p.tip_height as nat)),
            ("local_height"@, spec_decimal(p.local_height as nat)),
            ("tip_height"@, spec_decimal(p.tip_height as nat)),
        ],
        WireSyncState::Other => Seq::empty(),
    }
}

/// The progress fraction published for one tick: connected over required
/// peers during Startup, local over tip height during Header and Block, and
/// an exact zero otherwise.
pub open spec fn spec_sync_fraction(required_peers: u32, p: SyncProgressView) -> (u64, u64) {
    match p.state {
        WireSyncState::Startup => (p.initial_connected_peers, required_peers as u64),
        WireSyncState::Header => (p.local_height, p.tip_height),
        WireSyncState::Block => (p.local_height, p.tip_height),
        WireSyncState::Other => (0, 1),
    }
}

/// The height at which the wait is over: the node's best block height, once
/// it reports initial sync achieved with a non-zero best block.
pub open spec fn spec_completed_height(tip: TipInfoView) -> Option<u64> {
    match tip.metadata {
        Some(m) => if tip.initial_sync_achieved && m.best_block_height > 0 {
            Some(m.best_block_height)
        } else {
            None
        },
        None => None,
    }
}

impl NodeAdapterService {
    /// One tick of the "wait until synced" loop: the published progress map
    /// and fraction for the reported sync step, and the final height once
    /// the node reports initial sync achieved with a non-zero best block.
    pub fn wait_synced_tick(&self, tip: &TipInfoView, progress: &SyncProgressView) -> (r: SyncTick)
        ensures
            entry_views(r.entries@) == spec_sync_entries(self.required_sync_peers, *progress),
            (r.percent_numerator, r.percent_denominator) == spec_sync_fraction(
                self.required_sync_peers,
                *progress,
            ),
            r.completed_height == spec_completed_height(*tip),
    {
        let mut entries: Vec<(String, String)> = Vec::new();
        let percent_numerator: u64;
        let percent_denominator: u64;
        match progress.state {
            WireSyncState::Startup => {
                percent_numerator = progress.initial_connected_peers;
                percent_denominator = self.required_sync_peers as u64;
                entries.push(("step".to_owned(), "Startup".to_owned()));
                entries.push((
                    "initial_connected_peers".to_owned(),
                    u64_to_decimal(progress.initial_connected_peers),
                ));
                entries.push((
                    "required_peers".to_owned(),
                    u64_to_decimal(self.required_sync_peers as u64),
                ));
            },
            WireSyncState::Header => {
                percent_numerator = progress.local_height;
                percent_denominator = progress.tip_height;
                entries.push(("step".to_owned(), "Header".to_owned()));
                entries.push((
                    "local_header_height".to_owned(),
                    u64_to_decimal(progress.local_height),
                ));
                entries.push(("tip_header_height".to_owned(), u64_to_decimal(progress.tip_height)));
                entries.push(("local_block_height".to_owned(), u64_to_decimal(0)));
                entries.push(("tip_block_height".to_owned(), u64_to_decimal(progress.tip_height)));
                entries.push(("local_height".to_owned(), u64_to_decimal(progress.local_height)));
                entries.push(("tip_height".to_owned(), u64_to_decimal(progress.tip_height)));
            },
            WireSyncState::Block => {
                percent_numerator = progress.local_height;
                percent_denominator = progress.tip_height;
                entries.push(("step".to_owned(), "Block".to_owned()));
                entries.push((
                    "local_header_height".to_owned(),
                    u64_to_decimal(progress.tip_height),
                ));
                entries.push(("tip_header_height".to_owned(), u64_to_decimal(progress.tip_height)));
                entries.push((
                    "local_block_height".to_owned(),
                    u64_to_decimal(progress.local_height),
                ));
                entries.push(("tip_block_height".to_owned(), u64_to_decimal(progress.tip_height)));
                entries.push(("local_height".to_owned(), u64_to_decimal(progress.local_height)));
                entries.push(("tip_height".to_owned(), u64_to_decimal(progress.tip_height)));
            },
            WireSyncState::Other => {
                percent_numerator = 0;
                percent_denominator = 1;
            },
        }
        let completed_height = match &tip.metadata {
            Some(m) => if tip.initial_sync_achieved && m.best_block_height > 0 {
                Some(m.best_block_height)
            } else {
                None
            },
            None => None,
        };
        proof {
            assert(entry_views(entries@) =~= spec_sync_entries(
                self.required_sync_peers,
                *progress,
            ));
        }
        SyncTick { entries, percent_numerator, percent_denominator, completed_height }
    }
}

} // verus!
