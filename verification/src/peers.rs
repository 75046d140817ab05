//! Connected-peer filtering.
//!
//! The node reports each connected peer with a textual "last seen"
//! timestamp. A peer counts as connected only if that text parses and lies
//! within the last minute; unparsable timestamps mean disconnected, never an
//! error. The remote call belongs to the caller; the filter is here.

use crate::service::NodeAdapterService;
use crate::text::{bytes_to_hex, spec_hex, string_views};
use vstd::prelude::*;

verus! {

/// How recently a peer must have been seen, in seconds, to count as
/// connected.
pub const PEER_FRESHNESS_SECS: i64 = 60;

/// One connected peer as reported by the node: the bytes of its first
/// advertised address, and that address's "last seen" timestamp text.
#[derive(Clone, Debug)]
pub struct ConnectedPeerInfo {
    pub address: Vec<u8>,
    pub last_seen: String,
}

/// What a "last seen" text parses to: the UTC epoch seconds of a timestamp
/// written as `YYYY-MM-DD HH:MM:SS` with an optional fraction, or nothing
/// when the text is not of that shape. The result depends on the characters
/// alone.
pub uninterp spec fn parsed_last_seen(s: Seq<char>) -> Option<i64>;

/// Relies on chrono's `NaiveDateTime::parse_from_str` (with the node's
/// `"%Y-%m-%d %H:%M:%S%.f"` timestamp format) and, on success,
/// `NaiveDateTime::and_utc` and `DateTime::timestamp` to read the parsed
/// moment as UTC epoch seconds.
#[verifier::external_body]
fn parse_last_seen(s: &str) -> (r: Option<i64>)
    ensures
        r == parsed_last_seen(s@),
{
    match chrono::NaiveDateTime::parse_from_str(s, "%Y-%m-%d %H:%M:%S%.f") {
        Ok(dt) => Some(dt.and_utc().timestamp()),
        Err(_) => None,
    }
}

/// The seconds elapsed from `t` to `now_secs`, zero when `t` lies in the
/// future.
pub open spec fn spec_seconds_since(now_secs: i64, t: i64) -> int {
    if now_secs >= t {
        now_secs - t
    } else {
        0
    }
}

/// Whether a peer counts as connected at `now_secs`: its "last seen" text
/// parses, and the parsed moment is under a minute old.
pub open spec fn spec_peer_connected(p: ConnectedPeerInfo, now_secs: i64) -> bool {
    match parsed_last_seen(p.last_seen@) {
        Some(t) => spec_seconds_since(now_secs, t) < PEER_FRESHNESS_SECS,
        None => false,
    }
}

/// The hex-rendered addresses of the peers that count as connected, in
/// report order.
pub open spec fn spec_connected_addresses(peers: Seq<ConnectedPeerInfo>, now_secs: i64) -> Seq<
    Seq<char>,
>
    decreases peers.len(),
{
    if peers.len() == 0 {
        Seq::<Seq<char>>::empty()
    } else {
        spec_connected_addresses(peers.drop_last(), now_secs) + (if spec_peer_connected(
            peers.last(),
            now_secs,
        ) {
            seq![spec_hex(peers.last().address@)]
        } else {
            Seq::<Seq<char>>::empty()
        })
    }
}

impl NodeAdapterService {
    /// Filters the reported peers down to those seen within the last
    /// minute, rendering each kept peer's address as lowercase hex. A peer
    /// whose timestamp does not parse is dropped, not an error.
    pub fn list_connected_peers(&self, peers: &Vec<ConnectedPeerInfo>, now_secs: i64) -> (r: Vec<
        String,
    >)
        ensures
            string_views(r@) == spec_connected_addresses(peers@, now_secs),
    {
        let mut r: Vec<String> = Vec::new();
        let mut i: usize = 0;
        while i < peers.len()
            invariant
                i <= peers@.len(),
                string_views(r@) == spec_connected_addresses(peers@.take(i as int), now_secs),
            decreases peers@.len() - i,
        {
            let p = &peers[i];
            let keep = match parse_last_seen(p.last_seen.as_str()) {
                Some(t) => (now_secs as i128) - (t as i128) < PEER_FRESHNESS_SECS as i128,
                None => false,
            };
            if keep {
                r.push(bytes_to_hex(p.address.as_slice()));
            }
            proof {
                let taken = peers@.take(i as int + 1);
                assert(taken.drop_last() =~= peers@.take(i as int));
                assert(taken.last() == peers@[i as int]);
                assert(string_views(r@) =~= spec_connected_addresses(taken, now_secs));
            }
            i += 1;
        }
        proof {
            assert(peers@.take(peers@.len() as int) =~= peers@);
        }
        r
    }
}

} // verus!
