//! The block-height watcher: the latest chain head reported by each
//! backend's subscription feed, and the per-connection state machine that the
//! feed reader follows.
use vstd::prelude::*;
use std::collections::HashMap;
use std::sync::atomic::{AtomicBool, Ordering};
use dashmap::DashMap;
use crate::clock::now_millis;
use crate::dispatch::{first_primary, primary_index, Backend};
use crate::height::secondary_lags;
use crate::tables::{new_table, table_get, table_insert, table_snapshot};

verus! {

/// Seconds to wait before reconnecting a dropped feed.
pub const RECONNECT_DELAY_SECS: u64 = 10;

/// Where one feed connection stands.
#[derive(PartialEq, Eq, Structural, Clone, Copy, Debug)]
pub enum WatchPhase {
    Connecting,
    Subscribing,
    Reading,
    Waiting,
    Stopped,
}

/// What happened since the last action.
#[derive(PartialEq, Eq, Structural, Clone, Copy, Debug)]
pub enum WatchEvent {
    /// Shutdown was signalled.
    Shutdown,
    Connected,
    ConnectFailed,
    SubscribeSent,
    SubscribeFailed,
    /// A chain-head notification carrying this height.
    Height(u64),
    /// Any other frame, a malformed one included.
    OtherFrame,
    /// A close frame, a transport error, or the end of the stream.
    StreamClosed,
    /// The reconnect delay is over.
    DelayElapsed,
}

/// What the connection task does next.
#[derive(PartialEq, Eq, Structural, Clone, Copy, Debug)]
pub enum WatchAction {
    Connect,
    SendSubscribe,
    ReadFrame,
    /// Record the height for this backend, then read the next frame.
    StoreHeight(u64),
    SleepBeforeReconnect,
    /// Close the connection gracefully, then end the task.
    CloseAndExit,
    Exit,
}

/// The feed state machine. Shutdown ends every phase, closing the connection
/// first when one is open (`Subscribing` and `Reading`); a malformed or unrelated frame never ends `Reading`;
/// any failure leads to the reconnect delay and then to a new connection.
pub open spec fn watch_transition(phase: WatchPhase, event: WatchEvent) -> (WatchPhase, WatchAction) {
    match (phase, event) {
        (WatchPhase::Stopped, _) => (WatchPhase::Stopped, WatchAction::Exit),
        (WatchPhase::Reading, WatchEvent::Shutdown) => (WatchPhase::Stopped, WatchAction::CloseAndExit),
        (WatchPhase::Subscribing, WatchEvent::Shutdown) => (WatchPhase::Stopped, WatchAction::CloseAndExit),
        (_, WatchEvent::Shutdown) => (WatchPhase::Stopped, WatchAction::Exit),
        (WatchPhase::Connecting, WatchEvent::Connected) => (WatchPhase::Subscribing, WatchAction::SendSubscribe),
        (WatchPhase::Connecting, WatchEvent::ConnectFailed) => (WatchPhase::Waiting, WatchAction::SleepBeforeReconnect),
        (WatchPhase::Connecting, _) => (WatchPhase::Connecting, WatchAction::Connect),
        (WatchPhase::Subscribing, WatchEvent::SubscribeSent) => (WatchPhase::Reading, WatchAction::ReadFrame),
        (WatchPhase::Subscribing, WatchEvent::SubscribeFailed) => (WatchPhase::Waiting, WatchAction::SleepBeforeReconnect),
        (WatchPhase::Subscribing, _) => (WatchPhase::Subscribing, WatchAction::SendSubscribe),
        (WatchPhase::Reading, WatchEvent::Height(h)) => (WatchPhase::Reading, WatchAction::StoreHeight(h)),
        (WatchPhase::Reading, WatchEvent::StreamClosed) => (WatchPhase::Waiting, WatchAction::SleepBeforeReconnect),
        (WatchPhase::Reading, _) => (WatchPhase::Reading, WatchAction::ReadFrame),
        (WatchPhase::Waiting, WatchEvent::DelayElapsed) => (WatchPhase::Connecting, WatchAction::Connect),
        (WatchPhase::Waiting, _) => (WatchPhase::Waiting, WatchAction::SleepBeforeReconnect),
    }
}

/// One step of the feed state machine.
pub fn watch_step(phase: WatchPhase, event: WatchEvent) -> (r: (WatchPhase, WatchAction))
    ensures
        r == watch_transition(phase, event),
{
    match (phase, event) {
        (WatchPhase::Stopped, _) => (WatchPhase::Stopped, WatchAction::Exit),
        (WatchPhase::Reading, WatchEvent::Shutdown) => (WatchPhase::Stopped, WatchAction::CloseAndExit),
        (WatchPhase::Subscribing, WatchEvent::Shutdown) => (WatchPhase::Stopped, WatchAction::CloseAndExit),
        (_, WatchEvent::Shutdown) => (WatchPhase::Stopped, WatchAction::Exit),
        (WatchPhase::Connecting, WatchEvent::Connected) => (WatchPhase::Subscribing, WatchAction::SendSubscribe),
        (WatchPhase::Connecting, WatchEvent::ConnectFailed) => (WatchPhase::Waiting, WatchAction::SleepBeforeReconnect),
        (WatchPhase::Connecting, _) => (WatchPhase::Connecting, WatchAction::Connect),
        (WatchPhase::Subscribing, WatchEvent::SubscribeSent) => (WatchPhase::Reading, WatchAction::ReadFrame),
        (WatchPhase::Subscribing, WatchEvent::SubscribeFailed) => (WatchPhase::Waiting, WatchAction::SleepBeforeReconnect),
        (WatchPhase::Subscribing, _) => (WatchPhase::Subscribing, WatchAction::SendSubscribe),
        (WatchPhase::Reading, WatchEvent::Height(h)) => (WatchPhase::Reading, WatchAction::StoreHeight(h)),
        (WatchPhase::Reading, WatchEvent::StreamClosed) => (WatchPhase::Waiting, WatchAction::SleepBeforeReconnect),
        (WatchPhase::Reading, _) => (WatchPhase::Reading, WatchAction::ReadFrame),
        (WatchPhase::Waiting, WatchEvent::DelayElapsed) => (WatchPhase::Connecting, WatchAction::Connect),
        (WatchPhase::Waiting, _) => (WatchPhase::Waiting, WatchAction::SleepBeforeReconnect),
    }
}

/// Latest chain heads of the configured backends.
pub struct BlockHeightTracker {
    pub enable_block_height_tracking: bool,
    /// How many blocks a secondary may trail the primary by.
    pub max_blocks_behind: u64,
    pub backends: Vec<Backend>,
    pub block_heights: DashMap<String, u64>,
    /// When each height was last written (milliseconds since the Unix epoch).
    pub last_update_times: DashMap<String, u64>,
    pub shutdown: AtomicBool,
}

impl BlockHeightTracker {
    /// A tracker over `all_backends`; `None` when tracking is disabled.
    pub fn new(enable_block_height_tracking: bool, max_blocks_behind: u64, all_backends: &Vec<Backend>) -> (r: Option<BlockHeightTracker>)
        ensures
            r is None <==> !enable_block_height_tracking,
            r matches Some(t) ==> {
                &&& t.enable_block_height_tracking
                &&& t.max_blocks_behind == max_blocks_behind
                &&& t.backends@.len() == all_backends@.len()
                &&& forall|i: int| 0 <= i < all_backends@.len() ==> {
                    &&& (#[trigger] t.backends@[i]).name@ == all_backends@[i].name@
                    &&& t.backends@[i].role == all_backends@[i].role
                }
            },
    {
        if !enable_block_height_tracking {
            return None;
        }
        let mut backends: Vec<Backend> = Vec::new();
        let mut i: usize = 0;
        while i < all_backends.len()
            invariant
                i <= all_backends@.len(),
                backends@.len() == i,
                forall|k: int| 0 <= k < i ==> {
                    &&& (#[trigger] backends@[k]).name@ == all_backends@[k].name@
                    &&& backends@[k].role == all_backends@[k].role
                },
            decreases all_backends@.len() - i,
        {
            backends.push(all_backends[i].duplicate());
            i = i + 1;
        }
        Some(BlockHeightTracker {
            enable_block_height_tracking,
            max_blocks_behind,
            backends,
            block_heights: new_table(),
            last_update_times: new_table(),
            shutdown: AtomicBool::new(false),
        })
    }

    /// Records the height that a backend's feed just reported (the last write
    /// wins).
    pub fn record_height(&self, backend_name: &str, height: u64) {
        let now = now_millis();
        table_insert(&self.block_heights, String::from_str(backend_name), height);
        table_insert(&self.last_update_times, String::from_str(backend_name), now);
    }

    /// Whether the secondary trails the primary by more than the tolerance,
    /// judged on the heights currently recorded. Never when tracking is off
    /// or no primary is configured.
    pub fn is_secondary_behind(&self, secondary_name: &str) -> (r: bool)
        ensures
            !self.enable_block_height_tracking ==> !r,
            first_primary(self.backends@, self.backends@.len() as int) is None ==> !r,
    {
        if !self.enable_block_height_tracking {
            return false;
        }
        let p = match primary_index(&self.backends) {
            Some(p) => p,
            None => return false,
        };
        let primary = table_get(&self.block_heights, self.backends[p].name.as_str());
        let secondary = table_get(&self.block_heights, secondary_name);
        secondary_lags(primary, secondary, self.max_blocks_behind)
    }

    /// The recorded height of every backend that has reported one.
    pub fn get_block_height_status(&self) -> HashMap<String, u64> {
        table_snapshot(&self.block_heights)
    }

    /// Asks every feed task to stop.
    pub fn stop(&self) {
        self.shutdown.store(true, Ordering::Relaxed);
    }

    /// Whether `stop` has been called.
    pub fn is_stopped(&self) -> bool {
        self.shutdown.load(Ordering::Relaxed)
    }
}

} // verus!
