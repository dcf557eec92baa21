//! The build-time configuration: session identity, the status endpoint, and
//! the fixed timings. Nothing here is renegotiated at run time.

use vstd::prelude::*;

verus! {

/// The nickname the bot connects with.
pub const NICKNAME: &'static str = "spacestate";

/// The chat server.
pub const SERVER: &'static str = "irc.smurfnet.ch";

/// The channel joined on connect; transition broadcasts address it.
pub const BROADCAST_CHANNEL: &'static str = "#pixelbar";

/// The status endpoint polled every tick.
pub const STATUS_URL: &'static str = "https://spacestate.pixelbar.nl/spacestate.php";

/// Seconds between poll ticks.
pub const POLL_INTERVAL_SECS: u64 = 60;

/// Seconds between a session failure and the next connection attempt.
pub const RECONNECT_BACKOFF_SECS: u64 = 10;

} // verus!
