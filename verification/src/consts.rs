use vstd::prelude::*;

verus! {

/// Keep-alive interval of the broker connection, in seconds.
pub const MQTT_KEEPALIVE_TIME: u64 = 5_u64;

/// Capacity of the request queue inside the MQTT client.
pub const MQTT_THREAD_CHANNEL_CAPACITY: usize = 10_usize;

/// Pause between two polls of the transport, in milliseconds.
pub const MQTT_POLL_INTERVAL_MILLIS: u64 = 100_u64;

/// Slack granted to the broker before a connection counts as stale, in milliseconds.
pub const MQTT_PROCESSING_PAD_MILLIS: u64 = 2000_u64;

/// Capacity of every bounded channel between the tasks.
pub const MPSC_BUFFER_SIZE: usize = 100_usize;

/// Seconds between two instrument polls.
pub const POLL_TIME: u16 = 5_u16;

} // verus!
