use vstd::prelude::*;

verus! {

/// Seconds between two fetch cycles of the running service.
pub const FETCH_INTERVAL_SECS: u64 = 60;

/// Port of the HTTP endpoint that serves the latest prices.
pub const PRICES_HTTP_PORT: u16 = 3000;

/// Port of the live price feed and its dashboard.
pub const FEED_HTTP_PORT: u16 = 8080;

/// Connections a database pool may hold at once.
pub const POOL_MAX_CONNECTIONS: u32 = 5;

/// Price updates the feed buffers for a slow client.
pub const FEED_BUFFER_CAPACITY: usize = 100;

/// Database channel on which new prices are announced.
pub const NEW_PRICE_CHANNEL: &'static str = "new_price";

/// Seconds the feed waits after a failure to receive an announcement.
pub const LISTENER_RETRY_SECS: u64 = 5;

/// How the aggregator runs.
#[derive(Clone, Copy, Debug, PartialEq, Eq, Structural)]
pub enum RunMode {
    /// One fetch cycle, then exit.
    FetchOnce,
    /// Serve the latest prices and fetch periodically until stopped.
    Serve,
}

/// The run mode chosen by the `--fetch-once` flag.
pub fn run_mode(fetch_once: bool) -> (r: RunMode)
    ensures
        r == (if fetch_once {
            RunMode::FetchOnce
        } else {
            RunMode::Serve
        }),
{
    if fetch_once {
        RunMode::FetchOnce
    } else {
        RunMode::Serve
    }
}

/// What wakes the serving aggregator up.
#[derive(Clone, Copy, Debug, PartialEq, Eq, Structural)]
pub enum ServiceEvent {
    /// The fetch interval elapsed.
    FetchTick,
    /// The process was asked to stop.
    ShutdownSignal,
    /// The HTTP server stopped, cleanly or not.
    ServerStopped { clean: bool },
}

/// What the serving aggregator does next.
#[derive(Clone, Copy, Debug, PartialEq, Eq, Structural)]
pub enum ServiceAction {
    /// Run one fetch cycle, then wait for the next event.
    RunFetchCycle,
    /// Leave the loop and close the database pool.
    Stop,
}

/// The serving loop: every tick runs a fetch cycle; a shutdown signal or the
/// end of the HTTP server, however it ended, stops the service.
pub fn service_step(event: ServiceEvent) -> (r: ServiceAction)
    ensures
        r == (if event is FetchTick {
            ServiceAction::RunFetchCycle
        } else {
            ServiceAction::Stop
        }),
{
    match event {
        ServiceEvent::FetchTick => ServiceAction::RunFetchCycle,
        ServiceEvent::ShutdownSignal => ServiceAction::Stop,
        ServiceEvent::ServerStopped { clean: _ } => ServiceAction::Stop,
    }
}

/// What the feed's database listener receives.
#[derive(Clone, Copy, Debug, PartialEq, Eq, Structural)]
pub enum ListenerEvent {
    /// A new price was announced.
    Announcement,
    /// Receiving failed.
    ReceiveError,
}

/// What the feed's database listener does next.
#[derive(Clone, Copy, Debug, PartialEq, Eq, Structural)]
pub enum ListenerAction {
    /// Read the latest prices and broadcast them to every client.
    PollDatabase,
    /// Wait this many seconds, then listen again.
    RetryAfter { secs: u64 },
}

/// The feed's listener loop: an announcement leads to a poll of the latest
/// prices; a failure to receive to a pause of `LISTENER_RETRY_SECS` seconds.
pub fn listener_step(event: ListenerEvent) -> (r: ListenerAction)
    ensures
        r == (if event is Announcement {
            ListenerAction::PollDatabase
        } else {
            ListenerAction::RetryAfter { secs: LISTENER_RETRY_SECS }
        }),
{
    match event {
        ListenerEvent::Announcement => ListenerAction::PollDatabase,
        ListenerEvent::ReceiveError => ListenerAction::RetryAfter { secs: LISTENER_RETRY_SECS },
    }
}

/// The HTTP status of the latest-prices endpoint: 200 with the prices when
/// the query succeeded, 500 with an error body otherwise.
pub fn latest_prices_status(query_succeeded: bool) -> (r: u16)
    ensures
        r == (if query_succeeded {
            200u16
        } else {
            500u16
        }),
{
    if query_succeeded {
        200
    } else {
        500
    }
}

} // verus!
