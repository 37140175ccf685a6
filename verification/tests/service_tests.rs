use stock_aggregator::service::{
    latest_prices_status, listener_step, run_mode, service_step, ListenerAction, ListenerEvent,
    RunMode, ServiceAction, ServiceEvent, FETCH_INTERVAL_SECS, LISTENER_RETRY_SECS,
};

#[test]
fn run_modes() {
    assert_eq!(run_mode(true), RunMode::FetchOnce);
    assert_eq!(run_mode(false), RunMode::Serve);
}

#[test]
fn service_loop_decisions() {
    assert_eq!(FETCH_INTERVAL_SECS, 60);
    assert_eq!(service_step(ServiceEvent::FetchTick), ServiceAction::RunFetchCycle);
    assert_eq!(service_step(ServiceEvent::ShutdownSignal), ServiceAction::Stop);
    assert_eq!(service_step(ServiceEvent::ServerStopped { clean: true }), ServiceAction::Stop);
    assert_eq!(service_step(ServiceEvent::ServerStopped { clean: false }), ServiceAction::Stop);
}

#[test]
fn listener_decisions() {
    assert_eq!(listener_step(ListenerEvent::Announcement), ListenerAction::PollDatabase);
    assert_eq!(listener_step(ListenerEvent::ReceiveError), ListenerAction::RetryAfter { secs: 5 });
    assert_eq!(LISTENER_RETRY_SECS, 5);
}

#[test]
fn latest_prices_statuses() {
    assert_eq!(latest_prices_status(true), 200);
    assert_eq!(latest_prices_status(false), 500);
}
