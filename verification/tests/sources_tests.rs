use stock_aggregator::sources::{
    alpha_vantage_url, default_symbols, fetch_plan, finnhub_url, mock_fetch_delay_ms, task_steps,
    CycleStep, PriceSource, TaskOutcome, FINNHUB_TOKEN_HEADER, MOCK_DELAY_END_MS,
    MOCK_DELAY_MIN_MS,
};

#[test]
fn source_labels() {
    assert_eq!(PriceSource::AlphaVantage.label(), "alpha_vantage");
    assert_eq!(PriceSource::Finnhub.label(), "finnhub");
    assert_eq!(PriceSource::Mock.label(), "mock_source");
}

#[test]
fn alpha_vantage_address() {
    assert_eq!(
        alpha_vantage_url("AAPL", "KEY123"),
        "https://www.alphavantage.co/query?function=GLOBAL_QUOTE&symbol=AAPL&apikey=KEY123"
    );
}

#[test]
fn finnhub_address_and_header() {
    assert_eq!(finnhub_url("MSFT"), "https://finnhub.io/api/v1/quote?symbol=MSFT");
    assert_eq!(FINNHUB_TOKEN_HEADER, "X-Finnhub-Token");
}

#[test]
fn tracked_symbols() {
    assert_eq!(default_symbols(), vec!["AAPL".to_string(), "GOOGL".to_string(), "MSFT".to_string()]);
}

#[test]
fn plan_covers_every_symbol_and_source() {
    let jobs = fetch_plan(&default_symbols());
    let got: Vec<(String, PriceSource)> = jobs.iter().map(|j| (j.symbol.clone(), j.source)).collect();
    let mut want = Vec::new();
    for s in ["AAPL", "GOOGL", "MSFT"] {
        for src in [PriceSource::AlphaVantage, PriceSource::Finnhub, PriceSource::Mock] {
            want.push((s.to_string(), src));
        }
    }
    assert_eq!(got, want);
    assert!(fetch_plan(&Vec::new()).is_empty());
}

#[test]
fn steps_after_finished_task() {
    let steps = task_steps(TaskOutcome::Finished { alpha_vantage: true, finnhub: false, mock: true });
    assert_eq!(
        steps,
        vec![
            CycleStep::Save(PriceSource::AlphaVantage),
            CycleStep::ReportFetchFailure(PriceSource::Finnhub),
            CycleStep::Save(PriceSource::Mock),
        ]
    );
}

#[test]
fn steps_after_failed_task() {
    assert_eq!(task_steps(TaskOutcome::Failed), vec![CycleStep::ReportTaskFailure]);
}

#[test]
fn saves_exactly_fetched_quotes() {
    for a in [false, true] {
        for f in [false, true] {
            for m in [false, true] {
                let steps = task_steps(TaskOutcome::Finished { alpha_vantage: a, finnhub: f, mock: m });
                assert_eq!(steps.contains(&CycleStep::Save(PriceSource::AlphaVantage)), a);
                assert_eq!(steps.contains(&CycleStep::Save(PriceSource::Finnhub)), f);
                assert_eq!(steps.contains(&CycleStep::Save(PriceSource::Mock)), m);
                assert!(!steps.contains(&CycleStep::ReportTaskFailure));
            }
        }
    }
}

#[test]
fn mock_delay_in_range() {
    assert_eq!(MOCK_DELAY_MIN_MS, 100);
    assert_eq!(MOCK_DELAY_END_MS, 150);
    let mut seen = std::collections::HashSet::new();
    for _ in 0..2000 {
        let d = mock_fetch_delay_ms();
        assert!((100..150).contains(&d));
        seen.insert(d);
    }
    assert!(seen.len() > 1);
}
