use vstd::prelude::*;
use rand::Rng;

verus! {

/// A provider of stock quotes.
#[derive(Clone, Copy, Debug, PartialEq, Eq, Structural)]
pub enum PriceSource {
    AlphaVantage,
    Finnhub,
    Mock,
}

/// The label under which a quote from `source` is stored.
pub open spec fn source_label(source: PriceSource) -> Seq<char> {
    match source {
        PriceSource::AlphaVantage => "alpha_vantage"@,
        PriceSource::Finnhub => "finnhub"@,
        PriceSource::Mock => "mock_source"@,
    }
}

impl PriceSource {
    /// The label stored with every quote fetched from this source.
    pub fn label(&self) -> (r: &'static str)
        ensures
            r@ == source_label(*self),
    {
        match self {
            PriceSource::AlphaVantage => "alpha_vantage",
            PriceSource::Finnhub => "finnhub",
            PriceSource::Mock => "mock_source",
        }
    }
}


/// The address of Alpha Vantage's global-quote endpoint for `symbol`, with
/// the key passed as a query parameter.
pub open spec fn alpha_vantage_url_of(symbol: Seq<char>, api_key: Seq<char>) -> Seq<char> {
    "https://www.alphavantage.co/query?function=GLOBAL_QUOTE&symbol="@ + symbol + "&apikey="@
        + api_key
}

/// The address of Finnhub's quote endpoint for `symbol`; the key travels in
/// the header named by `FINNHUB_TOKEN_HEADER`.
pub open spec fn finnhub_url_of(symbol: Seq<char>) -> Seq<char> {
    "https://finnhub.io/api/v1/quote?symbol="@ + symbol
}

/// The request header that carries the Finnhub key.
pub const FINNHUB_TOKEN_HEADER: &'static str = "X-Finnhub-Token";

/// Builds the Alpha Vantage request address for `symbol`. Symbol and key are
/// inserted as given, without escaping.
pub fn alpha_vantage_url(symbol: &str, api_key: &str) -> (r: String)
    ensures
        r@ == alpha_vantage_url_of(symbol@, api_key@),
{
    let mut url = "https://www.alphavantage.co/query?function=GLOBAL_QUOTE&symbol=".to_owned();
    url.append(symbol);
    url.append("&apikey=");
    url.append(api_key);
    url
}

/// Builds the Finnhub request address for `symbol`, inserted as given.
pub fn finnhub_url(symbol: &str) -> (r: String)
    ensures
        r@ == finnhub_url_of(symbol@),
{
    let mut url = "https://finnhub.io/api/v1/quote?symbol=".to_owned();
    url.append(symbol);
    url
}


/// The symbols the service tracks.
pub fn default_symbols() -> (r: Vec<String>)
    ensures
        r@.len() == 3,
        r@[0]@ == "AAPL"@,
        r@[1]@ == "GOOGL"@,
        r@[2]@ == "MSFT"@,
{
    let mut symbols: Vec<String> = Vec::new();
    symbols.push("AAPL".to_owned());
    symbols.push("GOOGL".to_owned());
    symbols.push("MSFT".to_owned());
    symbols
}

/// One quote to fetch in a cycle.
pub struct FetchJob {
    pub symbol: String,
    pub source: PriceSource,
}

/// The order in which the sources of one symbol are fetched and saved.
pub open spec fn source_at(k: int) -> PriceSource {
    if k == 0 {
        PriceSource::AlphaVantage
    } else if k == 1 {
        PriceSource::Finnhub
    } else {
        PriceSource::Mock
    }
}

/// The quotes one fetch cycle asks for: every symbol, in the given order,
/// from Alpha Vantage, Finnhub and the mock source in turn. Consecutive
/// triples form one task, run together.
pub fn fetch_plan(symbols: &Vec<String>) -> (jobs: Vec<FetchJob>)
    requires
        symbols.len() <= usize::MAX / 3,
    ensures
        jobs.len() == 3 * symbols.len(),
        forall|j: int|
            #![trigger jobs[j]] 0 <= j < jobs.len() ==> jobs[j].symbol@ == symbols[j / 3]@ && jobs[j].source
                == source_at(j % 3),
{
    let mut jobs: Vec<FetchJob> = Vec::new();
    let mut i: usize = 0;
    while i < symbols.len()
        invariant
            i <= symbols.len(),
            symbols.len() <= usize::MAX / 3,
            jobs.len() == 3 * i,
            forall|j: int|
                #![trigger jobs[j]] 0 <= j < jobs.len() ==> jobs[j].symbol@ == symbols[j / 3]@
                    && jobs[j].source == source_at(j % 3),
        decreases symbols.len() - i,
    {
        let ghost before = jobs@;
        jobs.push(FetchJob { symbol: symbols[i].clone(), source: PriceSource::AlphaVantage });
        jobs.push(FetchJob { symbol: symbols[i].clone(), source: PriceSource::Finnhub });
        jobs.push(FetchJob { symbol: symbols[i].clone(), source: PriceSource::Mock });
        proof {
            let base: int = 3 * i as int;
            assert forall|j: int| #![trigger jobs[j]] 0 <= j < jobs.len() implies jobs[j].symbol@
                == symbols[j / 3]@ && jobs[j].source == source_at(j % 3) by {
                if j < base {
                    assert(jobs[j] == before[j]);
                    assert(before[j].symbol@ == symbols[j / 3]@);
                } else {
                    assert(j / 3 == i as int && j % 3 == j - base) by (nonlinear_arith)
                        requires
                            base == 3 * i,
                            base <= j < base + 3,
                    ;
                }
            }
        }
        i = i + 1;
    }
    jobs
}

/// How the task fetching one symbol ended: it failed as a whole, or it
/// finished with each source's fetch either succeeding or failing.
#[derive(Clone, Copy, Debug, PartialEq, Eq, Structural)]
pub enum TaskOutcome {
    Failed,
    Finished { alpha_vantage: bool, finnhub: bool, mock: bool },
}

/// One thing to do once a fetch task has ended.
#[derive(Clone, Copy, Debug, PartialEq, Eq, Structural)]
pub enum CycleStep {
    /// Store the quote fetched from this source.
    Save(PriceSource),
    /// Report that fetching from this source failed.
    ReportFetchFailure(PriceSource),
    /// Report that the task failed as a whole.
    ReportTaskFailure,
}

/// The step for one source's fetch result.
pub open spec fn step_for(source: PriceSource, fetched: bool) -> CycleStep {
    if fetched {
        CycleStep::Save(source)
    } else {
        CycleStep::ReportFetchFailure(source)
    }
}

/// The steps, in order, that follow the end of one fetch task.
pub open spec fn task_steps_of(outcome: TaskOutcome) -> Seq<CycleStep> {
    match outcome {
        TaskOutcome::Failed => seq![CycleStep::ReportTaskFailure],
        TaskOutcome::Finished { alpha_vantage, finnhub, mock } => seq![
            step_for(PriceSource::AlphaVantage, alpha_vantage),
            step_for(PriceSource::Finnhub, finnhub),
            step_for(PriceSource::Mock, mock),
        ],
    }
}

/// What to do once a fetch task has ended: each source's quote is saved when
/// it was fetched and its failure reported otherwise, in the order Alpha
/// Vantage, Finnhub, mock; a failed task is reported once.
pub fn task_steps(outcome: TaskOutcome) -> (r: Vec<CycleStep>)
    ensures
        r@ == task_steps_of(outcome),
{
    let mut steps: Vec<CycleStep> = Vec::new();
    match outcome {
        TaskOutcome::Failed => {
            steps.push(CycleStep::ReportTaskFailure);
        },
        TaskOutcome::Finished { alpha_vantage, finnhub, mock } => {
            steps.push(
                if alpha_vantage {
                    CycleStep::Save(PriceSource::AlphaVantage)
                } else {
                    CycleStep::ReportFetchFailure(PriceSource::AlphaVantage)
                },
            );
            steps.push(
                if finnhub {
                    CycleStep::Save(PriceSource::Finnhub)
                } else {
                    CycleStep::ReportFetchFailure(PriceSource::Finnhub)
                },
            );
            steps.push(
                if mock {
                    CycleStep::Save(PriceSource::Mock)
                } else {
                    CycleStep::ReportFetchFailure(PriceSource::Mock)
                },
            );
        },
    }
    assert(steps@ =~= task_steps_of(outcome));
    steps
}

/// Whether `outcome` says the quote from `source` was fetched.
pub open spec fn fetched_from(outcome: TaskOutcome, source: PriceSource) -> bool {
    match outcome {
        TaskOutcome::Failed => false,
        TaskOutcome::Finished { alpha_vantage, finnhub, mock } => match source {
            PriceSource::AlphaVantage => alpha_vantage,
            PriceSource::Finnhub => finnhub,
            PriceSource::Mock => mock,
        },
    }
}

/// A cycle stores a quote exactly when it was fetched, and reports a fetch
/// failure exactly when a finished task's fetch failed.
pub proof fn law_saves_exactly_fetched(outcome: TaskOutcome, source: PriceSource)
    ensures
        task_steps_of(outcome).contains(CycleStep::Save(source)) <==> fetched_from(outcome, source),
        task_steps_of(outcome).contains(CycleStep::ReportFetchFailure(source)) <==> (
        outcome is Finished && !fetched_from(outcome, source)),
        task_steps_of(outcome).contains(CycleStep::ReportTaskFailure) <==> outcome is Failed,
{
    let steps = task_steps_of(outcome);
    match outcome {
        TaskOutcome::Failed => {
            assert(steps[0] == CycleStep::ReportTaskFailure);
        },
        TaskOutcome::Finished { alpha_vantage, finnhub, mock } => {
            let k: int = match source {
                PriceSource::AlphaVantage => 0,
                PriceSource::Finnhub => 1,
                PriceSource::Mock => 2,
            };
            assert(steps[k] == step_for(source, fetched_from(outcome, source)));
        },
    }
}

/// Shortest pause, in milliseconds, of the mock source before it answers.
pub const MOCK_DELAY_MIN_MS: u64 = 100;

/// Bound, excluded, of the mock source's pause in milliseconds.
pub const MOCK_DELAY_END_MS: u64 = 150;

#[verifier::external_type_specification]
#[verifier::external_body]
pub struct ExThreadRng(rand::rngs::ThreadRng);

/// `rand::thread_rng`: the generator local to the current thread.
#[verifier::external_body]
fn thread_rng() -> rand::rngs::ThreadRng {
    rand::thread_rng()
}

/// `Rng::gen_range` over `low..high`: a value drawn from the half-open range,
/// which must not be empty (it panics otherwise). Which value comes out is
/// left open.
#[verifier::external_body]
fn gen_range_u64(rng: &mut rand::rngs::ThreadRng, low: u64, high: u64) -> (r: u64)
    requires
        low < high,
    ensures
        low <= r < high,
{
    rng.gen_range(low..high)
}

/// How long the mock source waits before answering: a random number of
/// milliseconds from 100 up to, not including, 150.
pub fn mock_fetch_delay_ms() -> (r: u64)
    ensures
        MOCK_DELAY_MIN_MS <= r < MOCK_DELAY_END_MS,
{
    let mut rng = thread_rng();
    gen_range_u64(&mut rng, MOCK_DELAY_MIN_MS, MOCK_DELAY_END_MS)
}


/// The Alpha Vantage address carries the whole symbol and the whole key: it is
/// the fixed endpoint prefix, then the symbol, then "&apikey=", then the key.
pub proof fn law_alpha_vantage_url_carries(symbol: Seq<char>, api_key: Seq<char>)
    ensures
        ({
            let url = alpha_vantage_url_of(symbol, api_key);
            let prefix = "https://www.alphavantage.co/query?function=GLOBAL_QUOTE&symbol="@;
            let sep = "&apikey="@;
            let at: int = prefix.len() + symbol.len() as int;
            &&& url.len() == prefix.len() + symbol.len() + sep.len() + api_key.len()
            &&& url.take(prefix.len() as int) == prefix
            &&& url.subrange(prefix.len() as int, at) == symbol
            &&& url.subrange(at, at + sep.len() as int) == sep
            &&& url.skip(at + sep.len() as int) == api_key
        }),
{
    let prefix = "https://www.alphavantage.co/query?function=GLOBAL_QUOTE&symbol="@;
    let sep = "&apikey="@;
    let url = alpha_vantage_url_of(symbol, api_key);
    let at: int = prefix.len() + symbol.len() as int;
    assert(url.take(prefix.len() as int) =~= prefix);
    assert(url.subrange(prefix.len() as int, at) =~= symbol);
    assert(url.subrange(at, at + sep.len() as int) =~= sep);
    assert(url.skip(at + sep.len() as int) =~= api_key);
}

/// The Finnhub address is the fixed endpoint prefix followed by the whole
/// symbol.
pub proof fn law_finnhub_url_carries(symbol: Seq<char>)
    ensures
        ({
            let url = finnhub_url_of(symbol);
            let prefix = "https://finnhub.io/api/v1/quote?symbol="@;
            &&& url.len() == prefix.len() + symbol.len()
            &&& url.take(prefix.len() as int) == prefix
            &&& url.skip(prefix.len() as int) == symbol
        }),
{
    let prefix = "https://finnhub.io/api/v1/quote?symbol="@;
    let url = finnhub_url_of(symbol);
    assert(url.take(prefix.len() as int) =~= prefix);
    assert(url.skip(prefix.len() as int) =~= symbol);
}

/// A finished task leads to exactly three steps, one per source in the order
/// Alpha Vantage, Finnhub, mock: the quote saved when it was fetched, its
/// failure reported otherwise. No step occurs twice.
pub proof fn law_finished_task_steps(alpha_vantage: bool, finnhub: bool, mock: bool)
    ensures
        ({
            let steps = task_steps_of(
                TaskOutcome::Finished { alpha_vantage, finnhub, mock },
            );
            &&& steps.len() == 3
            &&& steps[0] == if alpha_vantage {
                CycleStep::Save(PriceSource::AlphaVantage)
            } else {
                CycleStep::ReportFetchFailure(PriceSource::AlphaVantage)
            }
            &&& steps[1] == if finnhub {
                CycleStep::Save(PriceSource::Finnhub)
            } else {
                CycleStep::ReportFetchFailure(PriceSource::Finnhub)
            }
            &&& steps[2] == if mock {
                CycleStep::Save(PriceSource::Mock)
            } else {
                CycleStep::ReportFetchFailure(PriceSource::Mock)
            }
            &&& steps.no_duplicates()
        }),
{
}

/// A failed task leads to a single report and nothing is saved.
pub proof fn law_failed_task_steps()
    ensures
        task_steps_of(TaskOutcome::Failed) == seq![CycleStep::ReportTaskFailure],
{
}

/// Whatever the outcome, no step follows a task twice, so no quote is saved
/// twice.
pub proof fn law_steps_never_repeat(outcome: TaskOutcome)
    ensures
        task_steps_of(outcome).no_duplicates(),
{
}

} // verus!
