use vstd::prelude::*;

verus! {

/// What a client's text message holds when read as a JSON document: its
/// top-level `action` field when that is a string, and its top-level
/// `symbols` field when that is an array, each element kept when it is a
/// string and marked `None` otherwise.
pub struct ClientJson {
    pub action: Option<String>,
    pub symbols: Option<Vec<Option<String>>>,
}

/// The abstract content of a read JSON message: action, then symbol list.
pub type ClientJsonView = (Option<Seq<char>>, Option<Seq<Option<Seq<char>>>>);

pub open spec fn opt_str_view(o: Option<String>) -> Option<Seq<char>> {
    match o {
        Some(s) => Some(s@),
        None => None,
    }
}

pub open spec fn symbol_list_view(v: Seq<Option<String>>) -> Seq<Option<Seq<char>>> {
    v.map_values(|o: Option<String>| opt_str_view(o))
}

impl View for ClientJson {
    type V = ClientJsonView;

    open spec fn view(&self) -> ClientJsonView {
        (
            opt_str_view(self.action),
            match self.symbols {
                Some(v) => Some(symbol_list_view(v@)),
                None => None,
            },
        )
    }
}

pub open spec fn opt_json_view(o: Option<ClientJson>) -> Option<ClientJsonView> {
    match o {
        Some(d) => Some(d@),
        None => None,
    }
}

/// What `serde_json` reads from `text`: `None` when it is not a JSON
/// document, otherwise the string under `action_key` and the array under
/// `symbols_key`, as the session looks at them.
pub uninterp spec fn json_client_fields(
    text: Seq<char>,
    action_key: Seq<char>,
    symbols_key: Seq<char>,
) -> Option<ClientJsonView>;

/// Parses `text` with `serde_json::from_str` into a `serde_json::Value` and
/// keeps `value[action_key].as_str()` and `value[symbols_key].as_array()`
/// with each element's `as_str()`. The contract only names the outcome as a
/// function of its arguments; what serde_json accepts as JSON is not
/// restated.
#[verifier::external_body]
fn read_client_json(text: &str, action_key: &str, symbols_key: &str) -> (r: Option<ClientJson>)
    ensures
        opt_json_view(r) == json_client_fields(text@, action_key@, symbols_key@),
{
    match serde_json::from_str::<serde_json::Value>(text) {
        Err(_) => None,
        Ok(v) => Some(ClientJson {
            action: v[action_key].as_str().map(|s| s.to_string()),
            symbols: v[symbols_key].as_array().map(
                |a| a.iter().map(|e| e.as_str().map(|s| s.to_string())).collect(),
            ),
        }),
    }
}

/// The symbols named as strings in a subscription list.
pub open spec fn symbols_in(list: Seq<Option<Seq<char>>>) -> Set<Seq<char>> {
    Set::new(|s: Seq<char>| exists|i: int| 0 <= i < list.len() && list[i] == Some(s))
}

/// Whether a read message asks to subscribe: its action is the string
/// "subscribe" and its symbols field is an array.
pub open spec fn is_subscribe(doc: ClientJsonView) -> bool {
    doc.0 == Some("subscribe"@) && doc.1 is Some
}

/// The subscriptions after a read message: a subscribe request replaces them
/// with the symbols it lists, anything else leaves them as they were.
pub open spec fn after_json(subs: Set<Seq<char>>, doc: ClientJsonView) -> Set<Seq<char>> {
    if is_subscribe(doc) {
        symbols_in(doc.1.unwrap())
    } else {
        subs
    }
}

/// The subscriptions after a text message that is not the stats command:
/// the message is read for its `action` and `symbols` fields.
pub open spec fn after_text(subs: Set<Seq<char>>, text: Seq<char>) -> Set<Seq<char>> {
    match json_client_fields(text, "action"@, "symbols"@) {
        Some(doc) => after_json(subs, doc),
        None => subs,
    }
}

/// Whether a price update for `symbol` goes to a client subscribed to `subs`:
/// a client with no subscriptions receives every update.
pub open spec fn forwards(subs: Set<Seq<char>>, symbol: Seq<char>) -> bool {
    subs.is_empty() || subs.contains(symbol)
}

pub open spec fn strings_view(v: Seq<String>) -> Seq<Seq<char>> {
    v.map_values(|s: String| s@)
}

pub open spec fn set_of(v: Seq<String>) -> Set<Seq<char>> {
    Set::new(|s: Seq<char>| exists|i: int| 0 <= i < v.len() && v[i]@ == s)
}

/// Whether `v` holds `s`, compared by content.
fn holds(v: &Vec<String>, s: &String) -> (r: bool)
    ensures
        r == set_of(v@).contains(s@),
{
    let mut i: usize = 0;
    while i < v.len()
        invariant
            i <= v.len(),
            forall|j: int| 0 <= j < i ==> v@[j]@ != s@,
        decreases v.len() - i,
    {
        if v[i] == *s {
            return true;
        }
        i = i + 1;
    }
    false
}


/// The state a live-price connection keeps for its client: the symbols it
/// subscribed to, each at most once.
pub struct Session {
    subscriptions: Vec<String>,
}

impl View for Session {
    type V = Set<Seq<char>>;

    closed spec fn view(&self) -> Set<Seq<char>> {
        set_of(self.subscriptions@)
    }
}

/// Something that arrives from the client's side of the connection.
pub enum ClientEvent {
    /// A text message.
    Text(String),
    /// A close frame.
    Close,
    /// The end of the incoming stream.
    StreamEnded,
    /// A failure to receive.
    ReceiveError,
    /// A binary, ping or pong frame.
    Other,
}

/// What the connection does after handling a client event.
#[derive(Clone, Copy, Debug, PartialEq, Eq, Structural)]
pub enum SessionAction {
    /// Keep serving the client.
    Continue,
    /// Send the client the number of connected clients, then keep serving.
    ReportStats,
    /// Stop serving the client.
    Disconnect,
}

/// Whether a text message is the stats command.
pub open spec fn text_is_stats(text: Seq<char>) -> bool {
    text == "/stats"@
}

impl Session {
    #[verifier::type_invariant]
    closed spec fn no_repeats(&self) -> bool {
        strings_view(self.subscriptions@).no_duplicates()
    }

    /// A freshly connected client, subscribed to nothing.
    pub fn new() -> (s: Session)
        ensures
            s@ == Set::<Seq<char>>::empty(),
    {
        let s = Session { subscriptions: Vec::new() };
        assert(s@ =~= Set::<Seq<char>>::empty());
        s
    }

    /// The subscribed symbols, each once.
    pub fn subscriptions(&self) -> (r: &Vec<String>)
        ensures
            set_of(r@) == self@,
            strings_view(r@).no_duplicates(),
    {
        proof {
            use_type_invariant(self);
        }
        &self.subscriptions
    }

    /// Whether a price update for `symbol` is sent to this client.
    pub fn wants(&self, symbol: &String) -> (r: bool)
        ensures
            r == forwards(self@, symbol@),
    {
        if self.subscriptions.len() == 0 {
            assert(self@ =~= Set::<Seq<char>>::empty());
            true
        } else {
            assert(self@.contains(self.subscriptions@[0]@));
            holds(&self.subscriptions, symbol)
        }
    }

    /// Applies a read JSON message: a subscribe request replaces the
    /// subscriptions with the string symbols it lists (non-string elements are
    /// skipped); any other message changes nothing.
    pub fn apply_client_json(&mut self, doc: &ClientJson)
        ensures
            final(self)@ == after_json(old(self)@, doc@),
    {
        let subscribe = match &doc.action {
            Some(a) => {
                let target = "subscribe".to_owned();
                *a == target
            },
            None => false,
        };
        if subscribe {
            match &doc.symbols {
                Some(list) => {
                    self.subscriptions = distinct_symbols(list);
                },
                None => {},
            }
        }
    }

    /// Handles one event from the client. The stats command asks for a
    /// report; any other text is read as JSON and applied; a close frame, the
    /// end of the stream or a receive failure ends the session; other frames
    /// are ignored.
    pub fn on_client_event(&mut self, event: ClientEvent) -> (r: SessionAction)
        ensures
            match event {
                ClientEvent::Text(t) => if text_is_stats(t@) {
                    r == SessionAction::ReportStats && final(self)@ == old(self)@
                } else {
                    r == SessionAction::Continue && final(self)@ == after_text(old(self)@, t@)
                },
                ClientEvent::Other => r == SessionAction::Continue && final(self)@ == old(self)@,
                _ => r == SessionAction::Disconnect && final(self)@ == old(self)@,
            },
    {
        match event {
            ClientEvent::Text(text) => {
                let stats = "/stats".to_owned();
                if text == stats {
                    SessionAction::ReportStats
                } else {
                    match read_client_json(text.as_str(), "action", "symbols") {
                        Some(doc) => self.apply_client_json(&doc),
                        None => {},
                    }
                    SessionAction::Continue
                }
            },
            ClientEvent::Close => SessionAction::Disconnect,
            ClientEvent::StreamEnded => SessionAction::Disconnect,
            ClientEvent::ReceiveError => SessionAction::Disconnect,
            ClientEvent::Other => SessionAction::Continue,
        }
    }
}

/// The string symbols of `list`, each once, in order of first appearance.
fn distinct_symbols(list: &Vec<Option<String>>) -> (r: Vec<String>)
    ensures
        set_of(r@) == symbols_in(symbol_list_view(list@)),
        strings_view(r@).no_duplicates(),
{
    let mut r: Vec<String> = Vec::new();
    let mut i: usize = 0;
    while i < list.len()
        invariant
            i <= list.len(),
            set_of(r@) == symbols_in(symbol_list_view(list@.take(i as int))),
            strings_view(r@).no_duplicates(),
        decreases list.len() - i,
    {
        let ghost before = r@;
        let ghost seen = symbol_list_view(list@.take(i as int));
        let ghost next = symbol_list_view(list@.take(i + 1));
        proof {
            assert(next =~= seen.push(opt_str_view(list@[i as int])));
        }
        match &list[i] {
            Some(s) => {
                let present = holds(&r, s);
                if !present {
                    r.push(s.clone());
                    proof {
                        assert(strings_view(r@) =~= strings_view(before).push(s@));
                    }
                }
                proof {
                    assert(next[seen.len() as int] == Some(s@));
                    assert forall|c: Seq<char>| #[trigger]
                        set_of(r@).contains(c) == symbols_in(next).contains(c) by {
                        if symbols_in(next).contains(c) {
                            let j: int = choose|j: int| 0 <= j < next.len() && next[j] == Some(c);
                            if j < seen.len() {
                                assert(seen[j] == Some(c));
                                assert(symbols_in(seen).contains(c));
                                assert(set_of(before).contains(c));
                                let k: int = choose|k: int| 0 <= k < before.len() && before[k]@ == c;
                                assert(r@[k]@ == c);
                            } else {
                                assert(c == s@);
                                if present {
                                    let k: int = choose|k: int| 0 <= k < before.len() && before[k]@ == c;
                                    assert(r@[k]@ == c);
                                } else {
                                    assert(r@[before.len() as int]@ == c);
                                }
                            }
                        }
                        if set_of(r@).contains(c) {
                            let j: int = choose|j: int| 0 <= j < r@.len() && r@[j]@ == c;
                            if j < before.len() {
                                assert(before[j]@ == c);
                                assert(set_of(before).contains(c));
                                assert(symbols_in(seen).contains(c));
                                let k: int = choose|k: int| 0 <= k < seen.len() && seen[k] == Some(c);
                                assert(next[k] == Some(c));
                            } else {
                                assert(next[seen.len() as int] == Some(c));
                            }
                        }
                    }
                }
            },
            None => {
                proof {
                    assert(next[seen.len() as int] == None::<Seq<char>>);
                    assert forall|c: Seq<char>| #[trigger]
                        set_of(r@).contains(c) == symbols_in(next).contains(c) by {
                        if symbols_in(next).contains(c) {
                            let j: int = choose|j: int| 0 <= j < next.len() && next[j] == Some(c);
                            assert(j < seen.len());
                            assert(seen[j] == Some(c));
                        }
                        if symbols_in(seen).contains(c) {
                            let k: int = choose|k: int| 0 <= k < seen.len() && seen[k] == Some(c);
                            assert(next[k] == Some(c));
                        }
                    }
                }
            },
        }
        assert(set_of(r@) =~= symbols_in(next));
        i = i + 1;
    }
    assert(list@.take(list.len() as int) =~= list@);
    r
}


/// The decimal digit character for `d`, which is below ten.
pub open spec fn digit_char(d: int) -> char {
    (48 + d) as char
}

/// The decimal notation of `n`, without sign or leading zeros.
pub open spec fn decimal(n: nat) -> Seq<char>
    decreases n,
{
    if n < 10 {
        seq![digit_char(n as int)]
    } else {
        decimal(n / 10).push(digit_char((n % 10) as int))
    }
}

/// The reply to the stats command when `count` clients are connected.
pub open spec fn stats_text(count: nat) -> Seq<char> {
    "Active clients: "@ + decimal(count)
}

/// `usize::to_string`, which writes an unsigned integer in decimal.
#[verifier::external_body]
fn usize_decimal(n: usize) -> (r: String)
    ensures
        r@ == decimal(n as nat),
{
    n.to_string()
}

/// The reply to the stats command when `active_clients` clients are
/// connected, such as "Active clients: 3".
pub fn stats_reply(active_clients: usize) -> (r: String)
    ensures
        r@ == stats_text(active_clients as nat),
{
    let mut reply = "Active clients: ".to_owned();
    let count = usize_decimal(active_clients);
    reply.append(count.as_str());
    reply
}

/// A subscribe request replaces the subscriptions entirely: what a client is
/// subscribed to afterwards is the set of string symbols the request lists,
/// whatever it was subscribed to before.
pub proof fn law_subscribe_replaces(a: Set<Seq<char>>, b: Set<Seq<char>>, doc: ClientJsonView)
    requires
        is_subscribe(doc),
    ensures
        after_json(a, doc) == after_json(b, doc),
        after_json(a, doc) == symbols_in(doc.1.unwrap()),
{
}

/// A message that is not a subscribe request (another action, or a symbols
/// field that is not an array) leaves the subscriptions as they were.
pub proof fn law_other_messages_keep(subs: Set<Seq<char>>, doc: ClientJsonView)
    requires
        !is_subscribe(doc),
    ensures
        after_json(subs, doc) == subs,
{
}

/// Applying the same message twice has the effect of applying it once.
pub proof fn law_repeat_changes_nothing(subs: Set<Seq<char>>, doc: ClientJsonView)
    ensures
        after_json(after_json(subs, doc), doc) == after_json(subs, doc),
{
}

/// A client that subscribed with `list` receives an update for `symbol`
/// exactly when the list names `symbol`, or names no symbol at all.
pub proof fn law_forward_after_subscribe(
    subs: Set<Seq<char>>,
    list: Seq<Option<Seq<char>>>,
    symbol: Seq<char>,
)
    ensures
        forwards(after_json(subs, (Some("subscribe"@), Some(list))), symbol) <==> (
        (forall|i: int| 0 <= i < list.len() ==> #[trigger] list[i] is None) || exists|i: int|
            0 <= i < list.len() && list[i] == Some(symbol)),
{
    let chosen = symbols_in(list);
    assert(after_json(subs, (Some("subscribe"@), Some(list))) == chosen);
    if forall|i: int| 0 <= i < list.len() ==> #[trigger] list[i] is None {
        assert(chosen =~= Set::<Seq<char>>::empty());
    } else {
        let i: int = choose|i: int| 0 <= i < list.len() && !(#[trigger] list[i] is None);
        assert(chosen.contains(list[i].unwrap()));
    }
}

/// A client subscribed to nothing receives every update.
pub proof fn law_unsubscribed_receives_all(symbol: Seq<char>)
    ensures
        forwards(Set::<Seq<char>>::empty(), symbol),
{
}


/// A text that reads as a subscribe request leaves the client subscribed to
/// exactly the symbols that its list names as strings, whatever the client
/// was subscribed to before.
pub proof fn law_text_subscribe_replaces(
    subs: Set<Seq<char>>,
    text: Seq<char>,
    list: Seq<Option<Seq<char>>>,
    symbol: Seq<char>,
)
    requires
        json_client_fields(text, "action"@, "symbols"@) == Some(
            (Some("subscribe"@), Some(list)),
        ),
    ensures
        after_text(subs, text).contains(symbol) <==> exists|i: int|
            0 <= i < list.len() && list[i] == Some(symbol),
{
}

/// A text that does not read as JSON leaves the subscriptions unchanged.
pub proof fn law_text_unreadable_keeps(subs: Set<Seq<char>>, text: Seq<char>)
    requires
        json_client_fields(text, "action"@, "symbols"@) is None,
    ensures
        after_text(subs, text) == subs,
{
}

/// The number a character stands for when read as a decimal digit.
pub open spec fn digit_value(c: char) -> int {
    c as int - 48
}

/// Whether `c` is one of the characters '0' to '9'.
pub open spec fn is_digit(c: char) -> bool {
    '0' <= c && c <= '9'
}

/// The number that a string of decimal digits denotes.
pub open spec fn read_decimal(s: Seq<char>) -> int
    decreases s.len(),
{
    if s.len() == 0 {
        0
    } else {
        10 * read_decimal(s.drop_last()) + digit_value(s.last())
    }
}

/// The decimal notation of `n` is a non-empty string of digits, without a
/// leading zero unless `n` is zero, that reads back as `n`.
pub proof fn law_decimal_reads_back(n: nat)
    ensures
        decimal(n).len() >= 1,
        forall|i: int| 0 <= i < decimal(n).len() ==> is_digit(#[trigger] decimal(n)[i]),
        decimal(n)[0] == '0' ==> n == 0,
        read_decimal(decimal(n)) == n,
    decreases n,
{
    if n < 10 {
        assert(decimal(n) =~= seq![digit_char(n as int)]);
        assert(decimal(n).drop_last() =~= Seq::<char>::empty());
        assert(digit_value(digit_char(n as int)) == n);
        assert(read_decimal(decimal(n)) == 10 * read_decimal(Seq::<char>::empty()) + digit_value(digit_char(n as int)));
    } else {
        law_decimal_reads_back(n / 10);
        let d = decimal(n);
        assert(digit_value(digit_char((n % 10) as int)) == n % 10);
        assert(10 * (n / 10) + n % 10 == n);
        assert(d == decimal(n / 10).push(digit_char((n % 10) as int)));
        assert(d.drop_last() =~= decimal(n / 10));
        assert(d[0] == decimal(n / 10)[0]);
        assert forall|i: int| 0 <= i < d.len() implies is_digit(#[trigger] d[i]) by {
            if i < d.len() - 1 {
                assert(d[i] == decimal(n / 10)[i]);
            }
        }
    }
}

/// The stats reply is the fixed text "Active clients: " followed by digits
/// that read back as the number of clients.
pub proof fn law_stats_reads_back(count: nat)
    ensures
        stats_text(count).take("Active clients: "@.len() as int) == "Active clients: "@,
        forall|i: int|
            "Active clients: "@.len() <= i < stats_text(count).len() ==> is_digit(
                #[trigger] stats_text(count)[i],
            ),
        read_decimal(stats_text(count).skip("Active clients: "@.len() as int)) == count,
{
    let p = "Active clients: "@;
    let t = stats_text(count);
    law_decimal_reads_back(count);
    assert(t.take(p.len() as int) =~= p);
    assert(t.skip(p.len() as int) =~= decimal(count));
    assert forall|i: int| p.len() <= i < t.len() implies is_digit(#[trigger] t[i]) by {
        assert(t[i] == decimal(count)[i - p.len()]);
    }
}

/// Different numbers of clients give different stats replies.
pub proof fn law_stats_distinct(a: nat, b: nat)
    requires
        a != b,
    ensures
        stats_text(a) != stats_text(b),
{
    law_stats_reads_back(a);
    law_stats_reads_back(b);
}

} // verus!
