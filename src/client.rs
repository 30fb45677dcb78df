use vstd::prelude::*;
use crate::error::{ClientError, Result};
use crate::request::{
    join_commas, join_identifiers, opt_decimal, push_optional, push_optional_number, push_pair,
    str_views, with_optional, ApiRequest, Operation, RequestView,
};
use crate::types::{opt_str_view, Config, MonitoringFrequency, OutputFormat};

verus! {

/// Version of this library, sent in the `User-Agent` header.
pub const VERSION: &'static str = "1.0.1";

/// Name of this library, sent in the `User-Agent` header.
pub const SDK_NAME: &'static str = "ShopSavvy-Rust-SDK";

/// The shape that an API key must have.
pub const API_KEY_PATTERN: &'static str = "^ss_(live|test)_[a-zA-Z0-9]+$";

/// A character allowed after the key's prefix: an ASCII letter or digit.
pub open spec fn is_key_char(c: char) -> bool {
    ('a' <= c && c <= 'z') || ('A' <= c && c <= 'Z') || ('0' <= c && c <= '9')
}

/// `s` starts with `p`.
pub open spec fn has_prefix(s: Seq<char>, p: Seq<char>) -> bool {
    p.len() <= s.len() && s.subrange(0, p.len() as int) == p
}

/// A well-formed API key: `ss_live_` or `ss_test_`, then one or more ASCII
/// letters or digits, and nothing else.
pub open spec fn is_valid_api_key(k: Seq<char>) -> bool {
    (has_prefix(k, "ss_live_"@) || has_prefix(k, "ss_test_"@)) && k.len() > 8 && forall|i: int|
        8 <= i < k.len() ==> is_key_char(#[trigger] k[i])
}

/// Relies on `regex::Regex::new`, which compiles this fixed pattern without
/// error, and `Regex::is_match`, which for a pattern anchored at both ends
/// (`$` outside multi-line mode matches only at the end) tells whether the
/// whole text has the pattern's shape.
#[verifier::external_body]
fn matches_key_pattern(pattern: &str, key: &str) -> (r: bool)
    requires
        pattern@ == API_KEY_PATTERN@,
    ensures
        r == is_valid_api_key(key@),
{
    regex::Regex::new(pattern).unwrap().is_match(key)
}

/// A header name and its value, or a query parameter and its value.
pub type Pair = (Seq<char>, Seq<char>);

/// The view of a list of string pairs.
pub open spec fn pairs_view(v: Seq<(String, String)>) -> Seq<Pair> {
    v.map_values(|p: (String, String)| (p.0@, p.1@))
}

/// The value of the `User-Agent` header.
pub open spec fn user_agent() -> Seq<char> {
    SDK_NAME@ + "/"@ + VERSION@
}

/// The headers that every request of a client with this key carries.
pub open spec fn default_headers(api_key: Seq<char>) -> Seq<Pair> {
    seq![
        ("Authorization"@, "Bearer "@ + api_key),
        ("Content-Type"@, "application/json"@),
        ("User-Agent"@, user_agent()),
    ]
}

/// Why construction refuses a key: `MissingApiKey` for an empty key,
/// `InvalidApiKey` for any other malformed one.
pub open spec fn key_rejection(api_key: Seq<char>, e: ClientError) -> bool {
    !is_valid_api_key(api_key) && if api_key.len() == 0 {
        e is MissingApiKey
    } else {
        e is InvalidApiKey
    }
}

/// An API client: a validated configuration and the headers that go with
/// every request. It never changes after construction.
#[derive(Debug, Clone)]
pub struct Client {
    config: Config,
    headers: Vec<(String, String)>,
}

impl Client {
    /// The configuration the client was made with.
    pub closed spec fn spec_config(&self) -> Config {
        self.config
    }

    /// The headers sent with every request.
    pub closed spec fn spec_headers(&self) -> Seq<Pair> {
        pairs_view(self.headers@)
    }

    /// A client for this key with the default configuration.
    pub fn new(api_key: &str) -> (r: Result<Client>)
        ensures
            match r {
                Ok(c) => is_valid_api_key(api_key@) && c.spec_config().api_key@ == api_key@
                    && c.spec_config().base_url@ == crate::types::DEFAULT_BASE_URL@
                    && c.spec_config().timeout == crate::outside::duration_from_secs(
                    crate::types::DEFAULT_TIMEOUT_SECS,
                ) && c.spec_headers() == default_headers(api_key@),
                Err(e) => key_rejection(api_key@, e),
            },
    {
        Self::with_config(Config::new(api_key))
    }

    /// A client for this configuration, once its key is checked.
    pub fn with_config(config: Config) -> (r: Result<Client>)
        ensures
            match r {
                Ok(c) => is_valid_api_key(config.api_key@) && c.spec_config() == config
                    && c.spec_headers() == default_headers(config.api_key@),
                Err(e) => key_rejection(config.api_key@, e),
            },
    {
        if config.api_key.as_str().is_empty() {
            return Err(ClientError::MissingApiKey);
        }
        if !matches_key_pattern(API_KEY_PATTERN, config.api_key.as_str()) {
            return Err(ClientError::InvalidApiKey);
        }
        let mut authorization = String::from_str("Bearer ");
        authorization.append(config.api_key.as_str());
        let mut agent = String::from_str(SDK_NAME);
        agent.append("/");
        agent.append(VERSION);
        let mut headers: Vec<(String, String)> = Vec::new();
        headers.push((String::from_str("Authorization"), authorization));
        headers.push((String::from_str("Content-Type"), String::from_str("application/json")));
        headers.push((String::from_str("User-Agent"), agent));
        proof {
            assert(pairs_view(headers@) =~= default_headers(config.api_key@));
        }
        Ok(Client { config, headers })
    }

    /// The configuration the client was made with.
    pub fn config(&self) -> (r: &Config)
        ensures
            *r == self.spec_config(),
    {
        &self.config
    }

    /// The headers sent with every request.
    pub fn headers(&self) -> (r: &Vec<(String, String)>)
        ensures
            pairs_view(r@) == self.spec_headers(),
    {
        &self.headers
    }
}

/// The view of an optional output format: its parameter value.
pub open spec fn opt_format(f: Option<OutputFormat>) -> Option<Seq<char>> {
    match f {
        Some(v) => Some(v.text()),
        None => None,
    }
}

fn format_value(format: Option<OutputFormat>) -> (r: Option<String>)
    ensures
        crate::types::opt_view(r) == opt_format(format),
{
    match format {
        Some(f) => Some(f.to_string()),
        None => None,
    }
}

fn owned(s: Option<&str>) -> (r: Option<String>)
    ensures
        crate::types::opt_view(r) == opt_str_view(s),
{
    match s {
        Some(t) => Some(String::from_str(t)),
        None => None,
    }
}

/// The query of a lookup by identifier: `ids`, then the retailer and the
/// format where they are given.
pub open spec fn lookup_query(ids: Seq<char>, retailer: Option<Seq<char>>, format: Option<OutputFormat>) -> Seq<Pair> {
    with_optional(with_optional(seq![("ids"@, ids)], "retailer"@, retailer), "format"@, opt_format(format))
}

/// The body of a scheduling request: the identifier member, the frequency,
/// and the retailer where it is given.
pub open spec fn schedule_body(member: Seq<char>, ids: Seq<char>, frequency: MonitoringFrequency, retailer: Option<Seq<char>>) -> Seq<Pair> {
    with_optional(seq![(member, ids), ("frequency"@, frequency.text())], "retailer"@, retailer)
}

/// The query of a search: the keywords, then the page size and the offset
/// where they are given.
pub open spec fn search_query(q: Seq<char>, limit: Option<i32>, offset: Option<i32>) -> Seq<Pair> {
    with_optional(with_optional(seq![("q"@, q)], "limit"@, opt_decimal(limit)), "offset"@, opt_decimal(offset))
}

/// The query of a price history: identifier and dates, then the retailer and
/// the format where they are given.
pub open spec fn history_query(
    ids: Seq<char>,
    start_date: Seq<char>,
    end_date: Seq<char>,
    retailer: Option<Seq<char>>,
    format: Option<OutputFormat>,
) -> Seq<Pair> {
    with_optional(
        with_optional(
            seq![("ids"@, ids), ("start_date"@, start_date), ("end_date"@, end_date)],
            "retailer"@,
            retailer,
        ),
        "format"@,
        opt_format(format),
    )
}

/// Some pair of `pairs` has this key.
pub open spec fn has_key(pairs: Seq<Pair>, key: Seq<char>) -> bool {
    exists|i: int| 0 <= i < pairs.len() && (#[trigger] pairs[i]).0 == key
}

proof fn lemma_has_key_with_optional(pairs: Seq<Pair>, key: Seq<char>, value: Option<Seq<char>>, k: Seq<char>)
    ensures
        has_key(with_optional(pairs, key, value), k) == (has_key(pairs, k) || (value is Some && key == k)),
{
    let out = with_optional(pairs, key, value);
    if let Some(v) = value {
        if has_key(pairs, k) {
            let i = choose|i: int| 0 <= i < pairs.len() && (#[trigger] pairs[i]).0 == k;
            assert(out[i] == pairs[i]);
        }
        if key == k {
            assert(out[pairs.len() as int].0 == k);
        }
        if has_key(out, k) {
            let i = choose|i: int| 0 <= i < out.len() && (#[trigger] out[i]).0 == k;
            if i < pairs.len() {
                assert(pairs[i] == out[i]);
            }
        }
    }
}

proof fn lemma_no_key(pairs: Seq<Pair>, key: Seq<char>)
    requires
        forall|i: int| 0 <= i < pairs.len() ==> (#[trigger] pairs[i]).0.len() != key.len() || pairs[i].0[0] != key[0],
    ensures
        !has_key(pairs, key),
{
}

/// An optional argument that the caller leaves unset is not sent at all: no
/// parameter or body member of its name appears in the request, neither
/// empty nor null. This holds of the format, retailer, page size and offset of
/// every lookup, search, price history and scheduling request.
pub proof fn lemma_unset_options_are_omitted(
    ids: Seq<char>,
    start_date: Seq<char>,
    end_date: Seq<char>,
    q: Seq<char>,
    member: Seq<char>,
    frequency: MonitoringFrequency,
    retailer: Option<Seq<char>>,
    format: Option<OutputFormat>,
    limit: Option<i32>,
    offset: Option<i32>,
)
    requires
        member == "identifier"@ || member == "identifiers"@,
    ensures
        retailer is None ==> !has_key(lookup_query(ids, retailer, format), "retailer"@),
        format is None ==> !has_key(lookup_query(ids, retailer, format), "format"@),
        retailer is None ==> !has_key(history_query(ids, start_date, end_date, retailer, format), "retailer"@),
        format is None ==> !has_key(history_query(ids, start_date, end_date, retailer, format), "format"@),
        limit is None ==> !has_key(search_query(q, limit, offset), "limit"@),
        offset is None ==> !has_key(search_query(q, limit, offset), "offset"@),
        retailer is None ==> !has_key(schedule_body(member, ids, frequency, retailer), "retailer"@),
{
    reveal_strlit("retailer");
    reveal_strlit("format");
    reveal_strlit("limit");
    reveal_strlit("offset");
    reveal_strlit("ids");
    reveal_strlit("q");
    reveal_strlit("start_date");
    reveal_strlit("end_date");
    reveal_strlit("frequency");
    reveal_strlit("identifier");
    reveal_strlit("identifiers");
    let base = seq![("ids"@, ids)];
    let dated = seq![("ids"@, ids), ("start_date"@, start_date), ("end_date"@, end_date)];
    let searched = seq![("q"@, q)];
    let scheduled = seq![(member, ids), ("frequency"@, frequency.text())];
    assert("end_date"@[0] != "retailer"@[0]);
    lemma_no_key(base, "retailer"@);
    lemma_no_key(base, "format"@);
    lemma_no_key(dated, "retailer"@);
    lemma_no_key(dated, "format"@);
    lemma_no_key(searched, "limit"@);
    lemma_no_key(searched, "offset"@);
    lemma_no_key(scheduled, "retailer"@);
    let with_retailer = with_optional(base, "retailer"@, retailer);
    lemma_has_key_with_optional(base, "retailer"@, retailer, "retailer"@);
    lemma_has_key_with_optional(base, "retailer"@, retailer, "format"@);
    lemma_has_key_with_optional(with_retailer, "format"@, opt_format(format), "retailer"@);
    lemma_has_key_with_optional(with_retailer, "format"@, opt_format(format), "format"@);
    let dated_retailer = with_optional(dated, "retailer"@, retailer);
    lemma_has_key_with_optional(dated, "retailer"@, retailer, "retailer"@);
    lemma_has_key_with_optional(dated, "retailer"@, retailer, "format"@);
    lemma_has_key_with_optional(dated_retailer, "format"@, opt_format(format), "retailer"@);
    lemma_has_key_with_optional(dated_retailer, "format"@, opt_format(format), "format"@);
    let with_limit = with_optional(searched, "limit"@, opt_decimal(limit));
    lemma_has_key_with_optional(searched, "limit"@, opt_decimal(limit), "limit"@);
    lemma_has_key_with_optional(searched, "limit"@, opt_decimal(limit), "offset"@);
    lemma_has_key_with_optional(with_limit, "offset"@, opt_decimal(offset), "limit"@);
    lemma_has_key_with_optional(with_limit, "offset"@, opt_decimal(offset), "offset"@);
    lemma_has_key_with_optional(scheduled, "retailer"@, retailer, "retailer"@);
}

impl Client {
    /// The request that `op` makes with this query and body.
    pub open spec fn spec_request(&self, op: Operation, query: Option<Seq<Pair>>, body: Option<Seq<Pair>>) -> RequestView {
        RequestView {
            method: op.spec_method(),
            url: self.spec_config().base_url@ + op.spec_path(),
            query,
            body,
        }
    }

    /// The request for `op`: base URL and path joined, query and body as given.
    pub fn build_request(
        &self,
        op: Operation,
        query: Option<Vec<(String, String)>>,
        body: Option<Vec<(String, String)>>,
    ) -> (r: ApiRequest)
        ensures
            r@ == self.spec_request(
                op,
                crate::request::opt_pairs_view(query),
                crate::request::opt_pairs_view(body),
            ),
    {
        let mut url = self.config.base_url.clone();
        url.append(op.path());
        ApiRequest { method: op.method(), url, query, body }
    }

    /// Keyword search, with optional page size and offset.
    pub fn search_products(&self, query: &str, limit: Option<i32>, offset: Option<i32>) -> (r: ApiRequest)
        ensures
            r@ == self.spec_request(
                Operation::Search,
                Some(search_query(query@, limit, offset)),
                None,
            ),
    {
        let mut params: Vec<(String, String)> = Vec::new();
        push_pair(&mut params, "q", String::from_str(query));
        assert(pairs_view(params@) =~= seq![("q"@, query@)]);
        push_optional_number(&mut params, "limit", limit);
        push_optional_number(&mut params, "offset", offset);
        self.build_request(Operation::Search, Some(params), None)
    }

    fn lookup(&self, op: Operation, ids: String, retailer: Option<&str>, format: Option<OutputFormat>) -> (r: ApiRequest)
        ensures
            r@ == self.spec_request(op, Some(lookup_query(ids@, opt_str_view(retailer), format)), None),
    {
        let mut params: Vec<(String, String)> = Vec::new();
        push_pair(&mut params, "ids", ids);
        assert(pairs_view(params@) =~= seq![("ids"@, ids@)]);
        push_optional(&mut params, "retailer", owned(retailer));
        push_optional(&mut params, "format", format_value(format));
        self.build_request(op, Some(params), None)
    }

    /// Details of one product.
    pub fn get_product_details(&self, identifier: &str, format: Option<OutputFormat>) -> (r: ApiRequest)
        ensures
            r@ == self.spec_request(Operation::ProductDetails, Some(lookup_query(identifier@, None, format)), None),
    {
        self.lookup(Operation::ProductDetails, String::from_str(identifier), None, format)
    }

    /// Details of several products in one request.
    pub fn get_product_details_batch(&self, identifiers: &[&str], format: Option<OutputFormat>) -> (r: ApiRequest)
        ensures
            r@ == self.spec_request(
                Operation::ProductDetails,
                Some(lookup_query(join_commas(str_views(identifiers@)), None, format)),
                None,
            ),
    {
        self.lookup(Operation::ProductDetails, join_identifiers(identifiers), None, format)
    }

    /// Current offers for one product.
    pub fn get_current_offers(&self, identifier: &str, retailer: Option<&str>, format: Option<OutputFormat>) -> (r: ApiRequest)
        ensures
            r@ == self.spec_request(
                Operation::CurrentOffers,
                Some(lookup_query(identifier@, opt_str_view(retailer), format)),
                None,
            ),
    {
        self.lookup(Operation::CurrentOffers, String::from_str(identifier), retailer, format)
    }

    /// Current offers for several products in one request.
    pub fn get_current_offers_batch(&self, identifiers: &[&str], retailer: Option<&str>, format: Option<OutputFormat>) -> (r: ApiRequest)
        ensures
            r@ == self.spec_request(
                Operation::CurrentOffers,
                Some(lookup_query(join_commas(str_views(identifiers@)), opt_str_view(retailer), format)),
                None,
            ),
    {
        self.lookup(Operation::CurrentOffers, join_identifiers(identifiers), retailer, format)
    }

    /// Price history of one product between two dates (`YYYY-MM-DD`).
    pub fn get_price_history(
        &self,
        identifier: &str,
        start_date: &str,
        end_date: &str,
        retailer: Option<&str>,
        format: Option<OutputFormat>,
    ) -> (r: ApiRequest)
        ensures
            r@ == self.spec_request(
                Operation::PriceHistory,
                Some(history_query(identifier@, start_date@, end_date@, opt_str_view(retailer), format)),
                None,
            ),
    {
        let mut params: Vec<(String, String)> = Vec::new();
        push_pair(&mut params, "ids", String::from_str(identifier));
        push_pair(&mut params, "start_date", String::from_str(start_date));
        push_pair(&mut params, "end_date", String::from_str(end_date));
        assert(pairs_view(params@) =~= seq![("ids"@, identifier@), ("start_date"@, start_date@), ("end_date"@, end_date@)]);
        push_optional(&mut params, "retailer", owned(retailer));
        push_optional(&mut params, "format", format_value(format));
        self.build_request(Operation::PriceHistory, Some(params), None)
    }

    fn schedule(&self, member: &str, ids: String, frequency: MonitoringFrequency, retailer: Option<&str>) -> (r: ApiRequest)
        ensures
            r@ == self.spec_request(
                Operation::ScheduleMonitoring,
                None,
                Some(schedule_body(member@, ids@, frequency, opt_str_view(retailer))),
            ),
    {
        let mut body: Vec<(String, String)> = Vec::new();
        push_pair(&mut body, member, ids);
        push_pair(&mut body, "frequency", frequency.to_string());
        assert(pairs_view(body@) =~= seq![(member@, ids@), ("frequency"@, frequency.text())]);
        push_optional(&mut body, "retailer", owned(retailer));
        self.build_request(Operation::ScheduleMonitoring, None, Some(body))
    }

    /// Starts monitoring one product.
    pub fn schedule_product_monitoring(&self, identifier: &str, frequency: MonitoringFrequency, retailer: Option<&str>) -> (r: ApiRequest)
        ensures
            r@ == self.spec_request(
                Operation::ScheduleMonitoring,
                None,
                Some(schedule_body("identifier"@, identifier@, frequency, opt_str_view(retailer))),
            ),
    {
        self.schedule("identifier", String::from_str(identifier), frequency, retailer)
    }

    /// Starts monitoring several products in one request.
    pub fn schedule_product_monitoring_batch(&self, identifiers: &[&str], frequency: MonitoringFrequency, retailer: Option<&str>) -> (r: ApiRequest)
        ensures
            r@ == self.spec_request(
                Operation::ScheduleMonitoring,
                None,
                Some(schedule_body("identifiers"@, join_commas(str_views(identifiers@)), frequency, opt_str_view(retailer))),
            ),
    {
        self.schedule("identifiers", join_identifiers(identifiers), frequency, retailer)
    }

    /// All products under monitoring.
    pub fn get_scheduled_products(&self) -> (r: ApiRequest)
        ensures
            r@ == self.spec_request(Operation::ListScheduled, None, None),
    {
        self.build_request(Operation::ListScheduled, None, None)
    }

    /// Stops monitoring one product.
    pub fn remove_product_from_schedule(&self, identifier: &str) -> (r: ApiRequest)
        ensures
            r@ == self.spec_request(Operation::RemoveFromSchedule, None, Some(seq![("identifier"@, identifier@)])),
    {
        let mut body: Vec<(String, String)> = Vec::new();
        push_pair(&mut body, "identifier", String::from_str(identifier));
        assert(pairs_view(body@) =~= seq![("identifier"@, identifier@)]);
        self.build_request(Operation::RemoveFromSchedule, None, Some(body))
    }

    /// Stops monitoring several products in one request.
    pub fn remove_products_from_schedule(&self, identifiers: &[&str]) -> (r: ApiRequest)
        ensures
            r@ == self.spec_request(
                Operation::RemoveFromSchedule,
                None,
                Some(seq![("identifiers"@, join_commas(str_views(identifiers@)))]),
            ),
    {
        let mut body: Vec<(String, String)> = Vec::new();
        push_pair(&mut body, "identifiers", join_identifiers(identifiers));
        assert(pairs_view(body@) =~= seq![("identifiers"@, join_commas(str_views(identifiers@)))]);
        self.build_request(Operation::RemoveFromSchedule, None, Some(body))
    }

    /// Credit usage of the current billing period.
    pub fn get_usage(&self) -> (r: ApiRequest)
        ensures
            r@ == self.spec_request(Operation::Usage, None, None),
    {
        self.build_request(Operation::Usage, None, None)
    }
}

} // verus!
