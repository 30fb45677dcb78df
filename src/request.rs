use vstd::prelude::*;
use crate::client::{pairs_view, Pair};

verus! {

/// The HTTP verbs that the API uses.
#[derive(Debug, Clone, Copy, PartialEq, Eq, Structural)]
pub enum HttpMethod {
    Get,
    Post,
    Delete,
}

/// The operations of the API, each with its verb and path.
#[derive(Debug, Clone, Copy, PartialEq, Eq, Structural)]
pub enum Operation {
    Search,
    ProductDetails,
    CurrentOffers,
    PriceHistory,
    ScheduleMonitoring,
    ListScheduled,
    RemoveFromSchedule,
    Usage,
}

impl Operation {
    pub open spec fn spec_method(self) -> HttpMethod {
        match self {
            Operation::ScheduleMonitoring => HttpMethod::Post,
            Operation::RemoveFromSchedule => HttpMethod::Delete,
            _ => HttpMethod::Get,
        }
    }

    pub open spec fn spec_path(self) -> Seq<char> {
        match self {
            Operation::Search => "/products/search"@,
            Operation::ProductDetails => "/products"@,
            Operation::CurrentOffers => "/products/offers"@,
            Operation::PriceHistory => "/products/offers/history"@,
            Operation::ScheduleMonitoring => "/products/schedule"@,
            Operation::ListScheduled => "/products/scheduled"@,
            Operation::RemoveFromSchedule => "/products/schedule"@,
            Operation::Usage => "/usage"@,
        }
    }

    /// The verb of the operation.
    pub fn method(&self) -> (r: HttpMethod)
        ensures
            r == self.spec_method(),
    {
        match self {
            Operation::ScheduleMonitoring => HttpMethod::Post,
            Operation::RemoveFromSchedule => HttpMethod::Delete,
            _ => HttpMethod::Get,
        }
    }

    /// The path of the operation below the base URL.
    pub fn path(&self) -> (r: &'static str)
        ensures
            r@ == self.spec_path(),
    {
        match self {
            Operation::Search => "/products/search",
            Operation::ProductDetails => "/products",
            Operation::CurrentOffers => "/products/offers",
            Operation::PriceHistory => "/products/offers/history",
            Operation::ScheduleMonitoring => "/products/schedule",
            Operation::ListScheduled => "/products/scheduled",
            Operation::RemoveFromSchedule => "/products/schedule",
            Operation::Usage => "/usage",
        }
    }
}

/// One request, ready for a transport: verb, full URL, query parameters in
/// order, and the string members of a JSON object body.
#[derive(Debug, Clone)]
pub struct ApiRequest {
    pub method: HttpMethod,
    pub url: String,
    pub query: Option<Vec<(String, String)>>,
    pub body: Option<Vec<(String, String)>>,
}

/// What a request is, as values.
pub struct RequestView {
    pub method: HttpMethod,
    pub url: Seq<char>,
    pub query: Option<Seq<Pair>>,
    pub body: Option<Seq<Pair>>,
}

/// The view of an optional list of string pairs.
pub open spec fn opt_pairs_view(v: Option<Vec<(String, String)>>) -> Option<Seq<Pair>> {
    match v {
        Some(p) => Some(pairs_view(p@)),
        None => None,
    }
}

impl View for ApiRequest {
    type V = RequestView;

    open spec fn view(&self) -> RequestView {
        RequestView {
            method: self.method,
            url: self.url@,
            query: opt_pairs_view(self.query),
            body: opt_pairs_view(self.body),
        }
    }
}

/// `pairs` with `(key, v)` added at the end where the value is given, and
/// unchanged where it is not: an option left unset is not sent at all.
pub open spec fn with_optional(pairs: Seq<Pair>, key: Seq<char>, value: Option<Seq<char>>) -> Seq<
    Pair,
> {
    match value {
        Some(v) => pairs.push((key, v)),
        None => pairs,
    }
}

/// The strings joined with a comma between each two.
pub open spec fn join_commas(items: Seq<Seq<char>>) -> Seq<char>
    decreases items.len(),
{
    if items.len() == 0 {
        Seq::empty()
    } else if items.len() == 1 {
        items[0]
    } else {
        join_commas(items.drop_last()) + ","@ + items.last()
    }
}

/// The views of a sequence of string slices.
pub open spec fn str_views(items: Seq<&str>) -> Seq<Seq<char>> {
    items.map_values(|s: &str| s@)
}

/// The identifiers of a batch as one parameter value: comma-joined.
pub fn join_identifiers(identifiers: &[&str]) -> (r: String)
    ensures
        r@ == join_commas(str_views(identifiers@)),
{
    let mut out = String::new();
    let mut i: usize = 0;
    while i < identifiers.len()
        invariant
            0 <= i <= identifiers@.len(),
            out@ == join_commas(str_views(identifiers@.subrange(0, i as int))),
        decreases identifiers@.len() - i,
    {
        proof {
            let next = str_views(identifiers@.subrange(0, i + 1));
            assert(next.drop_last() =~= str_views(identifiers@.subrange(0, i as int)));
            assert(next.last() == identifiers@[i as int]@);
        }
        if i > 0 {
            out.append(",");
        }
        out.append(identifiers[i]);
        i += 1;
    }
    proof {
        assert(identifiers@.subrange(0, identifiers@.len() as int) =~= identifiers@);
    }
    out
}

/// The decimal digit for `d`, where `d < 10`.
pub open spec fn digit_char(d: nat) -> char {
    if d == 0 { '0' }
    else if d == 1 { '1' }
    else if d == 2 { '2' }
    else if d == 3 { '3' }
    else if d == 4 { '4' }
    else if d == 5 { '5' }
    else if d == 6 { '6' }
    else if d == 7 { '7' }
    else if d == 8 { '8' }
    else { '9' }
}

/// The decimal digits of `n`, without leading zeros.
pub open spec fn digits(n: nat) -> Seq<char>
    decreases n,
{
    if n < 10 {
        seq![digit_char(n)]
    } else {
        digits(n / 10).push(digit_char(n % 10))
    }
}

/// The decimal numeral of `n`, with a leading `-` where it is negative.
pub open spec fn decimal(n: int) -> Seq<char> {
    if n < 0 {
        "-"@ + digits((-n) as nat)
    } else {
        digits(n as nat)
    }
}

/// Relies on `ToString` for `i32`, through its `Display`: the decimal numeral,
/// with a leading `-` for a negative number and no leading zeros.
#[verifier::external_body]
fn decimal_text(n: i32) -> (r: String)
    ensures
        r@ == decimal(n as int),
{
    n.to_string()
}

/// The view of an optional numeric parameter.
pub open spec fn opt_decimal(n: Option<i32>) -> Option<Seq<char>> {
    match n {
        Some(v) => Some(decimal(v as int)),
        None => None,
    }
}

/// `pairs` with the string pair `(key, value)` added.
pub fn push_pair(pairs: &mut Vec<(String, String)>, key: &str, value: String)
    ensures
        pairs_view(final(pairs)@) == pairs_view(old(pairs)@).push((key@, value@)),
{
    pairs.push((String::from_str(key), value));
    proof {
        assert(pairs_view(final(pairs)@) =~= pairs_view(old(pairs)@).push((key@, value@)));
    }
}

/// `pairs` with `(key, value)` added where a value is given.
pub fn push_optional(pairs: &mut Vec<(String, String)>, key: &str, value: Option<String>)
    ensures
        pairs_view(final(pairs)@) == with_optional(
            pairs_view(old(pairs)@),
            key@,
            match value {
                Some(v) => Some(v@),
                None => None,
            },
        ),
{
    match value {
        Some(v) => push_pair(pairs, key, v),
        None => {},
    }
}

/// `pairs` with the numeral of `value` under `key` where a value is given.
pub fn push_optional_number(pairs: &mut Vec<(String, String)>, key: &str, value: Option<i32>)
    ensures
        pairs_view(final(pairs)@) == with_optional(pairs_view(old(pairs)@), key@, opt_decimal(value)),
{
    match value {
        Some(n) => push_pair(pairs, key, decimal_text(n)),
        None => {},
    }
}

} // verus!
