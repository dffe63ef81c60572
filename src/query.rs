use vstd::prelude::*;

use crate::error::{SerpError, SerpResult};

verus! {

/// Message of the error returned for a result count outside 1..=100.
pub const LIMIT_RANGE_MESSAGE: &'static str = "limit must be between 1 and 100";

/// The parameters of one search, as the service reads them.
#[derive(Clone, Debug)]
pub struct SearchQuery {
    query: String,
    language: Option<String>,
    geolocation: Option<String>,
    google_domain: Option<String>,
    num: Option<u32>,
    start: Option<u32>,
    device: Option<String>,
    safe: Option<String>,
    tbm: Option<String>,
    location: Option<String>,
    api_key: String,
}

/// The mathematical value of a [`SearchQuery`].
pub ghost struct QueryView {
    pub query: Seq<char>,
    pub language: Option<Seq<char>>,
    pub geolocation: Option<Seq<char>>,
    pub google_domain: Option<Seq<char>>,
    pub num: Option<u32>,
    pub start: Option<u32>,
    pub device: Option<Seq<char>>,
    pub safe: Option<Seq<char>>,
    pub tbm: Option<Seq<char>>,
    pub location: Option<Seq<char>>,
    pub api_key: Seq<char>,
}

/// The characters of an optional string.
pub open spec fn text(o: Option<String>) -> Option<Seq<char>> {
    match o {
        Some(s) => Some(s@),
        None => None,
    }
}

impl View for SearchQuery {
    type V = QueryView;

    closed spec fn view(&self) -> QueryView {
        QueryView {
            query: self.query@,
            language: text(self.language),
            geolocation: text(self.geolocation),
            google_domain: text(self.google_domain),
            num: self.num,
            start: self.start,
            device: text(self.device),
            safe: text(self.safe),
            tbm: text(self.tbm),
            location: text(self.location),
            api_key: self.api_key@,
        }
    }
}

/// A query for `q` with no other parameter set and an empty API key.
pub open spec fn fresh_query(q: Seq<char>) -> QueryView {
    QueryView {
        query: q,
        language: None,
        geolocation: None,
        google_domain: None,
        num: None,
        start: None,
        device: None,
        safe: None,
        tbm: None,
        location: None,
        api_key: Seq::empty(),
    }
}

/// The decimal digit for `d`, which is below ten.
pub open spec fn digit_char(d: nat) -> char {
    if d == 0 { '0' }
    else if d == 1 { '1' }
    else if d == 2 { '2' }
    else if d == 3 { '3' }
    else if d == 4 { '4' }
    else if d == 5 { '5' }
    else if d == 6 { '6' }
    else if d == 7 { '7' }
    else if d == 8 { '8' }
    else { '9' }
}

/// The decimal notation of `n`, without leading zeros.
pub open spec fn decimal(n: nat) -> Seq<char>
    decreases n,
{
    if n < 10 {
        seq![digit_char(n)]
    } else {
        decimal(n / 10).push(digit_char(n % 10))
    }
}

/// The pair `(key, value)` when a value is present, else nothing.
pub open spec fn opt_pair(key: Seq<char>, value: Option<Seq<char>>) -> Seq<(Seq<char>, Seq<char>)> {
    match value {
        Some(v) => seq![(key, v)],
        None => Seq::empty(),
    }
}

/// The optional number as a decimal string.
pub open spec fn opt_decimal(n: Option<u32>) -> Option<Seq<char>> {
    match n {
        Some(v) => Some(decimal(v as nat)),
        None => None,
    }
}

/// The parameters that a query sends, in order, each under its wire name;
/// unset parameters are left out and the API key is not among them.
pub open spec fn query_pairs(v: QueryView) -> Seq<(Seq<char>, Seq<char>)> {
    seq![("q"@, v.query)]
        + opt_pair("hl"@, v.language)
        + opt_pair("gl"@, v.geolocation)
        + opt_pair("google_domain"@, v.google_domain)
        + opt_pair("num"@, opt_decimal(v.num))
        + opt_pair("start"@, opt_decimal(v.start))
        + opt_pair("device"@, v.device)
        + opt_pair("safe"@, v.safe)
        + opt_pair("tbm"@, v.tbm)
        + opt_pair("location"@, v.location)
}

/// What `serde_urlencoded::to_string` makes of a list of string pairs.
pub uninterp spec fn form_encoded(pairs: Seq<(Seq<char>, Seq<char>)>) -> Seq<char>;

/// Relies on serde_urlencoded::to_string: the pairs become
/// `key=value` items joined by `&`, form-encoded; the text depends on the
/// pairs alone, and a sequence of string pairs always serialises.
#[verifier::external_body]
fn encode_pairs(pairs: &Vec<(String, String)>) -> (r: Result<String, serde_urlencoded::ser::Error>)
    ensures
        r is Ok,
        r matches Ok(s) ==> s@ == form_encoded(pairs.deep_view()),
{
    serde_urlencoded::to_string(pairs)
}

/// The one-character string for the decimal digit `d`.
fn digit_str(d: u32) -> (r: &'static str)
    requires
        d < 10,
    ensures
        r@ == seq![digit_char(d as nat)],
{
    proof {
        reveal_strlit("0");
        reveal_strlit("1");
        reveal_strlit("2");
        reveal_strlit("3");
        reveal_strlit("4");
        reveal_strlit("5");
        reveal_strlit("6");
        reveal_strlit("7");
        reveal_strlit("8");
        reveal_strlit("9");
    }
    match d {
        0 => "0",
        1 => "1",
        2 => "2",
        3 => "3",
        4 => "4",
        5 => "5",
        6 => "6",
        7 => "7",
        8 => "8",
        _ => "9",
    }
}

/// The decimal notation of `n`.
pub fn decimal_string(n: u32) -> (r: String)
    ensures
        r@ == decimal(n as nat),
    decreases n,
{
    if n < 10 {
        String::from_str(digit_str(n))
    } else {
        let mut s = decimal_string(n / 10);
        s.append(digit_str(n % 10));
        s
    }
}

/// Appends the API key, unencoded, to form-encoded parameters.
pub fn append_api_key(encoded: String, api_key: &str) -> (r: String)
    ensures
        r@ == encoded@ + "&api_key="@ + api_key@,
{
    let mut s = encoded;
    s.append("&api_key=");
    s.append(api_key);
    s
}

fn copy_text(o: &Option<String>) -> (r: Option<String>)
    ensures
        text(r) == text(*o),
{
    match o {
        Some(s) => Some(s.clone()),
        None => None,
    }
}

fn push_pair(pairs: &mut Vec<(String, String)>, key: &str, value: Option<String>)
    ensures
        final(pairs).deep_view() == old(pairs).deep_view() + opt_pair(key@, text(value)),
{
    let ghost before = pairs.deep_view();
    match value {
        Some(v) => {
            pairs.push((String::from_str(key), v));
            assert(pairs.deep_view() =~= before + opt_pair(key@, text(value)));
        },
        None => {
            assert(pairs.deep_view() =~= before + opt_pair(key@, text(value)));
        },
    }
}

fn decimal_text(n: Option<u32>) -> (r: Option<String>)
    ensures
        text(r) == opt_decimal(n),
{
    match n {
        Some(v) => Some(decimal_string(v)),
        None => None,
    }
}

impl SearchQuery {
    /// Starts building a query for `query`.
    pub fn new(query: &str) -> (r: SearchQueryBuilder)
        ensures
            r@ == fresh_query(query@),
    {
        SearchQueryBuilder::new(query)
    }

    /// The search text.
    pub fn query(&self) -> (r: &str)
        ensures
            r@ == self@.query,
    {
        self.query.as_str()
    }

    /// The API key the query is sent with.
    pub fn api_key(&self) -> (r: &str)
        ensures
            r@ == self@.api_key,
    {
        self.api_key.as_str()
    }

    /// The interface language (`hl`), if set.
    pub fn language(&self) -> (r: Option<String>)
        ensures
            text(r) == self@.language,
    {
        copy_text(&self.language)
    }

    /// The country of the results (`gl`), if set.
    pub fn geolocation(&self) -> (r: Option<String>)
        ensures
            text(r) == self@.geolocation,
    {
        copy_text(&self.geolocation)
    }

    /// The number of results asked for (`num`), if set.
    pub fn num(&self) -> (r: Option<u32>)
        ensures
            r == self@.num,
    {
        self.num
    }

    /// The offset of the first result (`start`), if set.
    pub fn start(&self) -> (r: Option<u32>)
        ensures
            r == self@.start,
    {
        self.start
    }

    /// The search type (`tbm`), if set.
    pub fn tbm(&self) -> (r: Option<String>)
        ensures
            text(r) == self@.tbm,
    {
        copy_text(&self.tbm)
    }

    /// A copy of this query.
    pub fn duplicate(&self) -> (r: SearchQuery)
        ensures
            r@ == self@,
    {
        SearchQuery {
            query: self.query.clone(),
            language: copy_text(&self.language),
            geolocation: copy_text(&self.geolocation),
            google_domain: copy_text(&self.google_domain),
            num: self.num,
            start: self.start,
            device: copy_text(&self.device),
            safe: copy_text(&self.safe),
            tbm: copy_text(&self.tbm),
            location: copy_text(&self.location),
            api_key: self.api_key.clone(),
        }
    }

    /// The parameters the query sends, in order, each under its wire name.
    pub fn to_pairs(&self) -> (r: Vec<(String, String)>)
        ensures
            r.deep_view() == query_pairs(self@),
    {
        let mut pairs: Vec<(String, String)> = Vec::new();
        push_pair(&mut pairs, "q", Some(self.query.clone()));
        push_pair(&mut pairs, "hl", copy_text(&self.language));
        push_pair(&mut pairs, "gl", copy_text(&self.geolocation));
        push_pair(&mut pairs, "google_domain", copy_text(&self.google_domain));
        push_pair(&mut pairs, "num", decimal_text(self.num));
        push_pair(&mut pairs, "start", decimal_text(self.start));
        push_pair(&mut pairs, "device", copy_text(&self.device));
        push_pair(&mut pairs, "safe", copy_text(&self.safe));
        push_pair(&mut pairs, "tbm", copy_text(&self.tbm));
        push_pair(&mut pairs, "location", copy_text(&self.location));
        assert(pairs.deep_view() =~= query_pairs(self@));
        pairs
    }

    /// The URL-encoded query string: the form-encoded parameters followed
    /// by `&api_key=` and the key as it is.
    pub fn to_query_string(&self) -> (r: SerpResult<String>)
        ensures
            r is Ok,
            r matches Ok(s) ==> s@ == form_encoded(query_pairs(self@)) + "&api_key="@ + self@.api_key,
    {
        let pairs = self.to_pairs();
        match encode_pairs(&pairs) {
            Ok(encoded) => Ok(append_api_key(encoded, self.api_key.as_str())),
            Err(e) => Err(SerpError::UrlEncoding(e)),
        }
    }
}

/// Builds a [`SearchQuery`] one parameter at a time.
#[derive(Clone, Debug)]
pub struct SearchQueryBuilder {
    inner: SearchQuery,
}

impl View for SearchQueryBuilder {
    type V = QueryView;

    closed spec fn view(&self) -> QueryView {
        self.inner@
    }
}

impl SearchQueryBuilder {
    /// A builder for a query on `query` with no other parameter set.
    pub fn new(query: &str) -> (r: SearchQueryBuilder)
        ensures
            r@ == fresh_query(query@),
    {
        SearchQueryBuilder {
            inner: SearchQuery {
                query: String::from_str(query),
                language: None,
                geolocation: None,
                google_domain: None,
                num: None,
                start: None,
                device: None,
                safe: None,
                tbm: None,
                location: None,
                api_key: String::new(),
            },
        }
    }

    /// Sets the interface language (`hl`).
    pub fn language(self, hl: &str) -> (r: SearchQueryBuilder)
        ensures
            r@ == (QueryView { language: Some(hl@), ..self@ }),
    {
        let mut b = self;
        b.inner.language = Some(String::from_str(hl));
        b
    }

    /// Sets the country of the results (`gl`).
    pub fn country(self, gl: &str) -> (r: SearchQueryBuilder)
        ensures
            r@ == (QueryView { geolocation: Some(gl@), ..self@ }),
    {
        let mut b = self;
        b.inner.geolocation = Some(String::from_str(gl));
        b
    }

    /// Sets the search domain (`google_domain`).
    pub fn domain(self, domain: &str) -> (r: SearchQueryBuilder)
        ensures
            r@ == (QueryView { google_domain: Some(domain@), ..self@ }),
    {
        let mut b = self;
        b.inner.google_domain = Some(String::from_str(domain));
        b
    }

    /// Sets the number of results (`num`), which must lie in 1..=100.
    pub fn limit(self, num: u32) -> (r: SerpResult<SearchQueryBuilder>)
        ensures
            r is Ok <==> 1 <= num <= 100,
            r matches Ok(b) ==> b@ == (QueryView { num: Some(num), ..self@ }),
            r matches Err(e) ==> e matches SerpError::InvalidParameter(m) && m@ == LIMIT_RANGE_MESSAGE@,
    {
        if num == 0 || num > 100 {
            return Err(SerpError::InvalidParameter(String::from_str(LIMIT_RANGE_MESSAGE)));
        }
        let mut b = self;
        b.inner.num = Some(num);
        Ok(b)
    }

    /// Sets the offset of the first result (`start`).
    pub fn offset(self, start: u32) -> (r: SearchQueryBuilder)
        ensures
            r@ == (QueryView { start: Some(start), ..self@ }),
    {
        let mut b = self;
        b.inner.start = Some(start);
        b
    }

    /// Sets the device (`device`).
    pub fn device(self, device: &str) -> (r: SearchQueryBuilder)
        ensures
            r@ == (QueryView { device: Some(device@), ..self@ }),
    {
        let mut b = self;
        b.inner.device = Some(String::from_str(device));
        b
    }

    /// Sets SafeSearch (`safe`).
    pub fn safe_search(self, safe: &str) -> (r: SearchQueryBuilder)
        ensures
            r@ == (QueryView { safe: Some(safe@), ..self@ }),
    {
        let mut b = self;
        b.inner.safe = Some(String::from_str(safe));
        b
    }

    /// Sets the search type (`tbm`).
    pub fn search_type(self, tbm: &str) -> (r: SearchQueryBuilder)
        ensures
            r@ == (QueryView { tbm: Some(tbm@), ..self@ }),
    {
        let mut b = self;
        b.inner.tbm = Some(String::from_str(tbm));
        b
    }

    /// Sets the location for local results (`location`).
    pub fn location(self, location: &str) -> (r: SearchQueryBuilder)
        ensures
            r@ == (QueryView { location: Some(location@), ..self@ }),
    {
        let mut b = self;
        b.inner.location = Some(String::from_str(location));
        b
    }

    /// The finished query, sent with `api_key`.
    pub fn build(self, api_key: String) -> (r: SearchQuery)
        ensures
            r@ == (QueryView { api_key: api_key@, ..self@ }),
    {
        let mut q = self.inner;
        q.api_key = api_key;
        q
    }

    /// A copy of this builder.
    pub fn duplicate(&self) -> (r: SearchQueryBuilder)
        ensures
            r@ == self@,
    {
        SearchQueryBuilder { inner: self.inner.duplicate() }
    }

    /// An image search (`tbm=isch`).
    pub fn images(self) -> (r: SearchQueryBuilder)
        ensures
            r@ == (QueryView { tbm: Some("isch"@), ..self@ }),
    {
        self.search_type("isch")
    }

    /// A video search (`tbm=vid`).
    pub fn videos(self) -> (r: SearchQueryBuilder)
        ensures
            r@ == (QueryView { tbm: Some("vid"@), ..self@ }),
    {
        self.search_type("vid")
    }

    /// A news search (`tbm=nws`).
    pub fn news(self) -> (r: SearchQueryBuilder)
        ensures
            r@ == (QueryView { tbm: Some("nws"@), ..self@ }),
    {
        self.search_type("nws")
    }

    /// A shopping search (`tbm=shop`).
    pub fn shopping(self) -> (r: SearchQueryBuilder)
        ensures
            r@ == (QueryView { tbm: Some("shop"@), ..self@ }),
    {
        self.search_type("shop")
    }
}

} // verus!
