//! Search requests: the parameters of a search, their builder, and the
//! query string and address that carry them to the service.

use crate::date::{format_date, formatted_date, Date};
use crate::field::date_format;
use crate::text::{join, joined, views, written_view};
use std::collections::BTreeMap;
use vstd::prelude::*;
use vstd::string::StringExecFns;

verus! {

/// The parameters of a search. A parameter that is `None` is left out of
/// the request, and the service applies its default.
#[derive(Debug, PartialEq, Eq)]
pub struct Request {
    /// The kind of record to search for: `reference`, `manual`,
    /// `collection`, `profile` or `all`.
    pub search_type: Option<String>,
    /// The search condition as query text.
    pub query: Option<String>,
    /// The earliest day on which a record was written.
    pub crt_date_from: Option<Date>,
    /// The latest day on which a record was written.
    pub crt_date_to: Option<Date>,
    /// The earliest day on which a record was registered.
    pub reg_date_from: Option<Date>,
    /// The latest day on which a record was registered.
    pub reg_date_to: Option<Date>,
    /// The earliest day on which a record was last changed.
    pub lst_date_from: Option<Date>,
    /// The latest day on which a record was last changed.
    pub lst_date_to: Option<Date>,
    /// The code of the providing library.
    pub lib_id: Option<String>,
    /// The group of libraries to search in.
    pub lib_group: Option<String>,
    /// The position of the first result to return, from 1.
    pub results_get_position: Option<i32>,
    /// The number of results to return.
    pub results_num: Option<i32>,
    /// The key to sort the results by.
    pub sort: Option<String>,
    /// The direction of the sort: `asc` or `desc`.
    pub sort_order: Option<String>,
}

/// The mathematical value of a [`Request`].
pub ghost struct RequestView {
    pub search_type: Option<Seq<char>>,
    pub query: Option<Seq<char>>,
    pub crt_date_from: Option<Date>,
    pub crt_date_to: Option<Date>,
    pub reg_date_from: Option<Date>,
    pub reg_date_to: Option<Date>,
    pub lst_date_from: Option<Date>,
    pub lst_date_to: Option<Date>,
    pub lib_id: Option<Seq<char>>,
    pub lib_group: Option<Seq<char>>,
    pub results_get_position: Option<i32>,
    pub results_num: Option<i32>,
    pub sort: Option<Seq<char>>,
    pub sort_order: Option<Seq<char>>,
}

/// The request that sets no parameter.
pub open spec fn empty_request() -> RequestView {
    RequestView {
        search_type: None,
        query: None,
        crt_date_from: None,
        crt_date_to: None,
        reg_date_from: None,
        reg_date_to: None,
        lst_date_from: None,
        lst_date_to: None,
        lib_id: None,
        lib_group: None,
        results_get_position: None,
        results_num: None,
        sort: None,
        sort_order: None,
    }
}

impl View for Request {
    type V = RequestView;

    open spec fn view(&self) -> RequestView {
        RequestView {
            search_type: written_view(self.search_type),
            query: written_view(self.query),
            crt_date_from: self.crt_date_from,
            crt_date_to: self.crt_date_to,
            reg_date_from: self.reg_date_from,
            reg_date_to: self.reg_date_to,
            lst_date_from: self.lst_date_from,
            lst_date_to: self.lst_date_to,
            lib_id: written_view(self.lib_id),
            lib_group: written_view(self.lib_group),
            results_get_position: self.results_get_position,
            results_num: self.results_num,
            sort: written_view(self.sort),
            sort_order: written_view(self.sort_order),
        }
    }
}

impl Default for Request {
    fn default() -> (request: Request)
        ensures
            request@ == empty_request(),
    {
        Request {
            search_type: None,
            query: None,
            crt_date_from: None,
            crt_date_to: None,
            reg_date_from: None,
            reg_date_to: None,
            lst_date_from: None,
            lst_date_to: None,
            lib_id: None,
            lib_group: None,
            results_get_position: None,
            results_num: None,
            sort: None,
            sort_order: None,
        }
    }
}

/// The decimal digit for a number below ten.
pub open spec fn digit(d: nat) -> char {
    if d == 0 {
        '0'
    } else if d == 1 {
        '1'
    } else if d == 2 {
        '2'
    } else if d == 3 {
        '3'
    } else if d == 4 {
        '4'
    } else if d == 5 {
        '5'
    } else if d == 6 {
        '6'
    } else if d == 7 {
        '7'
    } else if d == 8 {
        '8'
    } else {
        '9'
    }
}

/// The decimal digits of a natural number, without leading zeros.
pub open spec fn digits(n: nat) -> Seq<char>
    decreases n,
{
    if n < 10 {
        seq![digit(n)]
    } else {
        digits(n / 10).push(digit(n % 10))
    }
}

/// A whole number in decimal, with a minus sign if it is negative.
pub open spec fn decimal(n: int) -> Seq<char> {
    if n < 0 {
        seq!['-'] + digits((-n) as nat)
    } else {
        digits(n as nat)
    }
}

fn digit_text(d: u32) -> (text: &'static str)
    requires
        d < 10,
    ensures
        text@ == seq![digit(d as nat)],
{
    proof {
        reveal_strlit("0");
        reveal_strlit("1");
        reveal_strlit("2");
        reveal_strlit("3");
        reveal_strlit("4");
        reveal_strlit("5");
        reveal_strlit("6");
        reveal_strlit("7");
        reveal_strlit("8");
        reveal_strlit("9");
    }
    let text = if d == 0 {
        "0"
    } else if d == 1 {
        "1"
    } else if d == 2 {
        "2"
    } else if d == 3 {
        "3"
    } else if d == 4 {
        "4"
    } else if d == 5 {
        "5"
    } else if d == 6 {
        "6"
    } else if d == 7 {
        "7"
    } else if d == 8 {
        "8"
    } else {
        "9"
    };
    assert(text@ =~= seq![digit(d as nat)]);
    text
}

fn digits_text(n: u32) -> (text: String)
    ensures
        text@ == digits(n as nat),
    decreases n,
{
    if n < 10 {
        digit_text(n).to_owned()
    } else {
        let mut text = digits_text(n / 10);
        text.append(digit_text(n % 10));
        assert(text@ =~= digits(n as nat));
        text
    }
}

/// Writes a number in decimal.
pub fn decimal_text(n: i32) -> (text: String)
    ensures
        text@ == decimal(n as int),
{
    if n < 0 {
        proof {
            reveal_strlit("-");
            assert("-"@ =~= seq!['-']);
        }
        let magnitude: u32 = (-(n as i64)) as u32;
        let mut text = "-".to_owned();
        text.append(digits_text(magnitude).as_str());
        text
    } else {
        digits_text(n as u32)
    }
}

/// What `serde_qs` writes for a map that holds the one entry `name` to
/// `value`: the name, an equals sign and the value, each in the escaped
/// form that a query string asks for.
pub uninterp spec fn encoded_pair(name: Seq<char>, value: Seq<char>) -> Seq<char>;

/// Calls `serde_qs::to_string` on a map with the single entry `name` to
/// `value`. The result is [`encoded_pair`] of the two texts; nothing more
/// is claimed of it. Should `serde_qs` report an error, the result is the
/// empty text.
#[verifier::external_body]
fn encode_pair(name: &str, value: &str) -> (encoded: String)
    ensures
        encoded@ == encoded_pair(name@, value@),
{
    let mut single = BTreeMap::new();
    single.insert(name, value);
    serde_qs::to_string(&single).unwrap_or_default()
}

/// The names and values of a list of parameters as character sequences.
pub open spec fn param_views(params: Seq<(String, String)>) -> Seq<(Seq<char>, Seq<char>)> {
    Seq::new(params.len(), |i: int| (params[i].0@, params[i].1@))
}

/// The parameter `name`, if it has a value.
pub open spec fn text_param(name: Seq<char>, value: Option<Seq<char>>) -> Seq<
    (Seq<char>, Seq<char>),
> {
    match value {
        Some(text) => seq![(name, text)],
        None => Seq::empty(),
    }
}

/// A day written as year, month and day in digits; nothing where there is
/// no day, or no such day in the calendar.
pub open spec fn day_text(value: Option<Date>) -> Option<Seq<char>> {
    match value {
        Some(date) => formatted_date(date, date_format()),
        None => None,
    }
}

/// A number written in decimal; nothing where there is no number.
pub open spec fn number_text(value: Option<i32>) -> Option<Seq<char>> {
    match value {
        Some(n) => Some(decimal(n as int)),
        None => None,
    }
}

/// The parameters that a request sends, by name and value, in the order
/// in which they are sent.
pub open spec fn params_of(request: RequestView) -> Seq<(Seq<char>, Seq<char>)> {
    text_param("type"@, request.search_type) + text_param("query"@, request.query) + text_param(
        "crt-date_from"@,
        day_text(request.crt_date_from),
    ) + text_param("crt-date_to"@, day_text(request.crt_date_to)) + text_param(
        "reg-date_from"@,
        day_text(request.reg_date_from),
    ) + text_param("reg-date_to"@, day_text(request.reg_date_to)) + text_param(
        "lst-date_from"@,
        day_text(request.lst_date_from),
    ) + text_param("lst-date_to"@, day_text(request.lst_date_to)) + text_param(
        "lib-id"@,
        request.lib_id,
    ) + text_param("lib-group"@, request.lib_group) + text_param(
        "results_get_position"@,
        number_text(request.results_get_position),
    ) + text_param("results_num"@, number_text(request.results_num)) + text_param(
        "sort"@,
        request.sort,
    ) + text_param("sort_order"@, request.sort_order)
}

/// The escaped form of each parameter, in the order of the parameters.
pub open spec fn encoded_params(params: Seq<(Seq<char>, Seq<char>)>) -> Seq<Seq<char>> {
    Seq::new(params.len(), |i: int| encoded_pair(params[i].0, params[i].1))
}

/// The query string for a list of parameters: their escaped forms, joined
/// by `&`.
pub open spec fn query_string_of(params: Seq<(Seq<char>, Seq<char>)>) -> Seq<char> {
    joined(encoded_params(params), seq!['&'])
}

/// The address of the search service.
pub open spec fn endpoint() -> Seq<char> {
    "https://crd.ndl.go.jp/api/refsearch"@
}

/// The query of a plain search for `search_term`: the term, in double
/// quotes, is looked for anywhere in a record.
pub open spec fn plain_query(search_term: Seq<char>) -> Seq<char> {
    "anywhere = \""@ + search_term + "\""@
}

/// Adds the parameter `name` to the list if it has a value, and leaves the
/// list as it is if it has none.
pub fn push_param(params: &mut Vec<(String, String)>, name: &str, value: Option<String>)
    ensures
        param_views(final(params)@) == param_views(old(params)@) + text_param(
            name@,
            written_view(value),
        ),
{
    if let Some(text) = value {
        params.push((name.to_owned(), text));
    }
    assert(param_views(params@) =~= param_views(old(params)@) + text_param(
        name@,
        written_view(value),
    ));
}

/// Joins the escaped forms of the parameters into a query string.
pub fn join_encoded(encoded: &Vec<String>) -> (text: String)
    ensures
        text@ == joined(views(encoded@), seq!['&']),
{
    proof {
        reveal_strlit("&");
        assert("&"@ =~= seq!['&']);
    }
    join(encoded, "&")
}

fn text_of(value: &Option<String>) -> (copy: Option<String>)
    ensures
        written_view(copy) == written_view(*value),
{
    match value {
        Some(text) => Some(text.clone()),
        None => None,
    }
}

fn day_of(value: &Option<Date>) -> (text: Option<String>)
    ensures
        written_view(text) == day_text(*value),
{
    proof {
        reveal_strlit("%Y%m%d");
        assert("%Y%m%d"@ =~= date_format());
    }
    match value {
        Some(date) => format_date(date, "%Y%m%d"),
        None => None,
    }
}

fn number_of(value: &Option<i32>) -> (text: Option<String>)
    ensures
        written_view(text) == number_text(*value),
{
    match value {
        Some(n) => Some(decimal_text(*n)),
        None => None,
    }
}

impl Request {
    /// The request for a plain search: `search_term` is looked for
    /// anywhere in a record, and no other parameter is set.
    pub fn new(search_term: &str) -> (request: Request)
        ensures
            request@ == (RequestView { query: Some(plain_query(search_term@)), ..empty_request() }),
    {
        let mut query = "anywhere = \"".to_owned();
        query.append(search_term);
        query.append("\"");
        let mut request = Request::default();
        request.query = Some(query);
        request
    }

    /// The parameters that the request sends, by name and value, in the
    /// order in which they are sent.
    pub fn params(&self) -> (params: Vec<(String, String)>)
        ensures
            param_views(params@) == params_of(self@),
    {
        let mut params: Vec<(String, String)> = Vec::new();
        assert(param_views(params@) =~= Seq::empty());
        push_param(&mut params, "type", text_of(&self.search_type));
        push_param(&mut params, "query", text_of(&self.query));
        push_param(&mut params, "crt-date_from", day_of(&self.crt_date_from));
        push_param(&mut params, "crt-date_to", day_of(&self.crt_date_to));
        push_param(&mut params, "reg-date_from", day_of(&self.reg_date_from));
        push_param(&mut params, "reg-date_to", day_of(&self.reg_date_to));
        push_param(&mut params, "lst-date_from", day_of(&self.lst_date_from));
        push_param(&mut params, "lst-date_to", day_of(&self.lst_date_to));
        push_param(&mut params, "lib-id", text_of(&self.lib_id));
        push_param(&mut params, "lib-group", text_of(&self.lib_group));
        push_param(&mut params, "results_get_position", number_of(&self.results_get_position));
        push_param(&mut params, "results_num", number_of(&self.results_num));
        push_param(&mut params, "sort", text_of(&self.sort));
        push_param(&mut params, "sort_order", text_of(&self.sort_order));
        assert(param_views(params@) =~= params_of(self@));
        params
    }

    /// The request as a query string.
    pub fn query_string(&self) -> (text: String)
        ensures
            text@ == query_string_of(params_of(self@)),
    {
        let params = self.params();
        let mut encoded: Vec<String> = Vec::new();
        let mut i: usize = 0;
        while i < params.len()
            invariant
                i <= params@.len(),
                encoded@.len() == i,
                forall|k: int|
                    0 <= k < i ==> (#[trigger] encoded@[k])@ == encoded_pair(
                        params@[k].0@,
                        params@[k].1@,
                    ),
            decreases params@.len() - i,
        {
            encoded.push(encode_pair(params[i].0.as_str(), params[i].1.as_str()));
            i += 1;
        }
        assert(views(encoded@) =~= encoded_params(param_views(params@)));
        join_encoded(&encoded)
    }

    /// The address that the request is sent to: the address of the
    /// service, a question mark and the query string.
    pub fn url(&self) -> (text: String)
        ensures
            text@ == endpoint() + seq!['?'] + query_string_of(params_of(self@)),
    {
        proof {
            reveal_strlit("?");
            assert("?"@ =~= seq!['?']);
        }
        let mut text = "https://crd.ndl.go.jp/api/refsearch".to_owned();
        text.append("?");
        text.append(self.query_string().as_str());
        text
    }
}

impl Clone for Request {
    fn clone(&self) -> (copy: Request)
        ensures
            copy@ == self@,
    {
        Request {
            search_type: text_of(&self.search_type),
            query: text_of(&self.query),
            crt_date_from: self.crt_date_from,
            crt_date_to: self.crt_date_to,
            reg_date_from: self.reg_date_from,
            reg_date_to: self.reg_date_to,
            lst_date_from: self.lst_date_from,
            lst_date_to: self.lst_date_to,
            lib_id: text_of(&self.lib_id),
            lib_group: text_of(&self.lib_group),
            results_get_position: self.results_get_position,
            results_num: self.results_num,
            sort: text_of(&self.sort),
            sort_order: text_of(&self.sort_order),
        }
    }
}

/// Why a request could not be built.
#[derive(Debug, Clone, PartialEq, Eq)]
pub enum RequestBuilderError {
    /// A parameter that must be set was not.
    UninitializedField(&'static str),
    /// The parameters do not go together.
    ValidationError(String),
}

/// Collects the parameters of a request one by one. A parameter that is
/// never set stays out of the request.
#[derive(Debug)]
pub struct RequestBuilder {
    request: Request,
}

impl View for RequestBuilder {
    type V = RequestView;

    closed spec fn view(&self) -> RequestView {
        self.request@
    }
}

impl Default for RequestBuilder {
    fn default() -> (builder: RequestBuilder)
        ensures
            builder@ == empty_request(),
    {
        RequestBuilder { request: Request::default() }
    }
}

impl Clone for RequestBuilder {
    fn clone(&self) -> (copy: RequestBuilder)
        ensures
            copy@ == self@,
    {
        RequestBuilder { request: self.request.clone() }
    }
}

impl RequestBuilder {
    /// The kind of record to search for.
    pub fn search_type(&mut self, value: &str) -> (chained: &mut RequestBuilder)
        ensures
            chained@ == (RequestView { search_type: Some(value@), ..old(self)@ }),
            *final(self) == *final(chained),
    {
        self.request.search_type = Some(value.to_owned());
        self
    }

    /// The search condition as query text.
    pub fn query(&mut self, value: &str) -> (chained: &mut RequestBuilder)
        ensures
            chained@ == (RequestView { query: Some(value@), ..old(self)@ }),
            *final(self) == *final(chained),
    {
        self.request.query = Some(value.to_owned());
        self
    }

    /// The earliest day on which a record was written.
    pub fn crt_date_from(&mut self, value: Date) -> (chained: &mut RequestBuilder)
        ensures
            chained@ == (RequestView { crt_date_from: Some(value), ..old(self)@ }),
            *final(self) == *final(chained),
    {
        self.request.crt_date_from = Some(value);
        self
    }

    /// The latest day on which a record was written.
    pub fn crt_date_to(&mut self, value: Date) -> (chained: &mut RequestBuilder)
        ensures
            chained@ == (RequestView { crt_date_to: Some(value), ..old(self)@ }),
            *final(self) == *final(chained),
    {
        self.request.crt_date_to = Some(value);
        self
    }

    /// The earliest day on which a record was registered.
    pub fn reg_date_from(&mut self, value: Date) -> (chained: &mut RequestBuilder)
        ensures
            chained@ == (RequestView { reg_date_from: Some(value), ..old(self)@ }),
            *final(self) == *final(chained),
    {
        self.request.reg_date_from = Some(value);
        self
    }

    /// The latest day on which a record was registered.
    pub fn reg_date_to(&mut self, value: Date) -> (chained: &mut RequestBuilder)
        ensures
            chained@ == (RequestView { reg_date_to: Some(value), ..old(self)@ }),
            *final(self) == *final(chained),
    {
        self.request.reg_date_to = Some(value);
        self
    }

    /// The earliest day on which a record was last changed.
    pub fn lst_date_from(&mut self, value: Date) -> (chained: &mut RequestBuilder)
        ensures
            chained@ == (RequestView { lst_date_from: Some(value), ..old(self)@ }),
            *final(self) == *final(chained),
    {
        self.request.lst_date_from = Some(value);
        self
    }

    /// The latest day on which a record was last changed.
    pub fn lst_date_to(&mut self, value: Date) -> (chained: &mut RequestBuilder)
        ensures
            chained@ == (RequestView { lst_date_to: Some(value), ..old(self)@ }),
            *final(self) == *final(chained),
    {
        self.request.lst_date_to = Some(value);
        self
    }

    /// The code of the providing library.
    pub fn lib_id(&mut self, value: &str) -> (chained: &mut RequestBuilder)
        ensures
            chained@ == (RequestView { lib_id: Some(value@), ..old(self)@ }),
            *final(self) == *final(chained),
    {
        self.request.lib_id = Some(value.to_owned());
        self
    }

    /// The group of libraries to search in.
    pub fn lib_group(&mut self, value: &str) -> (chained: &mut RequestBuilder)
        ensures
            chained@ == (RequestView { lib_group: Some(value@), ..old(self)@ }),
            *final(self) == *final(chained),
    {
        self.request.lib_group = Some(value.to_owned());
        self
    }

    /// The position of the first result to return, from 1.
    pub fn results_get_position(&mut self, value: i32) -> (chained: &mut RequestBuilder)
        ensures
            chained@ == (RequestView { results_get_position: Some(value), ..old(self)@ }),
            *final(self) == *final(chained),
    {
        self.request.results_get_position = Some(value);
        self
    }

    /// The number of results to return.
    pub fn results_num(&mut self, value: i32) -> (chained: &mut RequestBuilder)
        ensures
            chained@ == (RequestView { results_num: Some(value), ..old(self)@ }),
            *final(self) == *final(chained),
    {
        self.request.results_num = Some(value);
        self
    }

    /// The key to sort the results by.
    pub fn sort(&mut self, value: &str) -> (chained: &mut RequestBuilder)
        ensures
            chained@ == (RequestView { sort: Some(value@), ..old(self)@ }),
            *final(self) == *final(chained),
    {
        self.request.sort = Some(value.to_owned());
        self
    }

    /// The direction of the sort.
    pub fn sort_order(&mut self, value: &str) -> (chained: &mut RequestBuilder)
        ensures
            chained@ == (RequestView { sort_order: Some(value@), ..old(self)@ }),
            *final(self) == *final(chained),
    {
        self.request.sort_order = Some(value.to_owned());
        self
    }

    /// The request with the parameters set so far. It always succeeds: no
    /// parameter must be set.
    pub fn build(&self) -> (built: Result<Request, RequestBuilderError>)
        ensures
            built matches Ok(request) && request@ == self@,
    {
        Ok(self.request.clone())
    }
}

} // verus!
