use vstd::prelude::*;
use crate::query::{
    decimal, decimal_of, opt_list_params, opt_param, params_view, push_list, push_opt,
    push_opt_list, list_params,
};
use vstd::string::*;

verus! {

/// One live broadcast as the stream query service reports it.
#[derive(Debug, Clone)]
pub struct HelixStream {
    pub id: String,
    pub user_id: String,
    pub user_name: String,
    pub user_login: String,
    pub game_id: String,
    pub stream_type: String,
    pub title: String,
    pub viewer_count: i32,
    pub started_at: String,
    pub language: String,
    pub thumbnail_url: String,
}

/// The selection sent to the stream query service: a cursor, a page size and
/// the multi-valued selectors.
#[derive(Debug, Clone)]
pub struct StreamFilter {
    pub after: Option<String>,
    pub before: Option<String>,
    pub first: Option<i64>,
    pub game_ids: Option<Vec<String>>,
    pub languages: Option<Vec<String>>,
    pub user_ids: Option<Vec<String>>,
    pub user_logins: Option<Vec<String>>,
}

/// The values of a list selector that may be absent.
pub open spec fn list_view(o: Option<Vec<String>>) -> Option<Seq<String>> {
    match o {
        Some(v) => Some(v@),
        None => None,
    }
}

/// The number of values of a list selector; an absent list has none.
pub open spec fn list_len(o: Option<Vec<String>>) -> nat {
    match o {
        Some(v) => v@.len(),
        None => 0,
    }
}

/// The page size the service uses when the filter asks for none.
pub const DEFAULT_PAGE_SIZE: i64 = 20;

/// The page size a filter asks for.
pub open spec fn page_size_of(f: StreamFilter) -> int {
    match f.first {
        Some(n) => n as int,
        None => DEFAULT_PAGE_SIZE as int,
    }
}

/// Two filters that agree on every field.
pub open spec fn same_filter(a: StreamFilter, b: StreamFilter) -> bool {
    &&& a.after == b.after
    &&& a.before == b.before
    &&& a.first == b.first
    &&& list_view(a.game_ids) == list_view(b.game_ids)
    &&& list_view(a.languages) == list_view(b.languages)
    &&& list_view(a.user_ids) == list_view(b.user_ids)
    &&& list_view(a.user_logins) == list_view(b.user_logins)
}

/// The parameters of a stream query for a filter: cursors, page size, then
/// each selector value as a repeated parameter.
pub open spec fn stream_query_spec(f: StreamFilter) -> Seq<(Seq<char>, Seq<char>)> {
    opt_param("after"@, f.after) + opt_param("before"@, f.before) + match f.first {
        Some(n) => seq![("first"@, decimal_of(n as int))],
        None => Seq::empty(),
    } + opt_list_params("game_id"@, f.game_ids) + opt_list_params("language"@, f.languages)
        + opt_list_params("user_id"@, f.user_ids) + opt_list_params("user_login"@, f.user_logins)
}

/// The parameters of a stream query on one kind of selector: page size, each
/// value, then the cursors.
pub open spec fn list_query_spec(
    key: Seq<char>,
    vals: Seq<String>,
    first: i32,
    after: Option<String>,
    before: Option<String>,
) -> Seq<(Seq<char>, Seq<char>)> {
    seq![("first"@, decimal_of(first as int))] + list_params(key, vals) + opt_param("after"@, after)
        + opt_param("before"@, before)
}

/// A copy of a list selector.
pub fn copy_list(o: &Option<Vec<String>>) -> (r: Option<Vec<String>>)
    ensures
        list_view(r) == list_view(*o),
{
    match o {
        Some(v) => {
            let c = v.clone();
            assert(c@ =~= v@);
            Some(c)
        },
        None => None,
    }
}

impl Default for StreamFilter {
    /// A filter with no cursor, no selector and pages of 100 streams.
    fn default() -> (r: StreamFilter)
        ensures
            r.after is None,
            r.before is None,
            r.first == Some(100i64),
            r.game_ids is None,
            r.languages is None,
            r.user_ids is None,
            r.user_logins is None,
    {
        StreamFilter {
            after: None,
            before: None,
            first: Some(100),
            game_ids: None,
            languages: None,
            user_ids: None,
            user_logins: None,
        }
    }
}

impl StreamFilter {
    /// A copy of the filter.
    pub fn duplicate(&self) -> (r: StreamFilter)
        ensures
            same_filter(r, *self),
    {
        StreamFilter {
            after: self.after.clone(),
            before: self.before.clone(),
            first: self.first,
            game_ids: copy_list(&self.game_ids),
            languages: copy_list(&self.languages),
            user_ids: copy_list(&self.user_ids),
            user_logins: copy_list(&self.user_logins),
        }
    }
}

/// The query parameters of a stream request for `filter`.
pub fn stream_query(filter: &StreamFilter) -> (r: Vec<(String, String)>)
    ensures
        params_view(r@) == stream_query_spec(*filter),
{
    let mut data: Vec<(String, String)> = Vec::new();
    assert(params_view(data@) =~= Seq::empty());
    push_opt(&mut data, "after", &filter.after);
    push_opt(&mut data, "before", &filter.before);
    let ghost mid = data@;
    match filter.first {
        Some(n) => {
            data.push((String::from_str("first"), decimal(n)));
            assert(params_view(data@) =~= params_view(mid) + seq![("first"@, decimal_of(n as int))]);
        },
        None => {},
    }
    push_opt_list(&mut data, "game_id", &filter.game_ids);
    push_opt_list(&mut data, "language", &filter.languages);
    push_opt_list(&mut data, "user_id", &filter.user_ids);
    push_opt_list(&mut data, "user_login", &filter.user_logins);
    assert(params_view(data@) =~= stream_query_spec(*filter));
    data
}

/// The query parameters of a stream request on the values of one selector.
pub fn list_query(
    key: &str,
    vals: &Vec<String>,
    first: i32,
    after: Option<String>,
    before: Option<String>,
) -> (r: Vec<(String, String)>)
    ensures
        params_view(r@) == list_query_spec(key@, vals@, first, after, before),
{
    let mut data: Vec<(String, String)> = Vec::new();
    data.push((String::from_str("first"), decimal(first as i64)));
    assert(params_view(data@) =~= seq![("first"@, decimal_of(first as int))]);
    push_list(&mut data, key, vals);
    push_opt(&mut data, "after", &after);
    push_opt(&mut data, "before", &before);
    assert(params_view(data@) =~= list_query_spec(key@, vals@, first, after, before));
    data
}

/// The query parameters of a stream request on game ids.
pub fn games_query(game_ids: &Vec<String>, first: i32, after: Option<String>, before: Option<String>) -> (r: Vec<(String, String)>)
    ensures
        params_view(r@) == list_query_spec("game_id"@, game_ids@, first, after, before),
{
    list_query("game_id", game_ids, first, after, before)
}

/// The query parameters of a stream request on user ids.
pub fn users_query(user_ids: &Vec<String>, first: i32, after: Option<String>, before: Option<String>) -> (r: Vec<(String, String)>)
    ensures
        params_view(r@) == list_query_spec("user_id"@, user_ids@, first, after, before),
{
    list_query("user_id", user_ids, first, after, before)
}

/// The query parameters of a stream request on user logins.
pub fn users_login_query(
    user_logins: &Vec<String>,
    first: i32,
    after: Option<String>,
    before: Option<String>,
) -> (r: Vec<(String, String)>)
    ensures
        params_view(r@) == list_query_spec("user_login"@, user_logins@, first, after, before),
{
    list_query("user_login", user_logins, first, after, before)
}

} // verus!
