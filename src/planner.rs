use vstd::prelude::*;
use crate::streams::{copy_list, list_len, list_view, StreamFilter};

verus! {

/// The most values the service takes in one multi-valued selector.
pub const MAX_VALUES: usize = 100;

/// Why a filter cannot be turned into requests.
#[derive(PartialEq, Eq, Structural, Clone, Copy, Debug)]
pub enum PlanError {
    /// No game id, language, user id or user login is given.
    NoSelector,
    /// The game ids or the languages hold more values than one request takes.
    TooManyValues,
}

/// The number of shards that `n` user logins are split into.
pub open spec fn shard_count(n: nat) -> nat {
    (n + 99) / 100
}

/// The user logins of shard `k`: the `k`-th run of at most 100 consecutive logins.
pub open spec fn chunk_of(logins: Seq<String>, k: int) -> Seq<String> {
    logins.subrange(100 * k, if 100 * k + 100 <= logins.len() { 100 * k + 100 } else { logins.len() as int })
}

/// A shard that copies `filter` but for its user logins, which are `logins`.
pub open spec fn shard_of(shard: StreamFilter, filter: StreamFilter, logins: Seq<String>) -> bool {
    &&& shard.after == filter.after
    &&& shard.before == filter.before
    &&& shard.first == filter.first
    &&& list_view(shard.game_ids) == list_view(filter.game_ids)
    &&& list_view(shard.languages) == list_view(filter.languages)
    &&& list_view(shard.user_ids) == list_view(filter.user_ids)
    &&& list_view(shard.user_logins) == Some(logins)
}

/// Whether a filter selects nothing at all.
pub open spec fn has_no_selector(f: StreamFilter) -> bool {
    list_len(f.game_ids) == 0 && list_len(f.languages) == 0 && list_len(f.user_ids) == 0
        && list_len(f.user_logins) == 0
}

/// Whether a filter holds more game ids or languages than one request takes.
pub open spec fn over_limit(f: StreamFilter) -> bool {
    list_len(f.game_ids) > 100 || list_len(f.languages) > 100
}

/// Whether the user logins of a filter are split over several shards.
pub open spec fn splits_logins(f: StreamFilter) -> bool {
    list_len(f.user_logins) > 0
}

/// The length of a list selector that may be absent.
pub fn opt_len(o: &Option<Vec<String>>) -> (r: usize)
    ensures
        r == list_len(*o),
{
    match o {
        Some(v) => v.len(),
        None => 0,
    }
}

/// The filter `filter` with `logins` as its user logins.
fn with_logins(filter: &StreamFilter, logins: Vec<String>) -> (r: StreamFilter)
    ensures
        shard_of(r, *filter, logins@),
{
    StreamFilter {
        after: filter.after.clone(),
        before: filter.before.clone(),
        first: filter.first,
        game_ids: copy_list(&filter.game_ids),
        languages: copy_list(&filter.languages),
        user_ids: copy_list(&filter.user_ids),
        user_logins: Some(logins),
    }
}

/// Splits a filter into the requests to send.
///
/// A filter with no selector, or with more than 100 game ids or languages, is
/// refused. A filter with user logins gives one shard per run of 100
/// consecutive logins, in order, each copying the other fields; any other
/// filter is sent as it is.
pub fn plan(filter: &StreamFilter) -> (r: Result<Vec<StreamFilter>, PlanError>)
    ensures
        has_no_selector(*filter) <==> r == Err::<Vec<StreamFilter>, PlanError>(PlanError::NoSelector),
        (!has_no_selector(*filter) && over_limit(*filter)) <==> r == Err::<Vec<StreamFilter>, PlanError>(PlanError::TooManyValues),
        (!has_no_selector(*filter) && !over_limit(*filter)) <==> r is Ok,
        r is Ok ==> {
            let shards = r->Ok_0@;
            if splits_logins(*filter) {
                let logins = list_view(filter.user_logins)->Some_0;
                &&& shards.len() == shard_count(logins.len())
                &&& forall|k: int| 0 <= k < shards.len() ==> shard_of(#[trigger] shards[k], *filter, chunk_of(logins, k))
            } else {
                &&& shards.len() == 1
                &&& shards[0].after == filter.after && shards[0].before == filter.before && shards[0].first == filter.first
                &&& list_view(shards[0].game_ids) == list_view(filter.game_ids)
                &&& list_view(shards[0].languages) == list_view(filter.languages)
                &&& list_view(shards[0].user_ids) == list_view(filter.user_ids)
                &&& list_view(shards[0].user_logins) == list_view(filter.user_logins)
            }
        },
{
    let games_len = opt_len(&filter.game_ids);
    let languages_len = opt_len(&filter.languages);
    let user_ids_len = opt_len(&filter.user_ids);
    let users_len = opt_len(&filter.user_logins);
    if games_len == 0 && languages_len == 0 && user_ids_len == 0 && users_len == 0 {
        return Err(PlanError::NoSelector);
    }
    if games_len > MAX_VALUES || languages_len > MAX_VALUES {
        return Err(PlanError::TooManyValues);
    }
    let mut shards: Vec<StreamFilter> = Vec::new();
    match &filter.user_logins {
        Some(logins) if logins.len() > 0 => {
            let n = logins.len();
            let mut start: usize = 0;
            while start < n
                invariant
                    n == logins@.len(),
                    start <= n,
                    start < n ==> start == 100 * shards@.len(),
                    start == n ==> shards@.len() == shard_count(n as nat),
                    forall|k: int| 0 <= k < shards@.len() ==> shard_of(#[trigger] shards@[k], *filter, chunk_of(logins@, k)),
                decreases n - start,
            {
                let end: usize = if n - start > MAX_VALUES { start + MAX_VALUES } else { n };
                let mut chunk: Vec<String> = Vec::new();
                let mut i: usize = start;
                while i < end
                    invariant
                        start <= i <= end <= n,
                        n == logins@.len(),
                        chunk@ =~= logins@.subrange(start as int, i as int),
                    decreases end - i,
                {
                    chunk.push(logins[i].clone());
                    i = i + 1;
                }
                let ghost k = shards@.len() as int;
                assert(chunk@ =~= chunk_of(logins@, k));
                shards.push(with_logins(filter, chunk));
                start = end;
                assert(start < n ==> start == 100 * shards@.len());
                assert(start == n ==> shards@.len() == shard_count(n as nat));
            }
        },
        _ => {
            shards.push(filter.duplicate());
        },
    }
    Ok(shards)
}

/// The logins of the first `k` shards, one after the other.
pub open spec fn joined_chunks(logins: Seq<String>, k: nat) -> Seq<String>
    decreases k,
{
    if k == 0 {
        Seq::empty()
    } else {
        joined_chunks(logins, (k - 1) as nat) + chunk_of(logins, k - 1)
    }
}

proof fn lemma_joined_prefix(logins: Seq<String>, k: nat)
    requires
        k <= shard_count(logins.len()),
    ensures
        joined_chunks(logins, k) == logins.subrange(
            0,
            if 100 * k <= logins.len() { (100 * k) as int } else { logins.len() as int },
        ),
    decreases k,
{
    if k > 0 {
        lemma_joined_prefix(logins, (k - 1) as nat);
        assert(100 * (k - 1) < logins.len()) by (nonlinear_arith)
            requires
                k <= (logins.len() + 99) / 100,
                k > 0,
        ;
        assert(joined_chunks(logins, k) =~= logins.subrange(
            0,
            if 100 * k <= logins.len() { (100 * k) as int } else { logins.len() as int },
        ));
    }
}

/// Splitting user logins into shards keeps every login, in their order: the
/// shards' logins, joined, are the logins; each shard holds between 1 and 100.
pub proof fn lemma_shards_keep_logins(logins: Seq<String>)
    ensures
        joined_chunks(logins, shard_count(logins.len())) == logins,
        forall|k: int|
            0 <= k < shard_count(logins.len()) ==> 0 < #[trigger] chunk_of(logins, k).len() <= 100,
{
    let n = logins.len();
    lemma_joined_prefix(logins, shard_count(n));
    assert(100 * shard_count(n) >= n) by (nonlinear_arith)
        requires
            shard_count(n) == (n + 99) / 100,
    ;
    assert(logins.subrange(0, n as int) =~= logins);
    assert forall|k: int| 0 <= k < shard_count(n) implies 0 < #[trigger] chunk_of(logins, k).len() <= 100 by {
        assert(100 * k < n) by (nonlinear_arith)
            requires
                k < (n + 99) / 100,
                0 <= k,
        ;
    }
}

/// A filter of `n` user logins gives `ceil(n / 100)` shards.
pub proof fn lemma_shard_count(n: nat)
    ensures
        shard_count(n) * 100 >= n,
        n > 0 ==> (shard_count(n) - 1) * 100 < n,
{
    assert(shard_count(n) * 100 >= n && (n > 0 ==> (shard_count(n) - 1) * 100 < n)) by (nonlinear_arith)
        requires
            shard_count(n) == (n + 99) / 100,
    ;
}

} // verus!
