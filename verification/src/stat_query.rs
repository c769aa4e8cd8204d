//! The four query variants and the query-to-index routing: each variant
//! resolves to one index, one attribute-name pair, a partition key, a sort
//! prefix, a scan direction and a limit. The storage scan itself is the
//! collaborator's job; decoding what it returns is here.

use vstd::prelude::*;
use crate::db_constants::KeyName;
use crate::db_item::{Attr, pairs_view, pk_of, gsi_pk_of, user_day_prefix, day_prefix};
use crate::error::QueryError;
use crate::stat_view::{StatView, decoded_stat};

verus! {

/// Scan direction; `Descending` (highest scores first) is the default.
#[derive(Debug, Clone, Copy, PartialEq, Eq, Structural)]
pub enum Sort {
    Ascending,
    Descending,
}

impl Default for Sort {
    fn default() -> (r: Self)
        ensures
            r == Sort::Descending,
    {
        Sort::Descending
    }
}

/// How many items a query returns at most; the parser only builds values
/// in [1, 1000]. The default is 1.
#[derive(Debug, Clone, Copy, PartialEq, Eq, Structural)]
pub struct Count(pub u32);

impl Default for Count {
    fn default() -> (r: Self)
        ensures
            r == Count(1u32),
    {
        Count(1)
    }
}

/// One user's best scores on one day (primary index).
pub struct UserDailyHighScoreQuery {
    pub user: String,
    pub game: String,
    pub stat: String,
    pub day: String,
    pub count: Count,
    pub sort: Sort,
}

/// One user's all-time best scores (local secondary index).
pub struct UserHighScoreQuery {
    pub user: String,
    pub game: String,
    pub stat: String,
    pub count: Count,
    pub sort: Sort,
}

/// All users' best scores on one day (first global secondary index).
pub struct DailyHighScoreQuery {
    pub game: String,
    pub stat: String,
    pub day: String,
    pub count: Count,
    pub sort: Sort,
}

/// All-time best scores (second global secondary index).
pub struct UniversalHighScoreQuery {
    pub game: String,
    pub stat: String,
    pub count: Count,
    pub sort: Sort,
}

/// A typed query, one of the four access patterns.
pub enum StatQuery {
    UserDailyHighScoreQuery(UserDailyHighScoreQuery),
    UserHighScoreQuery(UserHighScoreQuery),
    DailyHighScoreQuery(DailyHighScoreQuery),
    UniversalHighScoreQuery(UniversalHighScoreQuery),
}

/// The index each variant is served from, with its attribute-name pair:
/// `None` is the primary index.
pub open spec fn route_of(q: StatQuery) -> (Option<Seq<char>>, Seq<char>, Seq<char>) {
    match q {
        StatQuery::UserDailyHighScoreQuery(_) => (None, "PK"@, "SK"@),
        StatQuery::UserHighScoreQuery(_) => (Some("LSI1"@), "PK"@, "LSI-SK"@),
        StatQuery::DailyHighScoreQuery(_) => (Some("GSI1"@), "GSI1-PK"@, "GSI1-SK"@),
        StatQuery::UniversalHighScoreQuery(_) => (Some("GSI2"@), "GSI2-PK"@, "GSI2-SK"@),
    }
}

pub open spec fn opt_string_view(o: Option<String>) -> Option<Seq<char>> {
    match o {
        None => None,
        Some(s) => Some(s@),
    }
}

/// Everything the storage collaborator needs for one range scan.
pub struct QueryPlan {
    /// The index to query, or `None` for the primary index.
    pub index_name: Option<String>,
    /// The attribute names the key condition binds.
    pub key_names: KeyName,
    /// The exact partition-key value.
    pub partition_key: String,
    /// The sort-key prefix for the `begins_with` predicate.
    pub sort_key_prefix: String,
    /// Scan forward exactly when the order is ascending.
    pub scan_forward: bool,
    /// The item limit.
    pub limit: u32,
}

impl StatQuery {
    /// Index routing: resolves this query to its index, key attributes,
    /// key expressions, direction and limit, per the routing table.
    pub fn query_plan(&self) -> (p: QueryPlan)
        ensures
            opt_string_view(p.index_name) == route_of(*self).0,
            p.key_names.pk_view() == route_of(*self).1,
            p.key_names.sk_view() == route_of(*self).2,
            match *self {
                StatQuery::UserDailyHighScoreQuery(q) => p.partition_key@ == pk_of(q.user@)
                    && p.sort_key_prefix@ == user_day_prefix(q.game@, q.day@, q.stat@)
                    && p.scan_forward == (q.sort == Sort::Ascending) && p.limit == q.count.0,
                StatQuery::UserHighScoreQuery(q) => p.partition_key@ == pk_of(q.user@)
                    && p.sort_key_prefix@ == gsi_pk_of(q.game@, q.stat@) && p.scan_forward == (
                q.sort == Sort::Ascending) && p.limit == q.count.0,
                StatQuery::DailyHighScoreQuery(q) => p.partition_key@ == gsi_pk_of(
                    q.game@,
                    q.stat@,
                ) && p.sort_key_prefix@ == day_prefix(q.day@) && p.scan_forward == (q.sort
                    == Sort::Ascending) && p.limit == q.count.0,
                StatQuery::UniversalHighScoreQuery(q) => p.partition_key@ == gsi_pk_of(
                    q.game@,
                    q.stat@,
                ) && p.sort_key_prefix@ == "Value#"@ && p.scan_forward == (q.sort
                    == Sort::Ascending) && p.limit == q.count.0,
            },
    {
        proof {
            crate::db_constants::lemma_index_names_distinct();
        }
        match self {
            StatQuery::UserDailyHighScoreQuery(q) => QueryPlan {
                index_name: None,
                key_names: KeyName::from_index_name(None),
                partition_key: crate::db_item::build_pk(q.user.as_str()),
                sort_key_prefix: crate::db_item::build_user_day_prefix(
                    q.game.as_str(),
                    q.day.as_str(),
                    q.stat.as_str(),
                ),
                scan_forward: matches!(q.sort, Sort::Ascending),
                limit: q.count.0,
            },
            StatQuery::UserHighScoreQuery(q) => QueryPlan {
                index_name: Some("LSI1".to_owned()),
                key_names: KeyName::from_index_name(Some("LSI1")),
                partition_key: crate::db_item::build_pk(q.user.as_str()),
                sort_key_prefix: crate::db_item::build_gsi_pk(q.game.as_str(), q.stat.as_str()),
                scan_forward: matches!(q.sort, Sort::Ascending),
                limit: q.count.0,
            },
            StatQuery::DailyHighScoreQuery(q) => QueryPlan {
                index_name: Some("GSI1".to_owned()),
                key_names: KeyName::from_index_name(Some("GSI1")),
                partition_key: crate::db_item::build_gsi_pk(q.game.as_str(), q.stat.as_str()),
                sort_key_prefix: crate::db_item::build_day_prefix(q.day.as_str()),
                scan_forward: matches!(q.sort, Sort::Ascending),
                limit: q.count.0,
            },
            StatQuery::UniversalHighScoreQuery(q) => QueryPlan {
                index_name: Some("GSI2".to_owned()),
                key_names: KeyName::from_index_name(Some("GSI2")),
                partition_key: crate::db_item::build_gsi_pk(q.game.as_str(), q.stat.as_str()),
                sort_key_prefix: "Value#".to_owned(),
                scan_forward: matches!(q.sort, Sort::Ascending),
                limit: q.count.0,
            },
        }
    }
}

/// Index routing totality: every query variant resolves to exactly one
/// index and attribute-name pair — `route_of` is a total function, and
/// these are its four rows.
pub proof fn lemma_index_routing_total(q: StatQuery)
    ensures
        q is UserDailyHighScoreQuery ==> route_of(q) == (
            Option::<Seq<char>>::None,
            "PK"@,
            "SK"@,
        ),
        q is UserHighScoreQuery ==> route_of(q) == (Some("LSI1"@), "PK"@, "LSI-SK"@),
        q is DailyHighScoreQuery ==> route_of(q) == (Some("GSI1"@), "GSI1-PK"@, "GSI1-SK"@),
        q is UniversalHighScoreQuery ==> route_of(q) == (Some("GSI2"@), "GSI2-PK"@, "GSI2-SK"@),
{
}

/// Decodes every returned item, in storage order. Fails on the first item
/// that does not decode; storage items are never silently dropped.
pub fn decode_items(items: &Vec<Vec<(String, Attr)>>) -> (r: Result<Vec<StatView>, QueryError>)
    ensures
        match r {
            Ok(vs) => vs@.len() == items@.len() && forall|i: int|
                0 <= i < items@.len() ==> decoded_stat(pairs_view((#[trigger] items@[i])@))
                    == Some(vs@[i]@),
            Err(QueryError::Parse(_)) => exists|i: int|
                0 <= i < items@.len() && decoded_stat(pairs_view((#[trigger] items@[i])@)) is None,
            Err(QueryError::Db(_)) => false,
        },
{
    let mut out: Vec<StatView> = Vec::new();
    let mut i: usize = 0;
    while i < items.len()
        invariant
            0 <= i <= items@.len(),
            out@.len() == i,
            forall|j: int|
                0 <= j < i ==> decoded_stat(pairs_view((#[trigger] items@[j])@)) == Some(
                    out@[j]@,
                ),
        decreases items@.len() - i,
    {
        match StatView::from_item(&items[i]) {
            Ok(v) => {
                out.push(v);
            },
            Err(e) => {
                return Err(QueryError::Parse(e));
            },
        }
        i = i + 1;
    }
    Ok(out)
}

} // verus!
