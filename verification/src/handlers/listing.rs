//! What the two reference-data listings share: optional equality filters, and a cache
//! entry for the whole collection that only an unfiltered request may use.

use crate::cache::aside::{CacheSlot, CacheSlotView};
use crate::query::builder::{quote_literal, quoted};
use crate::query::safety::lemma_quoted_is_well_quoted;
use crate::text::{
    double_quotes, double_single_quotes, join, join_strings, lemma_plain_is_well_quoted, lemma_retain_admitted, lemma_well_quoted_concat,
    lemma_well_quoted_join, plain, retain, retain_chars, well_quoted, Charset,
};
use crate::views::lemma_pushed;
use vstd::prelude::*;
use vstd::string::StringExecFns;

verus! {

/// How long a listing stays in the cache: one hour.
pub const LISTING_TTL_SECONDS: u64 = 3600;

/// The text that stands for a filter value: its quotes doubled, then cut down to letters,
/// digits, hyphens, underscores and spaces.
pub open spec fn escaped(value: Seq<char>) -> Seq<char> {
    retain(double_quotes(value), Charset::Label)
}

pub fn escape_label(s: &str) -> (out: String)
    ensures
        out@ == escaped(s@),
{
    let doubled = double_single_quotes(s);
    retain_chars(doubled.as_str(), Charset::Label)
}

/// The condition of an optional filter: none where the filter is absent.
pub open spec fn equals_filter(column: Seq<char>, value: Option<Seq<char>>) -> Seq<Seq<char>> {
    match value {
        Some(text) => seq![column + " = "@ + quoted(escaped(text))],
        None => Seq::empty(),
    }
}

/// The conditions of a listing, joined; nothing where there is none.
pub open spec fn where_text(conditions: Seq<Seq<char>>) -> Seq<char> {
    if conditions.len() == 0 {
        Seq::empty()
    } else {
        " WHERE "@ + join(conditions, " AND "@)
    }
}

/// The statement of a listing.
pub open spec fn listing_sql(
    select: Seq<char>,
    first: Seq<Seq<char>>,
    second: Seq<Seq<char>>,
    order: Seq<char>,
) -> Seq<char> {
    select + where_text(first + second) + order
}

/// The cache slot of a listing: the fixed key of the whole collection, and only where the
/// request filters nothing and the cache is switched on.
pub open spec fn listing_slot(unfiltered: bool, enabled: bool, key: Seq<char>) -> Option<
    CacheSlotView,
> {
    if unfiltered && enabled {
        Some(CacheSlotView { key, ttl_seconds: LISTING_TTL_SECONDS })
    } else {
        None
    }
}

pub fn slot(unfiltered: bool, enabled: bool, key: &str) -> (cache: Option<CacheSlot>)
    ensures
        cache.deep_view() == listing_slot(unfiltered, enabled, key@),
{
    if unfiltered && enabled {
        Some(CacheSlot { key: key.to_owned(), ttl_seconds: LISTING_TTL_SECONDS })
    } else {
        None
    }
}

fn push_condition(conditions: &mut Vec<String>, column: &str, value: &Option<String>)
    ensures
        final(conditions).deep_view() == old(conditions).deep_view() + equals_filter(
            column@,
            value.deep_view(),
        ),
{
    match value {
        Some(text) => {
            let literal = quote_literal(escape_label(text.as_str()).as_str());
            let mut condition = column.to_owned();
            condition.append(" = ");
            condition.append(literal.as_str());
            let ghost before = *conditions;
            conditions.push(condition);
            proof {
                lemma_pushed(before, *conditions, condition);
            }
        },
        None => {
            proof {
                assert(conditions.deep_view() + Seq::<Seq<char>>::empty()
                    =~= conditions.deep_view());
            }
        },
    }
}

/// Compiles the statement of a listing with up to two equality filters.
pub fn compile_listing(
    select: &str,
    first_column: &str,
    first: &Option<String>,
    second_column: &str,
    second: &Option<String>,
    order: &str,
) -> (sql: String)
    ensures
        sql@ == listing_sql(
            select@,
            equals_filter(first_column@, first.deep_view()),
            equals_filter(second_column@, second.deep_view()),
            order@,
        ),
{
    let mut conditions: Vec<String> = Vec::new();
    proof {
        assert(conditions.deep_view() =~= Seq::<Seq<char>>::empty());
    }
    push_condition(&mut conditions, first_column, first);
    push_condition(&mut conditions, second_column, second);
    proof {
        assert(conditions.deep_view() =~= equals_filter(first_column@, first.deep_view())
            + equals_filter(second_column@, second.deep_view()));
    }
    let mut sql = select.to_owned();
    if conditions.len() > 0 {
        let joined = join_strings(&conditions, " AND ");
        proof {
            assert(select@ + " WHERE "@ + joined@ =~= select@ + (" WHERE "@ + joined@));
        }
        sql.append(" WHERE ");
        sql.append(joined.as_str());
    } else {
        proof {
            assert(select@ + Seq::<char>::empty() =~= select@);
        }
    }
    sql.append(order);
    sql
}

/// The condition of a filter on a plain column is well quoted, whatever the filter value
/// holds.
pub proof fn lemma_equals_filter_well_quoted(column: Seq<char>, value: Option<Seq<char>>)
    requires
        plain(column),
    ensures
        forall|i: int|
            0 <= i < equals_filter(column, value).len() ==> well_quoted(
                #[trigger] equals_filter(column, value)[i],
            ),
{
    if let Some(text) = value {
        reveal_strlit(" = ");
        lemma_retain_admitted(double_quotes(text), Charset::Label);
        lemma_quoted_is_well_quoted(escaped(text));
        lemma_plain_is_well_quoted(column);
        lemma_plain_is_well_quoted(" = "@);
        lemma_well_quoted_concat(column, " = "@);
        lemma_well_quoted_concat(column + " = "@, quoted(escaped(text)));
    }
}

/// A listing with plain columns, a plain selection and a plain order holds no statement
/// separator, and every single quote in it opens or closes a literal.
pub proof fn lemma_listing_is_well_quoted(
    select: Seq<char>,
    first_column: Seq<char>,
    first: Option<Seq<char>>,
    second_column: Seq<char>,
    second: Option<Seq<char>>,
    order: Seq<char>,
)
    requires
        plain(select),
        plain(first_column),
        plain(second_column),
        plain(order),
    ensures
        well_quoted(
            listing_sql(
                select,
                equals_filter(first_column, first),
                equals_filter(second_column, second),
                order,
            ),
        ),
{
    let a = equals_filter(first_column, first);
    let b = equals_filter(second_column, second);
    lemma_equals_filter_well_quoted(first_column, first);
    lemma_equals_filter_well_quoted(second_column, second);
    assert forall|i: int| 0 <= i < (a + b).len() implies well_quoted(#[trigger] (a + b)[i]) by {
        if i < a.len() {
            assert((a + b)[i] == a[i]);
        } else {
            assert((a + b)[i] == b[i - a.len()]);
        }
    }
    reveal_strlit(" WHERE ");
    reveal_strlit(" AND ");
    if (a + b).len() == 0 {
        assert(plain(Seq::<char>::empty()));
        lemma_plain_is_well_quoted(Seq::<char>::empty());
    } else {
        lemma_plain_is_well_quoted(" WHERE "@);
        lemma_well_quoted_join(a + b, " AND "@);
        lemma_well_quoted_concat(" WHERE "@, join(a + b, " AND "@));
    }
    lemma_plain_is_well_quoted(select);
    lemma_plain_is_well_quoted(order);
    lemma_well_quoted_concat(select, where_text(a + b));
    lemma_well_quoted_concat(select + where_text(a + b), order);
}

} // verus!
