use vstd::prelude::*;
use crate::domain::opt_view;
use crate::ids::{trim_chars, trimmed};
use crate::numtext::{nat_text, push_nat};
use crate::provider_account::RtcProviderAccountStatus;
use crate::sql::{
    postgres_provider_account_select_columns_sql, select_text, POSTGRES_PROVIDER_ACCOUNT_SELECT_COLUMNS_SQL_HEAD,
    POSTGRES_PROVIDER_ACCOUNT_SELECT_COLUMNS_SQL_MIDDLE, POSTGRES_PROVIDER_ACCOUNT_SELECT_COLUMNS_SQL_TAIL,
};
use crate::storage_values::{provider_account_sort_column, provider_account_sort_key};
use crate::text::{ascii_lowercase, lowercase_chars, owned, push_str, string_from_chars};

verus! {

/// The `LIKE` pattern of a search: the trimmed query in ASCII lowercase between `%` signs;
/// none when the query is absent or blank.
pub open spec fn like_pattern(q: Option<Seq<char>>) -> Option<Seq<char>> {
    match q {
        Some(text) => if trimmed(text).len() > 0 {
            Some("%"@ + ascii_lowercase(trimmed(text)) + "%"@)
        } else {
            None
        },
        None => None,
    }
}

/// The number of the first placeholder after the scope (`$1`, `$2`) and the optional
/// provider and status filters.
pub open spec fn search_param(has_provider: bool, has_status: bool) -> nat {
    3 + (if has_provider { 1nat } else { 0 }) + (if has_status { 1nat } else { 0 })
}

/// The number of the `LIMIT` placeholder.
pub open spec fn limit_param(has_provider: bool, has_status: bool, has_search: bool) -> nat {
    search_param(has_provider, has_status) + (if has_search { 4nat } else { 0 })
}

/// The `WHERE` clause of a provider account page: the scope, the live rows, then each
/// filter that is given, numbered in that order.
pub open spec fn account_where_text(has_provider: bool, has_status: bool, has_search: bool) -> Seq<char> {
    let p = search_param(has_provider, has_status);
    "WHERE tenant_id = $1 AND organization_id = $2 AND deleted_at IS NULL"@
        + (if has_provider { " AND provider = $3"@ } else { Seq::empty() })
        + (if has_status { " AND status = $"@ + nat_text((p - 1) as nat) } else { Seq::empty() })
        + (if has_search {
            " AND (LOWER(uuid) LIKE $"@ + nat_text(p) + " OR LOWER(code) LIKE $"@ + nat_text(p + 1)
                + " OR LOWER(name) LIKE $"@ + nat_text(p + 2) + " OR LOWER(provider) LIKE $"@
                + nat_text(p + 3) + ")"@
        } else {
            Seq::empty()
        })
}

/// The `ORDER BY` clause of a provider account page: the requested column in the
/// requested direction, ties broken by `id`, then the limit and offset placeholders.
pub open spec fn account_order_text(sort_field: Seq<char>, descending: bool, limit_at: nat) -> Seq<char> {
    "ORDER BY "@ + provider_account_sort_key(sort_field) + (if descending { " DESC"@ } else { " ASC"@ })
        + ", id ASC LIMIT $"@ + nat_text(limit_at) + " OFFSET $"@ + nat_text(limit_at + 1)
}

/// The statement of a provider account page and the search pattern that it binds.
pub open spec fn account_page_statement(
    has_provider: bool,
    has_status: bool,
    q: Option<Seq<char>>,
    sort_field: Seq<char>,
    descending: bool,
) -> Seq<char> {
    let has_search = like_pattern(q) is Some;
    select_text(
        POSTGRES_PROVIDER_ACCOUNT_SELECT_COLUMNS_SQL_HEAD@,
        account_where_text(has_provider, has_status, has_search),
        POSTGRES_PROVIDER_ACCOUNT_SELECT_COLUMNS_SQL_MIDDLE@,
        account_order_text(sort_field, descending, limit_param(has_provider, has_status, has_search)),
        POSTGRES_PROVIDER_ACCOUNT_SELECT_COLUMNS_SQL_TAIL@,
    )
}

fn like_pattern_of(q: Option<&str>) -> (res: Option<String>)
    ensures
        opt_view(res) == like_pattern(match q {
            Some(t) => Some(t@),
            None => None,
        }),
{
    match q {
        Some(text) => {
            let t = trim_chars(text);
            if t.len() == 0 {
                return None;
            }
            let trimmed_text = string_from_chars(&t);
            let lower = lowercase_chars(trimmed_text.as_str());
            let mut pattern = owned("%");
            let lowered = string_from_chars(&lower);
            push_str(&mut pattern, lowered.as_str());
            push_str(&mut pattern, "%");
            Some(pattern)
        },
        None => None,
    }
}

/// Builds the statement that lists one page of provider accounts, with the search pattern
/// to bind four times when the query is not blank. The scope, the provider and the status
/// are bound first, in that order, and the limit and offset last.
pub fn provider_accounts_page_sql(
    provider: Option<&str>,
    status: Option<RtcProviderAccountStatus>,
    q: Option<&str>,
    sort_field: &str,
    sort_descending: bool,
) -> (res: (String, Option<String>))
    ensures
        res.0@ == account_page_statement(
            provider is Some,
            status is Some,
            match q {
                Some(t) => Some(t@),
                None => None,
            },
            sort_field@,
            sort_descending,
        ),
        opt_view(res.1) == like_pattern(match q {
            Some(t) => Some(t@),
            None => None,
        }),
{
    let has_provider = provider.is_some();
    let has_status = status.is_some();
    let needle = like_pattern_of(q);
    let has_search = needle.is_some();
    let mut next_param: u64 = 3;
    let mut where_clause = owned("WHERE tenant_id = $1 AND organization_id = $2 AND deleted_at IS NULL");
    if has_provider {
        push_str(&mut where_clause, " AND provider = $3");
        next_param = next_param + 1;
    }
    if has_status {
        push_str(&mut where_clause, " AND status = $");
        push_nat(&mut where_clause, next_param);
        next_param = next_param + 1;
    }
    if has_search {
        push_str(&mut where_clause, " AND (LOWER(uuid) LIKE $");
        push_nat(&mut where_clause, next_param);
        push_str(&mut where_clause, " OR LOWER(code) LIKE $");
        push_nat(&mut where_clause, next_param + 1);
        push_str(&mut where_clause, " OR LOWER(name) LIKE $");
        push_nat(&mut where_clause, next_param + 2);
        push_str(&mut where_clause, " OR LOWER(provider) LIKE $");
        push_nat(&mut where_clause, next_param + 3);
        push_str(&mut where_clause, ")");
        next_param = next_param + 4;
    }
    let mut order_clause = owned("ORDER BY ");
    push_str(&mut order_clause, provider_account_sort_column(sort_field));
    push_str(&mut order_clause, if sort_descending { " DESC" } else { " ASC" });
    push_str(&mut order_clause, ", id ASC LIMIT $");
    push_nat(&mut order_clause, next_param);
    push_str(&mut order_clause, " OFFSET $");
    push_nat(&mut order_clause, next_param + 1);
    proof {
        assert(where_clause@ =~= account_where_text(has_provider, has_status, has_search));
        assert(order_clause@ =~= account_order_text(
            sort_field@,
            sort_descending,
            limit_param(has_provider, has_status, has_search),
        ));
    }
    let sql = postgres_provider_account_select_columns_sql(where_clause.as_str(), order_clause.as_str());
    (sql, needle)
}

} // verus!
