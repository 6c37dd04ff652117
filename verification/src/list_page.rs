use vstd::prelude::*;
use crate::domain::opt_view;
use crate::ids::{trim_chars, trimmed};
use crate::numtext::{nat_text, push_nat};
use crate::text::string_from_chars;

verus! {

/// One page of a listing and the cursor of the next page, if there is one.
pub struct RtcListPage<T> {
    pub items: Vec<T>,
    pub next_cursor: Option<String>,
}

/// The search text of a listing request: the trimmed query, none when absent or blank.
pub open spec fn search_needle(q: Option<Seq<char>>) -> Option<Seq<char>> {
    match q {
        Some(text) => if trimmed(text).len() > 0 { Some(trimmed(text)) } else { None },
        None => None,
    }
}

/// The search text of a listing request.
pub fn list_search_needle(q: Option<&str>) -> (res: Option<String>)
    ensures
        opt_view(res) == search_needle(match q {
            Some(t) => Some(t@),
            None => None,
        }),
{
    match q {
        Some(text) => {
            let t = trim_chars(text);
            if t.len() > 0 { Some(string_from_chars(&t)) } else { None }
        },
        None => None,
    }
}

/// Cuts what a store returned for a page request (asked for one row more than `limit`)
/// to the page: at most `limit` items, and the next page's cursor, `offset` plus the
/// number of items kept, when more rows were returned than fit.
pub fn bounded_page<T>(items: Vec<T>, offset: usize, limit: usize) -> (res: RtcListPage<T>)
    requires
        items@.len() > limit ==> offset + limit <= usize::MAX,
    ensures
        items@.len() > limit ==> res.items@ == items@.take(limit as int)
            && opt_view(res.next_cursor) == Some(nat_text((offset + limit) as nat)),
        items@.len() <= limit ==> res.items@ == items@ && res.next_cursor is None,
{
    let mut items = items;
    let has_more = items.len() > limit;
    if has_more {
        items.truncate(limit);
        let mut cursor = String::new();
        push_nat(&mut cursor, (offset + items.len()) as u64);
        assert(cursor@ =~= nat_text((offset + limit) as nat));
        RtcListPage { items, next_cursor: Some(cursor) }
    } else {
        RtcListPage { items, next_cursor: None }
    }
}

} // verus!
