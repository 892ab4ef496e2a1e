//! Keyset pagination over identifiers: the query a page is fetched with, and
//! how the fetched rows become a page with its neighbours flags.
use vstd::prelude::*;
use vstd::relations::{sorted_by, total_ordering};

verus! {

/// Both or neither of `first` and `last` were given.
#[derive(Clone, Copy, Debug, PartialEq, Eq, Structural)]
pub struct InvalidPagination;

/// The query that fetches a page: rows whose identifier lies strictly after
/// `after` and strictly before `before` (where given), ordered by identifier
/// (ascending or not), at most `limit` of them.
#[derive(Clone, Copy, Debug, PartialEq, Eq, Structural)]
pub struct PageQuery {
    pub after: Option<u128>,
    pub before: Option<u128>,
    pub ascending: bool,
    pub limit: usize,
}

/// Plans the query for a page of `first` items from the start of the range,
/// or of `last` items from its end; one more row than asked is fetched, to
/// learn whether more lie beyond the page.
pub fn generate_pagination(
    before: Option<u128>,
    after: Option<u128>,
    first: Option<usize>,
    last: Option<usize>,
) -> (r: Result<PageQuery, InvalidPagination>)
    requires
        first matches Some(n) ==> n < usize::MAX,
        last matches Some(n) ==> n < usize::MAX,
    ensures
        r is Ok <==> (first is Some) != (last is Some),
        first matches Some(n) ==> last is None ==> r == Ok::<PageQuery, InvalidPagination>(
            (PageQuery { after, before, ascending: true, limit: (n + 1) as usize }),
        ),
        last matches Some(n) ==> first is None ==> r == Ok::<PageQuery, InvalidPagination>(
            (PageQuery { after, before, ascending: false, limit: (n + 1) as usize }),
        ),
{
    match (first, last) {
        (Some(n), None) => Ok(PageQuery { after, before, ascending: true, limit: n + 1 }),
        (None, Some(n)) => Ok(PageQuery { after, before, ascending: false, limit: n + 1 }),
        _ => Err(InvalidPagination),
    }
}

/// The size of the page asked for: `first` when given, else `last`.
pub open spec fn page_size(first: Option<usize>, last: Option<usize>) -> Option<usize> {
    match (first, last) {
        (Some(n), _) => Some(n),
        (_, Some(n)) => Some(n),
        _ => None,
    }
}

/// The page made of fetched `rows`: the extra row, when fetched, is dropped
/// and reported as a next page (counting from the start) or a previous page
/// (counting from the end, whose rows come newest first and are put back in
/// order). Yields `(has_previous_page, has_next_page, items)`.
pub open spec fn page_outcome<T>(rows: Seq<T>, first: Option<usize>, last: Option<usize>) -> Option<
    (bool, bool, Seq<T>),
> {
    match page_size(first, last) {
        None => None,
        Some(n) => {
            let full = rows.len() == n + 1;
            let items = if full {
                rows.drop_last()
            } else {
                rows
            };
            if first is Some {
                Some((false, full, items))
            } else {
                Some((full, false, items.reverse()))
            }
        },
    }
}

/// Turns fetched rows into a page, as `page_outcome` describes; fails when
/// neither `first` nor `last` was given.
pub fn process_page<T>(page: Vec<T>, first: Option<usize>, last: Option<usize>) -> (r: Result<
    (bool, bool, Vec<T>),
    InvalidPagination,
>)
    ensures
        r is Ok <==> page_outcome(page@, first, last) is Some,
        r matches Ok((p, n, items)) ==> page_outcome(page@, first, last) == Some((p, n, items@)),
{
    let n = match first {
        Some(n) => n,
        None => match last {
            Some(n) => n,
            None => return Err(InvalidPagination),
        },
    };
    let mut page = page;
    let ghost rows = page@;
    let full = page.len() > n && page.len() - 1 == n;
    if full {
        page.pop();
    }
    let ghost items = page@;
    assert(items == if full { rows.drop_last() } else { rows });
    if first.is_some() {
        Ok((false, full, page))
    } else {
        // put the rows, fetched newest first, back in order
        let mut reversed: Vec<T> = Vec::new();
        while page.len() > 0
            invariant
                page@.len() <= items.len(),
                page@ == items.take(page@.len() as int),
                reversed@ == items.skip(page@.len() as int).reverse(),
            decreases page@.len(),
        {
            let ghost k = page@.len() as int;
            let x = page.pop().unwrap();
            reversed.push(x);
            assert(items.skip(k - 1).reverse() =~= items.skip(k).reverse().push(items[k - 1]));
            assert(page@ =~= items.take(k - 1));
        }
        assert(items.skip(0) =~= items);
        Ok((full, false, reversed))
    }
}

/// The identifiers of `ids` that lie strictly between `after` and `before`
/// (each bound applying when given), in the store's order.
pub open spec fn window(ids: Seq<u128>, after: Option<u128>, before: Option<u128>) -> Seq<u128> {
    ids.filter(
        |x: u128|
            (after matches Some(a) ==> a < x) && (before matches Some(b) ==> x < b),
    )
}

/// Identifiers in ascending order.
pub open spec fn id_le() -> spec_fn(u128, u128) -> bool {
    |a: u128, b: u128| a <= b
}

/// The window of `ids` ordered by identifier, ascending.
pub open spec fn ordered_window(ids: Seq<u128>, after: Option<u128>, before: Option<u128>) -> Seq<u128> {
    window(ids, after, before).sort_by(id_le())
}

/// The rows a store holding `ids` returns for `q`: the window ordered by
/// identifier, ascending or descending as the query says, cut to the
/// query's limit.
pub open spec fn fetch_rows(ids: Seq<u128>, q: PageQuery) -> Seq<u128> {
    let w = ordered_window(ids, q.after, q.before);
    let ordered = if q.ascending {
        w
    } else {
        w.reverse()
    };
    if ordered.len() <= q.limit {
        ordered
    } else {
        ordered.take(q.limit as int)
    }
}

proof fn lemma_filter_no_duplicates(s: Seq<u128>, p: spec_fn(u128) -> bool)
    requires
        s.no_duplicates(),
    ensures
        s.filter(p).no_duplicates(),
    decreases s.len(),
{
    reveal(Seq::filter);
    if s.len() > 0 {
        let rest = s.drop_last();
        assert(rest.no_duplicates());
        lemma_filter_no_duplicates(rest, p);
        if p(s.last()) {
            if rest.filter(p).contains(s.last()) {
                rest.lemma_filter_contains_rev(p, s.last());
                let k = choose|k: int| 0 <= k < rest.len() && rest[k] == s.last();
                assert(s[k] == s[s.len() - 1]);
            }
        }
    }
}

/// The ordered window holds exactly the identifiers of `ids` that lie
/// strictly between `after` and `before` (where given), in ascending order;
/// when `ids` holds no identifier twice, strictly ascending.
pub proof fn law_ordered_window(ids: Seq<u128>, after: Option<u128>, before: Option<u128>)
    ensures
        ({
            let w = ordered_window(ids, after, before);
            &&& forall|i: int, j: int| 0 <= i < j < w.len() ==> w[i] <= w[j]
            &&& forall|x: u128| #[trigger] w.contains(x) <==> (ids.contains(x) && (after matches Some(a) ==> a < x) && (
            before matches Some(b) ==> x < b))
            &&& ids.no_duplicates() ==> forall|i: int, j: int| 0 <= i < j < w.len() ==> w[i] < w[j]
        }),
{
    broadcast use vstd::seq_lib::group_seq_properties;
    broadcast use vstd::multiset::group_multiset_axioms;

    let pred = |x: u128| (after matches Some(a) ==> a < x) && (before matches Some(b) ==> x < b);
    let win = window(ids, after, before);
    assert(win == ids.filter(pred));
    let w = ordered_window(ids, after, before);
    assert(total_ordering(id_le()));
    win.lemma_sort_by_ensures(id_le());
    assert(sorted_by(w, id_le()));
    assert forall|i: int, j: int| 0 <= i < j < w.len() implies w[i] <= w[j] by {
        assert(id_le()(w[i], w[j]));
    }
    assert forall|x: u128| #[trigger] w.contains(x) <==> (ids.contains(x) && pred(x)) by {
        if w.contains(x) {
            assert(win.contains(x));
            ids.lemma_filter_contains_rev(pred, x);
            let k = choose|k: int| 0 <= k < win.len() && win[k] == x;
            ids.lemma_filter_pred(pred, k);
        }
        if ids.contains(x) && pred(x) {
            let k = choose|k: int| 0 <= k < ids.len() && ids[k] == x;
            ids.lemma_filter_contains(pred, k);
            assert(win.to_multiset().contains(x));
            assert(w.to_multiset().contains(x));
        }
    }
    if ids.no_duplicates() {
        lemma_filter_no_duplicates(ids, pred);
        win.lemma_multiset_has_no_duplicates();
        w.lemma_multiset_has_no_duplicates_conv();
        assert forall|i: int, j: int| 0 <= i < j < w.len() implies w[i] < w[j] by {
            assert(id_le()(w[i], w[j]));
        }
    }
}

proof fn lemma_reverse_take_reverse(w: Seq<u128>, k: int)
    requires
        0 <= k <= w.len(),
    ensures
        w.reverse().take(k).reverse() == w.skip(w.len() - k),
{
    assert(w.reverse().take(k).reverse() =~= w.skip(w.len() - k));
}

/// Paging through a store: the page is drawn from the identifiers between
/// `after` and `before`, ordered by identifier (see `law_ordered_window`).
/// With `first: n` it holds the lowest `n` of them, ascending, and a next
/// page is reported exactly when there are more; with `last: n` it holds the
/// highest `n` of them, ascending, and a previous page is reported exactly
/// when there are more.
pub proof fn law_pagination(
    ids: Seq<u128>,
    before: Option<u128>,
    after: Option<u128>,
    first: Option<usize>,
    last: Option<usize>,
    q: PageQuery,
)
    requires
        (first is Some) != (last is Some),
        first matches Some(n) ==> n < usize::MAX && q == (PageQuery { after, before, ascending: true, limit: (n + 1) as usize }),
        last matches Some(n) ==> n < usize::MAX && q == (PageQuery { after, before, ascending: false, limit: (n + 1) as usize }),
    ensures
        ({
            let w = ordered_window(ids, after, before);
            let outcome = page_outcome(fetch_rows(ids, q), first, last);
            &&& first matches Some(n) ==> outcome == Some(
                (false, w.len() > n, if w.len() > n { w.take(n as int) } else { w }),
            )
            &&& last matches Some(n) ==> outcome == Some(
                (w.len() > n, false, if w.len() > n { w.skip(w.len() - n) } else { w }),
            )
        }),
{
    let w = ordered_window(ids, after, before);
    if let Some(n) = first {
        if w.len() > n {
            assert(w.take(q.limit as int).drop_last() =~= w.take(n as int));
        }
    }
    if let Some(n) = last {
        let r = w.reverse();
        if w.len() > n {
            assert(r.take(q.limit as int).drop_last() =~= r.take(n as int));
            lemma_reverse_take_reverse(w, n as int);
        } else {
            assert(r.reverse() =~= w);
        }
    }
}

} // verus!
