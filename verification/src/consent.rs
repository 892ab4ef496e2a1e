//! The consents users grant to clients, as stored: one row per scope token,
//! and how rows become scopes and consent records.
use vstd::prelude::*;
use crate::client::Client;
use crate::ids::{id_from_parts, id_from_time_and_random};
use crate::pagination::{
    fetch_rows, generate_pagination, law_ordered_window, ordered_window, page_outcome,
    process_page, InvalidPagination, PageQuery,
};
use crate::scope::{all_scope_tokens, split_words, Scope, ScopeToken};
use crate::time::Timestamp;
use crate::tokens::User;

verus! {

/// Stored data that breaks the schema's expectations: the table, the column
/// and, when known, the row.
#[derive(Debug)]
pub struct DatabaseInconsistencyError {
    pub table: String,
    pub column: String,
    pub row: Option<u128>,
}

/// A storage error of the consent queries.
#[derive(Debug)]
pub enum DatabaseError {
    Inconsistency(DatabaseInconsistencyError),
    InvalidPagination,
}

/// A stored consent row.
#[derive(Debug)]
pub struct ConsentRow {
    pub consent_id: u128,
    pub client_id: u128,
    pub user_id: u128,
    pub scope_token: String,
    pub created_at: Timestamp,
    pub refreshed_at: Option<Timestamp>,
}

/// A consent, with its client and user.
#[derive(Debug)]
pub struct ClientConsent {
    pub id: u128,
    pub user: User,
    pub client: Client,
    pub scope: Scope,
    pub created_at: Timestamp,
    pub refreshed_at: Option<Timestamp>,
}

/// A consent row checked against its client, awaiting its user.
#[derive(Debug)]
pub struct ConsentParts {
    pub id: u128,
    pub user_id: u128,
    pub client: Client,
    pub scope: Scope,
    pub created_at: Timestamp,
    pub refreshed_at: Option<Timestamp>,
}

/// The table consents are stored in.
pub open spec fn consents_table() -> Seq<char> {
    "oauth2_consents"@
}

/// The error reporting `column` of the consents table, at `row` when known.
pub open spec fn reports(e: DatabaseInconsistencyError, column: Seq<char>, row: Option<u128>) -> bool {
    e.table@ == consents_table() && e.column@ == column && e.row == row
}

fn inconsistency(column: &str, row: Option<u128>) -> (e: DatabaseInconsistencyError)
    ensures
        reports(e, column@, row),
{
    DatabaseInconsistencyError {
        table: String::from_str("oauth2_consents"),
        column: String::from_str(column),
        row,
    }
}

/// The views of a sequence of strings.
pub open spec fn texts(s: Seq<String>) -> Seq<Seq<char>> {
    s.map_values(|t: String| t@)
}

/// The scope a user granted a client, from the scope tokens of their
/// consent rows: every row must hold a scope token.
pub fn fetch_client_consent(scope_tokens: Vec<String>) -> (r: Result<Scope, DatabaseInconsistencyError>)
    ensures
        r is Ok <==> all_scope_tokens(texts(scope_tokens@)),
        r matches Ok(sc) ==> sc@.to_set() == texts(scope_tokens@).to_set(),
        r matches Err(e) ==> reports(e, "scope_token"@, None),
{
    let ghost all = texts(scope_tokens@);
    let mut scope = Scope::new();
    let n = scope_tokens.len();
    let mut i: usize = 0;
    assert(scope@.to_set() =~= all.take(0).to_set());
    while i < n
        invariant
            n == scope_tokens@.len(),
            all == texts(scope_tokens@),
            i <= n,
            all_scope_tokens(all.take(i as int)),
            scope@.to_set() == all.take(i as int).to_set(),
        decreases n - i,
    {
        match ScopeToken::parse(scope_tokens[i].as_str()) {
            Ok(t) => {
                scope.insert(t);
                proof {
                    vstd::seq::Seq::lemma_to_set_insert_commutes(all.take(i as int), all[i as int]);
                    assert(all.take(i as int) + seq![all[i as int]] =~= all.take(i + 1));
                    assert(all_scope_tokens(all.take(i + 1))) by {
                        assert forall|k: int| 0 <= k < i + 1 implies crate::scope::is_scope_token(
                            #[trigger] all.take(i + 1)[k],
                        ) by {
                            if k < i {
                                assert(all.take(i + 1)[k] == all.take(i as int)[k]);
                            }
                        }
                    }
                }
            },
            Err(_) => {
                assert(!all_scope_tokens(all)) by {
                    assert(!crate::scope::is_scope_token(all[i as int]));
                }
                return Err(inconsistency("scope_token", None));
            },
        }
        i = i + 1;
    }
    assert(all.take(n as int) =~= all);
    Ok(scope)
}

/// The 48-bit millisecond time part of identifiers minted at `now`
/// (instants before the Unix epoch count as the epoch).
pub open spec fn mint_time_ms(now: Timestamp) -> u64 {
    if now.instant() < 0 {
        0
    } else {
        ((now.instant() / 1_000_000) % 0x1_0000_0000_0000) as u64
    }
}

/// The rows that record a consent to `scope` at `now`: the scope's tokens,
/// each with a new identifier minted at `now` from the corresponding random
/// part.
/// The table stores them with an insert-or-refresh statement, modelled by
/// `consent_store::upsert_consents` (see `law_consent_insert_round_trip`).
pub fn insert_client_consent(scope: &Scope, now: Timestamp, random: &Vec<u128>) -> (r: (
    Vec<String>,
    Vec<u128>,
))
    requires
        random@.len() == scope@.len(),
    ensures
        texts(r.0@) == scope@,
        r.1@.len() == scope@.len(),
        forall|i: int| 0 <= i < r.1@.len() ==> #[trigger] r.1@[i] as int == id_from_parts(
            mint_time_ms(now),
            random@[i],
        ),
{
    let epoch = Timestamp { secs: 0, nanos: 0 };
    let since = now.nanos_since(epoch);
    let ms: u64 = if since < 0 {
        0
    } else {
        ((since / 1_000_000) % 0x1_0000_0000_0000) as u64
    };
    assert(ms == mint_time_ms(now));
    let n = scope.len();
    let mut tokens: Vec<String> = Vec::new();
    let mut ids: Vec<u128> = Vec::new();
    let mut i: usize = 0;
    while i < n
        invariant
            n == scope@.len(),
            random@.len() == n,
            ms == mint_time_ms(now),
            i <= n,
            texts(tokens@) == scope@.take(i as int),
            tokens@.len() == i,
            ids@.len() == i,
            forall|k: int| 0 <= k < i ==> #[trigger] ids@[k] as int == id_from_parts(ms, random@[k]),
        decreases n - i,
    {
        let t = String::from_str(scope.token(i));
        let ghost before = tokens@;
        tokens.push(t);
        ids.push(id_from_time_and_random(ms, random[i]));
        assert(texts(tokens@) =~= scope@.take(i + 1)) by {
            assert forall|k: int| 0 <= k < i + 1 implies #[trigger] texts(tokens@)[k] == scope@.take(
                i + 1,
            )[k] by {
                if k < i {
                    assert(tokens@[k] == before[k]);
                    assert(texts(before)[k] == scope@.take(i as int)[k]);
                }
            }
        }
        i = i + 1;
    }
    assert(scope@.take(n as int) =~= scope@);
    (tokens, ids)
}

/// Checks a consent row (`None` when no row has the identifier) against the
/// client it names (`None` when not found): the client must exist and the
/// row must hold a scope.
pub fn lookup_consent(row: Option<ConsentRow>, client: Option<Client>) -> (r: Result<
    Option<ConsentParts>,
    DatabaseInconsistencyError,
>)
    ensures
        row is None ==> r matches Ok(None),
        row matches Some(w) ==> {
            &&& client is None ==> (r matches Err(e) && reports(e, "client_id"@, Some(w.consent_id)))
            &&& client is Some && !all_scope_tokens(split_words(w.scope_token@)) ==> (r matches Err(e)
                && reports(e, "scope_token"@, Some(w.consent_id)))
            &&& client is Some && all_scope_tokens(split_words(w.scope_token@)) ==> (r matches Ok(Some(p))
                && p.id == w.consent_id && p.user_id == w.user_id && p.client == client.unwrap()
                && p.scope@.to_set() == split_words(w.scope_token@).to_set() && p.created_at
                == w.created_at && p.refreshed_at == w.refreshed_at)
        },
{
    let w = match row {
        Some(w) => w,
        None => return Ok(None),
    };
    let client = match client {
        Some(c) => c,
        None => return Err(inconsistency("client_id", Some(w.consent_id))),
    };
    let scope = match Scope::parse(w.scope_token.as_str()) {
        Ok(s) => s,
        Err(_) => return Err(inconsistency("scope_token", Some(w.consent_id))),
    };
    Ok(
        Some(
            ConsentParts {
                id: w.consent_id,
                user_id: w.user_id,
                client,
                scope,
                created_at: w.created_at,
                refreshed_at: w.refreshed_at,
            },
        ),
    )
}

impl ConsentParts {
    /// The consent, with its user: the user looked up by the row's user
    /// identifier.
    pub fn with_user(self, user: User) -> (c: ClientConsent)
        requires
            user.id == self.user_id,
        ensures
            c.id == self.id,
            c.user.id == self.user_id,
            c.user == user,
            c.client == self.client,
            c.scope@ == self.scope@,
            c.created_at == self.created_at,
            c.refreshed_at == self.refreshed_at,
    {
        ClientConsent {
            id: self.id,
            user,
            client: self.client,
            scope: self.scope,
            created_at: self.created_at,
            refreshed_at: self.refreshed_at,
        }
    }
}

/// The query that fetches a page of a user's consents: the rows of user
/// `user_id`, paged as `page` says.
#[derive(Clone, Copy, Debug, PartialEq, Eq, Structural)]
pub struct UserConsentsQuery {
    pub user_id: u128,
    pub page: PageQuery,
}

/// Plans the query for a page of `user`'s consents: only the user's rows,
/// with `before`, `after`, `first` and `last` paging them as
/// `generate_pagination` does.
pub fn user_consents_page_query(
    user: &User,
    before: Option<u128>,
    after: Option<u128>,
    first: Option<usize>,
    last: Option<usize>,
) -> (r: Result<UserConsentsQuery, InvalidPagination>)
    requires
        first matches Some(n) ==> n < usize::MAX,
        last matches Some(n) ==> n < usize::MAX,
    ensures
        r is Ok <==> (first is Some) != (last is Some),
        r matches Ok(q) ==> q.user_id == user.id,
        first matches Some(n) ==> last is None ==> (r matches Ok(q) && q.page == (PageQuery {
            after,
            before,
            ascending: true,
            limit: (n + 1) as usize,
        })),
        last matches Some(n) ==> first is None ==> (r matches Ok(q) && q.page == (PageQuery {
            after,
            before,
            ascending: false,
            limit: (n + 1) as usize,
        })),
{
    let page = generate_pagination(before, after, first, last)?;
    Ok(UserConsentsQuery { user_id: user.id, page })
}

/// The identifiers of the stored consent rows of user `user_id`, in the
/// store's order.
pub open spec fn user_row_ids(rows: Seq<ConsentRow>, user_id: u128) -> Seq<u128> {
    rows.filter(|r: ConsentRow| r.user_id == user_id).map_values(|r: ConsentRow| r.consent_id)
}

/// The identifiers of the rows a store holding `rows` returns for `q`.
pub open spec fn fetch_user_rows(rows: Seq<ConsentRow>, q: UserConsentsQuery) -> Seq<u128> {
    fetch_rows(user_row_ids(rows, q.user_id), q.page)
}

/// Paging through a user's consents: the page is drawn from that user's
/// rows only, ordered by identifier. With `first: n` it holds the lowest `n`
/// identifiers of the user's rows between `after` and `before`, ascending,
/// and a next page is reported exactly when there are more; with `last: n`
/// it holds the highest `n` of them, ascending, and a previous page is
/// reported exactly when there are more. Identifiers are unique in the
/// store, so they strictly increase along the page.
pub proof fn law_user_consents_pagination(
    rows: Seq<ConsentRow>,
    user: User,
    before: Option<u128>,
    after: Option<u128>,
    first: Option<usize>,
    last: Option<usize>,
    q: UserConsentsQuery,
)
    requires
        (first is Some) != (last is Some),
        q.user_id == user.id,
        first matches Some(n) ==> n < usize::MAX && q.page == (PageQuery { after, before, ascending: true, limit: (n + 1) as usize }),
        last matches Some(n) ==> n < usize::MAX && q.page == (PageQuery { after, before, ascending: false, limit: (n + 1) as usize }),
    ensures
        ({
            let ids = user_row_ids(rows, user.id);
            let w = ordered_window(ids, after, before);
            let outcome = page_outcome(fetch_user_rows(rows, q), first, last);
            &&& first matches Some(n) ==> outcome == Some(
                (false, w.len() > n, if w.len() > n { w.take(n as int) } else { w }),
            )
            &&& last matches Some(n) ==> outcome == Some(
                (w.len() > n, false, if w.len() > n { w.skip(w.len() - n) } else { w }),
            )
            &&& forall|x: u128| #[trigger] w.contains(x) <==> (ids.contains(x) && (after matches Some(a) ==> a < x)
                && (before matches Some(b) ==> x < b))
            &&& ids.no_duplicates() ==> forall|i: int, j: int| 0 <= i < j < w.len() ==> w[i] < w[j]
        }),
{
    crate::pagination::law_pagination(user_row_ids(rows, user.id), before, after, first, last, q.page);
    law_ordered_window(user_row_ids(rows, user.id), after, before);
}

/// Some client of `clients` has identifier `id`.
pub open spec fn has_client(clients: Seq<Client>, id: u128) -> bool {
    exists|k: int| 0 <= k < clients.len() && (#[trigger] clients[k]).id == id
}

/// What is wrong with a consent row fetched for user `user_id`, as the
/// column to report: it belongs to another user, its client is not among
/// `clients`, or it holds no scope.
pub open spec fn row_fault(row: ConsentRow, clients: Seq<Client>, user_id: u128) -> Option<Seq<char>> {
    if row.user_id != user_id {
        Some("user_id"@)
    } else if !has_client(clients, row.client_id) {
        Some("oauth2_client_id"@)
    } else if !all_scope_tokens(split_words(row.scope_token@)) {
        Some("scope_token"@)
    } else {
        None
    }
}

/// Row `i` of `rows` is the first faulty one, and `e` reports its fault.
pub open spec fn first_fault_at(
    rows: Seq<ConsentRow>,
    clients: Seq<Client>,
    user_id: u128,
    i: int,
    e: DatabaseInconsistencyError,
) -> bool {
    &&& 0 <= i < rows.len()
    &&& forall|j: int| 0 <= j < i ==> #[trigger] row_fault(rows[j], clients, user_id) is None
    &&& row_fault(rows[i], clients, user_id) == Some(e.column@)
    &&& e.table@ == consents_table()
    &&& e.row == Some(rows[i].consent_id)
}

/// `c` is the consent that `row` of `user` describes (the row belongs to the
/// user), with its client drawn
/// from `clients`.
pub open spec fn consent_of_row(c: ClientConsent, row: ConsentRow, user: User, clients: Seq<Client>) -> bool {
    &&& c.id == row.consent_id
    &&& c.user == user
    &&& c.user.id == row.user_id
    &&& c.client.id == row.client_id
    &&& (exists|k: int| 0 <= k < clients.len() && clients[k].id == row.client_id && (
    #[trigger] clients[k]).same_registration(c.client))
    &&& c.scope@.to_set() == split_words(row.scope_token@).to_set()
    &&& c.created_at == row.created_at
    &&& c.refreshed_at == row.refreshed_at
}

fn find_client(clients: &Vec<Client>, id: u128) -> (r: Option<usize>)
    ensures
        r is None ==> !has_client(clients@, id),
        r matches Some(k) ==> k < clients@.len() && clients@[k as int].id == id,
{
    let n = clients.len();
    let mut k: usize = 0;
    while k < n
        invariant
            n == clients@.len(),
            k <= n,
            forall|j: int| 0 <= j < k ==> (#[trigger] clients@[j]).id != id,
        decreases n - k,
    {
        if clients[k].id == id {
            return Some(k);
        }
        k = k + 1;
    }
    None
}

/// A page of a user's consents, from the rows fetched for the page with
/// `user_consents_page_query` and the clients those rows name (each
/// identifier once). The first row that belongs to another user, whose
/// client is missing or which holds no scope is reported.
pub fn get_paginated_user_client_consents(
    user: &User,
    page: Vec<ConsentRow>,
    first: Option<usize>,
    last: Option<usize>,
    clients: &Vec<Client>,
) -> (r: Result<(bool, bool, Vec<ClientConsent>), DatabaseError>)
    ensures
        page_outcome(page@, first, last) is None ==> (r matches Err(DatabaseError::InvalidPagination)),
        page_outcome(page@, first, last) matches Some((p, n, items)) ==> {
            &&& (forall|i: int| 0 <= i < items.len() ==> #[trigger] row_fault(items[i], clients@, user.id) is None)
                ==> (r matches Ok((p2, n2, cs)) && p2 == p && n2 == n && cs@.len() == items.len()
                && forall|i: int| 0 <= i < items.len() ==> consent_of_row(#[trigger] cs@[i], items[i], *user, clients@))
            &&& (exists|i: int| 0 <= i < items.len() && #[trigger] row_fault(items[i], clients@, user.id) is Some)
                ==> (r matches Err(DatabaseError::Inconsistency(e)) && exists|i: int| #[trigger]
                first_fault_at(items, clients@, user.id, i, e))
        },
{
    let ghost input = page@;
    let (has_previous_page, has_next_page, mut items) = match process_page(page, first, last) {
        Ok(x) => x,
        Err(InvalidPagination) => return Err(DatabaseError::InvalidPagination),
    };
    let ghost rows = items@;
    let mut out: Vec<ClientConsent> = Vec::new();
    // take the rows front to back
    let mut rest: Vec<ConsentRow> = Vec::new();
    while items.len() > 0
        invariant
            input == page@,
            items@.len() <= rows.len(),
            items@ == rows.take(items@.len() as int),
            rest@.len() == rows.len() - items@.len(),
            forall|k: int| 0 <= k < rest@.len() ==> #[trigger] rest@[k] == rows[rows.len() - 1 - k],
        decreases items@.len(),
    {
        let x = items.pop().unwrap();
        rest.push(x);
        assert(items@ =~= rows.take(items@.len() as int));
    }
    let total = rest.len();
    while rest.len() > 0
        invariant
            total == rows.len(),
            rest@.len() <= total,
            forall|k: int| 0 <= k < rest@.len() ==> #[trigger] rest@[k] == rows[total - 1 - k],
            page_outcome(input, first, last) == Some((has_previous_page, has_next_page, rows)),
            input == page@,
            out@.len() == total - rest@.len(),
            forall|i: int| 0 <= i < out@.len() ==> row_fault(#[trigger] rows[i], clients@, user.id) is None,
            forall|i: int| 0 <= i < out@.len() ==> consent_of_row(#[trigger] out@[i], rows[i], *user, clients@),
        decreases rest@.len(),
    {
        let row = rest.pop().unwrap();
        let ghost i = out@.len() as int;
        assert(row == rows[i]);
        if row.user_id != user.id {
            let e = inconsistency("user_id", Some(row.consent_id));
            assert(row_fault(rows[i], clients@, user.id) == Some(e.column@));
            assert(first_fault_at(rows, clients@, user.id, i, e));
            return Err(DatabaseError::Inconsistency(e));
        }
        let k = match find_client(clients, row.client_id) {
            Some(k) => k,
            None => {
                let e = inconsistency("oauth2_client_id", Some(row.consent_id));
                assert(row_fault(rows[i], clients@, user.id) == Some(e.column@));
                assert(first_fault_at(rows, clients@, user.id, i, e));
                return Err(DatabaseError::Inconsistency(e));
            },
        };
        let scope = match Scope::parse(row.scope_token.as_str()) {
            Ok(s) => s,
            Err(_) => {
                let e = inconsistency("scope_token", Some(row.consent_id));
                assert(has_client(clients@, row.client_id)) by {
                    assert(clients@[k as int].id == row.client_id);
                }
                assert(row_fault(rows[i], clients@, user.id) == Some(e.column@));
                assert(first_fault_at(rows, clients@, user.id, i, e));
                return Err(DatabaseError::Inconsistency(e));
            },
        };
        let client = clients[k].duplicate();
        assert(has_client(clients@, row.client_id)) by {
            assert(clients@[k as int].id == row.client_id);
        }
        let c = ClientConsent {
            id: row.consent_id,
            user: user.duplicate(),
            client,
            scope,
            created_at: row.created_at,
            refreshed_at: row.refreshed_at,
        };
        assert(consent_of_row(c, rows[i], *user, clients@)) by {
            assert(clients@[k as int].same_registration(c.client));
        }
        out.push(c);
    }
    Ok((has_previous_page, has_next_page, out))
}

} // verus!
