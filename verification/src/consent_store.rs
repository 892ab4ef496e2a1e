//! What storing a consent does to the consents table: the statement inserts
//! one row per granted scope token, and a row that already records the same
//! user, client and token is refreshed instead. The table is modelled as
//! the sequence of its rows.
use vstd::prelude::*;
use crate::consent::{texts, ConsentRow};
use crate::scope::strictly_sorted;
use crate::text::lemma_text_lt_irreflexive;
use crate::time::Timestamp;

verus! {

/// `row` records that user `user_id` granted client `client_id` the scope
/// token `token`.
pub open spec fn records(row: ConsentRow, user_id: u128, client_id: u128, token: Seq<char>) -> bool {
    row.user_id == user_id && row.client_id == client_id && row.scope_token@ == token
}

/// Some row of `table` records `token` for the pair.
pub open spec fn has_record(table: Seq<ConsentRow>, user_id: u128, client_id: u128, token: Seq<char>) -> bool {
    exists|i: int| 0 <= i < table.len() && records(#[trigger] table[i], user_id, client_id, token)
}

/// The scope tokens `table` records for user `user_id` and client
/// `client_id`: what fetching the pair's consent gives.
pub open spec fn stored_tokens(table: Seq<ConsentRow>, user_id: u128, client_id: u128) -> Set<Seq<char>> {
    Set::new(|t: Seq<char>| has_record(table, user_id, client_id, t))
}

/// `row` refreshed at `now`.
pub open spec fn refreshed(row: ConsentRow, now: Timestamp) -> ConsentRow {
    ConsentRow {
        consent_id: row.consent_id,
        client_id: row.client_id,
        user_id: row.user_id,
        scope_token: row.scope_token,
        created_at: row.created_at,
        refreshed_at: Some(now),
    }
}

/// Stores one token: when a row already records it for the pair, that row
/// is refreshed at `now`; otherwise a new row with identifier `id` is added,
/// created at `now` and never refreshed.
pub open spec fn upsert_one(
    table: Seq<ConsentRow>,
    user_id: u128,
    client_id: u128,
    token: String,
    id: u128,
    now: Timestamp,
) -> Seq<ConsentRow> {
    if has_record(table, user_id, client_id, token@) {
        table.map_values(
            |r: ConsentRow|
                if records(r, user_id, client_id, token@) {
                    refreshed(r, now)
                } else {
                    r
                },
        )
    } else {
        table.push(
            ConsentRow {
                consent_id: id,
                client_id,
                user_id,
                scope_token: token,
                created_at: now,
                refreshed_at: None,
            },
        )
    }
}

/// The table after storing the consent of user `user_id` to client
/// `client_id` for `tokens`, with `ids` the new identifiers (one per token):
/// the insert-or-refresh statement, token by token.
pub open spec fn upsert_consents(
    table: Seq<ConsentRow>,
    user_id: u128,
    client_id: u128,
    tokens: Seq<String>,
    ids: Seq<u128>,
    now: Timestamp,
) -> Seq<ConsentRow>
    decreases tokens.len(),
{
    if tokens.len() == 0 {
        table
    } else {
        upsert_one(
            upsert_consents(table, user_id, client_id, tokens.drop_last(), ids.drop_last(), now),
            user_id,
            client_id,
            tokens.last(),
            ids[tokens.len() - 1],
            now,
        )
    }
}

proof fn lemma_texts_push(tokens: Seq<String>)
    requires
        tokens.len() > 0,
    ensures
        texts(tokens) == texts(tokens.drop_last()).push(tokens.last()@),
        texts(tokens).to_set() == texts(tokens.drop_last()).to_set().insert(tokens.last()@),
{
    assert(texts(tokens) =~= texts(tokens.drop_last()).push(tokens.last()@));
    Seq::lemma_to_set_insert_commutes(texts(tokens.drop_last()), tokens.last()@);
    assert(texts(tokens.drop_last()) + seq![tokens.last()@] =~= texts(tokens.drop_last()).push(
        tokens.last()@,
    ));
}

proof fn lemma_upsert_one_stored(
    table: Seq<ConsentRow>,
    user_id: u128,
    client_id: u128,
    token: String,
    id: u128,
    now: Timestamp,
    other_user: u128,
    other_client: u128,
)
    ensures
        stored_tokens(upsert_one(table, user_id, client_id, token, id, now), user_id, client_id)
            == stored_tokens(table, user_id, client_id).insert(token@),
        !(other_user == user_id && other_client == client_id) ==> stored_tokens(
            upsert_one(table, user_id, client_id, token, id, now),
            other_user,
            other_client,
        ) == stored_tokens(table, other_user, other_client),
{
    let after = upsert_one(table, user_id, client_id, token, id, now);
    if has_record(table, user_id, client_id, token@) {
        assert forall|u: u128, c: u128, t: Seq<char>| has_record(after, u, c, t) <==> has_record(
            table,
            u,
            c,
            t,
        ) by {
            if has_record(after, u, c, t) {
                let i = choose|i: int| 0 <= i < after.len() && records(#[trigger] after[i], u, c, t);
                assert(records(table[i], u, c, t));
            }
            if has_record(table, u, c, t) {
                let i = choose|i: int| 0 <= i < table.len() && records(#[trigger] table[i], u, c, t);
                assert(records(after[i], u, c, t));
            }
        }
        assert(stored_tokens(after, user_id, client_id) =~= stored_tokens(table, user_id, client_id).insert(
            token@,
        ));
        assert(stored_tokens(after, other_user, other_client) =~= stored_tokens(
            table,
            other_user,
            other_client,
        ));
    } else {
        let n = table.len() as int;
        assert forall|u: u128, c: u128, t: Seq<char>| has_record(after, u, c, t) <==> (has_record(
            table,
            u,
            c,
            t,
        ) || (u == user_id && c == client_id && t == token@)) by {
            if has_record(after, u, c, t) {
                let i = choose|i: int| 0 <= i < after.len() && records(#[trigger] after[i], u, c, t);
                if i < n {
                    assert(records(table[i], u, c, t));
                }
            }
            if has_record(table, u, c, t) {
                let i = choose|i: int| 0 <= i < table.len() && records(#[trigger] table[i], u, c, t);
                assert(records(after[i], u, c, t));
            }
            if u == user_id && c == client_id && t == token@ {
                assert(records(after[n], u, c, t));
            }
        }
        assert(stored_tokens(after, user_id, client_id) =~= stored_tokens(table, user_id, client_id).insert(
            token@,
        ));
        if !(other_user == user_id && other_client == client_id) {
            assert(stored_tokens(after, other_user, other_client) =~= stored_tokens(
                table,
                other_user,
                other_client,
            ));
        }
    }
}

/// Storing a consent adds the granted tokens to what the pair's consent
/// holds and removes none: fetching it afterwards gives the tokens held
/// before together with the granted ones. The consents of every other user
/// and client pair are unchanged.
pub proof fn law_consent_upsert_union(
    table: Seq<ConsentRow>,
    user_id: u128,
    client_id: u128,
    tokens: Seq<String>,
    ids: Seq<u128>,
    now: Timestamp,
    other_user: u128,
    other_client: u128,
)
    requires
        ids.len() == tokens.len(),
    ensures
        stored_tokens(upsert_consents(table, user_id, client_id, tokens, ids, now), user_id, client_id)
            == stored_tokens(table, user_id, client_id).union(texts(tokens).to_set()),
        !(other_user == user_id && other_client == client_id) ==> stored_tokens(
            upsert_consents(table, user_id, client_id, tokens, ids, now),
            other_user,
            other_client,
        ) == stored_tokens(table, other_user, other_client),
    decreases tokens.len(),
{
    if tokens.len() == 0 {
        assert(texts(tokens).to_set() =~= Set::<Seq<char>>::empty());
        assert(stored_tokens(table, user_id, client_id).union(texts(tokens).to_set()) =~= stored_tokens(
            table,
            user_id,
            client_id,
        ));
    } else {
        let prefix = upsert_consents(table, user_id, client_id, tokens.drop_last(), ids.drop_last(), now);
        law_consent_upsert_union(
            table,
            user_id,
            client_id,
            tokens.drop_last(),
            ids.drop_last(),
            now,
            other_user,
            other_client,
        );
        lemma_upsert_one_stored(
            prefix,
            user_id,
            client_id,
            tokens.last(),
            ids[tokens.len() - 1],
            now,
            other_user,
            other_client,
        );
        lemma_texts_push(tokens);
        assert(stored_tokens(table, user_id, client_id).union(texts(tokens.drop_last()).to_set()).insert(
            tokens.last()@,
        ) =~= stored_tokens(table, user_id, client_id).union(texts(tokens).to_set()));
    }
}

/// What storing a consent does to each row, for tokens given once each:
/// a row that recorded a granted token for the pair is refreshed at `now`,
/// keeping its identifier, token and creation time; every other row is
/// unchanged; and each added row records, for the pair, a granted token the
/// table did not hold, with that token's new identifier, created at `now`
/// and never refreshed.
pub proof fn law_consent_upsert_rows(
    table: Seq<ConsentRow>,
    user_id: u128,
    client_id: u128,
    tokens: Seq<String>,
    ids: Seq<u128>,
    now: Timestamp,
)
    requires
        ids.len() == tokens.len(),
        texts(tokens).no_duplicates(),
    ensures
        ({
            let after = upsert_consents(table, user_id, client_id, tokens, ids, now);
            &&& after.len() >= table.len()
            &&& forall|i: int| 0 <= i < table.len() ==> #[trigger] after[i] == if (table[i].user_id
                == user_id && table[i].client_id == client_id && texts(tokens).contains(
                table[i].scope_token@,
            )) {
                refreshed(table[i], now)
            } else {
                table[i]
            }
            &&& forall|i: int| table.len() <= i < after.len() ==> {
                &&& (#[trigger] after[i]).user_id == user_id
                &&& after[i].client_id == client_id
                &&& after[i].created_at == now
                &&& after[i].refreshed_at is None
                &&& !has_record(table, user_id, client_id, after[i].scope_token@)
                &&& exists|k: int| 0 <= k < tokens.len() && tokens[k]@ == after[i].scope_token@
                    && ids[k] == after[i].consent_id
            }
        }),
    decreases tokens.len(),
{
    let after = upsert_consents(table, user_id, client_id, tokens, ids, now);
    if tokens.len() == 0 {
        assert(after == table);
    } else {
        let pt = tokens.drop_last();
        let pi = ids.drop_last();
        let last = tokens.len() - 1;
        let tok = tokens.last();
        let id = ids[last];
        assert(texts(pt) =~= texts(tokens).drop_last());
        assert(texts(pt).no_duplicates());
        law_consent_upsert_rows(table, user_id, client_id, pt, pi, now);
        let prefix = upsert_consents(table, user_id, client_id, pt, pi, now);
        lemma_texts_push(tokens);
        assert(!texts(pt).contains(tok@)) by {
            if texts(pt).contains(tok@) {
                let k = choose|k: int| 0 <= k < texts(pt).len() && texts(pt)[k] == tok@;
                assert(texts(tokens)[k] == texts(tokens)[last]);
            }
        }
        assert forall|t: Seq<char>| #[trigger] texts(tokens).contains(t) <==> (texts(pt).contains(t)
            || t == tok@) by {
            if texts(tokens).contains(t) {
                let k = choose|k: int| 0 <= k < texts(tokens).len() && texts(tokens)[k] == t;
                if k < last {
                    assert(texts(pt)[k] == t);
                }
            }
            if texts(pt).contains(t) {
                let k = choose|k: int| 0 <= k < texts(pt).len() && texts(pt)[k] == t;
                assert(texts(tokens)[k] == t);
            }
            if t == tok@ {
                assert(texts(tokens)[last] == t);
            }
        }
        if has_record(prefix, user_id, client_id, tok@) {
            assert forall|i: int| 0 <= i < table.len() implies #[trigger] after[i] == if (table[i].user_id
                == user_id && table[i].client_id == client_id && texts(tokens).contains(
                table[i].scope_token@,
            )) {
                refreshed(table[i], now)
            } else {
                table[i]
            } by {
                assert(after[i] == if records(prefix[i], user_id, client_id, tok@) {
                    refreshed(prefix[i], now)
                } else {
                    prefix[i]
                });
            }
            assert forall|i: int| table.len() <= i < after.len() implies {
                &&& (#[trigger] after[i]).user_id == user_id
                &&& after[i].client_id == client_id
                &&& after[i].created_at == now
                &&& after[i].refreshed_at is None
                &&& !has_record(table, user_id, client_id, after[i].scope_token@)
                &&& exists|k: int| 0 <= k < tokens.len() && tokens[k]@ == after[i].scope_token@
                    && ids[k] == after[i].consent_id
            } by {
                let k = choose|k: int| 0 <= k < pt.len() && pt[k]@ == prefix[i].scope_token@ && pi[k]
                    == prefix[i].consent_id;
                assert(texts(pt)[k] == prefix[i].scope_token@);
                assert(prefix[i].scope_token@ != tok@);
                assert(after[i] == prefix[i]);
                assert(tokens[k] == pt[k]);
            }
        } else {
            let n = prefix.len() as int;
            assert(!has_record(table, user_id, client_id, tok@)) by {
                if has_record(table, user_id, client_id, tok@) {
                    let i = choose|i: int| 0 <= i < table.len() && records(#[trigger] table[i], user_id, client_id, tok@);
                    assert(records(prefix[i], user_id, client_id, tok@));
                }
            }
            assert forall|i: int| 0 <= i < table.len() implies #[trigger] after[i] == if (table[i].user_id
                == user_id && table[i].client_id == client_id && texts(tokens).contains(
                table[i].scope_token@,
            )) {
                refreshed(table[i], now)
            } else {
                table[i]
            } by {
                assert(after[i] == prefix[i]);
                if table[i].user_id == user_id && table[i].client_id == client_id {
                    assert(table[i].scope_token@ != tok@);
                }
            }
            assert forall|i: int| table.len() <= i < after.len() implies {
                &&& (#[trigger] after[i]).user_id == user_id
                &&& after[i].client_id == client_id
                &&& after[i].created_at == now
                &&& after[i].refreshed_at is None
                &&& !has_record(table, user_id, client_id, after[i].scope_token@)
                &&& exists|k: int| 0 <= k < tokens.len() && tokens[k]@ == after[i].scope_token@
                    && ids[k] == after[i].consent_id
            } by {
                if i < n {
                    let k = choose|k: int| 0 <= k < pt.len() && pt[k]@ == prefix[i].scope_token@
                        && pi[k] == prefix[i].consent_id;
                    assert(tokens[k] == pt[k]);
                    assert(after[i] == prefix[i]);
                } else {
                    assert(after[i].scope_token == tok);
                    assert(tokens[last]@ == after[i].scope_token@);
                }
            }
        }
    }
}

/// Storing the same consent again, with whatever new identifiers, adds no
/// row and leaves the pair's tokens as the first time left them.
pub proof fn law_consent_upsert_idempotent(
    table: Seq<ConsentRow>,
    user_id: u128,
    client_id: u128,
    tokens: Seq<String>,
    ids: Seq<u128>,
    again_ids: Seq<u128>,
    now: Timestamp,
    later: Timestamp,
)
    requires
        ids.len() == tokens.len(),
        again_ids.len() == tokens.len(),
        texts(tokens).no_duplicates(),
    ensures
        ({
            let once = upsert_consents(table, user_id, client_id, tokens, ids, now);
            let twice = upsert_consents(once, user_id, client_id, tokens, again_ids, later);
            &&& twice.len() == once.len()
            &&& stored_tokens(twice, user_id, client_id) == stored_tokens(once, user_id, client_id)
        }),
{
    let once = upsert_consents(table, user_id, client_id, tokens, ids, now);
    let twice = upsert_consents(once, user_id, client_id, tokens, again_ids, later);
    law_consent_upsert_union(table, user_id, client_id, tokens, ids, now, user_id, client_id);
    law_consent_upsert_union(once, user_id, client_id, tokens, again_ids, later, user_id, client_id);
    law_consent_upsert_rows(once, user_id, client_id, tokens, again_ids, later);
    assert(stored_tokens(once, user_id, client_id).union(texts(tokens).to_set()) =~= stored_tokens(
        once,
        user_id,
        client_id,
    ));
    if twice.len() > once.len() {
        let i = once.len() as int;
        let k = choose|k: int| 0 <= k < tokens.len() && tokens[k]@ == twice[i].scope_token@
            && again_ids[k] == twice[i].consent_id;
        assert(texts(tokens)[k] == tokens[k]@);
        assert(texts(tokens).to_set().contains(tokens[k]@));
        assert(stored_tokens(once, user_id, client_id).contains(twice[i].scope_token@));
    }
}

/// Storing the rows that `insert_client_consent` makes for a scope (its
/// tokens, each once, with their new identifiers): the pair's consent is
/// then what it was together with the scope's tokens, and storing the same
/// scope again adds no row and leaves the consent as it is.
pub proof fn law_consent_insert_round_trip(
    table: Seq<ConsentRow>,
    user_id: u128,
    client_id: u128,
    scope: Seq<Seq<char>>,
    tokens: Seq<String>,
    ids: Seq<u128>,
    again_ids: Seq<u128>,
    now: Timestamp,
    later: Timestamp,
)
    requires
        strictly_sorted(scope),
        texts(tokens) == scope,
        ids.len() == tokens.len(),
        again_ids.len() == tokens.len(),
    ensures
        ({
            let once = upsert_consents(table, user_id, client_id, tokens, ids, now);
            let twice = upsert_consents(once, user_id, client_id, tokens, again_ids, later);
            &&& stored_tokens(once, user_id, client_id) == stored_tokens(table, user_id, client_id).union(
                scope.to_set(),
            )
            &&& twice.len() == once.len()
            &&& stored_tokens(twice, user_id, client_id) == stored_tokens(once, user_id, client_id)
        }),
{
    assert(scope.no_duplicates()) by {
        assert forall|i: int, j: int| 0 <= i < scope.len() && 0 <= j < scope.len() && i != j implies scope[i]
            != scope[j] by {
            lemma_text_lt_irreflexive(scope[i]);
            if i < j {
                assert(crate::text::text_lt(scope[i], scope[j]));
            } else {
                assert(crate::text::text_lt(scope[j], scope[i]));
            }
        }
    }
    law_consent_upsert_union(table, user_id, client_id, tokens, ids, now, user_id, client_id);
    law_consent_upsert_idempotent(table, user_id, client_id, tokens, ids, again_ids, now, later);
}

} // verus!
