use mas_core::client::{Client, ClientAuthMethod};
use mas_core::consent::{
    fetch_client_consent, get_paginated_user_client_consents, insert_client_consent,
    lookup_consent, user_consents_page_query, ConsentRow, DatabaseError,
};
use mas_core::pagination::PageQuery;
use mas_core::scope::Scope;
use mas_core::time::Timestamp;
use mas_core::tokens::User;

fn client(id: u128) -> Client {
    Client {
        id,
        client_id: format!("client-{id}"),
        client_name: Some("Client".to_owned()),
        client_uri: None,
        tos_uri: None,
        policy_uri: None,
        redirect_uris: vec!["https://example.com/cb".to_owned()],
        token_endpoint_auth_method: Some(ClientAuthMethod::ClientSecretBasic),
    }
}

fn user() -> User {
    User { id: 1, username: "john".to_owned(), sub: "john-sub".to_owned() }
}

fn row(id: u128, client_id: u128, token: &str) -> ConsentRow {
    ConsentRow {
        consent_id: id,
        client_id,
        user_id: 1,
        scope_token: token.to_owned(),
        created_at: Timestamp::new(100, 0),
        refreshed_at: None,
    }
}

#[test]
fn consent_scope_from_rows() {
    let s = fetch_client_consent(vec!["openid".to_owned(), "profile".to_owned(), "openid".to_owned()]).unwrap();
    assert_eq!(s.to_string(), "openid profile");
    let e = fetch_client_consent(vec!["openid".to_owned(), "bad token".to_owned()]).err().unwrap();
    assert_eq!(e.table, "oauth2_consents");
    assert_eq!(e.column, "scope_token");
    assert_eq!(e.row, None);
    assert_eq!(fetch_client_consent(vec![]).unwrap().len(), 0);
}

#[test]
fn consent_rows_share_the_insertion_time() {
    let scope = Scope::parse("openid email").unwrap();
    // 1.5 seconds after the epoch
    let now = Timestamp::new(1, 500_000_000);
    let random = vec![7u128, (1u128 << 80) + 9];
    let (tokens, ids) = insert_client_consent(&scope, now, &random);
    assert_eq!(tokens, vec!["email".to_owned(), "openid".to_owned()]);
    assert_eq!(ids, vec![(1500u128 << 80) | 7, (1500u128 << 80) | 9]);
    // instants before the epoch count as the epoch
    let (_, ids) = insert_client_consent(&scope, Timestamp::new(-5, 0), &random);
    assert_eq!(ids, vec![7, 9]);
}

#[test]
fn lookup_consent_checks_client_and_scope() {
    assert!(lookup_consent(None, None).unwrap().is_none());
    let e = lookup_consent(Some(row(4, 2, "openid")), None).err().unwrap();
    assert_eq!((e.column.as_str(), e.row), ("client_id", Some(4)));
    let e = lookup_consent(Some(row(4, 2, "not\"valid")), Some(client(2))).err().unwrap();
    assert_eq!((e.column.as_str(), e.row), ("scope_token", Some(4)));
    let parts = lookup_consent(Some(row(4, 2, "openid")), Some(client(2))).unwrap().unwrap();
    let consent = parts.with_user(user());
    assert_eq!(consent.id, 4);
    assert_eq!(consent.client.id, 2);
    assert_eq!(consent.user.username, "john");
    assert_eq!(consent.scope.to_string(), "openid");
    assert_eq!(consent.created_at, Timestamp::new(100, 0));
}

#[test]
fn paginated_consents() {
    let clients = vec![client(2), client(3)];
    let rows = vec![row(10, 2, "openid"), row(11, 3, "email"), row(12, 2, "profile")];
    let (prev, next, page) = get_paginated_user_client_consents(&user(), rows, Some(2), None, &clients).unwrap();
    assert!(!prev);
    assert!(next);
    assert_eq!(page.len(), 2);
    assert_eq!(page[0].id, 10);
    assert_eq!(page[1].client.client_id, "client-3");
    assert_eq!(page[1].scope.to_string(), "email");
    assert_eq!(page[1].user.sub, "john-sub");

    // newest first when counting from the end
    let rows = vec![row(12, 2, "profile"), row(11, 3, "email")];
    let (prev, next, page) = get_paginated_user_client_consents(&user(), rows, None, Some(2), &clients).unwrap();
    assert!(!prev && !next);
    assert_eq!(page.iter().map(|c| c.id).collect::<Vec<_>>(), vec![11, 12]);

    // the first faulty row is reported
    let rows = vec![row(10, 2, "openid"), row(11, 9, "email"), row(12, 2, "bad\"scope")];
    match get_paginated_user_client_consents(&user(), rows, Some(5), None, &clients) {
        Err(DatabaseError::Inconsistency(e)) => {
            assert_eq!(e.column, "oauth2_client_id");
            assert_eq!(e.row, Some(11));
        }
        _ => panic!("expected an inconsistency"),
    }
    let rows = vec![row(10, 2, "bad\"scope"), row(11, 9, "email")];
    match get_paginated_user_client_consents(&user(), rows, Some(5), None, &clients) {
        Err(DatabaseError::Inconsistency(e)) => {
            assert_eq!(e.column, "scope_token");
            assert_eq!(e.row, Some(10));
        }
        _ => panic!("expected an inconsistency"),
    }
    let r = get_paginated_user_client_consents(&user(), vec![], None, None, &clients);
    assert!(matches!(r, Err(DatabaseError::InvalidPagination)));
}

#[test]
fn consent_page_query_is_for_the_user() {
    let q = user_consents_page_query(&user(), Some(9), Some(3), Some(4), None).unwrap();
    assert_eq!(q.user_id, 1);
    assert_eq!(q.page, PageQuery { after: Some(3), before: Some(9), ascending: true, limit: 5 });
    let q = user_consents_page_query(&user(), None, None, None, Some(2)).unwrap();
    assert_eq!(q.user_id, 1);
    assert_eq!(q.page, PageQuery { after: None, before: None, ascending: false, limit: 3 });
    assert!(user_consents_page_query(&user(), None, None, None, None).is_err());
}

#[test]
fn a_row_of_another_user_is_reported() {
    let clients = vec![client(2)];
    let mut other = row(5, 2, "openid");
    other.user_id = 9;
    let rows = vec![row(4, 2, "openid"), other];
    match get_paginated_user_client_consents(&user(), rows, Some(5), None, &clients) {
        Err(DatabaseError::Inconsistency(e)) => {
            assert_eq!(e.table, "oauth2_consents");
            assert_eq!(e.column, "user_id");
            assert_eq!(e.row, Some(5));
        }
        other => panic!("unexpected {other:?}"),
    }
}
