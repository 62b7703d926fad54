use atom_token::router::{STATUS_INTERNAL_SERVER_ERROR, STATUS_OK};
use atom_token::schema::create::{CreateReq, CreateRes};
use atom_token::schema::find::{FindReq, FindRes};
use atom_token::schema::list::{ListReq, ListRes, ListedToken, DEFAULT_PAGE};
use atom_token::schema::remove::{RemoveReq, RemoveRes};
use atom_token::schema::set::{SetReq, SetRes};
use atom_token::{InternalRouter, Router, Token, TokenError};

fn token(id: &str, user_id: u64, created: u64, label: &str) -> Token {
    Token { id: id.to_string(), user_id, created, label: label.to_string() }
}

fn store_error(reason: &str) -> TokenError {
    TokenError::Store { reason: reason.to_string() }
}

#[test]
fn status_codes() {
    assert_eq!(STATUS_OK, 200);
    assert_eq!(STATUS_INTERNAL_SERVER_ERROR, 500);
}

#[test]
fn requests_hold_their_fields() {
    let create = CreateReq { user_id: 1, label: "l".to_string() };
    assert_eq!((create.user_id, create.label.as_str()), (1, "l"));
    let find = FindReq { token: "t".to_string() };
    assert_eq!(find.token, "t");
    let list = ListReq { user_id: 2, page: DEFAULT_PAGE };
    assert_eq!((list.user_id, list.page), (2, 0));
    let set = SetReq { token: "t".to_string(), label: "n".to_string() };
    assert_eq!((set.token.as_str(), set.label.as_str()), ("t", "n"));
    let remove = RemoveReq { token: "t".to_string() };
    assert_eq!(remove.token, "t");
}

#[test]
fn create_response() {
    assert_eq!(CreateRes::success("abc".to_string()), CreateRes::Created { token: "abc".to_string() });
    assert_eq!(CreateRes::failure(store_error("down")), CreateRes::Error { reason: "down".to_string() });
    assert_eq!(CreateRes::failure(TokenError::NotFound), CreateRes::Error { reason: "token not found".to_string() });
    assert_eq!(CreateRes::success(String::new()).status(), 200);
    assert_eq!(CreateRes::failure(store_error("down")).status(), 500);
    assert_eq!(InternalRouter::create(Ok("abc".to_string())), CreateRes::Created { token: "abc".to_string() });
    assert_eq!(InternalRouter::create(Err(store_error("down"))), CreateRes::Error { reason: "down".to_string() });
    assert_eq!(
        Router::create(CreateRes::Created { token: "abc".to_string() }),
        (200, CreateRes::Created { token: "abc".to_string() })
    );
    assert_eq!(
        Router::create(CreateRes::Error { reason: "down".to_string() }),
        (500, CreateRes::Error { reason: "down".to_string() })
    );
}

#[test]
fn find_response() {
    let found = FindRes::Found { user_id: 3, label: "l".to_string(), created: 99 };
    assert_eq!(FindRes::success(token("id", 3, 99, "l")), found);
    assert_eq!(FindRes::failure(TokenError::NotFound), FindRes::Error { reason: "token not found".to_string() });
    assert_eq!(FindRes::failure(store_error("down")), FindRes::Error { reason: "down".to_string() });
    assert_eq!(found.status(), 200);
    assert_eq!(FindRes::failure(TokenError::NotFound).status(), 500);
    assert_eq!(InternalRouter::find(Ok(token("id", 3, 99, "l"))), found);
    assert_eq!(InternalRouter::find(Err(TokenError::NotFound)), FindRes::Error { reason: "token not found".to_string() });
    assert_eq!(Router::find(FindRes::success(token("id", 3, 99, "l"))), (200, found));
    assert_eq!(
        Router::find(FindRes::failure(TokenError::NotFound)),
        (500, FindRes::Error { reason: "token not found".to_string() })
    );
}

#[test]
fn listed_token_drops_the_owner() {
    assert_eq!(
        ListedToken::from(token("id", 3, 99, "l")),
        ListedToken { token: "id".to_string(), created: 99, label: "l".to_string() }
    );
}

#[test]
fn list_response() {
    let listed = ListRes::List {
        tokens: vec![
            ListedToken { token: "a".to_string(), created: 1, label: "x".to_string() },
            ListedToken { token: "b".to_string(), created: 2, label: "y".to_string() },
            ListedToken { token: "c".to_string(), created: 3, label: "z".to_string() },
        ],
    };
    let tokens = || vec![token("a", 7, 1, "x"), token("b", 7, 2, "y"), token("c", 7, 3, "z")];
    assert_eq!(ListRes::success(tokens()), listed);
    assert_eq!(ListRes::success(Vec::new()), ListRes::List { tokens: Vec::new() });
    assert_eq!(ListRes::failure(store_error("down")), ListRes::Error { reason: "down".to_string() });
    assert_eq!(listed.status(), 200);
    assert_eq!(ListRes::success(Vec::new()).status(), 200);
    assert_eq!(ListRes::failure(store_error("down")).status(), 500);
    assert_eq!(InternalRouter::list(Ok(tokens())), listed);
    assert_eq!(InternalRouter::list(Err(store_error("down"))), ListRes::Error { reason: "down".to_string() });
    assert_eq!(Router::list(ListRes::success(tokens())), (200, listed));
    assert_eq!(
        Router::list(ListRes::failure(store_error("down"))),
        (500, ListRes::Error { reason: "down".to_string() })
    );
}

#[test]
fn set_response() {
    assert_eq!(SetRes::success(()), SetRes::Relabelled);
    assert_eq!(SetRes::failure(TokenError::NotFound), SetRes::Error { reason: "token not found".to_string() });
    assert_eq!(SetRes::Relabelled.status(), 200);
    assert_eq!(SetRes::failure(TokenError::NotFound).status(), 500);
    assert_eq!(InternalRouter::set(Ok(())), SetRes::Relabelled);
    assert_eq!(InternalRouter::set(Err(store_error("down"))), SetRes::Error { reason: "down".to_string() });
    assert_eq!(Router::set(SetRes::Relabelled), (200, SetRes::Relabelled));
    assert_eq!(
        Router::set(SetRes::Error { reason: "down".to_string() }),
        (500, SetRes::Error { reason: "down".to_string() })
    );
}

#[test]
fn remove_response() {
    assert_eq!(RemoveRes::success(()), RemoveRes::Removed);
    assert_eq!(RemoveRes::failure(TokenError::NotFound), RemoveRes::Error { reason: "token not found".to_string() });
    assert_eq!(RemoveRes::Removed.status(), 200);
    assert_eq!(RemoveRes::failure(TokenError::NotFound).status(), 500);
    assert_eq!(InternalRouter::remove(Ok(())), RemoveRes::Removed);
    assert_eq!(InternalRouter::remove(Err(store_error("down"))), RemoveRes::Error { reason: "down".to_string() });
    assert_eq!(Router::remove(RemoveRes::Removed), (200, RemoveRes::Removed));
    assert_eq!(
        Router::remove(RemoveRes::Error { reason: "down".to_string() }),
        (500, RemoveRes::Error { reason: "down".to_string() })
    );
}
