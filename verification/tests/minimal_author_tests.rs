use blog_server::minimal_author::{
    authorize_minimal_author_update, finish_minimal_author_update, prepare_minimal_author_update, AuthorIdentity,
    UpdateMinimalAuthorContentFailure,
};
use blog_server::numbers::parse_u64;

fn ok_author(id: u64) -> Result<AuthorIdentity, String> {
    Ok(AuthorIdentity { id, blocked: 0 })
}

#[test]
fn minimal_author_update_appends_id_to_slug() {
    let res = prepare_minimal_author_update(ok_author(42), Ok("john".to_string()), Ok(()));
    let update = res.ok().unwrap();
    assert_eq!(update.author_id, 42);
    assert_eq!(update.slug, "john#42");
}

#[test]
fn minimal_author_update_unauthorized() {
    let res = prepare_minimal_author_update(
        Err("no token".to_string()),
        Ok("john".to_string()),
        Ok(()),
    );
    match res {
        Err(UpdateMinimalAuthorContentFailure::Unauthorized { reason }) => {
            assert_eq!(reason, "no token")
        }
        _ => panic!("expected Unauthorized"),
    }
}

#[test]
fn minimal_author_update_blocked_author() {
    let blocked = Ok(AuthorIdentity { id: 7, blocked: 1 });
    let res = prepare_minimal_author_update(blocked, Err("bad body".to_string()), Ok(()));
    assert!(matches!(res, Err(UpdateMinimalAuthorContentFailure::EditingForbidden)));
    let other_flag = Ok(AuthorIdentity { id: 7, blocked: 2 });
    let res = prepare_minimal_author_update(other_flag, Ok("x".to_string()), Ok(()));
    assert_eq!(res.ok().unwrap().slug, "x#7");
}

#[test]
fn minimal_author_update_unreadable_data() {
    let res = prepare_minimal_author_update(
        ok_author(1),
        Err("expected json".to_string()),
        Err("never looked at".to_string()),
    );
    match res {
        Err(UpdateMinimalAuthorContentFailure::ValidationError { reason }) => {
            assert_eq!(reason, "expected json")
        }
        _ => panic!("expected ValidationError"),
    }
}

#[test]
fn minimal_author_update_invalid_data() {
    let res = prepare_minimal_author_update(
        ok_author(1),
        Ok("a".to_string()),
        Err("slug too short".to_string()),
    );
    match res {
        Err(UpdateMinimalAuthorContentFailure::ValidationError { reason }) => {
            assert_eq!(reason, "slug too short")
        }
        _ => panic!("expected ValidationError"),
    }
}

#[test]
fn minimal_author_store_outcome() {
    assert!(finish_minimal_author_update(Ok(())).is_ok());
    match finish_minimal_author_update(Err("duplicate key".to_string())) {
        Err(UpdateMinimalAuthorContentFailure::DatabaseError { reason }) => {
            assert_eq!(reason, "duplicate key")
        }
        _ => panic!("expected DatabaseError"),
    }
}

#[test]
fn stored_slug_identifies_author() {
    let update = prepare_minimal_author_update(ok_author(981), Ok("a#b".to_string()), Ok(()))
        .ok()
        .unwrap();
    assert_eq!(update.slug, "a#b#981");
    let (_, id) = update.slug.rsplit_once('#').unwrap();
    assert_eq!(parse_u64(id), Some(981));
}

#[test]
fn minimal_author_access_is_decided_first() {
    match authorize_minimal_author_update(Err("expired".to_string())) {
        Err(UpdateMinimalAuthorContentFailure::Unauthorized { reason }) => {
            assert_eq!(reason, "expired")
        }
        _ => panic!("expected Unauthorized"),
    }
    assert!(matches!(
        authorize_minimal_author_update(Ok(AuthorIdentity { id: 3, blocked: 1 })),
        Err(UpdateMinimalAuthorContentFailure::EditingForbidden)
    ));
    let granted = authorize_minimal_author_update(Ok(AuthorIdentity { id: 3, blocked: 0 }))
        .ok()
        .unwrap();
    assert_eq!(granted.id, 3);
    let update = prepare_minimal_author_update(Ok(granted), Ok("ann".to_string()), Ok(()))
        .ok()
        .unwrap();
    assert_eq!(update.slug, "ann#3");
}
