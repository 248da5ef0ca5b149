use verily::app_error::AppError;
use verily::code::AppErrorCode;
use verily::db_error::DbError;

#[test]
fn names_are_snake_case() {
    assert_eq!(AppErrorCode::NotConnected.as_str(), "not_connected");
    assert_eq!(AppErrorCode::NotFound.as_str(), "not_found");
    assert_eq!(
        AppErrorCode::UsernameNotAssociatedWithActor.as_str(),
        "username_not_associated_with_actor"
    );
    assert_eq!(AppErrorCode::Db.as_str(), "db");
    assert_eq!(AppErrorCode::ServerFn.as_str(), "server_fn");
    assert_eq!(AppErrorCode::Jwt.as_str(), "jwt");
    assert_eq!(AppErrorCode::Hidden.as_str(), "hidden");
}

#[test]
fn every_name_reads_back() {
    let all = AppErrorCode::all();
    assert_eq!(all.len(), 29);
    for code in all {
        assert_eq!(AppErrorCode::parse(code.as_str()), Some(code));
    }
}

#[test]
fn names_are_pairwise_distinct() {
    let all = AppErrorCode::all();
    for (i, a) in all.iter().enumerate() {
        for b in &all[i + 1..] {
            assert_ne!(a, b);
            assert_ne!(a.as_str(), b.as_str());
        }
    }
}

#[test]
fn unknown_names_read_as_none() {
    assert_eq!(AppErrorCode::parse(""), None);
    assert_eq!(AppErrorCode::parse("NotFound"), None);
    assert_eq!(AppErrorCode::parse("not_found "), None);
    assert_eq!(AppErrorCode::parse("teapot"), None);
}

#[test]
fn code_follows_the_variant() {
    assert_eq!(AppError::Hidden.code(), AppErrorCode::Hidden);
    assert_eq!(AppError::Db(DbError::NotFound).code(), AppErrorCode::Db);
    assert_eq!(
        AppError::NotFound { name: "user".to_string(), id: 7 }.code(),
        AppErrorCode::NotFound
    );
    assert_eq!(AppError::Other("x".to_string()).code(), AppErrorCode::Other);
    assert_eq!(AppError::AccessTokenExpired.code().as_str(), "access_token_expired");
}
