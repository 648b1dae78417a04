use chrono::{NaiveDate, NaiveDateTime};
use user_api::auth::{JSONWebToken, Token, ACCESS_TTL, REFRESH_TTL};
use user_api::handlers::{
    create_user, delete_user, deleted_reply, found_user, get_user, get_users, greet, login,
    login_at, missing_user_message, refresh_jwt, refresh_jwt_at, stored_reply, update_user,
    update_user_at, update_user_full, update_user_full_at, Reply,
};
use user_api::models::{
    ApiResponse, HomeResponse, LoginResponse, RefreshToken, User, UserFields, UserRequest,
};
use user_api::pagination::{PageEnvelope, Pagination, PaginationQuery};
use user_api::serializers::{clone_text, UserSerializer};

fn at(day: u32, hour: u32) -> NaiveDateTime {
    NaiveDate::from_ymd_opt(2024, 9, day).unwrap().and_hms_opt(hour, 37, 12).unwrap()
}

fn text(s: &str) -> Option<String> {
    Some(s.to_string())
}

fn message(s: &str) -> ApiResponse {
    ApiResponse { message: s.to_string() }
}

fn empty_request() -> UserRequest {
    UserRequest {
        username: None,
        firstname: None,
        lastname: None,
        email: None,
        password: None,
        is_active: None,
        last_login: None,
        date_joined: None,
        created_at: None,
        updated_at: None,
        is_admin: None,
        is_superadmin: None,
    }
}

fn stored_user() -> User {
    User {
        id: 7,
        fields: UserFields {
            username: text("grace"),
            firstname: text("Grace"),
            lastname: text("Hopper"),
            email: text("grace@example.org"),
            password: text("cobol"),
            is_active: Some(true),
            last_login: Some(at(1, 8)),
            date_joined: Some(at(2, 9)),
            created_at: Some(at(3, 10)),
            updated_at: Some(at(4, 11)),
            is_admin: Some(false),
            is_superadmin: None,
        },
    }
}

fn codec() -> JSONWebToken {
    JSONWebToken::new("handlers".to_string())
}

#[test]
fn replies_carry_their_status() {
    assert_eq!(Reply::Success(1).status_code(), 200);
    assert_eq!(Reply::<u8>::BadRequest(message("m")).status_code(), 400);
    assert_eq!(Reply::<u8>::NotFound(message("m")).status_code(), 404);
    assert_eq!(Reply::<u8>::InternalServerError(message("m")).status_code(), 500);
}

#[test]
fn greeting_names_the_caller() {
    assert_eq!(greet("World"), HomeResponse { message: "Hello World!".to_string() });
    assert_eq!(greet("").message, "Hello !");
    assert_eq!(user_api::handlers::test().message, "Testing...");
}

#[test]
fn refresh_with_a_valid_token_issues_a_new_pair() {
    let jwt = codec();
    let old = jwt.encode_at(5, "ada@example.org".to_string(), 1_000).unwrap();
    let reply = refresh_jwt_at(&jwt, &RefreshToken { token: old.refresh_token.clone() }, 2_000);
    let expected = jwt.encode_at(5, "ada@example.org".to_string(), 2_000).unwrap();
    assert_eq!(reply, Reply::Success(expected.clone()));
    assert_eq!(reply.status_code(), 200);
    let claims = jwt.decode_at(expected.token, 2_000).unwrap();
    assert_eq!((claims.id, claims.iat, claims.exp), (5, 2_000, 2_000 + ACCESS_TTL));
    let claims = jwt.decode_at(expected.refresh_token, 2_000).unwrap();
    assert_eq!((claims.id, claims.iat, claims.exp), (5, 2_000, 2_000 + REFRESH_TTL));
    let reply = refresh_jwt_at(&jwt, &RefreshToken { token: old.token }, 2_000);
    assert_eq!(reply.status_code(), 200);
}

#[test]
fn refresh_with_an_expired_token_is_a_bad_request() {
    let jwt = codec();
    let old = jwt.encode_at(5, "ada@example.org".to_string(), 1_000).unwrap();
    let reply = refresh_jwt_at(&jwt, &RefreshToken { token: old.token.clone() }, 4_601);
    assert_eq!(reply, Reply::BadRequest(message("ExpiredSignature")));
    assert_eq!(reply.status_code(), 400);
    let reply = refresh_jwt(&jwt, &RefreshToken { token: old.token });
    assert_eq!(reply, Reply::BadRequest(message("ExpiredSignature")));
    let reply = refresh_jwt(&jwt, &RefreshToken { token: old.refresh_token });
    assert_eq!(reply, Reply::BadRequest(message("ExpiredSignature")));
}

#[test]
fn refresh_with_an_invalid_token_is_a_bad_request() {
    let jwt = codec();
    let reply = refresh_jwt_at(&jwt, &RefreshToken { token: "junk".to_string() }, 0);
    assert_eq!(reply, Reply::BadRequest(message("InvalidToken")));
    let other = JSONWebToken::new("else".to_string()).encode_at(1, "a@b.c".to_string(), 0).unwrap();
    let reply = refresh_jwt_at(&jwt, &RefreshToken { token: other.token }, 0);
    assert_eq!(reply, Reply::BadRequest(message("InvalidSignature")));
}

#[test]
fn refresh_at_the_present_time_issues_fresh_tokens() {
    let jwt = codec();
    let old = jwt.encode(5, "ada@example.org".to_string()).unwrap();
    match refresh_jwt(&jwt, &RefreshToken { token: old.refresh_token }) {
        Reply::Success(Token { token, refresh_token }) => {
            let access = jwt.decode(token).unwrap();
            assert_eq!(access.id, 5);
            assert_eq!(access.email, "ada@example.org");
            assert_eq!(jwt.decode(refresh_token).unwrap().exp, access.iat + REFRESH_TTL);
        }
        other => panic!("{:?}", other),
    }
}

#[test]
fn login_answers_with_tokens_for_the_user_found() {
    let jwt = codec();
    let mut payload = empty_request();
    payload.username = text("grace");
    payload.password = text("cobol");
    let reply = login_at(&payload, Ok(Some(stored_user())), &jwt, 1_000);
    let pair = jwt.encode_at(7, "grace@example.org".to_string(), 1_000).unwrap();
    assert_eq!(
        reply,
        Reply::Success(LoginResponse { token: pair.token, refresh_token: pair.refresh_token })
    );
    match login(&payload, Ok(Some(stored_user())), &jwt) {
        Reply::Success(body) => assert_eq!(jwt.decode(body.token).unwrap().id, 7),
        other => panic!("{:?}", other),
    }
}

#[test]
fn login_without_a_match_is_not_found() {
    let mut payload = empty_request();
    payload.username = text("nobody");
    let reply = login_at(&payload, Ok(None), &codec(), 1_000);
    assert_eq!(reply, Reply::NotFound(message("User 'nobody' not found")));
    assert_eq!(reply.status_code(), 404);
    assert_eq!(login(&payload, Ok(None), &codec()), reply);
}

#[test]
fn login_reports_a_failing_store_as_a_bad_request() {
    let mut payload = empty_request();
    payload.username = text("grace");
    let reply = login_at(&payload, Err("connection refused".to_string()), &codec(), 1_000);
    assert_eq!(reply, Reply::BadRequest(message("connection refused")));
    assert_eq!(reply.status_code(), 400);
}

#[test]
fn lookup_ends_in_the_user_or_in_a_reply() {
    assert_eq!(found_user::<User>(7, Ok(Some(stored_user()))), Ok(stored_user()));
    assert_eq!(
        found_user::<User>(7, Ok(None)),
        Err(Reply::NotFound(message("User with ID `7`, does not exist")))
    );
    assert_eq!(
        found_user::<User>(7, Err("timeout".to_string())),
        Err(Reply::BadRequest(message("timeout")))
    );
    assert_eq!(missing_user_message(-12), "User with ID `-12`, does not exist");
    assert_eq!(missing_user_message(i32::MIN), "User with ID `-2147483648`, does not exist");
}

#[test]
fn get_user_answers_with_the_user_or_the_reason() {
    assert_eq!(get_user(7, Ok(Some(stored_user()))), Reply::Success(stored_user()));
    let reply = get_user(404, Ok(None));
    assert_eq!(reply, Reply::NotFound(message("User with ID `404`, does not exist")));
    assert_eq!(reply.status_code(), 404);
    let reply = get_user(7, Err("timeout".to_string()));
    assert_eq!(reply, Reply::BadRequest(message("timeout")));
    assert_eq!(reply.status_code(), 400);
}

#[test]
fn partial_update_keeps_what_the_request_leaves_out() {
    let mut payload = empty_request();
    payload.firstname = text("Amazing Grace");
    payload.is_admin = Some(true);
    payload.is_active = Some(false);
    payload.last_login = Some(at(20, 1));
    payload.updated_at = Some(at(21, 1));
    let updated = update_user_at(7, &payload, Ok(Some(stored_user())), at(13, 19)).unwrap();
    let mut expected = stored_user();
    expected.fields.firstname = text("Amazing Grace");
    expected.fields.is_admin = Some(true);
    expected.fields.is_active = Some(false);
    expected.fields.updated_at = Some(at(13, 19));
    assert_eq!(updated, expected);
}

#[test]
fn partial_update_with_an_empty_request_only_stamps_the_time() {
    let updated = update_user_at(7, &empty_request(), Ok(Some(stored_user())), at(13, 19)).unwrap();
    let mut expected = stored_user();
    expected.fields.updated_at = Some(at(13, 19));
    assert_eq!(updated, expected);
}

#[test]
fn full_update_takes_every_text_and_flag_from_the_request() {
    let mut payload = empty_request();
    payload.username = text("ghopper");
    payload.email = text("hopper@example.org");
    payload.is_superadmin = Some(true);
    payload.created_at = Some(at(22, 1));
    let updated = update_user_full_at(7, &payload, Ok(Some(stored_user())), at(13, 19)).unwrap();
    assert_eq!(
        updated,
        User {
            id: 7,
            fields: UserFields {
                username: text("ghopper"),
                firstname: None,
                lastname: None,
                email: text("hopper@example.org"),
                password: None,
                is_active: None,
                last_login: Some(at(1, 8)),
                date_joined: Some(at(2, 9)),
                created_at: Some(at(3, 10)),
                updated_at: Some(at(13, 19)),
                is_admin: None,
                is_superadmin: Some(true),
            },
        }
    );
}

#[test]
fn updates_end_early_without_a_user() {
    let missing = Err(Reply::NotFound(message("User with ID `9`, does not exist")));
    assert_eq!(update_user_at(9, &empty_request(), Ok(None), at(1, 1)), missing);
    assert_eq!(update_user_full_at(9, &empty_request(), Ok(None), at(1, 1)), missing);
    assert_eq!(update_user(9, &empty_request(), Ok(None)), missing);
    assert_eq!(update_user_full(9, &empty_request(), Ok(None)), missing);
    let failed = Err(Reply::BadRequest(message("timeout")));
    assert_eq!(update_user_at(9, &empty_request(), Err("timeout".to_string()), at(1, 1)), failed);
    assert_eq!(update_user_full(9, &empty_request(), Err("timeout".to_string())), failed);
}

#[test]
fn updates_at_the_present_time_stamp_the_present_time() {
    let before = chrono::Utc::now().naive_utc();
    let patched = update_user(7, &empty_request(), Ok(Some(stored_user()))).unwrap();
    let replaced = update_user_full(7, &empty_request(), Ok(Some(stored_user()))).unwrap();
    let after = chrono::Utc::now().naive_utc();
    for user in [patched.clone(), replaced] {
        let stamp = user.fields.updated_at.unwrap();
        assert!(before <= stamp && stamp <= after);
    }
    assert_eq!(patched.fields.username, text("grace"));
    assert_eq!(patched.fields.created_at, Some(at(3, 10)));
}

#[test]
fn stored_user_is_answered_back() {
    assert_eq!(stored_reply(Ok(stored_user())), Reply::Success(stored_user()));
    let reply = stored_reply(Err("duplicate key".to_string()));
    assert_eq!(reply, Reply::BadRequest(message("duplicate key")));
}

#[test]
fn deletion_is_confirmed_with_the_number_of_rows() {
    assert_eq!(delete_user(7, Ok(Some(stored_user()))), Ok(stored_user()));
    assert_eq!(
        delete_user(8, Ok(None)),
        Err(Reply::NotFound(message("User with ID `8`, does not exist")))
    );
    assert_eq!(
        delete_user(8, Err("timeout".to_string())),
        Err(Reply::BadRequest(message("timeout")))
    );
    assert_eq!(deleted_reply(7, Ok(1)), Reply::Success(message("Deleted 1 user with Id 7")));
    assert_eq!(deleted_reply(-3, Ok(0)), Reply::Success(message("Deleted 0 user with Id -3")));
    assert_eq!(
        deleted_reply(7, Err("foreign key".to_string())),
        Reply::BadRequest(message("foreign key"))
    );
}

#[test]
fn page_of_users_is_wrapped_in_its_envelope() {
    let page = Pagination { query: PaginationQuery::new(Some(2), Some(2)) };
    let reply = get_users(&page, Ok(vec!["e", "f"]), 9);
    assert_eq!(
        reply,
        Reply::Success(PageEnvelope {
            page: 2,
            total: 9,
            prev: "page=1&page_size=2".to_string(),
            next: "page=3&page_size=2".to_string(),
            users: vec!["e", "f"],
        })
    );
    let reply = get_users::<u8>(&page, Err("timeout".to_string()), 9);
    assert_eq!(reply, Reply::BadRequest(message("timeout")));
}

#[test]
fn creation_stores_texts_as_sent_and_flags_by_presence() {
    let mut payload = empty_request();
    payload.username = text("linus");
    payload.email = text("linus@example.org");
    payload.password = text("git");
    payload.is_active = Some(false);
    payload.is_superadmin = Some(true);
    payload.date_joined = Some(at(5, 5));
    payload.updated_at = Some(at(6, 6));
    let expected = UserFields {
        username: text("linus"),
        firstname: None,
        lastname: None,
        email: text("linus@example.org"),
        password: text("git"),
        is_active: Some(true),
        last_login: None,
        date_joined: Some(at(5, 5)),
        created_at: None,
        updated_at: Some(at(6, 6)),
        is_admin: Some(false),
        is_superadmin: Some(false),
    };
    assert_eq!(create_user(payload.clone()), expected);
    let serializer = UserSerializer { data: payload };
    assert_eq!(serializer.serialize(), expected);
    assert!(serializer.is_active());
    assert!(!serializer.is_admin());
    assert!(!serializer.is_superadmin());
}

#[test]
fn admin_flag_of_the_request_decides_both_admin_columns() {
    let mut payload = empty_request();
    payload.is_admin = Some(false);
    let serializer = UserSerializer { data: payload };
    assert!(serializer.is_admin());
    assert!(serializer.is_superadmin());
    assert!(!serializer.is_active());
    let user = serializer.serialize();
    assert_eq!(user.is_admin, Some(true));
    assert_eq!(user.is_superadmin, Some(true));
    assert_eq!(user.is_active, Some(false));
    assert_eq!(user.username, None);
}

#[test]
fn optional_text_is_copied() {
    assert_eq!(clone_text(&None), None);
    assert_eq!(clone_text(&text("abc")), text("abc"));
}
