use chat_server::database::{
    account_record, message_between, message_record, new_account_record, post_message_record,
    preview_start, preview_step, two_users_start, two_users_step, user_summary, PreviewAction,
    StoreEvent, TwoUsersAction, UsernameSet,
};
use chat_server::model::{Message, User};
use chat_server::object_id::ObjectIdBytes;
use chat_server::routes::authorization::{
    post_login_begin, post_login_on_lookup, post_registration_begin, post_registration_on_lookup,
    post_registration_create, post_registration_on_record, post_registration_on_store, LoginAction, RegistrationAction,
};
use chat_server::routes::errors_catch::{
    bad_request, forbidden, internal_sever_error, not_found, unauthorized,
};
use chat_server::routes::messages::{
    get_all_acc_response, get_all_message_from_to_plan, get_all_message_from_to_response,
    get_all_preview_plan, get_all_preview_response, post_new_message_plan,
    post_new_message_response,
};
use chat_server::routes::{
    get_is_valid_message_data, get_is_valid_user_data, login, object_id_parse_str,
    user_data_well_formed, DbError, MessageDBO, Status, UserDboIdUser, UserDboPassUser,
};

const HEX: &str = "0123456789abcdef01234567";

fn form(username: &str, password: &str) -> UserDboPassUser {
    UserDboPassUser { username: username.to_string(), password: password.to_string() }
}

fn stored_user(username: &str, password_hash: &str) -> User {
    User {
        _id: ObjectIdBytes { bytes: [1; 12] },
        username: username.to_string(),
        password: password_hash.to_string(),
    }
}

#[test]
fn status_codes() {
    assert_eq!(Status::Success.code(), 200);
    assert_eq!(Status::BadRequest.code(), 400);
    assert_eq!(Status::Unauthorized.code(), 401);
    assert_eq!(Status::NotFound.code(), 404);
    assert_eq!(Status::InternalServerError.code(), 500);
}

#[test]
fn object_id_parses_hex_of_either_case() {
    let id = object_id_parse_str(HEX.to_string()).unwrap();
    assert_eq!(id.bytes, [0x01, 0x23, 0x45, 0x67, 0x89, 0xab, 0xcd, 0xef, 0x01, 0x23, 0x45, 0x67]);
    let upper = object_id_parse_str(HEX.to_uppercase()).unwrap();
    assert_eq!(upper.bytes, id.bytes);
}

#[test]
fn object_id_refuses_other_text() {
    assert!(object_id_parse_str("".to_string()).is_err());
    assert!(object_id_parse_str("0123".to_string()).is_err());
    assert!(object_id_parse_str(format!("{}00", HEX)).is_err());
    assert!(object_id_parse_str("0123456789abcdef0123456g".to_string()).is_err());
    assert!(object_id_parse_str("é123456789abcdef0123456".to_string()).is_err());
}

#[test]
fn object_id_error_is_the_store_library_message() {
    for bad in ["", "0123", "0123456789abcdef0123456g"] {
        let expected = mongodb::bson::oid::ObjectId::parse_str(bad).unwrap_err().to_string();
        assert_eq!(object_id_parse_str(bad.to_string()).unwrap_err(), expected);
    }
}

#[test]
fn listed_identifier_parses_back() {
    let user = User {
        _id: ObjectIdBytes { bytes: [0, 1, 2, 0x7f, 0x80, 0xfe, 0xff, 9, 10, 11, 12, 13] },
        username: "alice".to_string(),
        password: "x".to_string(),
    };
    let summary = user_summary(&user);
    assert_eq!(summary._id, "0001027f80feff090a0b0c0d");
    assert_eq!(summary.username, "alice");
    assert_eq!(object_id_parse_str(summary._id).unwrap().bytes, user._id.bytes);
}

#[test]
fn message_body_limits() {
    assert!(!get_is_valid_message_data("".to_string()));
    assert!(get_is_valid_message_data("hi".to_string()));
    assert!(get_is_valid_message_data("a".repeat(199)));
    assert!(!get_is_valid_message_data("a".repeat(200)));
    // 100 two-byte characters are 200 bytes.
    assert!(!get_is_valid_message_data("é".repeat(100)));
    assert!(get_is_valid_message_data("é".repeat(99)));
}

#[test]
fn user_data_limits() {
    assert!(user_data_well_formed(&form("bob", "12345678")));
    assert!(user_data_well_formed(&form("abcdefghijk", "12345678901234567")));
    assert!(!user_data_well_formed(&form("", "12345678")));
    assert!(!user_data_well_formed(&form("bob", "")));
    assert!(!user_data_well_formed(&form("abcdefghijkl", "12345678")));
    assert!(!user_data_well_formed(&form("bob", "1234567")));
    assert!(!user_data_well_formed(&form("bob", "123456789012345678")));
}

#[test]
fn login_maps_the_search() {
    assert_eq!(login(Ok(None)).unwrap(), true);
    assert_eq!(login(Err(DbError)).unwrap(), false);
    let found = login(Ok(Some(stored_user("bob", "h")))).unwrap_err();
    assert_eq!(found.username, "bob");
}

#[test]
fn registration_needs_a_free_name() {
    let f = form("bob", "12345678");
    assert!(get_is_valid_user_data(&f, &Ok(true)));
    assert!(!get_is_valid_user_data(&f, &Ok(false)));
    assert!(!get_is_valid_user_data(&f, &Err(stored_user("bob", "h"))));
    assert!(!get_is_valid_user_data(&form("bob", "short"), &Ok(true)));
}

#[test]
fn registered_password_logs_in() {
    let f = form("carol", "correct horse");
    let record = new_account_record(&f).expect("hashing succeeds");
    assert_eq!(record.username, "carol");
    assert!(record.password.starts_with("$2b$04$"));
    assert_eq!(record.password.len(), 60);
    assert_eq!(post_login_on_lookup(&f, Ok(Some(record.clone()))), Ok(Status::Success));
    let wrong = form("carol", "wrong horse");
    assert_eq!(post_login_on_lookup(&wrong, Ok(Some(record))), Err(Status::Unauthorized));
}

#[test]
fn login_outcomes_without_a_match() {
    let f = form("dave", "12345678");
    assert_eq!(post_login_on_lookup(&f, Ok(None)), Err(Status::Unauthorized));
    assert_eq!(post_login_on_lookup(&f, Err(DbError)), Err(Status::Unauthorized));
    assert_eq!(
        post_login_on_lookup(&f, Ok(Some(stored_user("dave", "not a hash")))),
        Err(Status::InternalServerError)
    );
    assert!(matches!(post_login_begin(None), LoginAction::Respond(Err(Status::Unauthorized))));
    match post_login_begin(Some(&f)) {
        LoginAction::LookUpUser { username } => assert_eq!(username, "dave"),
        other => panic!("unexpected {:?}", other),
    }
}

#[test]
fn registration_steps() {
    assert!(matches!(
        post_registration_begin(None),
        RegistrationAction::Respond(Err(Status::BadRequest))
    ));
    assert!(matches!(
        post_registration_begin(Some(&form("bob", "short"))),
        RegistrationAction::Respond(Err(Status::BadRequest))
    ));
    let f = form("bob", "12345678");
    match post_registration_begin(Some(&f)) {
        RegistrationAction::LookUpUser { username } => assert_eq!(username, "bob"),
        other => panic!("unexpected {:?}", other),
    }
    assert!(matches!(
        post_registration_on_lookup(&f, Ok(Some(stored_user("bob", "h")))),
        RegistrationAction::Respond(Err(Status::BadRequest))
    ));
    assert!(matches!(
        post_registration_on_lookup(&f, Err(DbError)),
        RegistrationAction::Respond(Err(Status::BadRequest))
    ));
    assert!(matches!(post_registration_on_lookup(&f, Ok(None)), RegistrationAction::CreateAccount));
    match post_registration_create(&f) {
        RegistrationAction::StoreAccount { user } => {
            assert_eq!(user.username, "bob");
            assert_eq!(post_login_on_lookup(&f, Ok(Some(user))), Ok(Status::Success));
        }
        other => panic!("unexpected {:?}", other),
    }
    match post_registration_on_record(&f, None) {
        RegistrationAction::Respond(Ok(resp)) => assert_eq!(resp.token, "MTIzNDU2Nzg="),
        other => panic!("unexpected {:?}", other),
    }
    assert_eq!(post_registration_on_store(&f, Ok(())).unwrap().token, "MTIzNDU2Nzg=");
    assert_eq!(post_registration_on_store(&f, Err(DbError)).unwrap_err(), Status::InternalServerError);
}

#[test]
fn account_record_keeps_name_and_hash() {
    let f = form("erin", "12345678");
    let id = ObjectIdBytes { bytes: [7; 12] };
    let user = account_record(&f, id, "hash".to_string());
    assert_eq!(user._id.bytes, [7; 12]);
    assert_eq!(user.username, "erin");
    assert_eq!(user.password, "hash");
}

#[test]
fn message_plan_checks_identifiers_and_body() {
    assert_eq!(post_new_message_plan(None).unwrap_err(), Status::BadRequest);
    let good = MessageDBO { body: "hello".to_string(), to: HEX.to_string(), from: HEX.to_uppercase() };
    let planned = post_new_message_plan(Some(&good)).unwrap();
    assert_eq!(planned.body, "hello");
    assert_eq!(planned.to.bytes, planned.from.bytes);
    let bad_to = MessageDBO { body: "hello".to_string(), to: "x".to_string(), from: HEX.to_string() };
    assert_eq!(post_new_message_plan(Some(&bad_to)).unwrap_err(), Status::BadRequest);
    let bad_from = MessageDBO { body: "hello".to_string(), to: HEX.to_string(), from: "y".to_string() };
    assert_eq!(post_new_message_plan(Some(&bad_from)).unwrap_err(), Status::BadRequest);
    let empty = MessageDBO { body: "".to_string(), to: HEX.to_string(), from: HEX.to_string() };
    assert_eq!(post_new_message_plan(Some(&empty)).unwrap_err(), Status::BadRequest);
    assert_eq!(post_new_message_response(Ok(())), Ok(Status::Success));
    assert_eq!(post_new_message_response(Err(DbError)), Err(Status::InternalServerError));
}

#[test]
fn message_records() {
    let good = MessageDBO { body: "hi".to_string(), to: HEX.to_string(), from: HEX.to_string() };
    let planned = post_new_message_plan(Some(&good)).unwrap();
    let record = message_record(planned, "12:00:00".to_string());
    assert_eq!(record.body, "hi");
    assert_eq!(record.time, "12:00:00");
    let planned = post_new_message_plan(Some(&good)).unwrap();
    let stamped = post_message_record(planned);
    assert_eq!(stamped.body, "hi");
    assert_eq!(stamped.to.bytes, object_id_parse_str(HEX.to_string()).unwrap().bytes);
    let t: Vec<char> = stamped.time.chars().collect();
    assert!([8, 12, 15, 18].contains(&t.len()));
    assert_eq!(t[2], ':');
    assert_eq!(t[5], ':');
    assert!(t.iter().enumerate().all(|(i, c)| i == 2 || i == 5 || i == 8 || c.is_ascii_digit()));
    let message = Message {
        body: "yo".to_string(),
        to: ObjectIdBytes { bytes: [2; 12] },
        from: ObjectIdBytes { bytes: [3; 12] },
        time: "t".to_string(),
    };
    let between = message_between(&message, &stored_user("to", "h"), &stored_user("from", "h"));
    assert_eq!(between.body, "yo");
    assert_eq!(between.to, "to");
    assert_eq!(between.from, "from");
    assert_eq!(between.time, "t");
}

#[test]
fn preview_names_are_kept_once() {
    let mut names = UsernameSet::new();
    assert_eq!(names.len(), 0);
    assert!(names.insert("bob".to_string()));
    assert!(names.insert("alice".to_string()));
    assert!(!names.insert("bob".to_string()));
    assert!(names.contains("alice"));
    assert!(!names.contains("carol"));
    assert_eq!(names.len(), 2);
    assert_eq!(get_all_preview_response(Ok(names)).unwrap(), vec!["bob".to_string(), "alice".to_string()]);
    assert_eq!(get_all_preview_response(Err(DbError)).unwrap_err(), Status::NotFound);
}

#[test]
fn route_plans_and_responses() {
    assert!(get_all_preview_plan(HEX.to_string()).is_ok());
    assert_eq!(get_all_preview_plan("nope".to_string()).unwrap_err(), Status::BadRequest);
    let (to, from) = get_all_message_from_to_plan(HEX.to_string(), "ffffffffffffffffffffffff".to_string()).unwrap();
    assert_eq!(to.bytes[0], 0x01);
    assert_eq!(from.bytes, [0xff; 12]);
    assert_eq!(get_all_message_from_to_plan("x".to_string(), HEX.to_string()).unwrap_err(), Status::BadRequest);
    assert_eq!(get_all_message_from_to_plan(HEX.to_string(), "x".to_string()).unwrap_err(), Status::BadRequest);
    assert_eq!(get_all_message_from_to_response(Ok(vec![])).unwrap().len(), 0);
    assert_eq!(get_all_message_from_to_response(Err(DbError)).unwrap_err(), Status::NotFound);
    let users = vec![UserDboIdUser { _id: HEX.to_string(), username: "a".to_string() }];
    assert_eq!(get_all_acc_response(Ok(users)).unwrap().len(), 1);
    assert_eq!(get_all_acc_response(Err(DbError)).unwrap_err(), Status::InternalServerError);
}

#[test]
fn error_bodies() {
    let e = internal_sever_error();
    assert_eq!(e.title, "Internal Server Error");
    assert_eq!(e.desc, "The server encountered an internal error while processing this request");
    let e = bad_request();
    assert_eq!(e.title, "bad_request");
    assert_eq!(e.desc, "The server was unable to understand the request due to invalid syntax");
    let e = forbidden();
    assert_eq!(e.title, "Forbidden");
    assert_eq!(e.desc, "You are denied access");
    let e = not_found();
    assert_eq!(e.title, "Nof found");
    assert_eq!(e.desc, "Nof found");
    let e = unauthorized();
    assert_eq!(e.title, "Unauthorized");
    assert_eq!(e.desc, "he request requires user authentication.");
}

fn user_with(id: u8, name: &str) -> User {
    User { _id: ObjectIdBytes { bytes: [id; 12] }, username: name.to_string(), password: "h".to_string() }
}

fn message_from_to(from: u8, to: u8, body: &str) -> Message {
    Message {
        body: body.to_string(),
        to: ObjectIdBytes { bytes: [to; 12] },
        from: ObjectIdBytes { bytes: [from; 12] },
        time: "10:00:00".to_string(),
    }
}

#[test]
fn two_users_listing_looks_up_sender_then_recipient() {
    let (state, action) = two_users_start(ObjectIdBytes { bytes: [2; 12] }, ObjectIdBytes { bytes: [1; 12] });
    assert!(matches!(action, TwoUsersAction::FindMessages { to, from } if to.bytes == [2; 12] && from.bytes == [1; 12]));
    let (state, action) = two_users_step(state, StoreEvent::MessageFound(message_from_to(1, 2, "hi")));
    assert!(matches!(action, TwoUsersAction::FindSenders(id) if id.bytes == [1; 12]));
    let (state, action) = two_users_step(state, StoreEvent::SenderFound(user_with(1, "alice")));
    assert!(matches!(action, TwoUsersAction::FindRecipients(id) if id.bytes == [2; 12]));
    let (state, action) = two_users_step(state, StoreEvent::RecipientFound(user_with(2, "bob")));
    assert!(matches!(action, TwoUsersAction::Continue));
    let (state, _) = two_users_step(state, StoreEvent::MessageFound(message_from_to(1, 2, "again")));
    let (state, _) = two_users_step(state, StoreEvent::SenderFound(user_with(1, "alice")));
    let (state, _) = two_users_step(state, StoreEvent::RecipientFound(user_with(2, "bob")));
    let (_, action) = two_users_step(state, StoreEvent::NoMoreMessages);
    match action {
        TwoUsersAction::Answer(Ok(entries)) => {
            assert_eq!(entries.len(), 2);
            assert_eq!(entries[0].body, "hi");
            assert_eq!(entries[0].from, "alice");
            assert_eq!(entries[0].to, "bob");
            assert_eq!(entries[0].time, "10:00:00");
            assert_eq!(entries[1].body, "again");
        }
        other => panic!("unexpected {:?}", other),
    }
}

#[test]
fn two_users_listing_ignores_out_of_order_events_and_reports_failure() {
    let (state, _) = two_users_start(ObjectIdBytes { bytes: [2; 12] }, ObjectIdBytes { bytes: [1; 12] });
    let (state, action) = two_users_step(state, StoreEvent::SenderFound(user_with(1, "alice")));
    assert!(matches!(action, TwoUsersAction::Continue));
    let (state, action) = two_users_step(state, StoreEvent::RecipientFound(user_with(2, "bob")));
    assert!(matches!(action, TwoUsersAction::Continue));
    assert!(state.found.is_empty());
    let (_, action) = two_users_step(state, StoreEvent::Failed(DbError));
    assert!(matches!(action, TwoUsersAction::Answer(Err(DbError))));
}

#[test]
fn preview_listing_keeps_each_sender_once() {
    let (state, action) = preview_start(ObjectIdBytes { bytes: [9; 12] });
    assert!(matches!(action, PreviewAction::FindMessagesTo(id) if id.bytes == [9; 12]));
    let (state, action) = preview_step(state, StoreEvent::MessageFound(message_from_to(1, 9, "a")));
    assert!(matches!(action, PreviewAction::FindSenders(id) if id.bytes == [1; 12]));
    let (state, _) = preview_step(state, StoreEvent::SenderFound(user_with(1, "alice")));
    let (state, _) = preview_step(state, StoreEvent::MessageFound(message_from_to(3, 9, "b")));
    let (state, _) = preview_step(state, StoreEvent::SenderFound(user_with(3, "carol")));
    let (state, _) = preview_step(state, StoreEvent::SenderFound(user_with(1, "alice")));
    let (state, action) = preview_step(state, StoreEvent::RecipientFound(user_with(9, "zed")));
    assert!(matches!(action, PreviewAction::Continue));
    let (_, action) = preview_step(state, StoreEvent::NoMoreMessages);
    match action {
        PreviewAction::Answer(Ok(names)) => {
            assert_eq!(names.into_vec(), vec!["alice".to_string(), "carol".to_string()]);
        }
        other => panic!("unexpected {:?}", other),
    }
    let (state, _) = preview_start(ObjectIdBytes { bytes: [9; 12] });
    let (_, action) = preview_step(state, StoreEvent::Failed(DbError));
    assert!(matches!(action, PreviewAction::Answer(Err(DbError))));
}
