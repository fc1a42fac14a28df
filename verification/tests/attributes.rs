use user_accounts::attributes::{
    collect_attributes, get_active_user_by_id, BINDS_PER_ROW, BIND_LIMIT, MAX_BATCH,
};
use user_accounts::records::{
    AddCustomAttribute, AppRole, AppUser, ErrorResponse, GetCustomAttribute, GetUser, Reply,
    StoreFailure, SuccessResponse,
};

fn given(key: &str, value: &str, user_id: &str) -> AddCustomAttribute {
    AddCustomAttribute {
        id: "from the client".to_string(),
        key: key.to_string(),
        value: value.to_string(),
        user_id: user_id.to_string(),
    }
}

fn row(attribute: Option<(&str, &str, &str)>) -> AppUser {
    AppUser {
        id: "u1".to_string(),
        name: "Alice".to_string(),
        username: "alice".to_string(),
        attr_id: attribute.map(|a| a.0.to_string()),
        attr_key: attribute.map(|a| a.1.to_string()),
        attr_value: attribute.map(|a| a.2.to_string()),
    }
}

fn shown(id: &str, key: &str, value: &str) -> GetCustomAttribute {
    GetCustomAttribute { id: id.to_string(), key: key.to_string(), value: value.to_string() }
}

fn is_hyphenated_id(id: &str) -> bool {
    id.len() == 36
        && id.char_indices().all(|(i, c)| match i {
            8 | 13 | 18 | 23 => c == '-',
            _ => c.is_ascii_hexdigit() && !c.is_ascii_uppercase(),
        })
}

#[test]
fn batch_limits() {
    assert_eq!(BIND_LIMIT, 65535);
    assert_eq!(BINDS_PER_ROW, 4);
    assert_eq!(MAX_BATCH, 16383);
}

#[test]
fn batch_of_three_rows_gets_three_distinct_ids() {
    let body = vec![given("color", "red", "u1"), given("size", "xl", "u1"), given("lang", "en", "u1")];
    let rows = AddCustomAttribute::add_custom_attributes(body);
    assert_eq!(rows.len(), 3);
    assert_ne!(rows[0].id, rows[1].id);
    assert_ne!(rows[0].id, rows[2].id);
    assert_ne!(rows[1].id, rows[2].id);
    assert!(rows.iter().all(|r| r.user_id == "u1"));
}

#[test]
fn batch_keeps_keys_values_and_order() {
    let body = vec![given("color", "red", "u1"), given("size", "xl", "u2")];
    let rows = AddCustomAttribute::add_custom_attributes(body);
    assert_eq!((rows[0].key.as_str(), rows[0].value.as_str(), rows[0].user_id.as_str()), ("color", "red", "u1"));
    assert_eq!((rows[1].key.as_str(), rows[1].value.as_str(), rows[1].user_id.as_str()), ("size", "xl", "u2"));
}

#[test]
fn batch_ids_are_generated_not_taken() {
    let rows = AddCustomAttribute::add_custom_attributes(vec![given("k", "v", "u1")]);
    assert_ne!(rows[0].id, "from the client");
    assert!(is_hyphenated_id(&rows[0].id));
}

#[test]
fn batch_of_nothing_is_empty() {
    assert!(AddCustomAttribute::add_custom_attributes(Vec::new()).is_empty());
    assert!(AddCustomAttribute::prepare_batch(vec![given("k", "v", "u")], 0).is_empty());
}

#[test]
fn batch_is_cut_to_the_limit() {
    let body = vec![given("a", "1", "u"), given("b", "2", "u"), given("c", "3", "u")];
    let rows = AddCustomAttribute::prepare_batch(body, 2);
    assert_eq!(rows.len(), 2);
    assert_eq!(rows[0].key, "a");
    assert_eq!(rows[1].key, "b");
}

#[test]
fn batch_at_the_limit_is_kept_whole() {
    let body = vec![given("a", "1", "u"), given("b", "2", "u")];
    assert_eq!(AddCustomAttribute::prepare_batch(body.clone(), 2).len(), 2);
    assert_eq!(AddCustomAttribute::prepare_batch(body, usize::MAX).len(), 2);
}

#[test]
fn batch_beyond_what_a_statement_binds_is_cut() {
    let body: Vec<AddCustomAttribute> =
        (0..16385).map(|i| given(&format!("k{}", i), "v", "u1")).collect();
    let rows = AddCustomAttribute::add_custom_attributes(body);
    assert_eq!(rows.len(), 16383);
    assert_eq!(rows[16382].key, "k16382");
    assert!(rows.len() * 4 <= 65535);
}

#[test]
fn written_reports_success_in_fixed_words() {
    let expected = SuccessResponse { message: "custom attributes added".to_string() };
    assert_eq!(AddCustomAttribute::written(&Ok(3)), Ok(expected.clone()));
    assert_eq!(AddCustomAttribute::written(&Ok(0)), Ok(expected));
}

#[test]
fn written_reports_failure_without_the_store_message() {
    let failure = StoreFailure { detail: "Duplicate entry 'x' for key 'PRIMARY'".to_string() };
    let expected = ErrorResponse { message: "custom attributes not added".to_string(), status: 400 };
    assert_eq!(AddCustomAttribute::written(&Err(failure)), Err(expected));
}

#[test]
fn account_without_rows_is_not_found() {
    let expected = Reply {
        code: 404,
        status: "error".to_string(),
        message: Some("No user found or is not active".to_string()),
    };
    assert_eq!(get_active_user_by_id(&Vec::new()), Err(expected));
}

#[test]
fn account_without_attributes() {
    let expected = GetUser {
        id: "u1".to_string(),
        name: "Alice".to_string(),
        username: "alice".to_string(),
        attributes: Vec::new(),
    };
    assert_eq!(get_active_user_by_id(&vec![row(None)]), Ok(expected));
}

#[test]
fn account_with_attributes_in_row_order() {
    let rows = vec![row(Some(("a1", "color", "red"))), row(Some(("a2", "size", "xl")))];
    let user = get_active_user_by_id(&rows).unwrap();
    assert_eq!(user.id, "u1");
    assert_eq!(user.name, "Alice");
    assert_eq!(user.username, "alice");
    assert_eq!(user.attributes, vec![shown("a1", "color", "red"), shown("a2", "size", "xl")]);
}

#[test]
fn account_is_read_from_the_first_row() {
    let mut second = row(Some(("a2", "size", "xl")));
    second.id = "u2".to_string();
    second.name = "Bob".to_string();
    let user = get_active_user_by_id(&vec![row(Some(("a1", "color", "red"))), second]).unwrap();
    assert_eq!(user.id, "u1");
    assert_eq!(user.name, "Alice");
    assert_eq!(user.attributes.len(), 2);
}

#[test]
fn collect_skips_rows_without_a_whole_attribute() {
    let mut no_key = row(Some(("a2", "k", "v")));
    no_key.attr_key = None;
    let mut no_id = row(Some(("a3", "k", "v")));
    no_id.attr_id = None;
    let mut no_value = row(Some(("a4", "k", "v")));
    no_value.attr_value = None;
    let rows = vec![
        row(Some(("a1", "color", "red"))),
        no_key,
        row(None),
        no_id,
        no_value,
        row(Some(("a5", "", ""))),
    ];
    assert_eq!(collect_attributes(&rows), vec![shown("a1", "color", "red"), shown("a5", "", "")]);
}

#[test]
fn collect_of_no_rows_is_empty() {
    assert!(collect_attributes(&Vec::new()).is_empty());
}

#[test]
fn records_start_empty() {
    assert_eq!(GetCustomAttribute::default(), shown("", "", ""));
    let user = GetUser::default();
    assert!(user.id.is_empty() && user.name.is_empty() && user.username.is_empty());
    assert!(user.attributes.is_empty());
}

#[test]
fn role_holds_its_fields() {
    let role = AppRole {
        id: "r1".to_string(),
        role_name: "admin".to_string(),
        is_active: 1,
        user_id: "u1".to_string(),
    };
    assert_eq!(role.clone(), role);
}

#[test]
fn stored_as_changes_the_id_only() {
    let row = given("color", "red", "u1").stored_as("id-7".to_string());
    let expected = AddCustomAttribute {
        id: "id-7".to_string(),
        key: "color".to_string(),
        value: "red".to_string(),
        user_id: "u1".to_string(),
    };
    assert_eq!(row, expected);
}

#[test]
fn batch_with_ids_gives_each_row_the_id_drawn_for_it() {
    let body = vec![given("k1", "v1", "u1"), given("k2", "v2", "u1"), given("k3", "v3", "u1")];
    let ids = vec!["id-a".to_string(), "id-b".to_string(), "id-c".to_string()];
    let rows = AddCustomAttribute::batch_with_ids(&body, ids, 16383);
    let expected: Vec<AddCustomAttribute> = [("id-a", "k1", "v1"), ("id-b", "k2", "v2"), ("id-c", "k3", "v3")]
        .iter()
        .map(|(id, key, value)| AddCustomAttribute {
            id: id.to_string(),
            key: key.to_string(),
            value: value.to_string(),
            user_id: "u1".to_string(),
        })
        .collect();
    assert_eq!(rows, expected);
}

#[test]
fn batch_with_ids_never_keeps_a_client_id() {
    let mut first = given("k1", "v1", "u1");
    first.id = "7f1c1a3e-4a4e-4d0a-9b39-0a1b2c3d4e5f".to_string();
    let rows = AddCustomAttribute::batch_with_ids(&vec![first], vec!["drawn".to_string()], 5);
    assert_eq!(rows[0].id, "drawn");
}

#[test]
fn batch_with_ids_is_cut_to_the_limit() {
    let body = vec![given("a", "1", "u"), given("b", "2", "u"), given("c", "3", "u")];
    let rows = AddCustomAttribute::batch_with_ids(&body, vec!["x".to_string(), "y".to_string()], 2);
    assert_eq!(rows.len(), 2);
    assert_eq!((rows[1].id.as_str(), rows[1].key.as_str()), ("y", "b"));
    assert!(AddCustomAttribute::batch_with_ids(&body, Vec::new(), 0).is_empty());
}

#[test]
fn batch_of_rows_with_equal_client_ids_gets_distinct_ids() {
    let body = vec![
        AddCustomAttribute { id: String::new(), key: "k1".to_string(), value: "v1".to_string(), user_id: "u1".to_string() },
        AddCustomAttribute { id: String::new(), key: "k2".to_string(), value: "v2".to_string(), user_id: "u1".to_string() },
        AddCustomAttribute { id: String::new(), key: "k3".to_string(), value: "v3".to_string(), user_id: "u1".to_string() },
    ];
    let rows = AddCustomAttribute::add_custom_attributes(body);
    let sent: Vec<(&str, &str, &str)> =
        rows.iter().map(|r| (r.key.as_str(), r.value.as_str(), r.user_id.as_str())).collect();
    assert_eq!(sent, vec![("k1", "v1", "u1"), ("k2", "v2", "u1"), ("k3", "v3", "u1")]);
    assert!(rows.iter().all(|r| is_hyphenated_id(&r.id)));
    assert!(rows[0].id != rows[1].id && rows[0].id != rows[2].id && rows[1].id != rows[2].id);
    let expected = SuccessResponse { message: "custom attributes added".to_string() };
    assert_eq!(AddCustomAttribute::written(&Ok(rows.len() as u64)), Ok(expected));
}
