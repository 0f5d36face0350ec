use synapse_admin::pagination::{id_less, ids_ascending};
use synapse_admin::user::{ListUsersParams, User};
use synapse_admin::user_id::UserId;

#[test]
fn user_path_appends_the_rendered_id() {
    let id = UserId::new("steve123".to_string(), "example.com".to_string());
    assert_eq!(
        User::users_path(&id),
        "/_synapse/admin/v2/users/@steve123:example.com"
    );
    assert_eq!(User::list_path(), "/_synapse/admin/v2/users");
}

#[test]
fn empty_params_contribute_no_query_pairs() {
    let q = User::list_query(&ListUsersParams::none());
    assert!(q.is_empty());
}

#[test]
fn set_params_appear_in_field_order() {
    let params = ListUsersParams {
        user_id: Some("@steve".to_string()),
        name: None,
        guests: Some(false),
        admins: Some(true),
        deactivated: None,
        limit: Some(100),
        from: Some(200),
    };
    let q = User::list_query(&params);
    assert_eq!(
        q,
        vec![
            ("user_id".to_string(), "@steve".to_string()),
            ("guests".to_string(), "false".to_string()),
            ("admins".to_string(), "true".to_string()),
            ("limit".to_string(), "100".to_string()),
            ("from".to_string(), "200".to_string()),
        ]
    );
}

fn id(s: &str) -> Vec<u8> {
    s.as_bytes().to_vec()
}

#[test]
fn id_order_is_lexicographic() {
    assert!(id_less(&id("@alice:x"), &id("@bob:x")));
    assert!(!id_less(&id("@bob:x"), &id("@alice:x")));
    assert!(!id_less(&id("@alice:x"), &id("@alice:x")));
    // a proper prefix comes first
    assert!(id_less(&id("@al"), &id("@alice:x")));
    assert!(!id_less(&id("@alice:x"), &id("@al")));
}

#[test]
fn correctly_cursored_pages_concatenate_ascending_without_duplicates() {
    // Two pages as the cursor returns them: each ascending, the second
    // starting past the end of the first.
    let page1 = vec![id("@alice:x"), id("@bob:x"), id("@carol:x")];
    let page2 = vec![id("@dave:x"), id("@erin:x")];
    let mut all = page1.clone();
    all.extend(page2.clone());
    assert!(ids_ascending(&page1));
    assert!(ids_ascending(&page2));
    assert!(ids_ascending(&all));
    for (i, a) in all.iter().enumerate() {
        for b in all.iter().skip(i + 1) {
            assert_ne!(a, b);
        }
    }
}

#[test]
fn a_repeated_id_across_pages_breaks_the_ascending_order() {
    // A cursor used wrongly (overlapping pages) repeats an id, and the
    // concatenation is no longer ascending.
    let page1 = vec![id("@alice:x"), id("@bob:x")];
    let page2 = vec![id("@bob:x"), id("@carol:x")];
    let mut all = page1;
    all.extend(page2);
    assert!(!ids_ascending(&all));
}

#[test]
fn unsorted_ids_are_detected() {
    assert!(ids_ascending(&vec![]));
    assert!(ids_ascending(&vec![id("@a:x")]));
    assert!(!ids_ascending(&vec![id("@b:x"), id("@a:x")]));
}
