use bot_config::document::Node;
use bot_config::schema::{
    find, read_identifier, read_identifier_field, read_identifiers, read_identifiers_field,
    read_optional_text_field, read_text, read_text_field, write_identifier, write_identifiers,
    write_optional_text, write_text, Field, SchemaError,
};

fn text(s: &str) -> Node {
    Node::Text(s.to_string())
}

#[test]
fn every_field_has_its_key() {
    let keys = [
        (Field::DatabaseUrl, "database_url"),
        (Field::Token, "token"),
        (Field::Servers, "servers"),
        (Field::Main, "main"),
        (Field::Staff, "staff"),
        (Field::Testing, "testing"),
        (Field::FrontendUrl, "frontend_url"),
        (Field::ProxyUrl, "proxy_url"),
        (Field::Owners, "owners"),
        (Field::ProtectedBots, "protected_bots"),
        (Field::GithubPat, "github_pat"),
        (Field::GithubUsername, "github_username"),
        (Field::GithubRepo, "github_repo"),
        (Field::VercelDeployHook, "optional_vercel_deploy_hook"),
    ];
    for (field, key) in keys {
        assert_eq!(field.name(), key);
    }
    for (i, (a, _)) in keys.iter().enumerate() {
        for (b, _) in &keys[i + 1..] {
            assert_ne!(a.name(), b.name());
        }
    }
}

#[test]
fn find_gives_the_value_of_the_one_entry() {
    let entries = vec![
        (text("staff"), Node::Unsigned(2)),
        (Node::Unsigned(1), Node::Unsigned(9)),
        (text("main"), Node::Unsigned(1)),
    ];
    assert_eq!(find(&entries, Field::Main), Ok(Some(&Node::Unsigned(1))));
    assert_eq!(find(&entries, Field::Staff), Ok(Some(&Node::Unsigned(2))));
    assert_eq!(find(&entries, Field::Testing), Ok(None));
    assert_eq!(find(&vec![], Field::Main), Ok(None));
}

#[test]
fn find_rejects_a_key_given_twice() {
    let entries = vec![
        (text("main"), Node::Unsigned(1)),
        (text("staff"), Node::Unsigned(2)),
        (text("main"), Node::Unsigned(1)),
    ];
    assert_eq!(find(&entries, Field::Main), Err(SchemaError::Duplicate(Field::Main)));
    assert_eq!(find(&entries, Field::Staff), Ok(Some(&Node::Unsigned(2))));
}

#[test]
fn only_text_keys_count() {
    let entries = vec![(Node::Sequence(vec![text("main")]), Node::Unsigned(1)), (Node::Null, Node::Null)];
    assert_eq!(find(&entries, Field::Main), Ok(None));
}

#[test]
fn values_are_read_by_type() {
    assert_eq!(read_text(&text("x"), Field::Token), Ok("x".to_string()));
    assert_eq!(read_text(&text(""), Field::Token), Ok(String::new()));
    assert_eq!(read_text(&Node::Unsigned(1), Field::Token), Err(SchemaError::WrongType(Field::Token)));
    assert_eq!(read_identifier(&Node::Unsigned(1), Field::Main), Ok(1));
    assert_eq!(read_identifier(&Node::Unsigned(u64::MAX), Field::Main), Ok(u64::MAX));
    assert_eq!(read_identifier(&Node::Unsigned(0), Field::Main), Err(SchemaError::Zero(Field::Main)));
    assert_eq!(read_identifier(&text("1"), Field::Main), Err(SchemaError::WrongType(Field::Main)));
    assert_eq!(read_identifier(&Node::Negative(-1), Field::Main), Err(SchemaError::WrongType(Field::Main)));
}

#[test]
fn lists_are_read_in_order() {
    let items = Node::Sequence(vec![Node::Unsigned(3), Node::Unsigned(1), Node::Unsigned(2)]);
    assert_eq!(read_identifiers(&items, Field::Owners), Ok(vec![3, 1, 2]));
    assert_eq!(read_identifiers(&Node::Sequence(vec![]), Field::Owners), Ok(vec![]));
    assert_eq!(read_identifiers(&Node::Null, Field::Owners), Ok(vec![]));
    assert_eq!(
        read_identifiers(&Node::Mapping(vec![]), Field::Owners),
        Err(SchemaError::WrongType(Field::Owners))
    );
}

#[test]
fn fields_are_read_from_entries() {
    let entries = vec![
        (text("token"), text("t")),
        (text("main"), Node::Unsigned(5)),
        (text("owners"), Node::Sequence(vec![Node::Unsigned(6)])),
        (text("optional_vercel_deploy_hook"), Node::Null),
    ];
    assert_eq!(read_text_field(&entries, Field::Token), Ok("t".to_string()));
    assert_eq!(read_text_field(&entries, Field::GithubPat), Err(SchemaError::Missing(Field::GithubPat)));
    assert_eq!(read_identifier_field(&entries, Field::Main), Ok(5));
    assert_eq!(read_identifier_field(&entries, Field::Staff), Err(SchemaError::Missing(Field::Staff)));
    assert_eq!(read_identifiers_field(&entries, Field::Owners), Ok(vec![6]));
    assert_eq!(
        read_identifiers_field(&entries, Field::ProtectedBots),
        Err(SchemaError::Missing(Field::ProtectedBots))
    );
    assert_eq!(read_optional_text_field(&entries, Field::VercelDeployHook), Ok(None));
    assert_eq!(read_optional_text_field(&entries, Field::Token), Ok(Some("t".to_string())));
    assert_eq!(read_optional_text_field(&entries, Field::GithubRepo), Ok(None));
    assert_eq!(
        read_optional_text_field(&entries, Field::Main),
        Err(SchemaError::WrongType(Field::Main))
    );
}

#[test]
fn fields_are_written_under_their_key() {
    assert_eq!(write_text(Field::Token, "t"), (text("token"), text("t")));
    assert_eq!(write_identifier(Field::Main, 5), (text("main"), Node::Unsigned(5)));
    assert_eq!(
        write_identifiers(Field::Owners, &vec![2, 1]),
        (text("owners"), Node::Sequence(vec![Node::Unsigned(2), Node::Unsigned(1)]))
    );
    assert_eq!(write_identifiers(Field::Owners, &vec![]), (text("owners"), Node::Sequence(vec![])));
    assert_eq!(
        write_optional_text(Field::VercelDeployHook, &Some("h".to_string())),
        (text("optional_vercel_deploy_hook"), text("h"))
    );
    assert_eq!(
        write_optional_text(Field::VercelDeployHook, &None),
        (text("optional_vercel_deploy_hook"), Node::Null)
    );
}
