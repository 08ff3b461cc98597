use bot_config::config::{Config, ConfigError, Servers};
use bot_config::document::Node;
use bot_config::schema::{Field, SchemaError};

const COMPLETE: &str = "\
database_url: \"postgres://x\"
token: abc.def
servers:
  main: 1
  staff: 2
  testing: 3
frontend_url: https://example.org
proxy_url: http://127.0.0.1:1
owners: [10, 11]
protected_bots:
  - 20
github_pat: pat
github_username: someone
github_repo: someone/repo
optional_vercel_deploy_hook: https://hook.example
";

fn text(s: &str) -> Node {
    Node::Text(s.to_string())
}

fn entry(key: &str, value: Node) -> (Node, Node) {
    (text(key), value)
}

fn servers_node(main: u64, staff: u64, testing: u64) -> Node {
    Node::Mapping(vec![
        entry("main", Node::Unsigned(main)),
        entry("staff", Node::Unsigned(staff)),
        entry("testing", Node::Unsigned(testing)),
    ])
}

fn complete_entries() -> Vec<(Node, Node)> {
    vec![
        entry("database_url", text("postgres://x")),
        entry("token", text("abc.def")),
        entry("servers", servers_node(1, 2, 3)),
        entry("frontend_url", text("https://example.org")),
        entry("proxy_url", text("http://127.0.0.1:1")),
        entry("owners", Node::Sequence(vec![Node::Unsigned(10), Node::Unsigned(11)])),
        entry("protected_bots", Node::Sequence(vec![Node::Unsigned(20)])),
        entry("github_pat", text("pat")),
        entry("github_username", text("someone")),
        entry("github_repo", text("someone/repo")),
        entry("optional_vercel_deploy_hook", text("https://hook.example")),
    ]
}

fn complete_config() -> Config {
    Config {
        database_url: "postgres://x".to_string(),
        token: "abc.def".to_string(),
        servers: Servers { main: 1, staff: 2, testing: 3 },
        frontend_url: "https://example.org".to_string(),
        proxy_url: "http://127.0.0.1:1".to_string(),
        owners: vec![10, 11],
        protected_bots: vec![20],
        github_pat: "pat".to_string(),
        github_username: "someone".to_string(),
        github_repo: "someone/repo".to_string(),
        optional_vercel_deploy_hook: Some("https://hook.example".to_string()),
    }
}

fn without(key: &str) -> Vec<(Node, Node)> {
    complete_entries().into_iter().filter(|(k, _)| *k != text(key)).collect()
}

fn with(key: &str, value: Node) -> Vec<(Node, Node)> {
    let mut entries = without(key);
    entries.push(entry(key, value));
    entries
}

#[test]
fn default_servers_are_the_public_guilds() {
    let servers = Servers::default();
    assert_eq!(servers.main, 758641373074423808);
    assert_eq!(servers.staff, 870950609291972618);
    assert_eq!(servers.testing, 870952645811134475);
}

#[test]
fn default_config_has_every_field() {
    let config = Config::default();
    assert_eq!(config.database_url, "");
    assert_eq!(config.token, "");
    assert_eq!(config.servers, Servers::default());
    assert_eq!(config.frontend_url, "https://infinitybots.gg");
    assert_eq!(config.proxy_url, "http://127.0.0.1:3219");
    assert_eq!(config.owners, vec![510065483693817867]);
    assert_eq!(config.protected_bots, vec![1019662370278228028]);
    assert_eq!(config.github_pat, "");
    assert_eq!(config.github_username, "");
    assert_eq!(config.github_repo, "InfinityBotList/Infinity-Next");
    assert_eq!(config.optional_vercel_deploy_hook, None);
}

#[test]
fn default_config_is_valid() {
    assert_eq!(Config::default().validate(), Ok(()));
}

#[test]
fn complete_document_reads_field_by_field() {
    let read = Config::from_node(&Node::Mapping(complete_entries()));
    assert_eq!(read, Ok(complete_config()));
}

#[test]
fn complete_text_reads_field_by_field() {
    assert_eq!(Config::from_yaml(COMPLETE), Ok(complete_config()));
}

#[test]
fn database_url_is_the_one_in_the_file() {
    let config = Config::from_yaml(COMPLETE).unwrap();
    assert_eq!(config.database_url, "postgres://x");
}

#[test]
fn zero_guild_in_text_is_rejected() {
    let zeroed = COMPLETE.replace("staff: 2", "staff: 0");
    assert_eq!(
        Config::from_yaml(&zeroed),
        Err(ConfigError::Schema(SchemaError::Zero(Field::Staff)))
    );
}

#[test]
fn every_required_field_is_required() {
    let required = [
        ("database_url", Field::DatabaseUrl),
        ("token", Field::Token),
        ("servers", Field::Servers),
        ("frontend_url", Field::FrontendUrl),
        ("proxy_url", Field::ProxyUrl),
        ("owners", Field::Owners),
        ("protected_bots", Field::ProtectedBots),
        ("github_pat", Field::GithubPat),
        ("github_username", Field::GithubUsername),
        ("github_repo", Field::GithubRepo),
    ];
    for (key, field) in required {
        let read = Config::from_node(&Node::Mapping(without(key)));
        assert_eq!(read, Err(SchemaError::Missing(field)), "without {}", key);
    }
}

#[test]
fn deploy_hook_may_be_left_out_or_empty() {
    let mut expected = complete_config();
    expected.optional_vercel_deploy_hook = None;
    let left_out = Config::from_node(&Node::Mapping(without("optional_vercel_deploy_hook")));
    assert_eq!(left_out, Ok(expected.clone()));
    let empty = Config::from_node(&Node::Mapping(with("optional_vercel_deploy_hook", Node::Null)));
    assert_eq!(empty, Ok(expected));
}

#[test]
fn missing_field_in_text_is_rejected() {
    let cut = COMPLETE.replace("token: abc.def\n", "");
    assert_eq!(
        Config::from_yaml(&cut),
        Err(ConfigError::Schema(SchemaError::Missing(Field::Token)))
    );
}

#[test]
fn each_guild_is_required() {
    let cases = [
        (vec![entry("staff", Node::Unsigned(2)), entry("testing", Node::Unsigned(3))], Field::Main),
        (vec![entry("main", Node::Unsigned(1)), entry("testing", Node::Unsigned(3))], Field::Staff),
        (vec![entry("main", Node::Unsigned(1)), entry("staff", Node::Unsigned(2))], Field::Testing),
    ];
    for (entries, field) in cases {
        let read = Config::from_node(&Node::Mapping(with("servers", Node::Mapping(entries))));
        assert_eq!(read, Err(SchemaError::Missing(field)));
    }
}

#[test]
fn zero_identifiers_are_rejected() {
    let cases = [
        (with("servers", servers_node(0, 2, 3)), Field::Main),
        (with("servers", servers_node(1, 0, 3)), Field::Staff),
        (with("servers", servers_node(1, 2, 0)), Field::Testing),
        (with("owners", Node::Sequence(vec![Node::Unsigned(10), Node::Unsigned(0)])), Field::Owners),
        (with("protected_bots", Node::Sequence(vec![Node::Unsigned(0)])), Field::ProtectedBots),
    ];
    for (entries, field) in cases {
        assert_eq!(Config::from_node(&Node::Mapping(entries)), Err(SchemaError::Zero(field)));
    }
}

#[test]
fn values_of_the_wrong_type_are_rejected() {
    let cases = [
        (with("database_url", Node::Unsigned(5)), Field::DatabaseUrl),
        (with("token", Node::Null), Field::Token),
        (with("servers", text("main")), Field::Servers),
        (with("servers", servers_node(1, 2, 3).into_main_as_text()), Field::Main),
        (with("owners", text("10")), Field::Owners),
        (with("owners", Node::Sequence(vec![text("10")])), Field::Owners),
        (with("protected_bots", Node::Sequence(vec![Node::Negative(-20)])), Field::ProtectedBots),
        (with("protected_bots", Node::Unsigned(20)), Field::ProtectedBots),
        (with("github_pat", Node::Bool(true)), Field::GithubPat),
        (with("github_repo", Node::Real("1.5".to_string())), Field::GithubRepo),
        (with("optional_vercel_deploy_hook", Node::Unsigned(1)), Field::VercelDeployHook),
    ];
    for (entries, field) in cases {
        assert_eq!(Config::from_node(&Node::Mapping(entries)), Err(SchemaError::WrongType(field)));
    }
}

trait MainAsText {
    fn into_main_as_text(self) -> Node;
}

impl MainAsText for Node {
    fn into_main_as_text(self) -> Node {
        match self {
            Node::Mapping(mut entries) => {
                entries[0].1 = text("1");
                Node::Mapping(entries)
            }
            other => other,
        }
    }
}

#[test]
fn wrong_type_in_text_is_rejected() {
    let quoted = COMPLETE.replace("main: 1", "main: \"1\"");
    assert_eq!(
        Config::from_yaml(&quoted),
        Err(ConfigError::Schema(SchemaError::WrongType(Field::Main)))
    );
    let negative = COMPLETE.replace("owners: [10, 11]", "owners: [10, -11]");
    assert_eq!(
        Config::from_yaml(&negative),
        Err(ConfigError::Schema(SchemaError::WrongType(Field::Owners)))
    );
    let real = COMPLETE.replace("staff: 2", "staff: 2.5");
    assert_eq!(
        Config::from_yaml(&real),
        Err(ConfigError::Schema(SchemaError::WrongType(Field::Staff)))
    );
}

#[test]
fn a_field_given_twice_is_rejected() {
    let mut entries = complete_entries();
    entries.push(entry("token", text("other")));
    assert_eq!(
        Config::from_node(&Node::Mapping(entries)),
        Err(SchemaError::Duplicate(Field::Token))
    );
    let twice = Node::Mapping(vec![
        entry("main", Node::Unsigned(1)),
        entry("main", Node::Unsigned(1)),
        entry("staff", Node::Unsigned(2)),
        entry("testing", Node::Unsigned(3)),
    ]);
    assert_eq!(Servers::from_node(&twice), Err(SchemaError::Duplicate(Field::Main)));
}

#[test]
fn the_first_problem_in_schema_order_is_reported() {
    let mut entries = without("github_repo");
    entries.retain(|(k, _)| *k != text("token"));
    assert_eq!(
        Config::from_node(&Node::Mapping(entries)),
        Err(SchemaError::Missing(Field::Token))
    );
    let items = Node::Sequence(vec![Node::Unsigned(1), text("x"), Node::Unsigned(0)]);
    assert_eq!(
        Config::from_node(&Node::Mapping(with("owners", items))),
        Err(SchemaError::WrongType(Field::Owners))
    );
    let items = Node::Sequence(vec![Node::Unsigned(1), Node::Unsigned(0), text("x")]);
    assert_eq!(
        Config::from_node(&Node::Mapping(with("owners", items))),
        Err(SchemaError::Zero(Field::Owners))
    );
}

#[test]
fn unknown_entries_and_order_do_not_matter() {
    let mut entries = complete_entries();
    entries.reverse();
    entries.insert(0, entry("roles", Node::Mapping(vec![])));
    entries.push((Node::Unsigned(42), Node::Bool(true)));
    entries.push((Node::Null, text("token")));
    assert_eq!(Config::from_node(&Node::Mapping(entries)), Ok(complete_config()));
}

#[test]
fn unknown_fields_in_text_are_ignored() {
    let more = format!("{}channels:\n  logs: 5\n42: true\n", COMPLETE);
    assert_eq!(Config::from_yaml(&more), Ok(complete_config()));
}

#[test]
fn empty_lists_read_as_no_identifiers() {
    let mut expected = complete_config();
    expected.owners = vec![];
    let read = Config::from_node(&Node::Mapping(with("owners", Node::Sequence(vec![]))));
    assert_eq!(read, Ok(expected.clone()));
    let read = Config::from_node(&Node::Mapping(with("owners", Node::Null)));
    assert_eq!(read, Ok(expected.clone()));
    let bare = COMPLETE.replace("owners: [10, 11]", "owners:");
    assert_eq!(Config::from_yaml(&bare), Ok(expected));
}

#[test]
fn documents_that_are_no_mapping_are_rejected() {
    assert_eq!(Config::from_node(&text("config")), Err(SchemaError::NotAMapping));
    assert_eq!(Config::from_node(&Node::Sequence(vec![])), Err(SchemaError::NotAMapping));
    assert_eq!(Config::from_node(&Node::Unsigned(1)), Err(SchemaError::NotAMapping));
    assert_eq!(
        Config::from_yaml("- a\n- b\n"),
        Err(ConfigError::Schema(SchemaError::NotAMapping))
    );
}

#[test]
fn an_empty_document_lacks_the_first_field() {
    assert_eq!(Config::from_node(&Node::Null), Err(SchemaError::Missing(Field::DatabaseUrl)));
    assert_eq!(
        Config::from_node(&Node::Mapping(vec![])),
        Err(SchemaError::Missing(Field::DatabaseUrl))
    );
    assert_eq!(Servers::from_node(&Node::Null), Err(SchemaError::Missing(Field::Main)));
    for empty in ["", "~", "# nothing here\n"] {
        assert_eq!(
            Config::from_yaml(empty),
            Err(ConfigError::Schema(SchemaError::Missing(Field::DatabaseUrl)))
        );
    }
}

#[test]
fn text_that_is_no_yaml_is_a_syntax_error() {
    for broken in ["database_url: [1, 2", "a: b: c: d", "token: x\ntoken: y\n", "a: 1\n---\nb: 2\n"] {
        match Config::from_yaml(broken) {
            Err(ConfigError::Syntax(message)) => assert!(!message.is_empty()),
            other => panic!("{:?} read as {:?}", broken, other),
        }
    }
}

#[test]
fn tags_do_not_change_a_value() {
    let tagged = COMPLETE.replace("main: 1", "main: !guild 1");
    assert_eq!(Config::from_yaml(&tagged), Ok(complete_config()));
}

#[test]
fn identifiers_keep_all_64_bits() {
    let large = COMPLETE.replace("main: 1", "main: 18446744073709551615");
    let config = Config::from_yaml(&large).unwrap();
    assert_eq!(config.servers.main, u64::MAX);
}
