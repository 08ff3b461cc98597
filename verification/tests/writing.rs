use bot_config::config::{Config, Servers};
use bot_config::document::Node;
use bot_config::schema::{Field, SchemaError};

const SAMPLE: &str = "\
database_url: ''
token: ''
servers:
  main: 758641373074423808
  staff: 870950609291972618
  testing: 870952645811134475
frontend_url: https://infinitybots.gg
proxy_url: http://127.0.0.1:3219
owners:
- 510065483693817867
protected_bots:
- 1019662370278228028
github_pat: ''
github_username: ''
github_repo: InfinityBotList/Infinity-Next
optional_vercel_deploy_hook: null
";

fn key(name: &str) -> Node {
    Node::Text(name.to_string())
}

fn busy_config() -> Config {
    Config {
        database_url: "postgres://user:pw@host/db?x=1#frag".to_string(),
        token: "123456".to_string(),
        servers: Servers { main: 1, staff: u64::MAX, testing: 3 },
        frontend_url: "true".to_string(),
        proxy_url: "line one\nline two".to_string(),
        owners: vec![],
        protected_bots: vec![7, 8, 9],
        github_pat: "~".to_string(),
        github_username: " padded ".to_string(),
        github_repo: "- not: a list".to_string(),
        optional_vercel_deploy_hook: Some("null".to_string()),
    }
}

#[test]
fn default_config_is_written_as_the_sample() {
    assert_eq!(Config::default().to_yaml().unwrap(), SAMPLE);
}

#[test]
fn writing_is_repeatable() {
    let first = Config::default().to_yaml().unwrap();
    let second = Config::default().to_yaml().unwrap();
    assert_eq!(first, second);
}

#[test]
fn default_document_has_the_fields_in_schema_order() {
    let document = Config::default().to_node();
    let entries = match document {
        Node::Mapping(entries) => entries,
        other => panic!("no mapping: {:?}", other),
    };
    let keys: Vec<Node> = entries.iter().map(|(k, _)| k.clone_key()).collect();
    let expected: Vec<Node> = [
        "database_url",
        "token",
        "servers",
        "frontend_url",
        "proxy_url",
        "owners",
        "protected_bots",
        "github_pat",
        "github_username",
        "github_repo",
        "optional_vercel_deploy_hook",
    ]
    .iter()
    .map(|name| key(name))
    .collect();
    assert_eq!(keys, expected);
    assert_eq!(entries[0].1, Node::Text(String::new()));
    assert_eq!(entries[5].1, Node::Sequence(vec![Node::Unsigned(510065483693817867)]));
    assert_eq!(entries[10].1, Node::Null);
}

trait CloneKey {
    fn clone_key(&self) -> Node;
}

impl CloneKey for Node {
    fn clone_key(&self) -> Node {
        match self {
            Node::Text(text) => Node::Text(text.clone()),
            _ => Node::Null,
        }
    }
}

#[test]
fn servers_are_written_as_three_numbers() {
    let written = Servers { main: 4, staff: 5, testing: 6 }.to_node();
    let expected = Node::Mapping(vec![
        (key("main"), Node::Unsigned(4)),
        (key("staff"), Node::Unsigned(5)),
        (key("testing"), Node::Unsigned(6)),
    ]);
    assert_eq!(written, expected);
}

#[test]
fn default_config_round_trips_through_a_document() {
    let config = Config::default();
    assert_eq!(Config::from_node(&config.to_node()), Ok(config));
}

#[test]
fn default_config_round_trips_through_text() {
    let config = Config::default();
    let text = config.to_yaml().unwrap();
    assert_eq!(Config::from_yaml(&text), Ok(config));
}

#[test]
fn awkward_strings_round_trip_through_text() {
    let config = busy_config();
    assert_eq!(Config::from_node(&config.to_node()), Ok(busy_config()));
    let text = config.to_yaml().unwrap();
    assert_eq!(Config::from_yaml(&text), Ok(config));
}

#[test]
fn servers_round_trip() {
    let servers = Servers { main: 11, staff: 12, testing: 13 };
    assert_eq!(Servers::from_node(&servers.to_node()), Ok(servers));
}

#[test]
fn an_invalid_config_does_not_read_back() {
    let mut config = Config::default();
    config.owners.push(0);
    assert_eq!(config.validate(), Err(SchemaError::Zero(Field::Owners)));
    assert_eq!(Config::from_node(&config.to_node()), Err(SchemaError::Zero(Field::Owners)));
    let text = config.to_yaml().unwrap();
    assert!(Config::from_yaml(&text).is_err());
}

#[test]
fn validate_names_the_first_zero() {
    let zeros = Config {
        servers: Servers { main: 1, staff: 0, testing: 0 },
        owners: vec![0],
        protected_bots: vec![0],
        ..Config::default()
    };
    assert_eq!(zeros.validate(), Err(SchemaError::Zero(Field::Staff)));
    let mut config = Config::default();
    config.servers.main = 0;
    assert_eq!(config.validate(), Err(SchemaError::Zero(Field::Main)));
    config.servers.main = 1;
    config.servers.testing = 0;
    assert_eq!(config.validate(), Err(SchemaError::Zero(Field::Testing)));
    config.servers.testing = 1;
    config.protected_bots = vec![3, 0];
    assert_eq!(config.validate(), Err(SchemaError::Zero(Field::ProtectedBots)));
    config.protected_bots = vec![];
    config.owners = vec![];
    assert_eq!(config.validate(), Ok(()));
}
