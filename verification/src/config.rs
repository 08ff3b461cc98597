//! The configuration, its defaults, and its form as a document.

use crate::document::{entries_view, lemma_mapping_view, Node, NodeView};
use crate::schema::{
    find, identifier_entry, identifier_field, identifiers_entry, identifiers_field, lookup,
    optional_text_entry, optional_text_field, read_identifier_field, read_identifiers_field,
    read_optional_text_field, read_text_field, text_entry, text_field, write_identifier,
    write_identifiers, write_optional_text, write_text, Field, SchemaError,
};
use crate::yaml::{parse, render, yaml_document, yaml_text};
use vstd::prelude::*;
use vstd::string::*;

verus! {

/// The guilds the platform runs in, each by its identifier.
#[derive(Debug, Clone, Copy, PartialEq, Eq, Structural)]
pub struct Servers {
    pub main: u64,
    pub staff: u64,
    pub testing: u64,
}

impl Servers {
    /// No guild identifier is zero.
    pub open spec fn valid(self) -> bool {
        self.main != 0 && self.staff != 0 && self.testing != 0
    }

    /// The guilds of the public deployment.
    pub open spec fn defaults() -> Servers {
        Servers {
            main: 758641373074423808,
            staff: 870950609291972618,
            testing: 870952645811134475,
        }
    }

    /// The guilds that the entries of a mapping name.
    pub open spec fn of_entries(entries: Seq<(NodeView, NodeView)>) -> Result<Servers, SchemaError> {
        match identifier_field(entries, Field::Main) {
            Err(e) => Err(e),
            Ok(main) => match identifier_field(entries, Field::Staff) {
                Err(e) => Err(e),
                Ok(staff) => match identifier_field(entries, Field::Testing) {
                    Err(e) => Err(e),
                    Ok(testing) => Ok(Servers { main, staff, testing }),
                },
            },
        }
    }

    /// The guilds that a value names. An empty value counts as a mapping
    /// without entries.
    pub open spec fn of_document(value: NodeView) -> Result<Servers, SchemaError> {
        match value {
            NodeView::Mapping(entries) => Self::of_entries(entries),
            NodeView::Null => Self::of_entries(Seq::empty()),
            _ => Err(SchemaError::WrongType(Field::Servers)),
        }
    }

    /// The mapping that names the guilds.
    pub open spec fn document(self) -> NodeView {
        NodeView::Mapping(
            seq![
                identifier_entry(Field::Main, self.main),
                identifier_entry(Field::Staff, self.staff),
                identifier_entry(Field::Testing, self.testing),
            ],
        )
    }

    fn from_entries(entries: &Vec<(Node, Node)>) -> (read: Result<Servers, SchemaError>)
        ensures
            read == Self::of_entries(entries_view(entries@)),
    {
        let main = match read_identifier_field(entries, Field::Main) {
            Ok(id) => id,
            Err(e) => {
                return Err(e);
            },
        };
        let staff = match read_identifier_field(entries, Field::Staff) {
            Ok(id) => id,
            Err(e) => {
                return Err(e);
            },
        };
        let testing = match read_identifier_field(entries, Field::Testing) {
            Ok(id) => id,
            Err(e) => {
                return Err(e);
            },
        };
        Ok(Servers { main, staff, testing })
    }

    /// Reads the guilds from a value of a document.
    pub fn from_node(value: &Node) -> (read: Result<Servers, SchemaError>)
        ensures
            read == Self::of_document(value@),
    {
        match value {
            Node::Mapping(entries) => {
                proof {
                    lemma_mapping_view(*entries);
                }
                Self::from_entries(entries)
            },
            Node::Null => {
                let none: Vec<(Node, Node)> = Vec::new();
                Self::from_entries(&none)
            },
            _ => Err(SchemaError::WrongType(Field::Servers)),
        }
    }

    /// Writes the guilds as a value of a document.
    pub fn to_node(&self) -> (value: Node)
        ensures
            value@ == self.document(),
    {
        let mut entries: Vec<(Node, Node)> = Vec::new();
        entries.push(write_identifier(Field::Main, self.main));
        entries.push(write_identifier(Field::Staff, self.staff));
        entries.push(write_identifier(Field::Testing, self.testing));
        proof {
            lemma_mapping_view(entries);
            assert(entries_view(entries@) =~= self.document()->Mapping_0);
        }
        Node::Mapping(entries)
    }
}

impl Default for Servers {
    fn default() -> (servers: Servers)
        ensures
            servers == Servers::defaults(),
    {
        Servers {
            main: 758641373074423808,
            staff: 870950609291972618,
            testing: 870952645811134475,
        }
    }
}

/// The startup configuration of the platform. Loaded once, then only read.
#[derive(Debug, Clone, PartialEq, Eq)]
pub struct Config {
    pub database_url: String,
    pub token: String,
    pub servers: Servers,
    pub frontend_url: String,
    pub proxy_url: String,
    pub owners: Vec<u64>,
    pub protected_bots: Vec<u64>,
    pub github_pat: String,
    pub github_username: String,
    pub github_repo: String,
    pub optional_vercel_deploy_hook: Option<String>,
}

/// The mathematical value of a [`Config`].
pub struct ConfigView {
    pub database_url: Seq<char>,
    pub token: Seq<char>,
    pub servers: Servers,
    pub frontend_url: Seq<char>,
    pub proxy_url: Seq<char>,
    pub owners: Seq<u64>,
    pub protected_bots: Seq<u64>,
    pub github_pat: Seq<char>,
    pub github_username: Seq<char>,
    pub github_repo: Seq<char>,
    pub optional_vercel_deploy_hook: Option<Seq<char>>,
}

impl View for Config {
    type V = ConfigView;

    open spec fn view(&self) -> ConfigView {
        ConfigView {
            database_url: self.database_url@,
            token: self.token@,
            servers: self.servers,
            frontend_url: self.frontend_url@,
            proxy_url: self.proxy_url@,
            owners: self.owners@,
            protected_bots: self.protected_bots@,
            github_pat: self.github_pat@,
            github_username: self.github_username@,
            github_repo: self.github_repo@,
            optional_vercel_deploy_hook: match self.optional_vercel_deploy_hook {
                Some(hook) => Some(hook@),
                None => None,
            },
        }
    }
}

/// What the entries of a mapping give for the guilds.
pub open spec fn servers_field(entries: Seq<(NodeView, NodeView)>) -> Result<Servers, SchemaError> {
    match lookup(entries, Field::Servers) {
        Err(e) => Err(e),
        Ok(None) => Err(SchemaError::Missing(Field::Servers)),
        Ok(Some(value)) => Servers::of_document(value),
    }
}

/// The error of an outcome, if it is one.
pub open spec fn problem<T>(outcome: Result<T, SchemaError>) -> Option<SchemaError> {
    match outcome {
        Ok(_) => None,
        Err(e) => Some(e),
    }
}

/// What is wrong with the entries of a document: the error of the first
/// field, in the order of the schema, that cannot be read.
pub open spec fn first_problem(entries: Seq<(NodeView, NodeView)>) -> Option<SchemaError> {
    if text_field(entries, Field::DatabaseUrl) is Err {
        problem(text_field(entries, Field::DatabaseUrl))
    } else if text_field(entries, Field::Token) is Err {
        problem(text_field(entries, Field::Token))
    } else if servers_field(entries) is Err {
        problem(servers_field(entries))
    } else if text_field(entries, Field::FrontendUrl) is Err {
        problem(text_field(entries, Field::FrontendUrl))
    } else if text_field(entries, Field::ProxyUrl) is Err {
        problem(text_field(entries, Field::ProxyUrl))
    } else if identifiers_field(entries, Field::Owners) is Err {
        problem(identifiers_field(entries, Field::Owners))
    } else if identifiers_field(entries, Field::ProtectedBots) is Err {
        problem(identifiers_field(entries, Field::ProtectedBots))
    } else if text_field(entries, Field::GithubPat) is Err {
        problem(text_field(entries, Field::GithubPat))
    } else if text_field(entries, Field::GithubUsername) is Err {
        problem(text_field(entries, Field::GithubUsername))
    } else if text_field(entries, Field::GithubRepo) is Err {
        problem(text_field(entries, Field::GithubRepo))
    } else {
        problem(optional_text_field(entries, Field::VercelDeployHook))
    }
}

impl ConfigView {
    /// The invariant of a configuration: no identifier in it is zero.
    pub open spec fn valid(self) -> bool {
        &&& self.servers.valid()
        &&& forall|i: int| 0 <= i < self.owners.len() ==> self.owners[i] != 0
        &&& forall|i: int| 0 <= i < self.protected_bots.len() ==> self.protected_bots[i] != 0
    }

    /// Whether some identifier of the list is zero.
    pub open spec fn has_zero(ids: Seq<u64>) -> bool {
        exists|i: int| 0 <= i < ids.len() && ids[i] == 0
    }

    /// The first thing that breaks the invariant, in the order of the
    /// schema, if anything does.
    pub open spec fn defect(self) -> Option<SchemaError> {
        if self.servers.main == 0 {
            Some(SchemaError::Zero(Field::Main))
        } else if self.servers.staff == 0 {
            Some(SchemaError::Zero(Field::Staff))
        } else if self.servers.testing == 0 {
            Some(SchemaError::Zero(Field::Testing))
        } else if Self::has_zero(self.owners) {
            Some(SchemaError::Zero(Field::Owners))
        } else if Self::has_zero(self.protected_bots) {
            Some(SchemaError::Zero(Field::ProtectedBots))
        } else {
            None
        }
    }

    /// The configuration that the sample file shows: every field present,
    /// secrets empty, the public deployment's guilds, owner and main bot.
    pub open spec fn defaults() -> ConfigView {
        ConfigView {
            database_url: ""@,
            token: ""@,
            servers: Servers::defaults(),
            frontend_url: "https://infinitybots.gg"@,
            proxy_url: "http://127.0.0.1:3219"@,
            owners: seq![510065483693817867u64],
            protected_bots: seq![1019662370278228028u64],
            github_pat: ""@,
            github_username: ""@,
            github_repo: "InfinityBotList/Infinity-Next"@,
            optional_vercel_deploy_hook: None,
        }
    }

    /// The configuration that the entries of a document hold. Each field is
    /// the value of the one entry under its key; entries under other keys
    /// are ignored. Only the deployment hook may be absent.
    pub open spec fn of_entries(entries: Seq<(NodeView, NodeView)>) -> Result<
        ConfigView,
        SchemaError,
    > {
        match first_problem(entries) {
            Some(e) => Err(e),
            None => Ok(
                ConfigView {
                    database_url: text_field(entries, Field::DatabaseUrl)->Ok_0,
                    token: text_field(entries, Field::Token)->Ok_0,
                    servers: servers_field(entries)->Ok_0,
                    frontend_url: text_field(entries, Field::FrontendUrl)->Ok_0,
                    proxy_url: text_field(entries, Field::ProxyUrl)->Ok_0,
                    owners: identifiers_field(entries, Field::Owners)->Ok_0,
                    protected_bots: identifiers_field(entries, Field::ProtectedBots)->Ok_0,
                    github_pat: text_field(entries, Field::GithubPat)->Ok_0,
                    github_username: text_field(entries, Field::GithubUsername)->Ok_0,
                    github_repo: text_field(entries, Field::GithubRepo)->Ok_0,
                    optional_vercel_deploy_hook: optional_text_field(
                        entries,
                        Field::VercelDeployHook,
                    )->Ok_0,
                },
            ),
        }
    }

    /// The configuration that a document holds. An empty document counts as
    /// a mapping without entries.
    pub open spec fn of_document(document: NodeView) -> Result<ConfigView, SchemaError> {
        match document {
            NodeView::Mapping(entries) => Self::of_entries(entries),
            NodeView::Null => Self::of_entries(Seq::empty()),
            _ => Err(SchemaError::NotAMapping),
        }
    }

    /// The document that holds the configuration: one entry for each field,
    /// in the order of the schema.
    pub open spec fn document(self) -> NodeView {
        NodeView::Mapping(
            seq![
                text_entry(Field::DatabaseUrl, self.database_url),
                text_entry(Field::Token, self.token),
                (NodeView::Text(Field::Servers.key()), self.servers.document()),
                text_entry(Field::FrontendUrl, self.frontend_url),
                text_entry(Field::ProxyUrl, self.proxy_url),
                identifiers_entry(Field::Owners, self.owners),
                identifiers_entry(Field::ProtectedBots, self.protected_bots),
                text_entry(Field::GithubPat, self.github_pat),
                text_entry(Field::GithubUsername, self.github_username),
                text_entry(Field::GithubRepo, self.github_repo),
                optional_text_entry(Field::VercelDeployHook, self.optional_vercel_deploy_hook),
            ],
        )
    }
}

/// Whether an outcome that carries a configuration is the outcome that the
/// schema states.
pub open spec fn is_config_outcome(
    got: Result<Config, SchemaError>,
    stated: Result<ConfigView, SchemaError>,
) -> bool {
    match got {
        Ok(config) => stated == Ok::<ConfigView, SchemaError>(config@),
        Err(e) => stated == Err::<ConfigView, SchemaError>(e),
    }
}

impl Config {
    fn read_servers(entries: &Vec<(Node, Node)>) -> (read: Result<Servers, SchemaError>)
        ensures
            read == servers_field(entries_view(entries@)),
    {
        match find(entries, Field::Servers) {
            Err(e) => Err(e),
            Ok(None) => Err(SchemaError::Missing(Field::Servers)),
            Ok(Some(value)) => Servers::from_node(value),
        }
    }

    fn from_entries(entries: &Vec<(Node, Node)>) -> (read: Result<Config, SchemaError>)
        ensures
            is_config_outcome(read, ConfigView::of_entries(entries_view(entries@))),
    {
        let database_url = match read_text_field(entries, Field::DatabaseUrl) {
            Ok(text) => text,
            Err(e) => {
                return Err(e);
            },
        };
        let token = match read_text_field(entries, Field::Token) {
            Ok(text) => text,
            Err(e) => {
                return Err(e);
            },
        };
        let servers = match Self::read_servers(entries) {
            Ok(servers) => servers,
            Err(e) => {
                return Err(e);
            },
        };
        let frontend_url = match read_text_field(entries, Field::FrontendUrl) {
            Ok(text) => text,
            Err(e) => {
                return Err(e);
            },
        };
        let proxy_url = match read_text_field(entries, Field::ProxyUrl) {
            Ok(text) => text,
            Err(e) => {
                return Err(e);
            },
        };
        let owners = match read_identifiers_field(entries, Field::Owners) {
            Ok(ids) => ids,
            Err(e) => {
                return Err(e);
            },
        };
        let protected_bots = match read_identifiers_field(entries, Field::ProtectedBots) {
            Ok(ids) => ids,
            Err(e) => {
                return Err(e);
            },
        };
        let github_pat = match read_text_field(entries, Field::GithubPat) {
            Ok(text) => text,
            Err(e) => {
                return Err(e);
            },
        };
        let github_username = match read_text_field(entries, Field::GithubUsername) {
            Ok(text) => text,
            Err(e) => {
                return Err(e);
            },
        };
        let github_repo = match read_text_field(entries, Field::GithubRepo) {
            Ok(text) => text,
            Err(e) => {
                return Err(e);
            },
        };
        let optional_vercel_deploy_hook = match read_optional_text_field(
            entries,
            Field::VercelDeployHook,
        ) {
            Ok(text) => text,
            Err(e) => {
                return Err(e);
            },
        };
        Ok(
            Config {
                database_url,
                token,
                servers,
                frontend_url,
                proxy_url,
                owners,
                protected_bots,
                github_pat,
                github_username,
                github_repo,
                optional_vercel_deploy_hook,
            },
        )
    }

    /// Reads a configuration from a document. Succeeds exactly on the
    /// documents that hold every required field once and with a value of the
    /// field's type, no identifier zero.
    pub fn from_node(document: &Node) -> (read: Result<Config, SchemaError>)
        ensures
            is_config_outcome(read, ConfigView::of_document(document@)),
    {
        match document {
            Node::Mapping(entries) => {
                proof {
                    lemma_mapping_view(*entries);
                }
                Self::from_entries(entries)
            },
            Node::Null => {
                let none: Vec<(Node, Node)> = Vec::new();
                Self::from_entries(&none)
            },
            _ => Err(SchemaError::NotAMapping),
        }
    }

    /// Writes the configuration as a document.
    pub fn to_node(&self) -> (document: Node)
        ensures
            document@ == self@.document(),
    {
        let mut entries: Vec<(Node, Node)> = Vec::new();
        entries.push(write_text(Field::DatabaseUrl, self.database_url.as_str()));
        entries.push(write_text(Field::Token, self.token.as_str()));
        entries.push((Node::Text(String::from_str(Field::Servers.name())), self.servers.to_node()));
        entries.push(write_text(Field::FrontendUrl, self.frontend_url.as_str()));
        entries.push(write_text(Field::ProxyUrl, self.proxy_url.as_str()));
        entries.push(write_identifiers(Field::Owners, &self.owners));
        entries.push(write_identifiers(Field::ProtectedBots, &self.protected_bots));
        entries.push(write_text(Field::GithubPat, self.github_pat.as_str()));
        entries.push(write_text(Field::GithubUsername, self.github_username.as_str()));
        entries.push(write_text(Field::GithubRepo, self.github_repo.as_str()));
        entries.push(write_optional_text(Field::VercelDeployHook, &self.optional_vercel_deploy_hook));
        proof {
            lemma_mapping_view(entries);
            assert(entries_view(entries@) =~= self@.document()->Mapping_0);
        }
        Node::Mapping(entries)
    }
}

/// Why a text is no configuration, or a configuration could not be made
/// text.
#[derive(Debug, Clone, PartialEq, Eq)]
pub enum ConfigError {
    /// The text is no YAML document. The message is the YAML reader's.
    Syntax(String),
    /// The text is a YAML document, but no configuration.
    Schema(SchemaError),
    /// The YAML writer failed. The message is the writer's.
    Unwritable(String),
}

/// What a text holds.
pub enum Reading {
    /// No YAML document.
    Unreadable,
    /// A document that is no configuration.
    Rejected(SchemaError),
    /// A configuration.
    Accepted(ConfigView),
}

impl ConfigView {
    /// What the YAML text `text` holds.
    pub open spec fn of_text(text: Seq<char>) -> Reading {
        match yaml_document(text) {
            None => Reading::Unreadable,
            Some(document) => match Self::of_document(document) {
                Err(e) => Reading::Rejected(e),
                Ok(config) => Reading::Accepted(config),
            },
        }
    }

    /// The YAML text of the configuration, where the YAML writer gives one.
    pub open spec fn text(self) -> Option<Seq<char>> {
        yaml_text(self.document())
    }
}

/// Whether the outcome of reading a text is what the text holds.
pub open spec fn is_reading(got: Result<Config, ConfigError>, stated: Reading) -> bool {
    match got {
        Ok(config) => stated == Reading::Accepted(config@),
        Err(ConfigError::Syntax(_)) => stated == Reading::Unreadable,
        Err(ConfigError::Schema(e)) => stated == Reading::Rejected(e),
        Err(ConfigError::Unwritable(_)) => false,
    }
}

/// Whether the outcome of writing a configuration is the text that the YAML
/// writer gives for it.
pub open spec fn is_writing(got: Result<String, ConfigError>, stated: Option<Seq<char>>) -> bool {
    match got {
        Ok(text) => stated == Some(text@),
        Err(ConfigError::Unwritable(_)) => stated is None,
        Err(_) => false,
    }
}

impl Config {
    /// Whether some identifier of the list is zero.
    fn any_zero(ids: &Vec<u64>) -> (found: bool)
        ensures
            found == ConfigView::has_zero(ids@),
    {
        let mut i: usize = 0;
        while i < ids.len()
            invariant
                i <= ids@.len(),
                forall|j: int| 0 <= j < i ==> ids@[j] != 0,
            decreases ids@.len() - i,
        {
            if ids[i] == 0 {
                return true;
            }
            i = i + 1;
        }
        false
    }

    /// Checks the invariant of a configuration that was put together by
    /// hand: succeeds exactly where no identifier is zero, and otherwise
    /// names the first field that holds a zero.
    pub fn validate(&self) -> (checked: Result<(), SchemaError>)
        ensures
            checked is Ok <==> self@.valid(),
            checked matches Err(e) ==> self@.defect() == Some(e),
    {
        if self.servers.main == 0 {
            Err(SchemaError::Zero(Field::Main))
        } else if self.servers.staff == 0 {
            Err(SchemaError::Zero(Field::Staff))
        } else if self.servers.testing == 0 {
            Err(SchemaError::Zero(Field::Testing))
        } else if Self::any_zero(&self.owners) {
            Err(SchemaError::Zero(Field::Owners))
        } else if Self::any_zero(&self.protected_bots) {
            Err(SchemaError::Zero(Field::ProtectedBots))
        } else {
            Ok(())
        }
    }

    /// Reads a configuration from YAML text: the text is read as a document
    /// by the YAML reader, the document as a configuration by
    /// [`Config::from_node`].
    pub fn from_yaml(text: &str) -> (read: Result<Config, ConfigError>)
        ensures
            is_reading(read, ConfigView::of_text(text@)),
    {
        match parse(text) {
            Err(e) => Err(ConfigError::Syntax(e.to_string())),
            Ok(document) => match Config::from_node(&document) {
                Err(e) => Err(ConfigError::Schema(e)),
                Ok(config) => Ok(config),
            },
        }
    }

    /// Writes the configuration as YAML text: the document of
    /// [`Config::to_node`], made text by the YAML writer.
    pub fn to_yaml(&self) -> (written: Result<String, ConfigError>)
        ensures
            is_writing(written, self@.text()),
    {
        let document = self.to_node();
        match render(&document) {
            Err(e) => Err(ConfigError::Unwritable(e.to_string())),
            Ok(text) => Ok(text),
        }
    }
}

impl Default for Config {
    fn default() -> (config: Config)
        ensures
            config@ == ConfigView::defaults(),
    {
        let mut owners: Vec<u64> = Vec::new();
        owners.push(510065483693817867);
        let mut protected_bots: Vec<u64> = Vec::new();
        protected_bots.push(1019662370278228028);
        Config {
            database_url: String::from_str(""),
            token: String::from_str(""),
            servers: Servers::default(),
            frontend_url: String::from_str("https://infinitybots.gg"),
            proxy_url: String::from_str("http://127.0.0.1:3219"),
            owners,
            protected_bots,
            github_pat: String::from_str(""),
            github_username: String::from_str(""),
            github_repo: String::from_str("InfinityBotList/Infinity-Next"),
            optional_vercel_deploy_hook: None,
        }
    }
}

} // verus!
