//! The building blocks of the configuration schema: the fields, what can be
//! wrong with them, and how a single field is read from and written to a
//! document.

use crate::document::{entries_view, items_view, lemma_mapping_view, lemma_sequence_view, Node, NodeView};
use crate::text::same_text;
use vstd::prelude::*;
use vstd::string::*;

verus! {

/// A field of the configuration file. `Main`, `Staff` and `Testing` are the
/// fields of the mapping under `Servers`.
#[derive(Debug, Clone, Copy, PartialEq, Eq, Hash, Structural)]
pub enum Field {
    DatabaseUrl,
    Token,
    Servers,
    Main,
    Staff,
    Testing,
    FrontendUrl,
    ProxyUrl,
    Owners,
    ProtectedBots,
    GithubPat,
    GithubUsername,
    GithubRepo,
    VercelDeployHook,
}

impl Field {
    /// The key under which the file holds the field.
    pub open spec fn key(self) -> Seq<char> {
        match self {
            Field::DatabaseUrl => "database_url"@,
            Field::Token => "token"@,
            Field::Servers => "servers"@,
            Field::Main => "main"@,
            Field::Staff => "staff"@,
            Field::Testing => "testing"@,
            Field::FrontendUrl => "frontend_url"@,
            Field::ProxyUrl => "proxy_url"@,
            Field::Owners => "owners"@,
            Field::ProtectedBots => "protected_bots"@,
            Field::GithubPat => "github_pat"@,
            Field::GithubUsername => "github_username"@,
            Field::GithubRepo => "github_repo"@,
            Field::VercelDeployHook => "optional_vercel_deploy_hook"@,
        }
    }

    /// Whether the field is one of the guilds under `Servers`.
    pub open spec fn of_servers(self) -> bool {
        self == Field::Main || self == Field::Staff || self == Field::Testing
    }

    /// Whether the field is an entry of the document itself that must not be
    /// left out.
    pub open spec fn required(self) -> bool {
        !self.of_servers() && self != Field::VercelDeployHook
    }

    /// The key under which the file holds the field.
    pub fn name(&self) -> (name: &'static str)
        ensures
            name@ == self.key(),
    {
        match self {
            Field::DatabaseUrl => "database_url",
            Field::Token => "token",
            Field::Servers => "servers",
            Field::Main => "main",
            Field::Staff => "staff",
            Field::Testing => "testing",
            Field::FrontendUrl => "frontend_url",
            Field::ProxyUrl => "proxy_url",
            Field::Owners => "owners",
            Field::ProtectedBots => "protected_bots",
            Field::GithubPat => "github_pat",
            Field::GithubUsername => "github_username",
            Field::GithubRepo => "github_repo",
            Field::VercelDeployHook => "optional_vercel_deploy_hook",
        }
    }
}

/// The length and first character of each key.
proof fn lemma_key_shapes()
    ensures
        "database_url"@.len() == 12 && "database_url"@[0] == 'd',
        "token"@.len() == 5 && "token"@[0] == 't',
        "servers"@.len() == 7 && "servers"@[0] == 's',
        "main"@.len() == 4,
        "staff"@.len() == 5 && "staff"@[0] == 's',
        "testing"@.len() == 7 && "testing"@[0] == 't',
        "frontend_url"@.len() == 12 && "frontend_url"@[0] == 'f',
        "proxy_url"@.len() == 9,
        "owners"@.len() == 6,
        "protected_bots"@.len() == 14,
        "github_pat"@.len() == 10,
        "github_username"@.len() == 15,
        "github_repo"@.len() == 11,
        "optional_vercel_deploy_hook"@.len() == 27,
{
    reveal_strlit("database_url");
    reveal_strlit("token");
    reveal_strlit("servers");
    reveal_strlit("main");
    reveal_strlit("staff");
    reveal_strlit("testing");
    reveal_strlit("frontend_url");
    reveal_strlit("proxy_url");
    reveal_strlit("owners");
    reveal_strlit("protected_bots");
    reveal_strlit("github_pat");
    reveal_strlit("github_username");
    reveal_strlit("github_repo");
    reveal_strlit("optional_vercel_deploy_hook");
}

/// No two fields share a key.
pub proof fn lemma_keys_distinct(a: Field, b: Field)
    requires
        a.key() == b.key(),
    ensures
        a == b,
{
    lemma_key_shapes();
}

/// Why a document is no configuration.
#[derive(Debug, Clone, Copy, PartialEq, Eq, Hash, Structural)]
pub enum SchemaError {
    /// The document is neither a mapping nor empty.
    NotAMapping,
    /// A required field has no entry.
    Missing(Field),
    /// A field has more than one entry.
    Duplicate(Field),
    /// The value of a field is of the wrong type.
    WrongType(Field),
    /// An identifier is zero.
    Zero(Field),
}

/// Entry `i` exists and its key is the text `key`.
pub open spec fn key_at(entries: Seq<(NodeView, NodeView)>, i: int, key: Seq<char>) -> bool {
    0 <= i < entries.len() && entries[i].0 == NodeView::Text(key)
}

/// Some entry has the key.
pub open spec fn has_key(entries: Seq<(NodeView, NodeView)>, key: Seq<char>) -> bool {
    exists|i: int| key_at(entries, i, key)
}

/// At most one entry has the key.
pub open spec fn key_once(entries: Seq<(NodeView, NodeView)>, key: Seq<char>) -> bool {
    forall|i: int, j: int| key_at(entries, i, key) && key_at(entries, j, key) ==> i == j
}

/// The position of an entry with the key.
pub open spec fn position(entries: Seq<(NodeView, NodeView)>, key: Seq<char>) -> int {
    choose|i: int| key_at(entries, i, key)
}

/// The value that the entries give the field: none where no entry has its
/// key, an error where several have it. Entries whose key is no text, or no
/// key of the schema, are never looked at.
pub open spec fn lookup(entries: Seq<(NodeView, NodeView)>, field: Field) -> Result<
    Option<NodeView>,
    SchemaError,
> {
    if !has_key(entries, field.key()) {
        Ok(None)
    } else if !key_once(entries, field.key()) {
        Err(SchemaError::Duplicate(field))
    } else {
        Ok(Some(entries[position(entries, field.key())].1))
    }
}

/// Whether `node` is the text `name`.
fn is_text(node: &Node, name: &str) -> (same: bool)
    ensures
        same == (node@ == NodeView::Text(name@)),
{
    match node {
        Node::Text(text) => same_text(text.as_str(), name),
        _ => false,
    }
}

/// Looks the field up among the entries of a mapping.
pub fn find<'a>(entries: &'a Vec<(Node, Node)>, field: Field) -> (found: Result<
    Option<&'a Node>,
    SchemaError,
>)
    ensures
        match found {
            Ok(Some(value)) => lookup(entries_view(entries@), field) == Ok::<
                Option<NodeView>,
                SchemaError,
            >(Some(value@)),
            Ok(None) => lookup(entries_view(entries@), field) == Ok::<Option<NodeView>, SchemaError>(
                None,
            ),
            Err(e) => lookup(entries_view(entries@), field) == Err::<Option<NodeView>, SchemaError>(e),
        },
{
    let name = field.name();
    let ghost views = entries_view(entries@);
    let mut at: Option<usize> = None;
    let mut i: usize = 0;
    while i < entries.len()
        invariant
            i <= entries@.len(),
            views == entries_view(entries@),
            name@ == field.key(),
            forall|j: int| 0 <= j < i && at != Some(j as usize) ==> !key_at(views, j, field.key()),
            at matches Some(k) ==> k < i && key_at(views, k as int, field.key()),
        decreases entries@.len() - i,
    {
        if is_text(&entries[i].0, name) {
            if at.is_some() {
                proof {
                    assert(key_at(views, i as int, field.key()));
                }
                return Err(SchemaError::Duplicate(field));
            }
            at = Some(i);
        }
        i = i + 1;
    }
    match at {
        Some(k) => {
            proof {
                assert(position(views, field.key()) == k);
            }
            Ok(Some(&entries[k].1))
        },
        None => Ok(None),
    }
}

/// The text that a value holds.
pub open spec fn text_of(value: NodeView, field: Field) -> Result<Seq<char>, SchemaError> {
    match value {
        NodeView::Text(text) => Ok(text),
        _ => Err(SchemaError::WrongType(field)),
    }
}

/// The identifier that a value holds: an unsigned integer other than zero.
pub open spec fn identifier_of(value: NodeView, field: Field) -> Result<u64, SchemaError> {
    match value {
        NodeView::Unsigned(id) => if id == 0 {
            Err(SchemaError::Zero(field))
        } else {
            Ok(id)
        },
        _ => Err(SchemaError::WrongType(field)),
    }
}

/// Item `i` exists and is no identifier.
pub open spec fn rejected_at(items: Seq<NodeView>, field: Field, i: int) -> bool {
    0 <= i < items.len() && identifier_of(items[i], field) is Err
}

/// The position of the first item that is no identifier.
pub open spec fn first_rejected(items: Seq<NodeView>, field: Field) -> int {
    choose|i: int|
        rejected_at(items, field, i) && forall|j: int| 0 <= j < i ==> !rejected_at(items, field, j)
}

/// The number that an item holds, where it holds an unsigned one.
pub open spec fn unsigned_of(value: NodeView) -> u64 {
    match value {
        NodeView::Unsigned(id) => id,
        _ => 0,
    }
}

/// The identifiers that a value holds: each item of a sequence, in order. An
/// empty value stands for the empty list. Where items are rejected, the error
/// is that of the first of them.
pub open spec fn identifiers_of(value: NodeView, field: Field) -> Result<Seq<u64>, SchemaError> {
    match value {
        NodeView::Null => Ok(Seq::empty()),
        NodeView::Sequence(items) => if exists|i: int| rejected_at(items, field, i) {
            Err(identifier_of(items[first_rejected(items, field)], field)->Err_0)
        } else {
            Ok(Seq::new(items.len(), |i: int| unsigned_of(items[i])))
        },
        _ => Err(SchemaError::WrongType(field)),
    }
}

/// The text of a required field.
pub open spec fn text_field(entries: Seq<(NodeView, NodeView)>, field: Field) -> Result<
    Seq<char>,
    SchemaError,
> {
    match lookup(entries, field) {
        Err(e) => Err(e),
        Ok(None) => Err(SchemaError::Missing(field)),
        Ok(Some(value)) => text_of(value, field),
    }
}

/// The text of a field that may be left out or left empty.
pub open spec fn optional_text_field(entries: Seq<(NodeView, NodeView)>, field: Field) -> Result<
    Option<Seq<char>>,
    SchemaError,
> {
    match lookup(entries, field) {
        Err(e) => Err(e),
        Ok(None) => Ok(None),
        Ok(Some(NodeView::Null)) => Ok(None),
        Ok(Some(value)) => match text_of(value, field) {
            Err(e) => Err(e),
            Ok(text) => Ok(Some(text)),
        },
    }
}

/// The identifier of a required field.
pub open spec fn identifier_field(entries: Seq<(NodeView, NodeView)>, field: Field) -> Result<
    u64,
    SchemaError,
> {
    match lookup(entries, field) {
        Err(e) => Err(e),
        Ok(None) => Err(SchemaError::Missing(field)),
        Ok(Some(value)) => identifier_of(value, field),
    }
}

/// The identifiers of a required field.
pub open spec fn identifiers_field(entries: Seq<(NodeView, NodeView)>, field: Field) -> Result<
    Seq<u64>,
    SchemaError,
> {
    match lookup(entries, field) {
        Err(e) => Err(e),
        Ok(None) => Err(SchemaError::Missing(field)),
        Ok(Some(value)) => identifiers_of(value, field),
    }
}

/// Whether an outcome that carries text is the outcome that the schema states.
pub open spec fn is_text_outcome(
    got: Result<String, SchemaError>,
    stated: Result<Seq<char>, SchemaError>,
) -> bool {
    match got {
        Ok(text) => stated == Ok::<Seq<char>, SchemaError>(text@),
        Err(e) => stated == Err::<Seq<char>, SchemaError>(e),
    }
}

/// Whether an outcome that may carry text is the outcome that the schema
/// states.
pub open spec fn is_optional_text_outcome(
    got: Result<Option<String>, SchemaError>,
    stated: Result<Option<Seq<char>>, SchemaError>,
) -> bool {
    match got {
        Ok(Some(text)) => stated == Ok::<Option<Seq<char>>, SchemaError>(Some(text@)),
        Ok(None) => stated == Ok::<Option<Seq<char>>, SchemaError>(None),
        Err(e) => stated == Err::<Option<Seq<char>>, SchemaError>(e),
    }
}

/// Whether an outcome that carries identifiers is the outcome that the schema
/// states.
pub open spec fn is_identifiers_outcome(
    got: Result<Vec<u64>, SchemaError>,
    stated: Result<Seq<u64>, SchemaError>,
) -> bool {
    match got {
        Ok(ids) => stated == Ok::<Seq<u64>, SchemaError>(ids@),
        Err(e) => stated == Err::<Seq<u64>, SchemaError>(e),
    }
}

/// Reads a value as text.
pub fn read_text(value: &Node, field: Field) -> (got: Result<String, SchemaError>)
    ensures
        is_text_outcome(got, text_of(value@, field)),
{
    match value {
        Node::Text(text) => Ok(text.clone()),
        _ => Err(SchemaError::WrongType(field)),
    }
}

/// Reads a value as an identifier.
pub fn read_identifier(value: &Node, field: Field) -> (got: Result<u64, SchemaError>)
    ensures
        got == identifier_of(value@, field),
{
    match value {
        Node::Unsigned(id) => {
            if *id == 0 {
                Err(SchemaError::Zero(field))
            } else {
                Ok(*id)
            }
        },
        _ => Err(SchemaError::WrongType(field)),
    }
}

/// Reads a value as a list of identifiers.
pub fn read_identifiers(value: &Node, field: Field) -> (got: Result<Vec<u64>, SchemaError>)
    ensures
        is_identifiers_outcome(got, identifiers_of(value@, field)),
{
    match value {
        Node::Null => Ok(Vec::new()),
        Node::Sequence(items) => {
            proof {
                lemma_sequence_view(*items);
            }
            let ghost views = items_view(items@);
            let mut ids: Vec<u64> = Vec::new();
            let mut i: usize = 0;
            while i < items.len()
                invariant
                    i <= items@.len(),
                    views == items_view(items@),
                    value@ == NodeView::Sequence(views),
                    ids@.len() == i,
                    forall|j: int| 0 <= j < i ==> !rejected_at(views, field, j),
                    forall|j: int| 0 <= j < i ==> ids@[j] == unsigned_of(#[trigger] views[j]),
                decreases items@.len() - i,
            {
                match read_identifier(&items[i], field) {
                    Ok(id) => {
                        ids.push(id);
                    },
                    Err(e) => {
                        proof {
                            assert(rejected_at(views, field, i as int));
                            assert(first_rejected(views, field) == i);
                        }
                        return Err(e);
                    },
                }
                i = i + 1;
            }
            proof {
                assert(ids@ =~= Seq::new(views.len(), |j: int| unsigned_of(views[j])));
            }
            Ok(ids)
        },
        _ => Err(SchemaError::WrongType(field)),
    }
}

/// Reads the text of a required field.
pub fn read_text_field(entries: &Vec<(Node, Node)>, field: Field) -> (got: Result<
    String,
    SchemaError,
>)
    ensures
        is_text_outcome(got, text_field(entries_view(entries@), field)),
{
    match find(entries, field) {
        Err(e) => Err(e),
        Ok(None) => Err(SchemaError::Missing(field)),
        Ok(Some(value)) => read_text(value, field),
    }
}

/// Reads the text of a field that may be left out or left empty.
pub fn read_optional_text_field(entries: &Vec<(Node, Node)>, field: Field) -> (got: Result<
    Option<String>,
    SchemaError,
>)
    ensures
        is_optional_text_outcome(got, optional_text_field(entries_view(entries@), field)),
{
    match find(entries, field) {
        Err(e) => Err(e),
        Ok(None) => Ok(None),
        Ok(Some(Node::Null)) => Ok(None),
        Ok(Some(value)) => match read_text(value, field) {
            Err(e) => Err(e),
            Ok(text) => Ok(Some(text)),
        },
    }
}

/// Reads the identifier of a required field.
pub fn read_identifier_field(entries: &Vec<(Node, Node)>, field: Field) -> (got: Result<
    u64,
    SchemaError,
>)
    ensures
        got == identifier_field(entries_view(entries@), field),
{
    match find(entries, field) {
        Err(e) => Err(e),
        Ok(None) => Err(SchemaError::Missing(field)),
        Ok(Some(value)) => read_identifier(value, field),
    }
}

/// Reads the identifiers of a required field.
pub fn read_identifiers_field(entries: &Vec<(Node, Node)>, field: Field) -> (got: Result<
    Vec<u64>,
    SchemaError,
>)
    ensures
        is_identifiers_outcome(got, identifiers_field(entries_view(entries@), field)),
{
    match find(entries, field) {
        Err(e) => Err(e),
        Ok(None) => Err(SchemaError::Missing(field)),
        Ok(Some(value)) => read_identifiers(value, field),
    }
}

/// The entry that holds a text field.
pub open spec fn text_entry(field: Field, text: Seq<char>) -> (NodeView, NodeView) {
    (NodeView::Text(field.key()), NodeView::Text(text))
}

/// The entry that holds a text field that may be empty: an absent text is
/// written as the empty value.
pub open spec fn optional_text_entry(field: Field, text: Option<Seq<char>>) -> (
    NodeView,
    NodeView,
) {
    (
        NodeView::Text(field.key()),
        match text {
            Some(text) => NodeView::Text(text),
            None => NodeView::Null,
        },
    )
}

/// The entry that holds an identifier field.
pub open spec fn identifier_entry(field: Field, id: u64) -> (NodeView, NodeView) {
    (NodeView::Text(field.key()), NodeView::Unsigned(id))
}

/// The entry that holds a list of identifiers, as a sequence of plain
/// numbers in the order of the list.
pub open spec fn identifiers_entry(field: Field, ids: Seq<u64>) -> (NodeView, NodeView) {
    (
        NodeView::Text(field.key()),
        NodeView::Sequence(Seq::new(ids.len(), |i: int| NodeView::Unsigned(ids[i]))),
    )
}

/// The view of an entry: its key's and its value's.
pub open spec fn entry_view(entry: (Node, Node)) -> (NodeView, NodeView) {
    (entry.0@, entry.1@)
}

/// Writes a text field.
pub fn write_text(field: Field, text: &str) -> (entry: (Node, Node))
    ensures
        entry_view(entry) == text_entry(field, text@),
{
    (Node::Text(String::from_str(field.name())), Node::Text(String::from_str(text)))
}

/// Writes a text field that may be empty.
pub fn write_optional_text(field: Field, text: &Option<String>) -> (entry: (Node, Node))
    ensures
        entry_view(entry) == optional_text_entry(
            field,
            match *text {
                Some(text) => Some(text@),
                None => None,
            },
        ),
{
    let value = match text {
        Some(text) => Node::Text(text.clone()),
        None => Node::Null,
    };
    (Node::Text(String::from_str(field.name())), value)
}

/// Writes an identifier field.
pub fn write_identifier(field: Field, id: u64) -> (entry: (Node, Node))
    ensures
        entry_view(entry) == identifier_entry(field, id),
{
    (Node::Text(String::from_str(field.name())), Node::Unsigned(id))
}

/// Writes a list of identifiers.
pub fn write_identifiers(field: Field, ids: &Vec<u64>) -> (entry: (Node, Node))
    ensures
        entry_view(entry) == identifiers_entry(field, ids@),
{
    let mut items: Vec<Node> = Vec::new();
    let mut i: usize = 0;
    while i < ids.len()
        invariant
            i <= ids@.len(),
            items@.len() == i,
            forall|j: int| 0 <= j < i ==> (#[trigger] items@[j])@ == NodeView::Unsigned(ids@[j]),
        decreases ids@.len() - i,
    {
        items.push(Node::Unsigned(ids[i]));
        i = i + 1;
    }
    proof {
        lemma_sequence_view(items);
        assert(items_view(items@) =~= Seq::new(ids@.len(), |i: int| NodeView::Unsigned(ids@[i])));
    }
    (Node::Text(String::from_str(field.name())), Node::Sequence(items))
}

} // verus!
