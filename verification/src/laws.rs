//! What holds of reading and writing a configuration, for every document and
//! every configuration.

use crate::config::{first_problem, servers_field, ConfigView, Reading, Servers};
use crate::document::NodeView;
use crate::schema::{
    has_key, identifier_field, identifiers_entry, identifiers_field, identifiers_of, key_at,
    lemma_keys_distinct, lookup, optional_text_field, position, rejected_at, text_field,
    unsigned_of, Field, SchemaError,
};
use crate::yaml::yaml_document;
use vstd::prelude::*;

verus! {

/// Where exactly one entry has the key of a field, the field's value is the
/// value of that entry.
pub proof fn lemma_lookup_single(entries: Seq<(NodeView, NodeView)>, field: Field, k: int)
    requires
        key_at(entries, k, field.key()),
        forall|j: int| key_at(entries, j, field.key()) ==> j == k,
    ensures
        lookup(entries, field) == Ok::<Option<NodeView>, SchemaError>(Some(entries[k].1)),
{
}

/// Where entry `k` has the key of `at` and every entry has the key of some
/// field of its own, entry `k` is the one entry of `at`.
proof fn lemma_lookup_among_fields(
    entries: Seq<(NodeView, NodeView)>,
    fields: Seq<Field>,
    k: int,
)
    requires
        fields.len() == entries.len(),
        0 <= k < entries.len(),
        forall|j: int| 0 <= j < entries.len() ==> (#[trigger] entries[j]).0 == NodeView::Text(fields[j].key()),
        forall|i: int, j: int| 0 <= i < j < fields.len() ==> fields[i] != fields[j],
    ensures
        lookup(entries, fields[k]) == Ok::<Option<NodeView>, SchemaError>(Some(entries[k].1)),
{
    let field = fields[k];
    assert forall|j: int| key_at(entries, j, field.key()) implies j == k by {
        lemma_keys_distinct(fields[j], field);
    }
    lemma_lookup_single(entries, field, k);
}

/// The list of identifiers that was written is the list that is read,
/// provided that none of them is zero.
pub proof fn lemma_identifiers_round_trip(field: Field, ids: Seq<u64>)
    requires
        forall|i: int| 0 <= i < ids.len() ==> ids[i] != 0,
    ensures
        identifiers_of(identifiers_entry(field, ids).1, field) == Ok::<Seq<u64>, SchemaError>(ids),
{
    let items = Seq::new(ids.len(), |i: int| NodeView::Unsigned(ids[i]));
    assert forall|i: int| !rejected_at(items, field, i) by {}
    assert(Seq::new(items.len(), |i: int| unsigned_of(items[i])) =~= ids);
}

/// The guilds that were written are the guilds that are read, provided that
/// no identifier is zero.
pub proof fn lemma_servers_round_trip(servers: Servers)
    requires
        servers.valid(),
    ensures
        Servers::of_document(servers.document()) == Ok::<Servers, SchemaError>(servers),
{
    let entries = servers.document()->Mapping_0;
    let fields = seq![Field::Main, Field::Staff, Field::Testing];
    lemma_lookup_among_fields(entries, fields, 0);
    lemma_lookup_among_fields(entries, fields, 1);
    lemma_lookup_among_fields(entries, fields, 2);
}

/// Round trip: the configuration that was written as a document is the
/// configuration that is read from it, provided that it is valid.
pub proof fn lemma_round_trip(config: ConfigView)
    requires
        config.valid(),
    ensures
        ConfigView::of_document(config.document()) == Ok::<ConfigView, SchemaError>(config),
{
    let entries = config.document()->Mapping_0;
    let fields = seq![
        Field::DatabaseUrl,
        Field::Token,
        Field::Servers,
        Field::FrontendUrl,
        Field::ProxyUrl,
        Field::Owners,
        Field::ProtectedBots,
        Field::GithubPat,
        Field::GithubUsername,
        Field::GithubRepo,
        Field::VercelDeployHook,
    ];
    lemma_lookup_among_fields(entries, fields, 0);
    lemma_lookup_among_fields(entries, fields, 1);
    lemma_lookup_among_fields(entries, fields, 2);
    lemma_lookup_among_fields(entries, fields, 3);
    lemma_lookup_among_fields(entries, fields, 4);
    lemma_lookup_among_fields(entries, fields, 5);
    lemma_lookup_among_fields(entries, fields, 6);
    lemma_lookup_among_fields(entries, fields, 7);
    lemma_lookup_among_fields(entries, fields, 8);
    lemma_lookup_among_fields(entries, fields, 9);
    lemma_lookup_among_fields(entries, fields, 10);
    lemma_servers_round_trip(config.servers);
    lemma_identifiers_round_trip(Field::Owners, config.owners);
    lemma_identifiers_round_trip(Field::ProtectedBots, config.protected_bots);
    assert(ConfigView::of_entries(entries)->Ok_0 == config);
}

/// The defaults are a valid configuration.
pub proof fn lemma_defaults_valid()
    ensures
        ConfigView::defaults().valid(),
{
}

/// Round trip of the defaults: reading the document of the default
/// configuration gives the default configuration.
pub proof fn lemma_defaults_round_trip()
    ensures
        ConfigView::of_document(ConfigView::defaults().document()) == Ok::<ConfigView, SchemaError>(
            ConfigView::defaults(),
        ),
{
    lemma_defaults_valid();
    lemma_round_trip(ConfigView::defaults());
}

/// The entries give the field the text `text`.
pub open spec fn states_text(entries: Seq<(NodeView, NodeView)>, field: Field, text: Seq<char>) -> bool {
    lookup(entries, field) == Ok::<Option<NodeView>, SchemaError>(Some(NodeView::Text(text)))
}

/// The entries give the field the text `text`, or, for no text, leave the
/// field out or empty.
pub open spec fn states_optional_text(
    entries: Seq<(NodeView, NodeView)>,
    field: Field,
    text: Option<Seq<char>>,
) -> bool {
    match text {
        Some(text) => states_text(entries, field, text),
        None => lookup(entries, field) == Ok::<Option<NodeView>, SchemaError>(None) || lookup(
            entries,
            field,
        ) == Ok::<Option<NodeView>, SchemaError>(Some(NodeView::Null)),
    }
}

/// The entries give the field the identifier `id`, which is not zero.
pub open spec fn states_identifier(entries: Seq<(NodeView, NodeView)>, field: Field, id: u64) -> bool {
    id != 0 && lookup(entries, field) == Ok::<Option<NodeView>, SchemaError>(
        Some(NodeView::Unsigned(id)),
    )
}

/// The entries give the field the identifiers `ids`, none of them zero, as a
/// sequence; for no identifiers the field may be empty instead.
pub open spec fn states_identifiers(
    entries: Seq<(NodeView, NodeView)>,
    field: Field,
    ids: Seq<u64>,
) -> bool {
    &&& forall|i: int| 0 <= i < ids.len() ==> ids[i] != 0
    &&& lookup(entries, field) == Ok::<Option<NodeView>, SchemaError>(
        Some(identifiers_entry(field, ids).1),
    ) || (ids.len() == 0 && lookup(entries, field) == Ok::<Option<NodeView>, SchemaError>(
        Some(NodeView::Null),
    ))
}

/// The entries give the guilds `servers` in a mapping under their key.
pub open spec fn states_servers(entries: Seq<(NodeView, NodeView)>, servers: Servers) -> bool {
    &&& lookup(entries, Field::Servers) matches Ok(Some(NodeView::Mapping(inner)))
    &&& states_identifier(inner, Field::Main, servers.main)
    &&& states_identifier(inner, Field::Staff, servers.staff)
    &&& states_identifier(inner, Field::Testing, servers.testing)
}

/// The entries state the configuration `config`: each field of the schema
/// has one entry, whose value is the field's value in `config`. Entries
/// under other keys, and the order of the entries, are free.
pub open spec fn states(entries: Seq<(NodeView, NodeView)>, config: ConfigView) -> bool {
    &&& states_text(entries, Field::DatabaseUrl, config.database_url)
    &&& states_text(entries, Field::Token, config.token)
    &&& states_servers(entries, config.servers)
    &&& states_text(entries, Field::FrontendUrl, config.frontend_url)
    &&& states_text(entries, Field::ProxyUrl, config.proxy_url)
    &&& states_identifiers(entries, Field::Owners, config.owners)
    &&& states_identifiers(entries, Field::ProtectedBots, config.protected_bots)
    &&& states_text(entries, Field::GithubPat, config.github_pat)
    &&& states_text(entries, Field::GithubUsername, config.github_username)
    &&& states_text(entries, Field::GithubRepo, config.github_repo)
    &&& states_optional_text(entries, Field::VercelDeployHook, config.optional_vercel_deploy_hook)
}

/// A field reads as the text `text` exactly where the entries state it.
proof fn lemma_text_field(entries: Seq<(NodeView, NodeView)>, field: Field, text: Seq<char>)
    ensures
        text_field(entries, field) == Ok::<Seq<char>, SchemaError>(text) <==> states_text(
            entries,
            field,
            text,
        ),
{
}

/// A field reads as the identifier `id` exactly where the entries state it.
proof fn lemma_identifier_field(entries: Seq<(NodeView, NodeView)>, field: Field, id: u64)
    ensures
        identifier_field(entries, field) == Ok::<u64, SchemaError>(id) <==> states_identifier(
            entries,
            field,
            id,
        ),
{
}

/// A value reads as the identifiers `ids` exactly where it is the sequence
/// of them, none zero, or empty for none.
proof fn lemma_identifiers_of(value: NodeView, field: Field, ids: Seq<u64>)
    ensures
        identifiers_of(value, field) == Ok::<Seq<u64>, SchemaError>(ids) <==> {
            &&& forall|i: int| 0 <= i < ids.len() ==> ids[i] != 0
            &&& value == identifiers_entry(field, ids).1 || (ids.len() == 0 && value
                == NodeView::Null)
        },
{
    if identifiers_of(value, field) == Ok::<Seq<u64>, SchemaError>(ids) {
        if let NodeView::Sequence(items) = value {
            assert forall|i: int| 0 <= i < ids.len() implies ids[i] != 0 && items[i]
                == NodeView::Unsigned(ids[i]) by {
                assert(!rejected_at(items, field, i));
            }
            assert(items =~= Seq::new(ids.len(), |i: int| NodeView::Unsigned(ids[i])));
        }
    }
    if (forall|i: int| 0 <= i < ids.len() ==> ids[i] != 0) && value == identifiers_entry(
        field,
        ids,
    ).1 {
        lemma_identifiers_round_trip(field, ids);
    }
    if ids.len() == 0 && value == NodeView::Null {
        assert(ids =~= Seq::empty());
    }
}

/// A field reads as the identifiers `ids` exactly where the entries state
/// them.
proof fn lemma_identifiers_field(entries: Seq<(NodeView, NodeView)>, field: Field, ids: Seq<u64>)
    ensures
        identifiers_field(entries, field) == Ok::<Seq<u64>, SchemaError>(ids)
            <==> states_identifiers(entries, field, ids),
{
    if let Ok(Some(value)) = lookup(entries, field) {
        lemma_identifiers_of(value, field, ids);
    }
}

/// The guilds read as `servers` exactly where the entries state them.
proof fn lemma_servers_field(entries: Seq<(NodeView, NodeView)>, servers: Servers)
    ensures
        servers_field(entries) == Ok::<Servers, SchemaError>(servers) <==> states_servers(
            entries,
            servers,
        ),
{
    if let Ok(Some(NodeView::Mapping(inner))) = lookup(entries, Field::Servers) {
        lemma_identifier_field(inner, Field::Main, servers.main);
        lemma_identifier_field(inner, Field::Staff, servers.staff);
        lemma_identifier_field(inner, Field::Testing, servers.testing);
    }
}

/// The optional text reads as `text` exactly where the entries state it.
proof fn lemma_optional_text_field(
    entries: Seq<(NodeView, NodeView)>,
    field: Field,
    text: Option<Seq<char>>,
)
    ensures
        optional_text_field(entries, field) == Ok::<Option<Seq<char>>, SchemaError>(text)
            <==> states_optional_text(entries, field, text),
{
}

/// Reading is exact: the entries of a document read as the configuration
/// `config` if and only if they state it. So a document that states a
/// configuration always loads, with every field as the document has it, and
/// a configuration is never made up from anything but the document.
pub proof fn lemma_reads_what_is_stated(entries: Seq<(NodeView, NodeView)>, config: ConfigView)
    ensures
        ConfigView::of_entries(entries) == Ok::<ConfigView, SchemaError>(config) <==> states(
            entries,
            config,
        ),
{
    lemma_text_field(entries, Field::DatabaseUrl, config.database_url);
    lemma_text_field(entries, Field::Token, config.token);
    lemma_servers_field(entries, config.servers);
    lemma_text_field(entries, Field::FrontendUrl, config.frontend_url);
    lemma_text_field(entries, Field::ProxyUrl, config.proxy_url);
    lemma_identifiers_field(entries, Field::Owners, config.owners);
    lemma_identifiers_field(entries, Field::ProtectedBots, config.protected_bots);
    lemma_text_field(entries, Field::GithubPat, config.github_pat);
    lemma_text_field(entries, Field::GithubUsername, config.github_username);
    lemma_text_field(entries, Field::GithubRepo, config.github_repo);
    lemma_optional_text_field(
        entries,
        Field::VercelDeployHook,
        config.optional_vercel_deploy_hook,
    );
}

/// A configuration that was read meets the invariant: no identifier in it is
/// zero.
pub proof fn lemma_read_is_valid(document: NodeView, config: ConfigView)
    requires
        ConfigView::of_document(document) == Ok::<ConfigView, SchemaError>(config),
    ensures
        config.valid(),
{
    let entries = match document {
        NodeView::Mapping(entries) => entries,
        _ => Seq::empty(),
    };
    lemma_reads_what_is_stated(entries, config);
}

/// A document that leaves out a required field is rejected. No default
/// stands in for the field.
pub proof fn lemma_missing_field_rejected(entries: Seq<(NodeView, NodeView)>, field: Field)
    requires
        field.required(),
        !has_key(entries, field.key()),
    ensures
        ConfigView::of_document(NodeView::Mapping(entries)) is Err,
{
}

/// A document whose guilds leave one of the three out is rejected.
pub proof fn lemma_missing_guild_rejected(
    entries: Seq<(NodeView, NodeView)>,
    inner: Seq<(NodeView, NodeView)>,
    field: Field,
)
    requires
        field.of_servers(),
        lookup(entries, Field::Servers) == Ok::<Option<NodeView>, SchemaError>(
            Some(NodeView::Mapping(inner)),
        ),
        !has_key(inner, field.key()),
    ensures
        ConfigView::of_document(NodeView::Mapping(entries)) is Err,
{
}

/// A document in which a guild identifier is zero is rejected.
pub proof fn lemma_zero_guild_rejected(
    entries: Seq<(NodeView, NodeView)>,
    inner: Seq<(NodeView, NodeView)>,
    field: Field,
)
    requires
        field.of_servers(),
        lookup(entries, Field::Servers) == Ok::<Option<NodeView>, SchemaError>(
            Some(NodeView::Mapping(inner)),
        ),
        lookup(inner, field) == Ok::<Option<NodeView>, SchemaError>(Some(NodeView::Unsigned(0))),
    ensures
        ConfigView::of_document(NodeView::Mapping(entries)) is Err,
{
}

/// A document in which an owner or a protected bot has the identifier zero
/// is rejected.
pub proof fn lemma_zero_in_list_rejected(
    entries: Seq<(NodeView, NodeView)>,
    field: Field,
    items: Seq<NodeView>,
    i: int,
)
    requires
        field == Field::Owners || field == Field::ProtectedBots,
        lookup(entries, field) == Ok::<Option<NodeView>, SchemaError>(
            Some(NodeView::Sequence(items)),
        ),
        0 <= i < items.len(),
        items[i] == NodeView::Unsigned(0),
    ensures
        ConfigView::of_document(NodeView::Mapping(entries)) is Err,
{
    assert(rejected_at(items, field, i));
}

/// A text whose document states a configuration holds that configuration:
/// reading it succeeds, and each field is as the document has it.
pub proof fn lemma_stated_text_is_accepted(
    text: Seq<char>,
    entries: Seq<(NodeView, NodeView)>,
    config: ConfigView,
)
    requires
        yaml_document(text) == Some(NodeView::Mapping(entries)),
        states(entries, config),
    ensures
        ConfigView::of_text(text) == Reading::Accepted(config),
{
    lemma_reads_what_is_stated(entries, config);
}

/// A text is accepted only as the configuration that its document states,
/// and that configuration is valid.
pub proof fn lemma_accepted_text_is_stated(text: Seq<char>, config: ConfigView)
    requires
        ConfigView::of_text(text) == Reading::Accepted(config),
    ensures
        config.valid(),
        yaml_document(text) matches Some(document) && match document {
            NodeView::Mapping(entries) => states(entries, config),
            _ => false,
        },
{
    let document = yaml_document(text)->Some_0;
    lemma_read_is_valid(document, config);
    if let NodeView::Mapping(entries) = document {
        lemma_reads_what_is_stated(entries, config);
    }
}

} // verus!
