//! Go code generation for Steampipe plugin tables.
//!
//! Generates table definition files, the plugin registration file and test
//! stubs.  Each generator is specified by a spec function that spells out
//! the exact Go source it returns.
use vstd::prelude::*;
use crate::escape::{escape, escape_go_string};
use crate::column::{go_column_const, ColumnType};
use crate::model::{IacAttribute, IacDataSource, IacProvider, IacResource, TableSource};
use crate::naming::{
    lowercase_first, lowercase_first_spec, pascal_case, snake_case, to_pascal_case,
    to_snake_case,
};

verus! {

/// `{provider}_{snake_case(entity)}`: the Steampipe table name of an entity.
pub open spec fn table_name_of(provider: Seq<char>, entity: Seq<char>) -> Seq<char> {
    provider + seq!['_'] + snake_case(entity)
}

/// Pre-computed naming components used throughout table code generation.
pub struct TableNames {
    /// e.g. `"akeyless"`
    pub provider_name: String,
    /// e.g. `"Akeyless"`
    pub provider_pascal: String,
    /// e.g. `"akeyless_static_secret"`
    pub table_name: String,
    /// e.g. `"StaticSecret"`
    pub pascal_name: String,
}

impl TableNames {
    /// The names are those of `entity` under `provider`.
    pub open spec fn names_for(self, entity: Seq<char>, provider: Seq<char>) -> bool {
        &&& self.provider_name@ == provider
        &&& self.provider_pascal@ == pascal_case(provider)
        &&& self.table_name@ == table_name_of(provider, entity)
        &&& self.pascal_name@ == pascal_case(entity)
    }

    pub fn new(entity_name: &str, provider: &IacProvider) -> (res: TableNames)
        ensures
            res.names_for(entity_name@, provider.name@),
    {
        let snake_name = to_snake_case(entity_name);
        let mut table_name = provider.name.clone();
        table_name.push('_');
        table_name.append(snake_name.as_str());
        assert(table_name@ =~= table_name_of(provider.name@, entity_name@));
        TableNames {
            provider_name: provider.name.clone(),
            provider_pascal: to_pascal_case(provider.name.as_str()),
            table_name,
            pascal_name: to_pascal_case(entity_name),
        }
    }

    /// Fallback description when the entity has none of its own:
    /// `"{ProviderPascal} {EntityPascal} table"`.
    pub fn default_description(&self) -> (res: String)
        ensures
            res@ == default_description_of(self.provider_pascal@, self.pascal_name@),
    {
        let mut out = self.provider_pascal.clone();
        out.push(' ');
        out.append(self.pascal_name.as_str());
        out.append(" table");
        assert(out@ =~= default_description_of(self.provider_pascal@, self.pascal_name@));
        out
    }
}

/// `"{provider_pascal} {pascal_name} table"`.
pub open spec fn default_description_of(provider_pascal: Seq<char>, pascal_name: Seq<char>) -> Seq<char> {
    provider_pascal + seq![' '] + pascal_name + " table"@
}

pub const TABLE_HEAD: &'static str = "package ";

pub const TABLE_IMPORTS: &'static str = "\n\nimport (\n\t\"context\"\n\n\t\"github.com/turbot/steampipe-plugin-sdk/v5/grpc/proto\"\n\t\"github.com/turbot/steampipe-plugin-sdk/v5/plugin\"\n)\n\nfunc table";

pub const TABLE_NAME_FIELD: &'static str = "() *plugin.Table {\n\treturn &plugin.Table{\n\t\tName:        \"";

pub const TABLE_DESCRIPTION_FIELD: &'static str = "\",\n\t\tDescription: \"";

pub const TABLE_LIST_FIELD: &'static str = "\",\n\t\tList: &plugin.ListConfig{\n\t\t\tHydrate: list";

pub const TABLE_COLUMNS_FIELD: &'static str = ",\n\t\t},\n\t\tColumns: ";

pub const TABLE_COLUMNS_FUNC: &'static str = "Columns(),\n\t}\n}\n\nfunc ";

pub const TABLE_COLUMNS_BODY: &'static str = "Columns() []*plugin.Column {\n\treturn []*plugin.Column{\n";

pub const TABLE_LIST_FUNC: &'static str = "\t}\n}\n\nfunc list";

pub const TABLE_LIST_BODY: &'static str = "(ctx context.Context, d *plugin.QueryData, _ *plugin.HydrateData) (interface{}, error) {\n\t// TODO: Implement list hydrate function.\n\treturn nil, nil\n}\n";

/// The part of a table file that defines `table{P}{N}` and names the table:
/// `func table{P}{N}() *plugin.Table {...Name: "{table_name}`.
pub open spec fn table_def_part(provider_pascal: Seq<char>, pascal_name: Seq<char>, table_name: Seq<char>) -> Seq<char> {
    TABLE_IMPORTS@ + provider_pascal + pascal_name + TABLE_NAME_FIELD@ + table_name
}

/// The description field of a table file, up to its closing quote.
pub open spec fn table_description_part(description: Seq<char>) -> Seq<char> {
    TABLE_DESCRIPTION_FIELD@ + escape(description)
}

/// The rest of a table file: the hydrate function `list{P}{N}`, the column
/// function `{p}{N}Columns` (`{p}` is `P` with its first letter lowercased)
/// holding the column definitions, and the definition of `list{P}{N}`.
pub open spec fn table_functions_part(
    provider_pascal: Seq<char>,
    pascal_name: Seq<char>,
    columns: Seq<char>,
) -> Seq<char> {
    table_functions_head(provider_pascal, pascal_name, columns) + TABLE_LIST_BODY@
}

/// The rest of a table file up to the body of `list{P}{N}`.
pub open spec fn table_functions_head(
    provider_pascal: Seq<char>,
    pascal_name: Seq<char>,
    columns: Seq<char>,
) -> Seq<char> {
    let lower = lowercase_first_spec(provider_pascal);
    TABLE_LIST_FIELD@ + provider_pascal + pascal_name + TABLE_COLUMNS_FIELD@ + lower + pascal_name
        + TABLE_COLUMNS_FUNC@ + lower + pascal_name + TABLE_COLUMNS_BODY@ + columns
        + TABLE_LIST_FUNC@ + provider_pascal + pascal_name
}

/// The Go source of one table file, given the table's names, its
/// (unescaped) description and the text of its column definitions.
pub open spec fn table_go_text(
    provider_name: Seq<char>,
    provider_pascal: Seq<char>,
    table_name: Seq<char>,
    pascal_name: Seq<char>,
    description: Seq<char>,
    columns: Seq<char>,
) -> Seq<char> {
    TABLE_HEAD@ + provider_name + table_def_part(provider_pascal, pascal_name, table_name)
        + table_description_part(description) + table_functions_part(
        provider_pascal,
        pascal_name,
        columns,
    )
}

/// Format the Go table definition source for a single table.
pub fn format_table_go(names: &TableNames, description: &str, columns: &str) -> (res: String)
    ensures
        res@ == table_go_text(
            names.provider_name@,
            names.provider_pascal@,
            names.table_name@,
            names.pascal_name@,
            description@,
            columns@,
        ),
{
    let provider_name = names.provider_name.as_str();
    let provider_pascal = names.provider_pascal.as_str();
    let pascal_name = names.pascal_name.as_str();
    let lower_string = lowercase_first(provider_pascal);
    let lower = lower_string.as_str();
    let escaped = escape_go_string(description);
    let mut out = String::new();
    out.append(TABLE_HEAD);
    out.append(provider_name);
    out.append(TABLE_IMPORTS);
    out.append(provider_pascal);
    out.append(pascal_name);
    out.append(TABLE_NAME_FIELD);
    out.append(names.table_name.as_str());
    out.append(TABLE_DESCRIPTION_FIELD);
    out.append(escaped.as_str());
    out.append(TABLE_LIST_FIELD);
    out.append(provider_pascal);
    out.append(pascal_name);
    out.append(TABLE_COLUMNS_FIELD);
    out.append(lower);
    out.append(pascal_name);
    out.append(TABLE_COLUMNS_FUNC);
    out.append(lower);
    out.append(pascal_name);
    out.append(TABLE_COLUMNS_BODY);
    out.append(columns);
    out.append(TABLE_LIST_FUNC);
    out.append(provider_pascal);
    out.append(pascal_name);
    out.append(TABLE_LIST_BODY);
    assert(out@ =~= table_go_text(
        names.provider_name@,
        names.provider_pascal@,
        names.table_name@,
        names.pascal_name@,
        description@,
        columns@,
    ));
    out
}

pub const COLUMN_NAME_FIELD: &'static str = "\t\t{\n\t\t\tName:        \"";

pub const COLUMN_TYPE_FIELD: &'static str = "\",\n\t\t\tType:        ";

pub const COLUMN_DESCRIPTION_FIELD: &'static str = ",\n\t\t\tDescription: \"";

pub const COLUMN_END: &'static str = "\",\n\t\t},";

pub const DEFAULT_FIELD_PREFIX: &'static str = "The ";

pub const DEFAULT_FIELD_SUFFIX: &'static str = " field.";

/// The description of a column: the attribute's own, or
/// `"The {name} field."` where it has none.
pub open spec fn attribute_description(attr: IacAttribute) -> Seq<char> {
    if attr.description@.len() == 0 {
        DEFAULT_FIELD_PREFIX@ + attr.canonical_name@ + DEFAULT_FIELD_SUFFIX@
    } else {
        attr.description@
    }
}

/// The Go `plugin.Column` literal of one attribute.  The name is emitted as
/// it is; the description is escaped.
pub open spec fn column_entry(attr: IacAttribute) -> Seq<char> {
    COLUMN_NAME_FIELD@ + attr.canonical_name@ + COLUMN_TYPE_FIELD@ + go_column_const(
        attr.iac_type,
    )@ + COLUMN_DESCRIPTION_FIELD@ + escape(attribute_description(attr)) + COLUMN_END@
}

/// The column definitions of a table: one column literal per attribute, in
/// order, each followed by a newline; nothing for no attributes.
pub open spec fn columns_text(attrs: Seq<IacAttribute>) -> Seq<char>
    decreases attrs.len(),
{
    if attrs.len() == 0 {
        Seq::empty()
    } else {
        columns_text(attrs.drop_last()) + column_entry(attrs.last()) + seq!['\n']
    }
}

fn column_description(attr: &IacAttribute) -> (res: String)
    ensures
        res@ == attribute_description(*attr),
{
    if attr.description.as_str().is_empty() {
        let mut out = String::new();
        out.append(DEFAULT_FIELD_PREFIX);
        out.append(attr.canonical_name.as_str());
        out.append(DEFAULT_FIELD_SUFFIX);
        assert(out@ =~= attribute_description(*attr));
        out
    } else {
        attr.description.clone()
    }
}

/// Generate the column definitions for a list of attributes.
pub fn generate_columns(attributes: &[IacAttribute]) -> (res: String)
    ensures
        res@ == columns_text(attributes@),
{
    let mut out = String::new();
    let n = attributes.len();
    let mut i: usize = 0;
    while i < n
        invariant
            n == attributes@.len(),
            i <= n,
            out@ == columns_text(attributes@.take(i as int)),
        decreases n - i,
    {
        let attr = &attributes[i];
        let col_type = ColumnType::from_iac_type(&attr.iac_type).as_go_const();
        let desc = column_description(attr);
        let escaped = escape_go_string(desc.as_str());
        let ghost before = out@;
        out.append(COLUMN_NAME_FIELD);
        out.append(attr.canonical_name.as_str());
        out.append(COLUMN_TYPE_FIELD);
        out.append(col_type);
        out.append(COLUMN_DESCRIPTION_FIELD);
        out.append(escaped.as_str());
        out.append(COLUMN_END);
        out.push('\n');
        assert(attributes@.take(i + 1).drop_last() =~= attributes@.take(i as int));
        assert(attributes@.take(i + 1).last() == *attr);
        assert(out@ =~= before + column_entry(*attr) + seq!['\n']);
        i = i + 1;
    }
    assert(attributes@.take(n as int) =~= attributes@);
    out
}

/// The description a table carries: the entity's own, or the default one
/// where it has none.
pub open spec fn table_description(provider: Seq<char>, entity: Seq<char>, description: Seq<char>) -> Seq<char> {
    if description.len() == 0 {
        default_description_of(pascal_case(provider), pascal_case(entity))
    } else {
        description
    }
}

/// The Go table definition file of an entity with the given name,
/// description and attributes under the given provider.
pub open spec fn table_file_text(
    provider: Seq<char>,
    entity: Seq<char>,
    description: Seq<char>,
    attrs: Seq<IacAttribute>,
) -> Seq<char> {
    table_go_text(
        provider,
        pascal_case(provider),
        table_name_of(provider, entity),
        pascal_case(entity),
        table_description(provider, entity, description),
        columns_text(attrs),
    )
}

/// Generate the Go table definition file for any [`TableSource`].
pub fn generate_table<S: TableSource>(source: &S, provider: &IacProvider) -> (res: String)
    ensures
        res@ == table_file_text(
            provider.name@,
            source.source_name(),
            source.source_description(),
            source.source_attributes(),
        ),
{
    let names = TableNames::new(source.name(), provider);
    let desc_raw = source.description();
    let description = if desc_raw.is_empty() {
        names.default_description()
    } else {
        desc_raw.to_owned()
    };
    let columns = generate_columns(source.attributes());
    format_table_go(&names, description.as_str(), columns.as_str())
}

/// Generate the Go table definition file for a single resource.
///
/// Produces a file like `table_akeyless_static_secret.go` with the table
/// function, columns function, and a list hydrate stub.
pub fn generate_table_file(resource: &IacResource, provider: &IacProvider) -> (res: String)
    ensures
        res@ == table_file_text(
            provider.name@,
            resource.name@,
            resource.description@,
            resource.attributes@,
        ),
{
    generate_table(resource, provider)
}

/// Generate the Go table definition file for a data source (read-only query).
///
/// Steampipe tables are read-only, so data sources map to the same table
/// pattern as resources.
pub fn generate_data_source_table_file(ds: &IacDataSource, provider: &IacProvider) -> (res: String)
    ensures
        res@ == table_file_text(provider.name@, ds.name@, ds.description@, ds.attributes@),
{
    generate_table(ds, provider)
}

pub const PLUGIN_IMPORTS: &'static str = "\n\nimport (\n\t\"context\"\n\n\t\"github.com/turbot/steampipe-plugin-sdk/v5/plugin\"\n)\n\nfunc Plugin(ctx context.Context) *plugin.Plugin {\n\treturn &plugin.Plugin{\n\t\tName: \"";

pub const PLUGIN_NAME_PREFIX: &'static str = "steampipe-plugin-";

pub const PLUGIN_TABLE_MAP: &'static str = "\",\n\t\tTableMap: map[string]*plugin.Table{\n";

pub const PLUGIN_END: &'static str = "\n\t\t},\n\t}\n}\n";

pub const MAP_ENTRY_HEAD: &'static str = "\t\t\t\"";

pub const MAP_ENTRY_TABLE: &'static str = "\": table";

pub const MAP_ENTRY_END: &'static str = "(),";

/// One `TableMap` line: `"{table_name}": table{ProviderPascal}{EntityPascal}(),`
/// indented by three tabs.
pub open spec fn map_entry_text(
    table_name: Seq<char>,
    provider_pascal: Seq<char>,
    pascal_name: Seq<char>,
) -> Seq<char> {
    MAP_ENTRY_HEAD@ + table_name + MAP_ENTRY_TABLE@ + provider_pascal + pascal_name + MAP_ENTRY_END@
}

/// The `TableMap` line of the entity named `entity` under `provider`.
pub open spec fn entity_map_entry(provider: Seq<char>, entity: Seq<char>) -> Seq<char> {
    map_entry_text(table_name_of(provider, entity), pascal_case(provider), pascal_case(entity))
}

/// Lines joined by newlines (no newline after the last one).
pub open spec fn join_lines(lines: Seq<Seq<char>>) -> Seq<char>
    decreases lines.len(),
{
    if lines.len() == 0 {
        Seq::empty()
    } else if lines.len() == 1 {
        lines[0]
    } else {
        join_lines(lines.drop_last()) + seq!['\n'] + lines.last()
    }
}

/// The names of all tables of a plugin: resources first, then data
/// sources, each in the given order.
pub open spec fn entity_names(resources: Seq<IacResource>, data_sources: Seq<IacDataSource>) -> Seq<Seq<char>> {
    resources.map_values(|r: IacResource| r.name@) + data_sources.map_values(|d: IacDataSource| d.name@)
}

/// The `TableMap` lines of a plugin, one per table, in table order.
pub open spec fn plugin_entries(
    provider: Seq<char>,
    resources: Seq<IacResource>,
    data_sources: Seq<IacDataSource>,
) -> Seq<Seq<char>> {
    entity_names(resources, data_sources).map_values(|e: Seq<char>| entity_map_entry(provider, e))
}

/// The Go source of `plugin.go`.
pub open spec fn plugin_file_text(
    provider: Seq<char>,
    resources: Seq<IacResource>,
    data_sources: Seq<IacDataSource>,
) -> Seq<char> {
    TABLE_HEAD@ + provider + PLUGIN_IMPORTS@ + PLUGIN_NAME_PREFIX@ + provider + PLUGIN_TABLE_MAP@
        + join_lines(plugin_entries(provider, resources, data_sources)) + PLUGIN_END@
}

proof fn lemma_join_lines_push(lines: Seq<Seq<char>>, line: Seq<char>)
    ensures
        join_lines(lines.push(line)) == if lines.len() == 0 {
            line
        } else {
            join_lines(lines) + seq!['\n'] + line
        },
{
    assert(lines.push(line).drop_last() =~= lines);
}

/// Format a single `TableMap` entry line for `plugin.go`.
pub fn format_table_map_entry(names: &TableNames) -> (res: String)
    ensures
        res@ == map_entry_text(names.table_name@, names.provider_pascal@, names.pascal_name@),
{
    let mut out = String::new();
    out.append(MAP_ENTRY_HEAD);
    out.append(names.table_name.as_str());
    out.append(MAP_ENTRY_TABLE);
    out.append(names.provider_pascal.as_str());
    out.append(names.pascal_name.as_str());
    out.append(MAP_ENTRY_END);
    assert(out@ =~= map_entry_text(names.table_name@, names.provider_pascal@, names.pascal_name@));
    out
}

/// Append the `TableMap` line of `entity` to the lines already in `out`.
fn append_map_entry(
    out: &mut String,
    entity: &str,
    provider: &IacProvider,
    first: bool,
    lines: Ghost<Seq<Seq<char>>>,
)
    requires
        old(out)@ == join_lines(lines@),
        first == (lines@.len() == 0),
    ensures
        final(out)@ == join_lines(lines@.push(entity_map_entry(provider.name@, entity@))),
{
    let names = TableNames::new(entity, provider);
    let entry = format_table_map_entry(&names);
    proof {
        lemma_join_lines_push(lines@, entity_map_entry(provider.name@, entity@));
    }
    if !first {
        out.push('\n');
    }
    out.append(entry.as_str());
}

/// Generate `plugin.go` with the `TableMap` registration for all resources
/// and data sources.
pub fn generate_plugin_file(
    provider: &IacProvider,
    resources: &[IacResource],
    data_sources: &[IacDataSource],
) -> (res: String)
    ensures
        res@ == plugin_file_text(provider.name@, resources@, data_sources@),
{
    let ghost entries = plugin_entries(provider.name@, resources@, data_sources@);
    let ghost nr = resources@.len() as int;
    let mut table_map = String::new();
    let mut i: usize = 0;
    while i < resources.len()
        invariant
            table_map@ == join_lines(entries.take(i as int)),
            i <= resources@.len(),
            nr == resources@.len(),
            entries == plugin_entries(provider.name@, resources@, data_sources@),
        decreases resources@.len() - i,
    {
        proof {
            assert(entries[i as int] == entity_map_entry(provider.name@, resources@[i as int].name@));
            assert(entries.take(i + 1) =~= entries.take(i as int).push(entries[i as int]));
        }
        append_map_entry(
            &mut table_map,
            resources[i].name.as_str(),
            provider,
            i == 0,
            Ghost(entries.take(i as int)),
        );
        i = i + 1;
    }
    let mut j: usize = 0;
    while j < data_sources.len()
        invariant
            table_map@ == join_lines(entries.take(nr + j)),
            j <= data_sources@.len(),
            nr == resources@.len(),
            entries == plugin_entries(provider.name@, resources@, data_sources@),
        decreases data_sources@.len() - j,
    {
        proof {
            assert(entries[nr + j] == entity_map_entry(provider.name@, data_sources@[j as int].name@));
            assert(entries.take(nr + j + 1) =~= entries.take(nr + j).push(entries[nr + j]));
        }
        append_map_entry(
            &mut table_map,
            data_sources[j].name.as_str(),
            provider,
            resources.len() == 0 && j == 0,
            Ghost(entries.take(nr + j)),
        );
        j = j + 1;
    }
    assert(entries.take(nr + data_sources@.len()) =~= entries);
    let mut out = String::new();
    out.append(TABLE_HEAD);
    out.append(provider.name.as_str());
    out.append(PLUGIN_IMPORTS);
    out.append(PLUGIN_NAME_PREFIX);
    out.append(provider.name.as_str());
    out.append(PLUGIN_TABLE_MAP);
    out.append(table_map.as_str());
    out.append(PLUGIN_END);
    assert(out@ =~= plugin_file_text(provider.name@, resources@, data_sources@));
    out
}

pub const TEST_IMPORTS: &'static str = "\n\nimport (\n\t\"testing\"\n)\n\nfunc TestTable";

pub const TEST_SIGNATURE: &'static str = "(t *testing.T) {\n\ttable := table";

pub const TEST_NIL_CHECK: &'static str = "()\n\tif table == nil {\n\t\tt.Fatal(\"table";

pub const TEST_NAME_CHECK: &'static str = "() returned nil\")\n\t}\n\tif table.Name != \"";

pub const TEST_NAME_ERROR: &'static str = "\" {\n\t\tt.Errorf(\"expected table name %q, got %q\", \"";

pub const TEST_END: &'static str = "\", table.Name)\n\t}\n\tif len(table.Columns) == 0 {\n\t\tt.Error(\"expected at least one column\")\n\t}\n}\n";

/// The Go test stub of a resource table, given the table's names.
pub open spec fn test_go_text(
    provider_name: Seq<char>,
    provider_pascal: Seq<char>,
    table_name: Seq<char>,
    pascal_name: Seq<char>,
) -> Seq<char> {
    TABLE_HEAD@ + provider_name + TEST_IMPORTS@ + provider_pascal + pascal_name + TEST_SIGNATURE@
        + provider_pascal + pascal_name + TEST_NIL_CHECK@ + provider_pascal + pascal_name
        + TEST_NAME_CHECK@ + table_name + TEST_NAME_ERROR@ + table_name + TEST_END@
}

/// The Go test stub of the resource named `entity` under `provider`.
pub open spec fn test_file_text(provider: Seq<char>, entity: Seq<char>) -> Seq<char> {
    test_go_text(provider, pascal_case(provider), table_name_of(provider, entity), pascal_case(entity))
}

/// Generate a basic test stub for a resource table.
pub fn generate_test_file(resource: &IacResource, provider: &IacProvider) -> (res: String)
    ensures
        res@ == test_file_text(provider.name@, resource.name@),
{
    let names = TableNames::new(resource.name.as_str(), provider);
    let provider_pascal = names.provider_pascal.as_str();
    let pascal_name = names.pascal_name.as_str();
    let table_name = names.table_name.as_str();
    let mut out = String::new();
    out.append(TABLE_HEAD);
    out.append(names.provider_name.as_str());
    out.append(TEST_IMPORTS);
    out.append(provider_pascal);
    out.append(pascal_name);
    out.append(TEST_SIGNATURE);
    out.append(provider_pascal);
    out.append(pascal_name);
    out.append(TEST_NIL_CHECK);
    out.append(provider_pascal);
    out.append(pascal_name);
    out.append(TEST_NAME_CHECK);
    out.append(table_name);
    out.append(TEST_NAME_ERROR);
    out.append(table_name);
    out.append(TEST_END);
    assert(out@ =~= test_file_text(provider.name@, resource.name@));
    out
}

/// The column definitions of `a + b` are those of `a` followed by those of `b`.
pub proof fn lemma_columns_text_concat(a: Seq<IacAttribute>, b: Seq<IacAttribute>)
    ensures
        columns_text(a + b) == columns_text(a) + columns_text(b),
    decreases b.len(),
{
    if b.len() == 0 {
        assert(a + b =~= a);
        assert(columns_text(a) + columns_text(b) =~= columns_text(a));
    } else {
        lemma_columns_text_concat(a, b.drop_last());
        assert((a + b).drop_last() =~= a + b.drop_last());
        assert((a + b).last() == b.last());
        assert(columns_text(a + b) =~= columns_text(a) + columns_text(b.drop_last()) + column_entry(
            b.last(),
        ) + seq!['\n']);
    }
}

/// A data source is rendered as exactly the same table as a resource with
/// the same name, description and attributes.
pub proof fn lemma_data_source_table_matches_resource(
    provider: IacProvider,
    resource: IacResource,
    ds: IacDataSource,
)
    requires
        resource.name@ == ds.name@,
        resource.description@ == ds.description@,
        resource.attributes@ == ds.attributes@,
    ensures
        table_file_text(provider.name@, resource.name@, resource.description@, resource.attributes@)
            == table_file_text(provider.name@, ds.name@, ds.description@, ds.attributes@),
{
}

/// `plugin.go` registers every resource and then every data source, one
/// `TableMap` line each, in the order given.
pub proof fn lemma_plugin_entries(
    provider: Seq<char>,
    resources: Seq<IacResource>,
    data_sources: Seq<IacDataSource>,
)
    ensures
        plugin_entries(provider, resources, data_sources).len() == resources.len()
            + data_sources.len(),
        forall|i: int|
            0 <= i < resources.len() ==> #[trigger] plugin_entries(
                provider,
                resources,
                data_sources,
            )[i] == entity_map_entry(provider, resources[i].name@),
        forall|j: int|
            0 <= j < data_sources.len() ==> #[trigger] plugin_entries(
                provider,
                resources,
                data_sources,
            )[resources.len() + j] == entity_map_entry(provider, data_sources[j].name@),
{
    let names = entity_names(resources, data_sources);
    assert forall|i: int| 0 <= i < resources.len() implies names[i] == resources[i].name@ by {}
    assert forall|j: int| 0 <= j < data_sources.len() implies names[resources.len() + j]
        == data_sources[j].name@ by {}
}

/// `t` occurs as a contiguous part of `s`.
pub open spec fn contains(s: Seq<char>, t: Seq<char>) -> bool {
    exists|i: int| 0 <= i && i + t.len() <= s.len() && #[trigger] s.subrange(i, i + t.len()) == t
}

/// A text contains every text that it is built around.
pub proof fn lemma_contains_middle(a: Seq<char>, t: Seq<char>, b: Seq<char>)
    ensures
        contains(a + t + b, t),
{
    assert((a + t + b).subrange(a.len() as int, (a.len() + t.len()) as int) =~= t);
}

/// What a part of a text contains, the text contains.
pub proof fn lemma_contains_within(a: Seq<char>, s: Seq<char>, b: Seq<char>, t: Seq<char>)
    requires
        contains(s, t),
    ensures
        contains(a + s + b, t),
{
    let i = choose|i: int| 0 <= i && i + t.len() <= s.len() && #[trigger] s.subrange(i, i + t.len()) == t;
    assert((a + s + b).subrange(a.len() + i, a.len() + i + t.len()) =~= s.subrange(i, i + t.len()));
}

/// Joined lines contain each of the lines.
pub proof fn lemma_join_lines_contains(lines: Seq<Seq<char>>, k: int)
    requires
        0 <= k < lines.len(),
    ensures
        contains(join_lines(lines), lines[k]),
    decreases lines.len(),
{
    let empty = Seq::<char>::empty();
    if lines.len() == 1 {
        lemma_contains_middle(empty, lines[0], empty);
        assert(empty + lines[0] + empty =~= lines[0]);
    } else if k == lines.len() - 1 {
        lemma_contains_middle(join_lines(lines.drop_last()) + seq!['\n'], lines.last(), empty);
        assert(join_lines(lines.drop_last()) + seq!['\n'] + lines.last() + empty =~= join_lines(lines));
    } else {
        lemma_join_lines_contains(lines.drop_last(), k);
        lemma_contains_within(empty, join_lines(lines.drop_last()), seq!['\n'] + lines.last(), lines[k]);
        assert(empty + join_lines(lines.drop_last()) + (seq!['\n'] + lines.last()) =~= join_lines(lines));
    }
}

/// `plugin.go` holds the `TableMap` line of every resource and every data
/// source.
#[verifier::spinoff_prover]
pub proof fn lemma_plugin_registers_every_table(
    provider: Seq<char>,
    resources: Seq<IacResource>,
    data_sources: Seq<IacDataSource>,
)
    ensures
        forall|i: int|
            0 <= i < resources.len() ==> contains(
                plugin_file_text(provider, resources, data_sources),
                #[trigger] entity_map_entry(provider, resources[i].name@),
            ),
        forall|j: int|
            0 <= j < data_sources.len() ==> contains(
                plugin_file_text(provider, resources, data_sources),
                #[trigger] entity_map_entry(provider, data_sources[j].name@),
            ),
{
    let entries = plugin_entries(provider, resources, data_sources);
    let head = TABLE_HEAD@ + provider + PLUGIN_IMPORTS@ + PLUGIN_NAME_PREFIX@ + provider
        + PLUGIN_TABLE_MAP@;
    assert(plugin_file_text(provider, resources, data_sources) =~= head + join_lines(entries)
        + PLUGIN_END@);
    lemma_plugin_entries(provider, resources, data_sources);
    assert forall|i: int| 0 <= i < resources.len() implies contains(
        plugin_file_text(provider, resources, data_sources),
        #[trigger] entity_map_entry(provider, resources[i].name@),
    ) by {
        assert(entries[i] == entity_map_entry(provider, resources[i].name@));
        lemma_join_lines_contains(entries, i);
        lemma_contains_within(head, join_lines(entries), PLUGIN_END@, entries[i]);
    }
    assert forall|j: int| 0 <= j < data_sources.len() implies contains(
        plugin_file_text(provider, resources, data_sources),
        #[trigger] entity_map_entry(provider, data_sources[j].name@),
    ) by {
        let k = resources.len() + j;
        assert(entries[k] == entity_map_entry(provider, data_sources[j].name@));
        lemma_join_lines_contains(entries, k);
        lemma_contains_within(head, join_lines(entries), PLUGIN_END@, entries[k]);
    }
}

#[verifier::spinoff_prover]
proof fn lemma_concat_parts(a: Seq<char>, b: Seq<char>, c: Seq<char>, d: Seq<char>)
    ensures
        contains(a + b + c + d, b),
        contains(a + b + c + d, c),
        contains(a + b + c + d, d),
        (a + b + c + d).take(a.len() as int) == a,
{
    lemma_contains_middle(a, b, c + d);
    assert(a + b + (c + d) =~= a + b + c + d);
    lemma_contains_middle(a + b, c, d);
    lemma_contains_middle(a + b + c, d, Seq::<char>::empty());
    assert(a + b + c + d + Seq::<char>::empty() =~= a + b + c + d);
    assert((a + b + c + d).take(a.len() as int) =~= a);
}

/// The parts of a table file: it starts with the package clause of the
/// provider, defines `table{P}{N}` naming the table, carries the escaped
/// description, then the functions `list{P}{N}` and `{p}{N}Columns` with
/// the column definitions, and ends with the body of `list{P}{N}`.
#[verifier::spinoff_prover]
pub proof fn lemma_table_go_text_parts(
    provider_name: Seq<char>,
    provider_pascal: Seq<char>,
    table_name: Seq<char>,
    pascal_name: Seq<char>,
    description: Seq<char>,
    columns: Seq<char>,
)
    ensures
        ({
            let text = table_go_text(
                provider_name,
                provider_pascal,
                table_name,
                pascal_name,
                description,
                columns,
            );
            &&& text.take((TABLE_HEAD@ + provider_name).len() as int) == TABLE_HEAD@ + provider_name
            &&& text.skip(text.len() - TABLE_LIST_BODY@.len()) == TABLE_LIST_BODY@
            &&& contains(text, table_def_part(provider_pascal, pascal_name, table_name))
            &&& contains(text, table_description_part(description))
            &&& contains(text, table_functions_part(provider_pascal, pascal_name, columns))
        }),
{
    let text = table_go_text(
        provider_name,
        provider_pascal,
        table_name,
        pascal_name,
        description,
        columns,
    );
    let funcs = table_functions_part(provider_pascal, pascal_name, columns);
    let front = TABLE_HEAD@ + provider_name + table_def_part(provider_pascal, pascal_name, table_name)
        + table_description_part(description);
    lemma_concat_parts(
        TABLE_HEAD@ + provider_name,
        table_def_part(provider_pascal, pascal_name, table_name),
        table_description_part(description),
        funcs,
    );
    lemma_ends_with(front, table_functions_head(provider_pascal, pascal_name, columns), TABLE_LIST_BODY@);
}

/// A text built as `front + (middle + last)` ends with `last`.
proof fn lemma_ends_with(front: Seq<char>, middle: Seq<char>, last: Seq<char>)
    ensures
        (front + (middle + last)).skip((front + (middle + last)).len() - last.len()) == last,
{
    assert((front + (middle + last)).skip((front + (middle + last)).len() - last.len()) =~= last);
}

/// The test stub calls `table{P}{N}()` and checks for the table's name.
#[verifier::spinoff_prover]
pub proof fn lemma_test_go_text_parts(
    provider_name: Seq<char>,
    provider_pascal: Seq<char>,
    table_name: Seq<char>,
    pascal_name: Seq<char>,
)
    ensures
        contains(
            test_go_text(provider_name, provider_pascal, table_name, pascal_name),
            TEST_SIGNATURE@ + provider_pascal + pascal_name + TEST_NIL_CHECK@,
        ),
        contains(
            test_go_text(provider_name, provider_pascal, table_name, pascal_name),
            TEST_NAME_CHECK@ + table_name + TEST_NAME_ERROR@,
        ),
{
    let text = test_go_text(provider_name, provider_pascal, table_name, pascal_name);
    let a = TABLE_HEAD@ + provider_name + TEST_IMPORTS@ + provider_pascal + pascal_name;
    let s1 = TEST_SIGNATURE@ + provider_pascal + pascal_name + TEST_NIL_CHECK@;
    let b = provider_pascal + pascal_name + TEST_NAME_CHECK@ + table_name + TEST_NAME_ERROR@
        + table_name + TEST_END@;
    assert(text =~= a + s1 + b);
    lemma_contains_middle(a, s1, b);
    let c = TABLE_HEAD@ + provider_name + TEST_IMPORTS@ + provider_pascal + pascal_name
        + TEST_SIGNATURE@ + provider_pascal + pascal_name + TEST_NIL_CHECK@ + provider_pascal
        + pascal_name;
    let s2 = TEST_NAME_CHECK@ + table_name + TEST_NAME_ERROR@;
    let d = table_name + TEST_END@;
    assert(text =~= c + s2 + d);
    lemma_contains_middle(c, s2, d);
}

/// The files generated for one resource refer to each other by the same
/// names: its table file defines `table{P}{N}` registering the table name,
/// `plugin.go` maps that table name to `table{P}{N}()`, and its test stub
/// calls `table{P}{N}()` and checks for that table name.
#[verifier::spinoff_prover]
pub proof fn lemma_generated_files_agree(
    provider: IacProvider,
    resource: IacResource,
    resources: Seq<IacResource>,
    data_sources: Seq<IacDataSource>,
    k: int,
)
    requires
        0 <= k < resources.len(),
        resources[k] == resource,
    ensures
        ({
            let p = provider.name@;
            let e = resource.name@;
            let pp = pascal_case(p);
            let pn = pascal_case(e);
            let tn = table_name_of(p, e);
            &&& contains(
                table_file_text(p, e, resource.description@, resource.attributes@),
                table_def_part(pp, pn, tn),
            )
            &&& contains(
                plugin_file_text(p, resources, data_sources),
                MAP_ENTRY_HEAD@ + tn + MAP_ENTRY_TABLE@ + pp + pn + MAP_ENTRY_END@,
            )
            &&& contains(test_file_text(p, e), TEST_SIGNATURE@ + pp + pn + TEST_NIL_CHECK@)
            &&& contains(test_file_text(p, e), TEST_NAME_CHECK@ + tn + TEST_NAME_ERROR@)
        }),
{
    let p = provider.name@;
    let e = resource.name@;
    lemma_table_go_text_parts(
        p,
        pascal_case(p),
        table_name_of(p, e),
        pascal_case(e),
        table_description(p, e, resource.description@),
        columns_text(resource.attributes@),
    );
    lemma_plugin_registers_every_table(p, resources, data_sources);
    assert(contains(plugin_file_text(p, resources, data_sources), entity_map_entry(p, resources[k].name@)));
    lemma_test_go_text_parts(p, pascal_case(p), table_name_of(p, e), pascal_case(e));
}

/// A table file carries its entity's own description, escaped, as the
/// whole `Description` field whenever that description is not empty, and
/// the default `"{P} {N} table"` when it is.
#[verifier::spinoff_prover]
pub proof fn lemma_table_file_description(
    provider: Seq<char>,
    entity: Seq<char>,
    description: Seq<char>,
    attrs: Seq<IacAttribute>,
)
    ensures
        description.len() > 0 ==> contains(
            table_file_text(provider, entity, description, attrs),
            TABLE_DESCRIPTION_FIELD@ + escape(description) + TABLE_LIST_FIELD@,
        ),
        description.len() == 0 ==> contains(
            table_file_text(provider, entity, description, attrs),
            TABLE_DESCRIPTION_FIELD@ + escape(
                pascal_case(provider) + seq![' '] + pascal_case(entity) + " table"@,
            ) + TABLE_LIST_FIELD@,
        ),
{
    let pp = pascal_case(provider);
    let pn = pascal_case(entity);
    let tn = table_name_of(provider, entity);
    let d = table_description(provider, entity, description);
    let head = TABLE_HEAD@ + provider + table_def_part(pp, pn, tn);
    let mid = TABLE_DESCRIPTION_FIELD@ + escape(d) + TABLE_LIST_FIELD@;
    let tail = table_functions_part(pp, pn, columns_text(attrs)).skip(TABLE_LIST_FIELD@.len() as int);
    assert(table_functions_part(pp, pn, columns_text(attrs)) =~= TABLE_LIST_FIELD@ + tail);
    assert(table_file_text(provider, entity, description, attrs) =~= head + mid + tail);
    lemma_contains_middle(head, mid, tail);
}

/// The `TableMap` block of `plugin.go` holds exactly one line per table,
/// in order: the resources' lines, then the data sources' lines, and
/// nothing else.
#[verifier::spinoff_prover]
pub proof fn lemma_plugin_table_map_exact(
    provider: Seq<char>,
    resources: Seq<IacResource>,
    data_sources: Seq<IacDataSource>,
)
    ensures
        ({
            let nr = resources.len() as int;
            let lines = Seq::new(
                (resources.len() + data_sources.len()) as nat,
                |i: int|
                    if i < nr {
                        entity_map_entry(provider, resources[i].name@)
                    } else {
                        entity_map_entry(provider, data_sources[i - nr].name@)
                    },
            );
            plugin_file_text(provider, resources, data_sources) == TABLE_HEAD@ + provider
                + PLUGIN_IMPORTS@ + PLUGIN_NAME_PREFIX@ + provider + PLUGIN_TABLE_MAP@ + join_lines(
                lines,
            ) + PLUGIN_END@
        }),
{
    let nr = resources.len() as int;
    let lines = Seq::new(
        (resources.len() + data_sources.len()) as nat,
        |i: int|
            if i < nr {
                entity_map_entry(provider, resources[i].name@)
            } else {
                entity_map_entry(provider, data_sources[i - nr].name@)
            },
    );
    lemma_plugin_entries(provider, resources, data_sources);
    let entries = plugin_entries(provider, resources, data_sources);
    assert forall|i: int| 0 <= i < lines.len() implies entries[i] == lines[i] by {
        if i >= nr {
            assert(entries[nr + (i - nr)] == entity_map_entry(provider, data_sources[i - nr].name@));
        }
    }
    assert(entries =~= lines);
}

} // verus!
