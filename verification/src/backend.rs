//! The Steampipe backend: artifact paths, naming convention, and the
//! artifacts generated for resources, data sources and the provider.
use vstd::prelude::*;
use crate::model::{ArtifactKind, GeneratedArtifact, IacDataSource, IacProvider, IacResource};
use crate::naming::{lemma_snake_case_concat, lemma_snake_case_idempotent, snake_case, to_snake_case};
use crate::table_gen::{
    generate_data_source_table_file, generate_plugin_file, generate_table_file,
    generate_test_file, plugin_file_text, table_file_text, table_name_of, test_file_text,
};

verus! {

/// Steampipe backend -- generates Go table definitions.
#[derive(Debug, Copy, Clone)]
pub struct SteampipeBackend;

impl Default for SteampipeBackend {
    fn default() -> (res: SteampipeBackend)
        ensures
            res == SteampipeBackend,
    {
        SteampipeBackend
    }
}

pub const PLATFORM: &'static str = "steampipe";

pub const PATH_PREFIX: &'static str = "table_";

pub const GO_SUFFIX: &'static str = ".go";

pub const TEST_GO_SUFFIX: &'static str = "_test.go";

pub const PLUGIN_FILE: &'static str = "plugin.go";

pub const WARNING_HEAD: &'static str = "resource '";

pub const WARNING_TAIL: &'static str = "' has no attributes -- table will have no columns";

/// `table_{provider}_{snake_case(entity)}` followed by `_test.go` for a
/// test file and by `.go` for any other kind.
pub open spec fn table_path_text(provider: Seq<char>, entity: Seq<char>, kind: ArtifactKind) -> Seq<char> {
    let stem = PATH_PREFIX@ + provider + seq!['_'] + snake_case(entity);
    if kind == ArtifactKind::Test {
        stem + TEST_GO_SUFFIX@
    } else {
        stem + GO_SUFFIX@
    }
}

/// Build the artifact path for a table-style file.
///
/// Encodes the shared `table_{provider}_{resource}[_test].go` pattern
/// of resource, data source and test artifacts.
pub fn table_path(provider: &IacProvider, entity_name: &str, kind: &ArtifactKind) -> (res: String)
    ensures
        res@ == table_path_text(provider.name@, entity_name@, *kind),
{
    let snake = to_snake_case(entity_name);
    let mut out = String::new();
    out.append(PATH_PREFIX);
    out.append(provider.name.as_str());
    out.push('_');
    out.append(snake.as_str());
    match kind {
        ArtifactKind::Test => out.append(TEST_GO_SUFFIX),
        _ => out.append(GO_SUFFIX),
    }
    assert(out@ =~= table_path_text(provider.name@, entity_name@, *kind));
    out
}

/// The warnings for a resource: one when it has no attributes, none otherwise.
pub open spec fn resource_warnings(resource: IacResource) -> Seq<Seq<char>> {
    if resource.attributes@.len() == 0 {
        seq![WARNING_HEAD@ + resource.name@ + WARNING_TAIL@]
    } else {
        Seq::empty()
    }
}

impl SteampipeBackend {
    /// Platform identifier.
    pub fn platform(&self) -> (res: &'static str)
        ensures
            res@ == PLATFORM@,
    {
        PLATFORM
    }

    /// The platform identifier, as an owned string.
    pub fn to_string(&self) -> (res: String)
        ensures
            res@ == PLATFORM@,
    {
        PLATFORM.to_owned()
    }

    /// The naming convention of the platform.
    pub fn naming(&self) -> (res: SteampipeNaming)
        ensures
            res == SteampipeNaming,
    {
        SteampipeNaming
    }

    /// The table file of a resource.
    pub fn generate_resource(&self, resource: &IacResource, provider: &IacProvider) -> (res: Vec<
        GeneratedArtifact,
    >)
        ensures
            res@.len() == 1,
            res@[0].path@ == table_path_text(provider.name@, resource.name@, ArtifactKind::Resource),
            res@[0].content@ == table_file_text(
                provider.name@,
                resource.name@,
                resource.description@,
                resource.attributes@,
            ),
            res@[0].kind == ArtifactKind::Resource,
    {
        let artifact = GeneratedArtifact {
            path: table_path(provider, resource.name.as_str(), &ArtifactKind::Resource),
            content: generate_table_file(resource, provider),
            kind: ArtifactKind::Resource,
        };
        let mut out = Vec::new();
        out.push(artifact);
        out
    }

    /// The table file of a data source.
    pub fn generate_data_source(&self, ds: &IacDataSource, provider: &IacProvider) -> (res: Vec<
        GeneratedArtifact,
    >)
        ensures
            res@.len() == 1,
            res@[0].path@ == table_path_text(provider.name@, ds.name@, ArtifactKind::DataSource),
            res@[0].content@ == table_file_text(
                provider.name@,
                ds.name@,
                ds.description@,
                ds.attributes@,
            ),
            res@[0].kind == ArtifactKind::DataSource,
    {
        let artifact = GeneratedArtifact {
            path: table_path(provider, ds.name.as_str(), &ArtifactKind::DataSource),
            content: generate_data_source_table_file(ds, provider),
            kind: ArtifactKind::DataSource,
        };
        let mut out = Vec::new();
        out.push(artifact);
        out
    }

    /// `plugin.go`, registering every table of the provider.
    pub fn generate_provider(
        &self,
        provider: &IacProvider,
        resources: &[IacResource],
        data_sources: &[IacDataSource],
    ) -> (res: Vec<GeneratedArtifact>)
        ensures
            res@.len() == 1,
            res@[0].path@ == PLUGIN_FILE@,
            res@[0].content@ == plugin_file_text(provider.name@, resources@, data_sources@),
            res@[0].kind == ArtifactKind::Provider,
    {
        let artifact = GeneratedArtifact {
            path: PLUGIN_FILE.to_owned(),
            content: generate_plugin_file(provider, resources, data_sources),
            kind: ArtifactKind::Provider,
        };
        let mut out = Vec::new();
        out.push(artifact);
        out
    }

    /// The Go test stub of a resource table.
    pub fn generate_test(&self, resource: &IacResource, provider: &IacProvider) -> (res: Vec<
        GeneratedArtifact,
    >)
        ensures
            res@.len() == 1,
            res@[0].path@ == table_path_text(provider.name@, resource.name@, ArtifactKind::Test),
            res@[0].content@ == test_file_text(provider.name@, resource.name@),
            res@[0].kind == ArtifactKind::Test,
    {
        let artifact = GeneratedArtifact {
            path: table_path(provider, resource.name.as_str(), &ArtifactKind::Test),
            content: generate_test_file(resource, provider),
            kind: ArtifactKind::Test,
        };
        let mut out = Vec::new();
        out.push(artifact);
        out
    }

    /// Validate a resource before generation: a resource without
    /// attributes would give a table without columns.
    pub fn validate_resource(&self, resource: &IacResource, provider: &IacProvider) -> (res: Vec<
        String,
    >)
        ensures
            res@.len() == resource_warnings(*resource).len(),
            forall|i: int| 0 <= i < res@.len() ==> res@[i]@ == resource_warnings(*resource)[i],
    {
        let mut out: Vec<String> = Vec::new();
        if resource.attributes.len() == 0 {
            let mut warning = String::new();
            warning.append(WARNING_HEAD);
            warning.append(resource.name.as_str());
            warning.append(WARNING_TAIL);
            out.push(warning);
        }
        out
    }
}

/// Naming convention for Steampipe plugin tables.
#[derive(Debug, Copy, Clone)]
pub struct SteampipeNaming;

/// The platform type name of a resource: `{provider}_{snake_case(resource)}`.
pub open spec fn resource_type_name_text(resource: Seq<char>, provider: Seq<char>) -> Seq<char> {
    provider + seq!['_'] + snake_case(resource)
}

/// The output file name of an artifact: `table_{name}.go` for resources and
/// data sources, `table_{name}_test.go` for tests, `plugin.go` for the
/// provider and `{name}.go` for anything else, where `name` is the
/// `snake_case` of the given name.
pub open spec fn file_name_text(name: Seq<char>, kind: ArtifactKind) -> Seq<char> {
    let snake = snake_case(name);
    match kind {
        ArtifactKind::Resource | ArtifactKind::DataSource => PATH_PREFIX@ + snake + GO_SUFFIX@,
        ArtifactKind::Test => PATH_PREFIX@ + snake + TEST_GO_SUFFIX@,
        ArtifactKind::Provider => PLUGIN_FILE@,
        _ => snake + GO_SUFFIX@,
    }
}

impl SteampipeNaming {
    /// Generate the platform resource type name from a resource name and provider.
    pub fn resource_type_name(&self, resource_name: &str, provider_name: &str) -> (res: String)
        ensures
            res@ == resource_type_name_text(resource_name@, provider_name@),
    {
        let snake = to_snake_case(resource_name);
        let mut out = provider_name.to_owned();
        out.push('_');
        out.append(snake.as_str());
        assert(out@ =~= resource_type_name_text(resource_name@, provider_name@));
        out
    }

    /// Generate the output file name for an artifact.
    pub fn file_name(&self, resource_name: &str, kind: &ArtifactKind) -> (res: String)
        ensures
            res@ == file_name_text(resource_name@, *kind),
    {
        let snake = to_snake_case(resource_name);
        match kind {
            ArtifactKind::Resource | ArtifactKind::DataSource => {
                let mut out = PATH_PREFIX.to_owned();
                out.append(snake.as_str());
                out.append(GO_SUFFIX);
                out
            },
            ArtifactKind::Test => {
                let mut out = PATH_PREFIX.to_owned();
                out.append(snake.as_str());
                out.append(TEST_GO_SUFFIX);
                out
            },
            ArtifactKind::Provider => PLUGIN_FILE.to_owned(),
            _ => {
                let mut out = snake;
                out.append(GO_SUFFIX);
                out
            },
        }
    }

    /// Transform an API field name to the platform's convention (`snake_case`).
    pub fn field_name(&self, api_name: &str) -> (res: String)
        ensures
            res@ == snake_case(api_name@),
    {
        to_snake_case(api_name)
    }
}

/// The naming convention agrees with the artifact paths: for a provider
/// name without hyphens, the file name of an entity's platform type name is
/// the path of the entity's table (or test) artifact.
pub proof fn lemma_file_name_matches_table_path(provider: Seq<char>, entity: Seq<char>, kind: ArtifactKind)
    requires
        forall|i: int| 0 <= i < provider.len() ==> provider[i] != '-',
        kind == ArtifactKind::Resource || kind == ArtifactKind::DataSource || kind
            == ArtifactKind::Test,
    ensures
        file_name_text(resource_type_name_text(entity, provider), kind) == table_path_text(
            provider,
            entity,
            kind,
        ),
{
    let platform_name = resource_type_name_text(entity, provider);
    lemma_snake_case_concat(provider + seq!['_'], snake_case(entity));
    lemma_snake_case_concat(provider, seq!['_']);
    lemma_snake_case_idempotent(provider);
    lemma_snake_case_idempotent(entity);
    assert(snake_case(seq!['_']) =~= seq!['_']);
    assert(snake_case(platform_name) == provider + seq!['_'] + snake_case(entity));
    assert(PATH_PREFIX@ + (provider + seq!['_'] + snake_case(entity)) =~= PATH_PREFIX@ + provider
        + seq!['_'] + snake_case(entity));
}

/// Resource and data source tables follow one path pattern, and the test
/// artifact of a resource sits beside its table file.
pub proof fn lemma_table_paths(provider: Seq<char>, entity: Seq<char>)
    ensures
        table_path_text(provider, entity, ArtifactKind::Resource) == table_path_text(
            provider,
            entity,
            ArtifactKind::DataSource,
        ),
        table_path_text(provider, entity, ArtifactKind::Resource) == PATH_PREFIX@ + provider
            + seq!['_'] + snake_case(entity) + GO_SUFFIX@,
        table_path_text(provider, entity, ArtifactKind::Test) == PATH_PREFIX@ + provider
            + seq!['_'] + snake_case(entity) + TEST_GO_SUFFIX@,
{
}

/// The platform type name of an entity is the name of the table that its
/// generated table file registers.
pub proof fn lemma_resource_type_name_is_table_name(entity: Seq<char>, provider: Seq<char>)
    ensures
        resource_type_name_text(entity, provider) == table_name_of(provider, entity),
{
}

/// A resource gets a warning exactly when it has no attributes, and the
/// warning names the resource.
pub proof fn lemma_warning_iff_no_attributes(resource: IacResource)
    ensures
        resource_warnings(resource).len() == 0 <==> resource.attributes@.len() > 0,
        resource.attributes@.len() == 0 ==> resource_warnings(resource) == seq![
            "resource '"@ + resource.name@ + "' has no attributes -- table will have no columns"@,
        ],
{
}

} // verus!
