//! The description of a provider that the generators read: resources and
//! data sources with their attributes, and the artifacts produced from them.
use vstd::prelude::*;

verus! {

/// Platform-independent type of an attribute.
#[derive(Debug, PartialEq, Eq)]
pub enum IacType {
    String,
    Integer,
    Float,
    /// A number that may be integral or fractional.
    Numeric,
    Boolean,
    List(Box<IacType>),
    /// A set of values.
    SetOf(Box<IacType>),
    /// A string-keyed map.
    MapOf(Box<IacType>),
    Object { name: String, fields: Vec<IacAttribute> },
    /// Enum constraint wrapping an underlying type.
    Enum { values: Vec<String>, underlying: Box<IacType> },
    Any,
}

/// One attribute of a resource or data source.
#[derive(Debug, PartialEq, Eq)]
pub struct IacAttribute {
    /// Name of the attribute in `snake_case`, used as the column name.
    pub canonical_name: String,
    /// Human-readable description; may be empty.
    pub description: String,
    pub iac_type: IacType,
}

/// A managed resource.
#[derive(Debug, PartialEq, Eq)]
pub struct IacResource {
    pub name: String,
    pub description: String,
    pub attributes: Vec<IacAttribute>,
}

/// A read-only data source.
#[derive(Debug, PartialEq, Eq)]
pub struct IacDataSource {
    pub name: String,
    pub description: String,
    pub attributes: Vec<IacAttribute>,
}

/// The provider that owns the resources and data sources.
#[derive(Debug, PartialEq, Eq)]
pub struct IacProvider {
    pub name: String,
}

/// What a generated file is for.
#[derive(Debug, Clone, Copy, PartialEq, Eq, Structural)]
pub enum ArtifactKind {
    Resource,
    DataSource,
    Provider,
    Test,
    Schema,
    Signature,
    Module,
    Metadata,
    Controller,
    ProviderConfig,
    HelmChart,
}

/// A single generated file.
#[derive(Debug)]
pub struct GeneratedArtifact {
    /// Relative output path of the file.
    pub path: String,
    /// File content.
    pub content: String,
    pub kind: ArtifactKind,
}

/// An entity that maps to one Steampipe table: it has a name, a
/// description and a list of attributes.
pub trait TableSource {
    spec fn source_name(&self) -> Seq<char>;

    spec fn source_description(&self) -> Seq<char>;

    spec fn source_attributes(&self) -> Seq<IacAttribute>;

    fn name(&self) -> (res: &str)
        ensures
            res@ == self.source_name(),
    ;

    fn description(&self) -> (res: &str)
        ensures
            res@ == self.source_description(),
    ;

    fn attributes(&self) -> (res: &[IacAttribute])
        ensures
            res@ == self.source_attributes(),
    ;
}

impl TableSource for IacResource {
    open spec fn source_name(&self) -> Seq<char> {
        self.name@
    }

    open spec fn source_description(&self) -> Seq<char> {
        self.description@
    }

    open spec fn source_attributes(&self) -> Seq<IacAttribute> {
        self.attributes@
    }

    fn name(&self) -> (res: &str) {
        self.name.as_str()
    }

    fn description(&self) -> (res: &str) {
        self.description.as_str()
    }

    fn attributes(&self) -> (res: &[IacAttribute]) {
        self.attributes.as_slice()
    }
}

impl TableSource for IacDataSource {
    open spec fn source_name(&self) -> Seq<char> {
        self.name@
    }

    open spec fn source_description(&self) -> Seq<char> {
        self.description@
    }

    open spec fn source_attributes(&self) -> Seq<IacAttribute> {
        self.attributes@
    }

    fn name(&self) -> (res: &str) {
        self.name.as_str()
    }

    fn description(&self) -> (res: &str) {
        self.description.as_str()
    }

    fn attributes(&self) -> (res: &[IacAttribute]) {
        self.attributes.as_slice()
    }
}

} // verus!
