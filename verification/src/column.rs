//! Steampipe column types.
use vstd::prelude::*;
use crate::model::IacType;

verus! {

/// The Go `proto.ColumnType_*` constant that a column of the given type
/// has: enums take the column type of their underlying type, scalars their
/// own, and every composite or untyped value is stored as JSON.
pub open spec fn go_column_const(t: IacType) -> &'static str
    decreases t,
{
    match t {
        IacType::String => "proto.ColumnType_STRING",
        IacType::Integer => "proto.ColumnType_INT",
        IacType::Float => "proto.ColumnType_DOUBLE",
        IacType::Numeric => "proto.ColumnType_DOUBLE",
        IacType::Boolean => "proto.ColumnType_BOOL",
        IacType::Enum { underlying, .. } => go_column_const(*underlying),
        _ => "proto.ColumnType_JSON",
    }
}

/// Steampipe column type mapped from the IR type system: wraps the Go
/// `proto.ColumnType_*` constant.
#[derive(Debug, Clone, Copy, PartialEq, Eq)]
pub struct ColumnType(&'static str);

impl ColumnType {
    /// The Go constant that this column type stands for.
    pub closed spec fn go_const(self) -> &'static str {
        self.0
    }

    /// A column type is determined by its Go constant.
    pub proof fn lemma_go_const_determines(a: ColumnType, b: ColumnType)
        ensures
            a.go_const() == b.go_const() <==> a == b,
    {
    }

    /// The underlying Go constant string (e.g. `"proto.ColumnType_STRING"`).
    pub fn as_go_const(self) -> (res: &'static str)
        ensures
            res == self.go_const(),
    {
        self.0
    }

    /// The column type of an attribute of type `t`.
    pub fn from_iac_type(t: &IacType) -> (res: ColumnType)
        ensures
            res.go_const() == go_column_const(*t),
        decreases t,
    {
        match t {
            IacType::String => ColumnType("proto.ColumnType_STRING"),
            IacType::Integer => ColumnType("proto.ColumnType_INT"),
            IacType::Float => ColumnType("proto.ColumnType_DOUBLE"),
            IacType::Numeric => ColumnType("proto.ColumnType_DOUBLE"),
            IacType::Boolean => ColumnType("proto.ColumnType_BOOL"),
            IacType::Enum { underlying, .. } => ColumnType::from_iac_type(&**underlying),
            IacType::List(_) | IacType::SetOf(_) | IacType::MapOf(_) | IacType::Object { .. }
            | IacType::Any => ColumnType("proto.ColumnType_JSON"),
        }
    }

    /// The Go constant, as an owned string.
    pub fn to_string(&self) -> (res: String)
        ensures
            res@ == self.go_const()@,
    {
        self.0.to_owned()
    }
}

impl<'a> From<&'a IacType> for ColumnType {
    fn from(t: &'a IacType) -> (res: ColumnType)
        ensures
            res.go_const() == go_column_const(*t),
    {
        ColumnType::from_iac_type(t)
    }
}

impl<'a> vstd::std_specs::convert::FromSpecImpl<&'a IacType> for ColumnType {
    open spec fn obeys_from_spec() -> bool {
        true
    }

    closed spec fn from_spec(t: &'a IacType) -> ColumnType {
        ColumnType(go_column_const(*t))
    }
}

/// Map an `IacType` to the Steampipe `proto.ColumnType_*` constant.
pub fn iac_type_to_column_type(iac_type: &IacType) -> (res: &'static str)
    ensures
        res == go_column_const(*iac_type),
{
    ColumnType::from(iac_type).as_go_const()
}

/// Every column gets one of the five Steampipe column types, and an enum
/// column has the type of its underlying type.
pub proof fn lemma_column_const_range(t: IacType)
    ensures
        go_column_const(t) == "proto.ColumnType_STRING" || go_column_const(t)
            == "proto.ColumnType_INT" || go_column_const(t) == "proto.ColumnType_DOUBLE"
            || go_column_const(t) == "proto.ColumnType_BOOL" || go_column_const(t)
            == "proto.ColumnType_JSON",
        t matches IacType::Enum { underlying, .. } ==> go_column_const(t) == go_column_const(
            *underlying,
        ),
    decreases t,
{
    if let IacType::Enum { underlying, .. } = t {
        lemma_column_const_range(*underlying);
    }
}

/// Each type's column: strings are STRING, integers INT, floats and
/// numbers DOUBLE, booleans BOOL, and every composite or untyped value
/// (lists, sets, maps, objects whatever their fields, `Any`) is JSON.
pub proof fn lemma_column_of_each_type(t: IacType)
    ensures
        t is String ==> go_column_const(t) == "proto.ColumnType_STRING",
        t is Integer ==> go_column_const(t) == "proto.ColumnType_INT",
        t is Float ==> go_column_const(t) == "proto.ColumnType_DOUBLE",
        t is Numeric ==> go_column_const(t) == "proto.ColumnType_DOUBLE",
        t is Boolean ==> go_column_const(t) == "proto.ColumnType_BOOL",
        t is List ==> go_column_const(t) == "proto.ColumnType_JSON",
        t is SetOf ==> go_column_const(t) == "proto.ColumnType_JSON",
        t is MapOf ==> go_column_const(t) == "proto.ColumnType_JSON",
        t is Object ==> go_column_const(t) == "proto.ColumnType_JSON",
        t is Any ==> go_column_const(t) == "proto.ColumnType_JSON",
{
}

} // verus!
