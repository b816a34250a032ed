use steampipe_forge::escape::escape_go_string;
use steampipe_forge::naming::lowercase_first;
use steampipe_forge::table_gen::{
    generate_data_source_table_file, generate_plugin_file, generate_table_file,
    generate_test_file, TableNames,
};
use steampipe_forge::{
    iac_type_to_column_type, ColumnType, IacAttribute, IacDataSource, IacProvider, IacResource,
    IacType, TableSource,
};

fn test_provider(name: &str) -> IacProvider {
    IacProvider { name: name.to_string() }
}

fn attribute(name: &str, iac_type: IacType, description: &str) -> IacAttribute {
    IacAttribute {
        canonical_name: name.replace('-', "_"),
        description: description.to_string(),
        iac_type,
    }
}

fn test_resource(name: &str) -> IacResource {
    IacResource {
        name: name.to_string(),
        description: format!("{name} test resource"),
        attributes: vec![
            attribute("name", IacType::String, "The resource name"),
            attribute("value", IacType::String, "The resource value"),
            attribute("tags", IacType::List(Box::new(IacType::String)), "Resource tags"),
        ],
    }
}

fn test_resource_with_type(name: &str, attr_name: &str, iac_type: IacType) -> IacResource {
    IacResource {
        name: name.to_string(),
        description: format!("{name} test resource"),
        attributes: vec![attribute(attr_name, iac_type, "")],
    }
}

fn test_data_source(name: &str) -> IacDataSource {
    IacDataSource {
        name: name.to_string(),
        description: format!("{name} test data source"),
        attributes: vec![
            attribute("name", IacType::String, "The data source name"),
            attribute("value", IacType::String, "The data source value"),
        ],
    }
}

#[test]
fn column_type_string() {
    assert_eq!(iac_type_to_column_type(&IacType::String), "proto.ColumnType_STRING");
}

#[test]
fn column_type_integer() {
    assert_eq!(iac_type_to_column_type(&IacType::Integer), "proto.ColumnType_INT");
}

#[test]
fn column_type_float() {
    assert_eq!(iac_type_to_column_type(&IacType::Float), "proto.ColumnType_DOUBLE");
}

#[test]
fn column_type_boolean() {
    assert_eq!(iac_type_to_column_type(&IacType::Boolean), "proto.ColumnType_BOOL");
}

#[test]
fn column_type_list() {
    assert_eq!(
        iac_type_to_column_type(&IacType::List(Box::new(IacType::String))),
        "proto.ColumnType_JSON"
    );
}

#[test]
fn column_type_set() {
    assert_eq!(
        iac_type_to_column_type(&IacType::SetOf(Box::new(IacType::Integer))),
        "proto.ColumnType_JSON"
    );
}

#[test]
fn column_type_map() {
    assert_eq!(
        iac_type_to_column_type(&IacType::MapOf(Box::new(IacType::String))),
        "proto.ColumnType_JSON"
    );
}

#[test]
fn column_type_object() {
    assert_eq!(
        iac_type_to_column_type(&IacType::Object {
            name: "Cfg".to_string(),
            fields: vec![]
        }),
        "proto.ColumnType_JSON"
    );
}

#[test]
fn column_type_any() {
    assert_eq!(iac_type_to_column_type(&IacType::Any), "proto.ColumnType_JSON");
}

#[test]
fn column_type_enum_string() {
    assert_eq!(
        iac_type_to_column_type(&IacType::Enum {
            values: vec!["a".into()],
            underlying: Box::new(IacType::String),
        }),
        "proto.ColumnType_STRING"
    );
}

#[test]
fn column_type_enum_integer() {
    assert_eq!(
        iac_type_to_column_type(&IacType::Enum {
            values: vec!["1".into()],
            underlying: Box::new(IacType::Integer),
        }),
        "proto.ColumnType_INT"
    );
}

#[test]
fn column_type_newtype_from_iac_type() {
    let ct = ColumnType::from(&IacType::String);
    assert_eq!(ct.as_go_const(), "proto.ColumnType_STRING");

    let ct = ColumnType::from(&IacType::Integer);
    assert_eq!(ct.as_go_const(), "proto.ColumnType_INT");
}

#[test]
fn column_type_display() {
    let ct = ColumnType::from(&IacType::Boolean);
    assert_eq!(ct.to_string(), "proto.ColumnType_BOOL");
}

#[test]
fn column_type_equality() {
    let a = ColumnType::from(&IacType::Float);
    let b = ColumnType::from(&IacType::Float);
    assert_eq!(a, b);

    let c = ColumnType::from(&IacType::String);
    assert_ne!(a, c);
}

#[test]
fn table_names_default_description() {
    let provider = test_provider("acme");
    let names = TableNames::new("static_secret", &provider);
    assert_eq!(names.default_description(), "Acme StaticSecret table");
}

#[test]
fn table_source_resource_impl() {
    let resource = test_resource("secret");
    let source: &dyn TableSource = &resource;
    assert_eq!(source.name(), "secret");
    assert!(!source.attributes().is_empty());
}

#[test]
fn table_source_data_source_impl() {
    let ds = test_data_source("config");
    let source: &dyn TableSource = &ds;
    assert_eq!(source.name(), "config");
    assert!(!source.attributes().is_empty());
}

#[test]
fn generate_table_file_basic() {
    let provider = test_provider("akeyless");
    let resource = test_resource("secret");

    let code = generate_table_file(&resource, &provider);

    assert!(code.contains("package akeyless"));
    assert!(code.contains("func tableAkeylessSecret()"));
    assert!(code.contains("\"akeyless_secret\""));
    assert!(code.contains("akeylessSecretColumns()"));
    assert!(code.contains("listAkeylessSecret"));
    assert!(code.contains("proto.ColumnType_STRING"));
    assert!(code.contains("\"name\""));
    assert!(code.contains("\"value\""));
    assert!(code.contains("\"tags\""));
    // tags is List(String) -> JSON
    assert!(code.contains("proto.ColumnType_JSON"));
}

#[test]
fn generate_table_file_boolean_type() {
    let provider = test_provider("acme");
    let resource = test_resource_with_type("flag", "enabled", IacType::Boolean);

    let code = generate_table_file(&resource, &provider);

    assert!(code.contains("package acme"));
    assert!(code.contains("func tableAcmeFlag()"));
    assert!(code.contains("proto.ColumnType_BOOL"));
    assert!(code.contains("\"enabled\""));
}

#[test]
fn generate_table_file_integer_type() {
    let provider = test_provider("acme");
    let resource = test_resource_with_type("counter", "count", IacType::Integer);

    let code = generate_table_file(&resource, &provider);

    assert!(code.contains("proto.ColumnType_INT"));
}

#[test]
fn generate_table_file_float_type() {
    let provider = test_provider("acme");
    let resource = test_resource_with_type("metric", "score", IacType::Float);

    let code = generate_table_file(&resource, &provider);

    assert!(code.contains("proto.ColumnType_DOUBLE"));
}

#[test]
fn generate_table_file_map_type() {
    let provider = test_provider("acme");
    let resource = test_resource_with_type(
        "config",
        "settings",
        IacType::MapOf(Box::new(IacType::String)),
    );

    let code = generate_table_file(&resource, &provider);

    assert!(code.contains("proto.ColumnType_JSON"));
}

#[test]
fn generate_plugin_file_basic() {
    let provider = test_provider("akeyless");
    let resources = vec![
        test_resource("secret"),
        test_resource_with_type("role", "name", IacType::String),
    ];

    let code = generate_plugin_file(&provider, &resources, &[]);

    assert!(code.contains("package akeyless"));
    assert!(code.contains("\"steampipe-plugin-akeyless\""));
    assert!(code.contains("\"akeyless_secret\": tableAkeylessSecret()"));
    assert!(code.contains("\"akeyless_role\": tableAkeylessRole()"));
    assert!(code.contains("func Plugin(ctx context.Context) *plugin.Plugin"));
}

#[test]
fn generate_plugin_file_with_data_sources() {
    let provider = test_provider("acme");
    let resources = vec![test_resource("widget")];
    let data_sources = vec![test_data_source("config")];

    let code = generate_plugin_file(&provider, &resources, &data_sources);

    assert!(code.contains("\"acme_widget\": tableAcmeWidget()"));
    assert!(code.contains("\"acme_config\": tableAcmeConfig()"));
}

#[test]
fn generate_plugin_file_empty() {
    let provider = test_provider("empty");
    let code = generate_plugin_file(&provider, &[], &[]);

    assert!(code.contains("\"steampipe-plugin-empty\""));
    assert!(code.contains("TableMap: map[string]*plugin.Table{"));
}

#[test]
fn generate_test_file_basic() {
    let provider = test_provider("akeyless");
    let resource = test_resource("secret");

    let code = generate_test_file(&resource, &provider);

    assert!(code.contains("package akeyless"));
    assert!(code.contains("func TestTableAkeylessSecret(t *testing.T)"));
    assert!(code.contains("tableAkeylessSecret()"));
    assert!(code.contains("\"akeyless_secret\""));
}

#[test]
fn generate_data_source_table_file_basic() {
    let provider = test_provider("acme");
    let ds = test_data_source("config");

    let code = generate_data_source_table_file(&ds, &provider);

    assert!(code.contains("package acme"));
    assert!(code.contains("func tableAcmeConfig()"));
    assert!(code.contains("\"acme_config\""));
    assert!(code.contains("acmeConfigColumns()"));
    assert!(code.contains("listAcmeConfig"));
}

#[test]
fn pascal_case_naming_in_table() {
    let provider = test_provider("akeyless");
    let resource = test_resource_with_type("static_secret", "name", IacType::String);

    let code = generate_table_file(&resource, &provider);

    assert!(code.contains("func tableAkeylessStaticSecret()"));
    assert!(code.contains("akeylessStaticSecretColumns()"));
    assert!(code.contains("listAkeylessStaticSecret"));
}

#[test]
fn escape_go_string_quotes() {
    assert_eq!(escape_go_string(r#"has "quotes""#), r#"has \"quotes\""#);
}

#[test]
fn escape_go_string_newlines() {
    assert_eq!(escape_go_string("line1\nline2"), "line1\\nline2");
}

#[test]
fn escape_go_string_backslash() {
    assert_eq!(escape_go_string(r"back\slash"), r"back\\slash");
}

#[test]
fn escape_go_string_tabs() {
    assert_eq!(escape_go_string("col1\tcol2"), "col1\\tcol2");
}

#[test]
fn escape_go_string_combined() {
    assert_eq!(
        escape_go_string("line1\nhas \"quotes\" and\ttabs\\end"),
        r#"line1\nhas \"quotes\" and\ttabs\\end"#
    );
}

#[test]
fn escape_go_string_empty() {
    assert_eq!(escape_go_string(""), "");
}

#[test]
fn escape_go_string_no_special_chars() {
    assert_eq!(escape_go_string("plain text"), "plain text");
}

#[test]
fn lowercase_first_basic() {
    assert_eq!(lowercase_first("Akeyless"), "akeyless");
    assert_eq!(lowercase_first("ABC"), "aBC");
    assert_eq!(lowercase_first(""), "");
}

#[test]
fn lowercase_first_already_lower() {
    assert_eq!(lowercase_first("already"), "already");
}

#[test]
fn lowercase_first_single_char() {
    assert_eq!(lowercase_first("X"), "x");
}

#[test]
fn generate_table_with_all_types() {
    let provider = test_provider("acme");
    let mut resource = test_resource("all_types");

    resource.attributes = vec![
        attribute("str_field", IacType::String, ""),
        attribute("int_field", IacType::Integer, ""),
        attribute("float_field", IacType::Float, ""),
        attribute("bool_field", IacType::Boolean, ""),
        attribute("list_field", IacType::List(Box::new(IacType::String)), ""),
        attribute("set_field", IacType::SetOf(Box::new(IacType::Integer)), ""),
        attribute("map_field", IacType::MapOf(Box::new(IacType::String)), ""),
        attribute(
            "obj_field",
            IacType::Object {
                name: "Config".to_string(),
                fields: vec![],
            },
            "",
        ),
        attribute(
            "enum_field",
            IacType::Enum {
                values: vec!["a".into(), "b".into()],
                underlying: Box::new(IacType::String),
            },
            "",
        ),
        attribute("any_field", IacType::Any, ""),
    ];

    let code = generate_table_file(&resource, &provider);

    assert!(code.contains("\"str_field\""));
    assert!(code.contains("\"int_field\""));
    assert!(code.contains("\"float_field\""));
    assert!(code.contains("\"bool_field\""));
    assert!(code.contains("\"list_field\""));
    assert!(code.contains("\"set_field\""));
    assert!(code.contains("\"map_field\""));
    assert!(code.contains("\"obj_field\""));
    assert!(code.contains("\"enum_field\""));
    assert!(code.contains("\"any_field\""));

    // Verify correct type mappings
    assert!(code.contains("proto.ColumnType_STRING"));
    assert!(code.contains("proto.ColumnType_INT"));
    assert!(code.contains("proto.ColumnType_DOUBLE"));
    assert!(code.contains("proto.ColumnType_BOOL"));
    assert!(code.contains("proto.ColumnType_JSON"));
}

#[test]
fn generate_table_empty_attributes() {
    let provider = test_provider("acme");
    let mut resource = test_resource("empty");
    resource.attributes = vec![];

    let code = generate_table_file(&resource, &provider);

    assert!(code.contains("func tableAcmeEmpty()"));
    assert!(code.contains("return []*plugin.Column{"));
}

#[test]
fn generate_table_file_custom_description() {
    let provider = test_provider("acme");
    let mut resource = test_resource_with_type("widget", "name", IacType::String);
    resource.description = "Custom widget description with \"quotes\"".to_string();

    let code = generate_table_file(&resource, &provider);

    assert!(code.contains(r#"Description: "Custom widget description with \"quotes\"""#));
}

#[test]
fn generate_data_source_custom_description() {
    let provider = test_provider("acme");
    let mut ds = test_data_source("config");
    ds.description = "Custom config data source".to_string();

    let code = generate_data_source_table_file(&ds, &provider);

    assert!(code.contains(r#"Description: "Custom config data source""#));
}

#[test]
fn generate_columns_with_custom_attr_description() {
    let provider = test_provider("acme");
    let mut resource = test_resource("widget");
    resource.attributes = vec![
        attribute("id", IacType::String, "Unique identifier for the widget"),
    ];

    let code = generate_table_file(&resource, &provider);

    assert!(code.contains(r#"Description: "Unique identifier for the widget""#));
}

#[test]
fn generate_columns_default_attr_description() {
    let provider = test_provider("acme");
    let mut resource = test_resource("widget");
    resource.attributes = vec![
        attribute("count", IacType::Integer, ""),
    ];

    let code = generate_table_file(&resource, &provider);

    assert!(code.contains(r#"Description: "The count field.""#));
}

#[test]
fn generate_test_file_multi_word_resource() {
    let provider = test_provider("akeyless");
    let resource = test_resource_with_type("static_secret", "name", IacType::String);

    let code = generate_test_file(&resource, &provider);

    assert!(code.contains("func TestTableAkeylessStaticSecret(t *testing.T)"));
    assert!(code.contains("tableAkeylessStaticSecret()"));
    assert!(code.contains("\"akeyless_static_secret\""));
}

#[test]
fn generate_data_source_table_matches_resource_structure() {
    let provider = test_provider("acme");
    let ds = test_data_source("config");
    let code = generate_data_source_table_file(&ds, &provider);

    assert!(code.contains("import ("));
    assert!(code.contains("\"github.com/turbot/steampipe-plugin-sdk/v5/grpc/proto\""));
    assert!(code.contains("\"github.com/turbot/steampipe-plugin-sdk/v5/plugin\""));
    assert!(code.contains("*plugin.Table"));
    assert!(code.contains("*plugin.Column"));
}

#[test]
fn generate_plugin_file_only_data_sources() {
    let provider = test_provider("acme");
    let data_sources = vec![
        test_data_source("users"),
        test_data_source("groups"),
    ];

    let code = generate_plugin_file(&provider, &[], &data_sources);

    assert!(code.contains("\"acme_users\": tableAcmeUsers()"));
    assert!(code.contains("\"acme_groups\": tableAcmeGroups()"));
    assert!(!code.contains("tableAcme()"));
}

#[test]
fn generate_plugin_multiple_resources_ordered() {
    let provider = test_provider("akeyless");
    let resources = vec![
        test_resource("auth_method"),
        test_resource("gateway"),
        test_resource("item"),
        test_resource("role"),
        test_resource("target"),
    ];

    let code = generate_plugin_file(&provider, &resources, &[]);

    assert!(code.contains("\"akeyless_auth_method\": tableAkeylessAuthMethod()"));
    assert!(code.contains("\"akeyless_gateway\": tableAkeylessGateway()"));
    assert!(code.contains("\"akeyless_item\": tableAkeylessItem()"));
    assert!(code.contains("\"akeyless_role\": tableAkeylessRole()"));
    assert!(code.contains("\"akeyless_target\": tableAkeylessTarget()"));
}
