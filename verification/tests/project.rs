//! Tests for whole-document assembly: server info, aliases, requests.

use cdd::assemble::{collect_aliases, extract_request, lookup_alias};
use cdd::document::{
    ApiDocument, MediaNode, NamedSchema, OperationNode, ParameterData, ParameterFormat,
    ParameterNode, PathEntry, PathItemNode, PathRecord, Property, ResponseNode, ResponsesNode,
    SchemaNode,
};
use cdd::error::ExtractError;
use cdd::ir::{CustomIterators, Method, Project, VariableType};

fn empty_path_entry() -> PathEntry {
    PathEntry {
        get: None,
        post: None,
        put: None,
        delete: None,
        options: None,
        head: None,
        patch: None,
        trace: None,
    }
}

fn plain_operation() -> OperationNode {
    OperationNode {
        parameters: vec![],
        responses: ResponsesNode { default: None, responses: vec![] },
    }
}

fn doc(
    servers: Vec<&str>,
    components: Option<Vec<NamedSchema>>,
    paths: Vec<PathRecord>,
) -> ApiDocument {
    ApiDocument {
        servers: servers.into_iter().map(|s| s.to_string()).collect(),
        components,
        paths,
    }
}

fn named(name: &str, schema: SchemaNode) -> NamedSchema {
    NamedSchema { name: name.to_string(), schema }
}

#[test]
fn zero_servers_yield_empty_info() {
    let p = Project::parse_yml(doc(vec![], Some(vec![]), vec![])).unwrap();
    assert_eq!(p.info.host, "");
    assert_eq!(p.info.endpoint, "");
}

#[test]
fn server_url_splits_into_host_and_endpoint() {
    let p = Project::parse_yml(doc(
        vec!["https://example.com/api/v1"],
        Some(vec![]),
        vec![],
    ))
    .unwrap();
    assert_eq!(p.info.host, "https://example.com");
    assert_eq!(p.info.endpoint, "/api/v1");
}

#[test]
fn unparsable_server_url_yields_empty_info() {
    let p = Project::parse_yml(doc(vec!["not a url"], Some(vec![]), vec![])).unwrap();
    assert_eq!(p.info.host, "");
    assert_eq!(p.info.endpoint, "");
}

#[test]
fn missing_components_is_fatal() {
    let err = Project::parse_yml(doc(vec![], None, vec![])).unwrap_err();
    assert!(matches!(err, ExtractError::MissingComponents));
}

#[test]
fn get_request_name_and_path() {
    let mut entry = empty_path_entry();
    entry.get = Some(plain_operation());
    let p = Project::parse_yml(doc(
        vec![],
        Some(vec![]),
        vec![PathRecord {
            path: "/users/{id}".to_string(),
            item: PathItemNode::Item(entry),
        }],
    ))
    .unwrap();
    assert_eq!(p.requests.len(), 1);
    let r = &p.requests[0];
    assert_eq!(r.name, "usersidGETrequest");
    assert_eq!(r.path, "/users");
    assert_eq!(r.method, Method::Get_);
    assert_eq!(r.response_type, "ResponceEmpty");
    assert_eq!(r.error_type, "ResponseEmpty");
}

#[test]
fn operations_come_in_fixed_verb_order() {
    let mut entry = empty_path_entry();
    entry.post = Some(plain_operation());
    entry.get = Some(plain_operation());
    entry.delete = Some(plain_operation());
    let p = Project::parse_yml(doc(
        vec![],
        Some(vec![]),
        vec![PathRecord { path: "/things".to_string(), item: PathItemNode::Item(entry) }],
    ))
    .unwrap();
    let methods: Vec<Method> = p.requests.iter().map(|r| r.method).collect();
    assert_eq!(methods, vec![Method::Get_, Method::Post_, Method::Delete_]);
    assert_eq!(p.requests.all_names(), vec![
        "thingsGETrequest".to_string(),
        "thingsPOSTrequest".to_string(),
        "thingsDELETErequest".to_string(),
    ]);
}

#[test]
fn referenced_path_items_are_skipped() {
    let p = Project::parse_yml(doc(
        vec![],
        Some(vec![]),
        vec![PathRecord {
            path: "/skipped".to_string(),
            item: PathItemNode::Ref("#/components/pathItems/x".to_string()),
        }],
    ))
    .unwrap();
    assert!(p.requests.is_empty());
}

#[test]
fn array_alias_rewrites_response_and_drops_model() {
    let widgets = named(
        "Widgets",
        SchemaNode::ArrayKind(Box::new(SchemaNode::Reference(
            "#/components/schemas/Widget".to_string(),
        ))),
    );
    let widget = named(
        "Widget",
        SchemaNode::ObjectKind(vec![], vec![]),
    );
    let mut entry = empty_path_entry();
    entry.get = Some(OperationNode {
        parameters: vec![],
        responses: ResponsesNode {
            default: None,
            responses: vec![ResponseNode::Item(vec![MediaNode {
                schema: Some(SchemaNode::Reference(
                    "#/components/schemas/Widgets".to_string(),
                )),
            }])],
        },
    });
    let p = Project::parse_yml(doc(
        vec![],
        Some(vec![widgets, widget]),
        vec![PathRecord { path: "/widgets/all".to_string(), item: PathItemNode::Item(entry) }],
    ))
    .unwrap();
    assert_eq!(p.models.all_names(), vec!["Widget".to_string()]);
    assert_eq!(p.requests[0].response_type, "[Widget]");
}

#[test]
fn array_schema_without_reference_item_is_not_modeled() {
    let names = named("Numbers", SchemaNode::ArrayKind(Box::new(SchemaNode::IntegerKind)));
    let p = Project::parse_yml(doc(vec![], Some(vec![names]), vec![])).unwrap();
    assert!(p.models.is_empty());
}

#[test]
fn referenced_component_schemas_are_skipped() {
    let r = named("Alias", SchemaNode::Reference("#/components/schemas/Real".to_string()));
    let p = Project::parse_yml(doc(vec![], Some(vec![r]), vec![])).unwrap();
    assert!(p.models.is_empty());
}

#[test]
fn model_extraction_error_aborts_whole_run() {
    let good = named("Good", SchemaNode::ObjectKind(vec![], vec![]));
    let bad = named(
        "Bad",
        SchemaNode::ObjectKind(
            vec![Property { name: "x".to_string(), schema: SchemaNode::OtherKind }],
            vec![],
        ),
    );
    let err = Project::parse_yml(doc(vec![], Some(vec![good, bad]), vec![])).unwrap_err();
    assert!(matches!(err, ExtractError::UnsupportedSchemaKind { .. }));
}

#[test]
fn response_with_schemaless_media_yields_sentinel() {
    let mut entry = empty_path_entry();
    entry.get = Some(OperationNode {
        parameters: vec![],
        responses: ResponsesNode {
            default: None,
            responses: vec![ResponseNode::Item(vec![MediaNode { schema: None }])],
        },
    });
    let p = Project::parse_yml(doc(
        vec![],
        Some(vec![]),
        vec![PathRecord { path: "/x/y".to_string(), item: PathItemNode::Item(entry) }],
    ))
    .unwrap();
    assert_eq!(p.requests[0].response_type, "ResponceEmpty");
}

#[test]
fn declared_default_response_resolves_error_type() {
    let mut entry = empty_path_entry();
    entry.get = Some(OperationNode {
        parameters: vec![],
        responses: ResponsesNode {
            default: Some(ResponseNode::Item(vec![MediaNode {
                schema: Some(SchemaNode::Reference(
                    "#/components/schemas/ApiError".to_string(),
                )),
            }])),
            responses: vec![],
        },
    });
    let p = Project::parse_yml(doc(
        vec![],
        Some(vec![]),
        vec![PathRecord { path: "/x/y".to_string(), item: PathItemNode::Item(entry) }],
    ))
    .unwrap();
    assert_eq!(p.requests[0].error_type, "ApiError");
}

#[test]
fn query_and_path_parameters_become_variables() {
    let params = vec![
        ParameterNode::Query(ParameterData {
            name: "limit".to_string(),
            required: false,
            format: ParameterFormat::Schema(SchemaNode::IntegerKind),
        }),
        ParameterNode::Header(ParameterData {
            name: "x-trace".to_string(),
            required: true,
            format: ParameterFormat::Schema(SchemaNode::StringKind),
        }),
        ParameterNode::Path(ParameterData {
            name: "id".to_string(),
            required: true,
            format: ParameterFormat::Schema(SchemaNode::StringKind),
        }),
        ParameterNode::Ref("#/components/parameters/skip".to_string()),
        ParameterNode::Cookie(ParameterData {
            name: "session".to_string(),
            required: true,
            format: ParameterFormat::Schema(SchemaNode::StringKind),
        }),
    ];
    let mut entry = empty_path_entry();
    entry.get = Some(OperationNode {
        parameters: params,
        responses: ResponsesNode { default: None, responses: vec![] },
    });
    let p = Project::parse_yml(doc(
        vec![],
        Some(vec![]),
        vec![PathRecord { path: "/users/{id}".to_string(), item: PathItemNode::Item(entry) }],
    ))
    .unwrap();
    let vars = &p.requests[0].vars;
    assert_eq!(vars.len(), 2);
    assert_eq!(vars[0].name, "limit");
    assert!(vars[0].optional);
    assert_eq!(vars[0].variable_type, VariableType::IntType);
    assert_eq!(vars[1].name, "id");
    assert!(!vars[1].optional);
    assert_eq!(vars[1].variable_type, VariableType::StringType);
}

#[test]
fn content_parameter_defaults_to_required_string() {
    let v = Project::parse_parameter_data(ParameterData {
        name: "payload".to_string(),
        required: true,
        format: ParameterFormat::Content,
    });
    assert_eq!(v.name, "payload");
    assert!(!v.optional);
    assert_eq!(v.variable_type, VariableType::StringType);
}

#[test]
fn alias_lookup_takes_latest_entry() {
    let schemas = vec![
        named(
            "Dup",
            SchemaNode::ArrayKind(Box::new(SchemaNode::Reference("#/a/First".to_string()))),
        ),
        named(
            "Dup",
            SchemaNode::ArrayKind(Box::new(SchemaNode::Reference("#/a/Second".to_string()))),
        ),
    ];
    let aliases = collect_aliases(&schemas);
    assert_eq!(lookup_alias(&aliases, &"Dup".to_string()), Some("Second".to_string()));
    assert_eq!(lookup_alias(&aliases, &"Missing".to_string()), None);
}

#[test]
fn extract_request_builds_whole_request() {
    let op = OperationNode {
        parameters: vec![],
        responses: ResponsesNode { default: None, responses: vec![] },
    };
    let r = extract_request("/pets/{petId}", &op, Method::Post_, &Vec::new());
    assert_eq!(r.name, "petspetIdPOSTrequest");
    assert_eq!(r.path, "/pets");
    assert_eq!(r.vars.len(), 0);
    assert_eq!(r.response_type, "ResponceEmpty");
    assert_eq!(r.error_type, "ResponseEmpty");
}

#[test]
fn response_reference_resolves_directly() {
    let mut entry = empty_path_entry();
    entry.get = Some(OperationNode {
        parameters: vec![],
        responses: ResponsesNode {
            default: None,
            responses: vec![ResponseNode::Ref("#/components/responses/Pet".to_string())],
        },
    });
    let p = Project::parse_yml(doc(
        vec![],
        Some(vec![]),
        vec![PathRecord { path: "/pets/{id}".to_string(), item: PathItemNode::Item(entry) }],
    ))
    .unwrap();
    assert_eq!(p.requests[0].response_type, "Pet");
}

#[test]
fn models_keep_component_order() {
    let a = named("Alpha", SchemaNode::ObjectKind(vec![], vec![]));
    let b = named("Beta", SchemaNode::StringKind);
    let c = named("Gamma", SchemaNode::ObjectKind(vec![], vec![]));
    let p = Project::parse_yml(doc(vec![], Some(vec![a, b, c]), vec![])).unwrap();
    assert_eq!(
        p.models.all_names(),
        vec!["Alpha".to_string(), "Beta".to_string(), "Gamma".to_string()]
    );
    assert!(p.models[1].vars.is_empty());
    assert_eq!(p.models[0].vars.len(), 1);
}

#[test]
fn alias_substitution_skips_error_type() {
    let widgets = named(
        "Widgets",
        SchemaNode::ArrayKind(Box::new(SchemaNode::Reference(
            "#/components/schemas/Widget".to_string(),
        ))),
    );
    let mut entry = empty_path_entry();
    entry.get = Some(OperationNode {
        parameters: vec![],
        responses: ResponsesNode {
            default: Some(ResponseNode::Ref(
                "#/components/responses/Widgets".to_string(),
            )),
            responses: vec![],
        },
    });
    let p = Project::parse_yml(doc(
        vec![],
        Some(vec![widgets]),
        vec![PathRecord { path: "/w/x".to_string(), item: PathItemNode::Item(entry) }],
    ))
    .unwrap();
    assert_eq!(p.requests[0].error_type, "Widgets");
    assert_eq!(p.requests[0].response_type, "ResponceEmpty");
}

#[test]
fn requests_keep_path_table_order() {
    let mut a = empty_path_entry();
    a.get = Some(plain_operation());
    let mut b = empty_path_entry();
    b.post = Some(plain_operation());
    let p = Project::parse_yml(doc(
        vec![],
        Some(vec![]),
        vec![
            PathRecord { path: "/b/x".to_string(), item: PathItemNode::Item(a) },
            PathRecord { path: "/a/y".to_string(), item: PathItemNode::Item(b) },
        ],
    ))
    .unwrap();
    assert_eq!(
        p.requests.all_names(),
        vec!["bxGETrequest".to_string(), "ayPOSTrequest".to_string()]
    );
}

#[test]
fn path_without_slash_loses_whole_segment() {
    let mut entry = empty_path_entry();
    entry.get = Some(plain_operation());
    let p = Project::parse_yml(doc(
        vec![],
        Some(vec![]),
        vec![PathRecord { path: "users".to_string(), item: PathItemNode::Item(entry) }],
    ))
    .unwrap();
    assert_eq!(p.requests[0].name, "usersGETrequest");
    assert_eq!(p.requests[0].path, "");
}
