//! Project assembly: server info from the first declared server URL, the
//! array-alias map, request extraction over the path table, and the
//! two-pass walk over the whole document.

use crate::document::{
    ApiDocument, NamedSchema, OperationNode, ParameterData, ParameterFormat, ParameterNode,
    PathItemNode, PathRecord, ResponseNode, SchemaNode, spec_path_ops,
};
use crate::error::{ErrorV, ExtractError, error_view};
use crate::ir::{
    Info, InfoV, Method, Model, ModelV, Project, Request, RequestV, TypeV, Variable, VariableType,
    VariableV, info_view, method_label, model_view, models_view, request_view, requests_view,
    var_view, vars_view,
};
use crate::resolve::{
    spec_parameter_variable, spec_parse_model, spec_parse_response, spec_resolve_type,
};
use crate::text::{trim_last_segment, remove_separators, split_url_path, without_separators};
use vstd::prelude::*;
use vstd::string::*;

verus! {

/// What parsing a server URL string reads out of it: the scheme, the
/// optional host, and the path, when the string parses as an absolute URL.
pub uninterp spec fn parsed_url_parts(s: Seq<char>) -> Option<
    (Seq<char>, Option<Seq<char>>, Seq<char>),
>;

/// Relies on `url::Url::parse` and its `scheme`, `host_str` and `path`
/// accessors: whether a string parses, and those three parts when it does,
/// depend on the string alone; an empty string has no scheme and never
/// parses as an absolute URL.
#[verifier::external_body]
fn parse_server_url(s: &str) -> (r: Option<(String, Option<String>, String)>)
    ensures
        match r {
            Some(p) => parsed_url_parts(s@) == Some(
                (
                    p.0@,
                    match p.1 {
                        Some(h) => Some(h@),
                        None => None,
                    },
                    p.2@,
                ),
            ),
            None => parsed_url_parts(s@) is None,
        },
        s@.len() == 0 ==> r is None,
{
    match url::Url::parse(s) {
        Ok(u) => {
            let scheme = u.scheme().to_string();
            let host = u.host_str().map(|h| h.to_string());
            let path = u.path().to_string();
            Some((scheme, host, path))
        },
        Err(_) => None,
    }
}

/// The first server URL of the document, or the empty string when no
/// server is declared.
pub open spec fn spec_first_server(servers: Seq<String>) -> Seq<char> {
    if servers.len() == 0 {
        Seq::empty()
    } else {
        servers[0]@
    }
}

/// The server info a parsed server URL yields: `scheme://host` and the
/// URL's path as the endpoint; both fields empty when nothing parsed.
pub open spec fn spec_info(parts: Option<(Seq<char>, Option<Seq<char>>, Seq<char>)>) -> InfoV {
    match parts {
        None => InfoV { host: Seq::empty(), endpoint: Seq::empty() },
        Some(p) => InfoV {
            host: p.0 + "://"@ + (match p.1 {
                Some(h) => h,
                None => Seq::empty(),
            }),
            endpoint: p.2,
        },
    }
}

/// Derives the server info from the first declared server URL; both fields
/// stay empty when no server is declared or its URL does not parse.
fn server_info(servers: &Vec<String>) -> (i: Info)
    ensures
        info_view(i) == spec_info(parsed_url_parts(spec_first_server(servers@))),
        servers@.len() == 0 ==> info_view(i) == (InfoV {
            host: Seq::<char>::empty(),
            endpoint: Seq::<char>::empty(),
        }),
{
    let url: String = if servers.len() > 0 {
        servers[0].clone()
    } else {
        String::new()
    };
    match parse_server_url(url.as_str()) {
        Some(p) => {
            proof {
                reveal_strlit("");
            }
            let (scheme, host_opt, path) = p;
            let host = scheme.concat("://").concat(
                match &host_opt {
                    Some(h) => h.as_str(),
                    None => "",
                },
            );
            Info { host, endpoint: path }
        },
        None => Info { host: String::new(), endpoint: String::new() },
    }
}

/// One recorded array alias: a top-level array schema's name, and the name
/// of the complex type its item resolves to.
pub struct Alias {
    pub name: String,
    pub target: String,
}

/// The mathematical value of an alias list: its name/target pairs.
pub open spec fn alias_views(aliases: Seq<Alias>) -> Seq<(Seq<char>, Seq<char>)> {
    aliases.map_values(|a: Alias| (a.name@, a.target@))
}

/// The alias one named schema records, if any: an array schema whose item
/// type resolves to a complex type maps the schema's name to that type's
/// name.
pub open spec fn spec_alias_of(s: NamedSchema) -> Option<(Seq<char>, Seq<char>)> {
    match s.schema {
        SchemaNode::ArrayKind(item) => match spec_resolve_type(*item) {
            TypeV::ComplexT(t) => Some((s.name@, t)),
            _ => None,
        },
        _ => None,
    }
}

/// The alias map a schema list yields, as ordered name/target pairs.
pub open spec fn spec_aliases(schemas: Seq<NamedSchema>) -> Seq<(Seq<char>, Seq<char>)>
    decreases schemas.len(),
{
    if schemas.len() == 0 {
        Seq::empty()
    } else {
        let rest = spec_aliases(schemas.drop_last());
        match spec_alias_of(schemas.last()) {
            Some(p) => rest.push(p),
            None => rest,
        }
    }
}

/// The target recorded for `key`, the latest entry winning when a name
/// repeats, as it would under map insertion.
pub open spec fn spec_alias_lookup(
    aliases: Seq<(Seq<char>, Seq<char>)>,
    key: Seq<char>,
) -> Option<Seq<char>>
    decreases aliases.len(),
{
    if aliases.len() == 0 {
        None
    } else if aliases.last().0 == key {
        Some(aliases.last().1)
    } else {
        spec_alias_lookup(aliases.drop_last(), key)
    }
}

/// Records, for each top-level array schema whose item resolves to a
/// complex type, the schema's name mapped to that type's name, in order.
#[verifier::loop_isolation(false)]
pub fn collect_aliases(schemas: &Vec<NamedSchema>) -> (r: Vec<Alias>)
    ensures
        alias_views(r@) == spec_aliases(schemas@),
{
    let mut r: Vec<Alias> = Vec::new();
    let mut i: usize = 0;
    proof {
        assert(schemas@.take(0) =~= Seq::<NamedSchema>::empty());
        assert(alias_views(r@) =~= Seq::<(Seq<char>, Seq<char>)>::empty());
    }
    while i < schemas.len()
        invariant
            i <= schemas@.len(),
            alias_views(r@) == spec_aliases(schemas@.take(i as int)),
        decreases schemas@.len() - i,
    {
        let ghost pre = schemas@.take(i as int);
        let ghost cur = schemas@.take(i as int + 1);
        proof {
            assert(cur.drop_last() =~= pre);
            assert(cur.last() == schemas@[i as int]);
        }
        match &schemas[i].schema {
            SchemaNode::ArrayKind(item) => {
                let item_type = Project::parse_type(item);
                if let VariableType::ComplexType(target) = item_type {
                    let ghost old_r = r@;
                    r.push(Alias { name: schemas[i].name.clone(), target });
                    proof {
                        assert(alias_views(r@) =~= alias_views(old_r).push(
                            (r@.last().name@, r@.last().target@),
                        ));
                    }
                }
            },
            _ => {},
        }
        i = i + 1;
    }
    proof {
        assert(schemas@.take(schemas@.len() as int) =~= schemas@);
    }
    r
}

/// Looks `key` up in the recorded aliases, the latest entry winning.
#[verifier::loop_isolation(false)]
pub fn lookup_alias(aliases: &Vec<Alias>, key: &String) -> (r: Option<String>)
    ensures
        match r {
            Some(t) => spec_alias_lookup(alias_views(aliases@), key@) == Some(t@),
            None => spec_alias_lookup(alias_views(aliases@), key@) is None,
        },
{
    let mut i: usize = aliases.len();
    proof {
        assert(alias_views(aliases@).take(aliases@.len() as int) =~= alias_views(aliases@));
    }
    while i > 0
        invariant
            i <= aliases@.len(),
            spec_alias_lookup(alias_views(aliases@), key@) == spec_alias_lookup(
                alias_views(aliases@).take(i as int),
                key@,
            ),
        decreases i,
    {
        let ghost cur = alias_views(aliases@).take(i as int);
        proof {
            assert(cur.drop_last() =~= alias_views(aliases@).take(i as int - 1));
            assert(cur.last() == (aliases@[i as int - 1].name@, aliases@[i as int - 1].target@));
        }
        if aliases[i - 1].name == *key {
            return Some(aliases[i - 1].target.clone());
        }
        i = i - 1;
    }
    proof {
        assert(alias_views(aliases@).take(0) =~= Seq::<(Seq<char>, Seq<char>)>::empty());
    }
    None
}

/// The variables an operation's parameter list yields: its query and path
/// parameters, in order; referenced, header and cookie parameters are
/// ignored.
pub open spec fn spec_params(params: Seq<ParameterNode>) -> Seq<VariableV>
    decreases params.len(),
{
    if params.len() == 0 {
        Seq::empty()
    } else {
        let rest = spec_params(params.drop_last());
        match params.last() {
            ParameterNode::Query(d) => rest.push(spec_parameter_variable(d)),
            ParameterNode::Path(d) => rest.push(spec_parameter_variable(d)),
            _ => rest,
        }
    }
}

/// Converts one parameter's data into a variable, borrowing the data.
fn parameter_variable(data: &ParameterData) -> (v: Variable)
    ensures
        var_view(v) == spec_parameter_variable(*data),
{
    match &data.format {
        ParameterFormat::Schema(reference) => {
            let variable_type = Project::parse_type(reference);
            Variable {
                name: data.name.clone(),
                optional: !data.required,
                value: None,
                variable_type,
            }
        },
        ParameterFormat::Content => Variable {
            name: data.name.clone(),
            optional: false,
            value: None,
            variable_type: VariableType::StringType,
        },
    }
}

/// Extracts the variables of an operation's parameter list, in order.
#[verifier::loop_isolation(false)]
fn extract_params(params: &Vec<ParameterNode>) -> (r: Vec<Variable>)
    ensures
        vars_view(r@) == spec_params(params@),
{
    let mut r: Vec<Variable> = Vec::new();
    let mut i: usize = 0;
    proof {
        assert(params@.take(0) =~= Seq::<ParameterNode>::empty());
        assert(vars_view(r@) =~= Seq::<VariableV>::empty());
    }
    while i < params.len()
        invariant
            i <= params@.len(),
            vars_view(r@) == spec_params(params@.take(i as int)),
        decreases params@.len() - i,
    {
        let ghost pre = params@.take(i as int);
        let ghost cur = params@.take(i as int + 1);
        proof {
            assert(cur.drop_last() =~= pre);
            assert(cur.last() == params@[i as int]);
        }
        match &params[i] {
            ParameterNode::Query(d) => {
                let ghost old_r = r@;
                r.push(parameter_variable(d));
                proof {
                    assert(vars_view(r@) =~= vars_view(old_r).push(var_view(r@.last())));
                }
            },
            ParameterNode::Path(d) => {
                let ghost old_r = r@;
                r.push(parameter_variable(d));
                proof {
                    assert(vars_view(r@) =~= vars_view(old_r).push(var_view(r@.last())));
                }
            },
            _ => {},
        }
        i = i + 1;
    }
    proof {
        assert(params@.take(params@.len() as int) =~= params@);
    }
    r
}

/// The name synthesized for one request: the URL path with every `/`, `{`
/// and `}` removed, the verb's label, and the suffix `request`.
pub open spec fn spec_request_name(url_path: Seq<char>, m: Method) -> Seq<char> {
    without_separators(url_path) + method_label(m) + "request"@
}

/// The response type of one operation: the first declared non-default
/// response resolved to a type name; the sentinel `ResponceEmpty` when no
/// response is declared or the name comes out empty; and the bracketed
/// alias target when the alias map knows the name.
pub open spec fn spec_response_type(
    responses: Seq<ResponseNode>,
    aliases: Seq<(Seq<char>, Seq<char>)>,
) -> Seq<char> {
    let base = if responses.len() == 0 {
        "ResponceEmpty"@
    } else {
        let s = spec_parse_response(responses[0]);
        if s.len() == 0 {
            "ResponceEmpty"@
        } else {
            s
        }
    };
    match spec_alias_lookup(aliases, base) {
        Some(t) => "["@ + t + "]"@,
        None => base,
    }
}

/// The error type of one operation: its default response resolved to a
/// type name, or the sentinel `ResponseEmpty` when none is declared.
pub open spec fn spec_error_type(default: Option<ResponseNode>) -> Seq<char> {
    match default {
        None => "ResponseEmpty"@,
        Some(r) => spec_parse_response(r),
    }
}

/// The request one operation yields.
pub open spec fn spec_request(
    url_path: Seq<char>,
    op: OperationNode,
    m: Method,
    aliases: Seq<(Seq<char>, Seq<char>)>,
) -> RequestV {
    RequestV {
        name: spec_request_name(url_path, m),
        path: trim_last_segment(url_path),
        vars: spec_params(op.parameters@),
        method: m,
        response_type: spec_response_type(op.responses.responses@, aliases),
        error_type: spec_error_type(op.responses.default),
    }
}

/// Builds the request of one operation: its parameters as variables, its
/// resolved response and error types, its synthesized name, and the URL
/// path with the final segment removed.
pub fn extract_request(
    url_path: &str,
    operation: &OperationNode,
    method: Method,
    aliases: &Vec<Alias>,
) -> (r: Request)
    ensures
        request_view(r) == spec_request(url_path@, *operation, method, alias_views(aliases@)),
{
    let vars = extract_params(&operation.parameters);
    let error_type = match &operation.responses.default {
        None => String::from_str("ResponseEmpty"),
        Some(resp) => Project::parse_response(resp),
    };
    let base = if operation.responses.responses.len() == 0 {
        String::from_str("ResponceEmpty")
    } else {
        let s = Project::parse_response(&operation.responses.responses[0]);
        if s.as_str().is_empty() {
            String::from_str("ResponceEmpty")
        } else {
            s
        }
    };
    let response_type = match lookup_alias(aliases, &base) {
        Some(t) => String::from_str("[").concat(t.as_str()).concat("]"),
        None => base,
    };
    let name = remove_separators(url_path).concat(method.as_str()).concat("request");
    let path = split_url_path(url_path);
    Request { name, path, vars, method, response_type, error_type }
}

/// The requests one row of the path table yields: one per operation
/// declared on its path item, in the fixed verb order; a referenced path
/// item yields none.
pub open spec fn spec_path_requests(
    rec: PathRecord,
    aliases: Seq<(Seq<char>, Seq<char>)>,
) -> Seq<RequestV> {
    match rec.item {
        PathItemNode::Ref(_) => Seq::empty(),
        PathItemNode::Item(p) => spec_path_ops(p).map_values(
            |om: (OperationNode, Method)| spec_request(rec.path@, om.0, om.1, aliases),
        ),
    }
}

/// The requests the whole path table yields, in table order.
pub open spec fn spec_requests(
    paths: Seq<PathRecord>,
    aliases: Seq<(Seq<char>, Seq<char>)>,
) -> Seq<RequestV>
    decreases paths.len(),
{
    if paths.len() == 0 {
        Seq::empty()
    } else {
        spec_requests(paths.drop_last(), aliases) + spec_path_requests(paths.last(), aliases)
    }
}

/// Extracts every request of the path table, in table order.
#[verifier::loop_isolation(false)]
fn extract_requests(paths: &Vec<PathRecord>, aliases: &Vec<Alias>) -> (r: Vec<Request>)
    ensures
        requests_view(r@) == spec_requests(paths@, alias_views(aliases@)),
{
    let ghost av = alias_views(aliases@);
    let mut r: Vec<Request> = Vec::new();
    let mut j: usize = 0;
    proof {
        assert(paths@.take(0) =~= Seq::<PathRecord>::empty());
        assert(requests_view(r@) =~= Seq::<RequestV>::empty());
    }
    while j < paths.len()
        invariant
            j <= paths@.len(),
            requests_view(r@) == spec_requests(paths@.take(j as int), av),
        decreases paths@.len() - j,
    {
        let ghost pre = paths@.take(j as int);
        let ghost cur = paths@.take(j as int + 1);
        proof {
            assert(cur.drop_last() =~= pre);
            assert(cur.last() == paths@[j as int]);
        }
        match &paths[j].item {
            PathItemNode::Ref(_) => {
                proof {
                    assert(requests_view(r@) =~= spec_requests(pre, av) + spec_path_requests(
                        paths@[j as int],
                        av,
                    ));
                }
            },
            PathItemNode::Item(entry) => {
                let ops = entry.path_to_request();
                let ghost row_reqs = spec_path_requests(paths@[j as int], av);
                let mut k: usize = 0;
                proof {
                    assert(row_reqs =~= spec_path_ops(*entry).map_values(
                        |om: (OperationNode, Method)| spec_request(
                            paths@[j as int].path@,
                            om.0,
                            om.1,
                            av,
                        ),
                    ));
                    assert(requests_view(r@) =~= spec_requests(pre, av) + row_reqs.take(0));
                }
                while k < ops.len()
                    invariant
                        k <= ops@.len(),
                        requests_view(r@) == spec_requests(pre, av) + row_reqs.take(k as int),
                    decreases ops@.len() - k,
                {
                    let pair = &ops[k];
                    let request = extract_request(paths[j].path.as_str(), pair.0, pair.1, aliases);
                    let ghost old_r = r@;
                    r.push(request);
                    proof {
                        assert(request_view(r@.last()) == row_reqs[k as int]);
                        assert(requests_view(r@) =~= requests_view(old_r).push(
                            request_view(r@.last()),
                        ));
                        assert(row_reqs.take(k as int + 1) =~= row_reqs.take(k as int).push(
                            row_reqs[k as int],
                        ));
                        assert(requests_view(r@) =~= spec_requests(pre, av) + row_reqs.take(
                            k as int + 1,
                        ));
                    }
                    k = k + 1;
                }
                proof {
                    assert(row_reqs.take(ops@.len() as int) =~= row_reqs);
                }
            },
        }
        proof {
            assert(requests_view(r@) =~= spec_requests(cur, av));
        }
        j = j + 1;
    }
    proof {
        assert(paths@.take(paths@.len() as int) =~= paths@);
    }
    r
}

/// The models the component schema list yields, in declared order, or the
/// first extraction error in that order. Reference entries and array-typed
/// schemas never yield a model.
pub open spec fn spec_models(schemas: Seq<NamedSchema>) -> Result<Seq<ModelV>, ErrorV>
    decreases schemas.len(),
{
    if schemas.len() == 0 {
        Ok(Seq::empty())
    } else {
        match spec_models(schemas.drop_last()) {
            Err(e) => Err(e),
            Ok(ms) => {
                let s = schemas.last();
                if spec_skips_model(s.schema) {
                    Ok(ms)
                } else {
                    match spec_parse_model(s.name@, s.schema) {
                        Ok(m) => Ok(ms.push(m)),
                        Err(e) => Err(e),
                    }
                }
            },
        }
    }
}

/// Whether a top-level schema is excluded from model extraction: reference
/// entries and array-typed schemas are.
pub open spec fn spec_skips_model(n: SchemaNode) -> bool {
    n matches SchemaNode::Reference(_) || n matches SchemaNode::ArrayKind(_)
}

/// Once some prefix of the schema list has failed, the whole list fails
/// with that same first error.
proof fn lemma_models_err_persists(schemas: Seq<NamedSchema>, j: int)
    requires
        0 <= j <= schemas.len(),
        spec_models(schemas.take(j)) is Err,
    ensures
        spec_models(schemas) == spec_models(schemas.take(j)),
    decreases schemas.len() - j,
{
    if j == schemas.len() {
        assert(schemas.take(j) =~= schemas);
    } else {
        assert(schemas.take(j + 1).drop_last() =~= schemas.take(j));
        lemma_models_err_persists(schemas, j + 1);
    }
}

impl Project {
    /// Translates a whole document: derives the server info, collects the
    /// array aliases, extracts one model per non-array component schema in
    /// order, and one request per declared operation of each path, in
    /// order. Fails with `MissingComponents` when the document declares no
    /// component section, and with the first model-extraction error
    /// otherwise; request extraction itself never fails.
    #[verifier::loop_isolation(false)]
    pub fn parse_yml(open_api: ApiDocument) -> (r: Result<Project, ExtractError>)
        ensures
            match r {
                Ok(p) => {
                    &&& open_api.components matches Some(schemas) && spec_models(schemas@)
                        == Ok::<_, ErrorV>(models_view(p.models@)) && requests_view(p.requests@)
                        == spec_requests(open_api.paths@, spec_aliases(schemas@))
                    &&& info_view(p.info) == spec_info(
                        parsed_url_parts(spec_first_server(open_api.servers@)),
                    )
                    &&& open_api.servers@.len() == 0 ==> info_view(p.info) == (InfoV {
                        host: Seq::<char>::empty(),
                        endpoint: Seq::<char>::empty(),
                    })
                },
                Err(e) => {
                    ||| (open_api.components is None && error_view(e) == ErrorV::MissingComponents)
                    ||| (open_api.components matches Some(schemas) && spec_models(schemas@)
                        == Err::<Seq<ModelV>, _>(error_view(e)))
                },
            },
            open_api.components is None ==> r is Err,
            (open_api.components matches Some(schemas) && spec_models(schemas@) is Ok) ==> r is Ok,
    {
        let ghost doc0 = open_api;
        let ApiDocument { servers, components, paths } = open_api;
        proof {
            assert(doc0 == (ApiDocument { servers, components, paths }));
        }
        let info = server_info(&servers);
        let mut schemas: Vec<NamedSchema> = match components {
            None => {
                return Err(ExtractError::MissingComponents);
            },
            Some(s) => s,
        };
        let ghost schemas0 = schemas@;
        let aliases = collect_aliases(&schemas);

        let mut models: Vec<Model> = Vec::new();
        let ghost mut k: int = 0;
        proof {
            assert(schemas0.take(0) =~= Seq::<NamedSchema>::empty());
            assert(models_view(models@) =~= Seq::<ModelV>::empty());
            assert(schemas@ =~= schemas0.skip(0));
        }
        while schemas.len() > 0
            invariant
                0 <= k <= schemas0.len(),
                schemas@ == schemas0.skip(k),
                spec_models(schemas0.take(k)) == Ok::<_, ErrorV>(models_view(models@)),
            decreases schemas@.len(),
        {
            let ghost pre = schemas0.take(k);
            let ghost cur = schemas0.take(k + 1);
            proof {
                assert(cur.drop_last() =~= pre);
                assert(schemas0.skip(k)[0] == schemas0[k]);
                assert(cur.last() == schemas0[k]);
            }
            let entry = schemas.remove(0);
            proof {
                assert(entry == schemas0[k]);
                assert(schemas@ =~= schemas0.skip(k + 1));
            }
            let is_array_type = matches!(&entry.schema, SchemaNode::ArrayKind(_));
            let is_reference = matches!(&entry.schema, SchemaNode::Reference(_));
            if !is_array_type && !is_reference {
                let NamedSchema { name, schema } = entry;
                let ghost old_models = models@;
                match Project::parse_model(name, schema) {
                    Ok(model) => {
                        models.push(model);
                        proof {
                            assert(models_view(models@) =~= models_view(old_models).push(
                                model_view(models@.last()),
                            ));
                        }
                    },
                    Err(e) => {
                        proof {
                            assert(spec_models(cur) == Err::<Seq<ModelV>, ErrorV>(error_view(e)));
                            lemma_models_err_persists(schemas0, k + 1);
                        }
                        return Err(e);
                    },
                }
            }
            proof {
                assert(spec_models(cur) == Ok::<_, ErrorV>(models_view(models@)));
                k = k + 1;
            }
        }
        proof {
            assert(schemas0.take(k) =~= schemas0);
        }

        let requests = extract_requests(&paths, &aliases);
        Ok(Project { info, models, requests })
    }
}

} // verus!
