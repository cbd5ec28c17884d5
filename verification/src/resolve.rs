//! Schema resolution: maps schema nodes to variable types, extracts the
//! typed variables of object schemas, turns named schemas into models, and
//! resolves response and parameter types.

use crate::document::{ParameterData, ParameterFormat, Property, ResponseNode, SchemaNode};
use crate::error::{ErrorV, ExtractError, error_view};
use crate::ir::{Model, ModelV, Project, TypeV, VariableType, Variable, VariableV, model_view, type_view, var_view, vars_view};
use crate::text::{contains_str, last_segment, last_segment_of, vec_contains_string};
use vstd::prelude::*;
use vstd::string::*;

verus! {

/// The type a schema node resolves to, in the loose mode used for array
/// items, parameters and response formatting: a reference becomes a complex
/// type named by the final segment of the reference string, array kinds
/// recurse into their item, an inline object becomes the placeholder
/// complex type, and unrecognized kinds fall back to the string type.
pub open spec fn spec_resolve_type(n: SchemaNode) -> TypeV
    decreases n,
{
    match n {
        SchemaNode::Reference(r) => TypeV::ComplexT(last_segment(r@)),
        SchemaNode::StringKind => TypeV::StringT,
        SchemaNode::NumberKind => TypeV::FloatT,
        SchemaNode::IntegerKind => TypeV::IntT,
        SchemaNode::BooleanKind => TypeV::BoolT,
        SchemaNode::ArrayKind(item) => TypeV::ArrayT(Box::new(spec_resolve_type(*item))),
        SchemaNode::ObjectKind(_, _) => TypeV::ComplexT("Need to implement"@),
        SchemaNode::OtherKind => TypeV::StringT,
    }
}

/// A one-word description of a schema node's kind, used in diagnostics.
pub open spec fn spec_kind_name(n: SchemaNode) -> Seq<char> {
    match n {
        SchemaNode::Reference(_) => "reference"@,
        SchemaNode::StringKind => "string"@,
        SchemaNode::NumberKind => "number"@,
        SchemaNode::IntegerKind => "integer"@,
        SchemaNode::BooleanKind => "boolean"@,
        SchemaNode::ArrayKind(_) => "array"@,
        SchemaNode::ObjectKind(_, _) => "object"@,
        SchemaNode::OtherKind => "other"@,
    }
}

/// Returns a one-word description of a schema node's kind.
pub fn kind_name(n: &SchemaNode) -> (r: String)
    ensures
        r@ == spec_kind_name(*n),
{
    match n {
        SchemaNode::Reference(_) => String::from_str("reference"),
        SchemaNode::StringKind => String::from_str("string"),
        SchemaNode::NumberKind => String::from_str("number"),
        SchemaNode::IntegerKind => String::from_str("integer"),
        SchemaNode::BooleanKind => String::from_str("boolean"),
        SchemaNode::ArrayKind(_) => String::from_str("array"),
        SchemaNode::ObjectKind(_, _) => String::from_str("object"),
        SchemaNode::OtherKind => String::from_str("other"),
    }
}

/// Whether a property's schema kind is accepted for object models: only
/// string, number, integer, array and boolean kinds are.
pub open spec fn supported_property_kind(n: SchemaNode) -> bool {
    match n {
        SchemaNode::StringKind => true,
        SchemaNode::NumberKind => true,
        SchemaNode::IntegerKind => true,
        SchemaNode::BooleanKind => true,
        SchemaNode::ArrayKind(_) => true,
        _ => false,
    }
}

/// The variable extracted from one property's schema, in the strict mode
/// used for object models: a kind that is not string, number, integer,
/// array or boolean is rejected with the owning model, the property and the
/// offending kind.
pub open spec fn spec_extract_variable(
    model: Seq<char>,
    prop: Seq<char>,
    schema: SchemaNode,
    optional: bool,
) -> Result<VariableV, ErrorV> {
    if supported_property_kind(schema) {
        Ok(
            VariableV {
                name: prop,
                optional,
                value: None,
                variable_type: match schema {
                    SchemaNode::StringKind => TypeV::StringT,
                    SchemaNode::NumberKind => TypeV::FloatT,
                    SchemaNode::IntegerKind => TypeV::IntT,
                    SchemaNode::BooleanKind => TypeV::BoolT,
                    SchemaNode::ArrayKind(item) => TypeV::ArrayT(
                        Box::new(spec_resolve_type(*item)),
                    ),
                    _ => TypeV::StringT,
                },
            },
        )
    } else {
        Err(
            ErrorV::UnsupportedSchemaKind {
                model,
                property: prop,
                kind: spec_kind_name(schema),
            },
        )
    }
}

/// The mathematical value of a variable-or-error result.
pub open spec fn var_result_view(r: Result<Variable, ExtractError>) -> Result<VariableV, ErrorV> {
    match r {
        Ok(v) => Ok(var_view(v)),
        Err(e) => Err(error_view(e)),
    }
}

/// The mathematical value of a model-or-error result.
pub open spec fn model_result_view(r: Result<Model, ExtractError>) -> Result<ModelV, ErrorV> {
    match r {
        Ok(m) => Ok(model_view(m)),
        Err(e) => Err(error_view(e)),
    }
}

impl Project {
    /// Resolves one schema node to a variable type, in the loose mode used
    /// for array items, parameters and response formatting.
    pub fn parse_type(reference: &SchemaNode) -> (t: VariableType)
        ensures
            type_view(t) == spec_resolve_type(*reference),
        decreases *reference,
    {
        match reference {
            SchemaNode::Reference(r) => VariableType::ComplexType(last_segment_of(r.as_str())),
            SchemaNode::StringKind => VariableType::StringType,
            SchemaNode::NumberKind => VariableType::FloatType,
            SchemaNode::IntegerKind => VariableType::IntType,
            SchemaNode::BooleanKind => VariableType::BoolType,
            SchemaNode::ArrayKind(item) => VariableType::ArrayType(
                Box::new(Project::parse_type(item)),
            ),
            SchemaNode::ObjectKind(_, _) => VariableType::ComplexType(
                String::from_str("Need to implement"),
            ),
            SchemaNode::OtherKind => VariableType::StringType,
        }
    }

    /// Resolves one response to a type name string: a reference, or a first
    /// content entry whose schema is a reference, yields the final segment
    /// of the reference string; every other shape yields the empty string.
    pub fn parse_response(response: &ResponseNode) -> (r: String)
        ensures
            r@ == spec_parse_response(*response),
    {
        match response {
            ResponseNode::Ref(reference) => last_segment_of(reference.as_str()),
            ResponseNode::Item(medias) => {
                if medias.len() == 0 {
                    String::new()
                } else {
                    match &medias[0].schema {
                        Some(SchemaNode::Reference(reference)) => last_segment_of(
                            reference.as_str(),
                        ),
                        _ => String::new(),
                    }
                }
            },
        }
    }

    /// Converts one parameter's data into a variable: a schema-typed
    /// parameter is resolved loosely with its declared optionality;
    /// content-typed media definitions default to a required string.
    pub fn parse_parameter_data(data: ParameterData) -> (v: Variable)
        ensures
            var_view(v) == spec_parameter_variable(data),
    {
        match data.format {
            ParameterFormat::Schema(reference) => {
                let variable_type = Project::parse_type(&reference);
                Variable { name: data.name, optional: !data.required, value: None, variable_type }
            },
            ParameterFormat::Content => Variable {
                name: data.name,
                optional: false,
                value: None,
                variable_type: VariableType::StringType,
            },
        }
    }
}

/// The resolution of one response node.
pub open spec fn spec_parse_response(r: ResponseNode) -> Seq<char> {
    match r {
        ResponseNode::Ref(reference) => last_segment(reference@),
        ResponseNode::Item(medias) => {
            if medias@.len() == 0 {
                Seq::empty()
            } else {
                match medias@[0].schema {
                    Some(SchemaNode::Reference(reference)) => last_segment(reference@),
                    _ => Seq::empty(),
                }
            }
        },
    }
}

/// The variable one parameter yields.
pub open spec fn spec_parameter_variable(d: ParameterData) -> VariableV {
    match d.format {
        ParameterFormat::Schema(n) => VariableV {
            name: d.name@,
            optional: !d.required,
            value: None,
            variable_type: spec_resolve_type(n),
        },
        ParameterFormat::Content => VariableV {
            name: d.name@,
            optional: false,
            value: None,
            variable_type: TypeV::StringT,
        },
    }
}

/// Extracts the variable of one property, in the strict mode used for
/// object models.
pub fn extract_variable_from_openapi(
    class_name: &str,
    var_name: &str,
    schema: &SchemaNode,
    optional: bool,
) -> (r: Result<Variable, ExtractError>)
    ensures
        var_result_view(r) == spec_extract_variable(class_name@, var_name@, *schema, optional),
{
    let variable_type = match schema {
        SchemaNode::StringKind => VariableType::StringType,
        SchemaNode::NumberKind => VariableType::FloatType,
        SchemaNode::IntegerKind => VariableType::IntType,
        SchemaNode::BooleanKind => VariableType::BoolType,
        SchemaNode::ArrayKind(item) => VariableType::ArrayType(Box::new(Project::parse_type(item))),
        _ => {
            return Err(
                ExtractError::UnsupportedSchemaKind {
                    model: class_name.to_owned(),
                    property: var_name.to_owned(),
                    kind: kind_name(schema),
                },
            );
        },
    };
    Ok(Variable { name: var_name.to_owned(), optional, value: None, variable_type })
}

/// The implicit identifier appended to every object model: a non-optional
/// integer named `id`, placed last.
pub open spec fn mk_id_var() -> VariableV {
    VariableV { name: "id"@, optional: false, value: None, variable_type: TypeV::IntT }
}

/// The variables an object schema's property list yields, in declared
/// order, or the first error in that order: a reference-typed property is
/// rejected, and so is any kind that is not string, number, integer, array
/// or boolean. A property is optional exactly when its name is missing
/// from the required list.
pub open spec fn spec_extract_vars(
    model: Seq<char>,
    props: Seq<Property>,
    required: Seq<String>,
) -> Result<Seq<VariableV>, ErrorV>
    decreases props.len(),
{
    if props.len() == 0 {
        Ok(Seq::empty())
    } else {
        match spec_extract_vars(model, props.drop_last(), required) {
            Err(e) => Err(e),
            Ok(vs) => {
                let p = props.last();
                match p.schema {
                    SchemaNode::Reference(_) => Err(
                        ErrorV::UnsupportedReferenceProperty { model, property: p.name@ },
                    ),
                    _ => match spec_extract_variable(
                        model,
                        p.name@,
                        p.schema,
                        !contains_str(required, p.name@),
                    ) {
                        Ok(v) => Ok(vs.push(v)),
                        Err(e) => Err(e),
                    },
                }
            },
        }
    }
}

/// The model one named schema yields: an object schema's variables plus the
/// implicit trailing `id`, or, for any non-object schema, a marker model
/// with no variables.
pub open spec fn spec_parse_model(name: Seq<char>, schema: SchemaNode) -> Result<ModelV, ErrorV> {
    match schema {
        SchemaNode::ObjectKind(props, required) => match spec_extract_vars(
            name,
            props@,
            required@,
        ) {
            Ok(vs) => Ok(ModelV { name, vars: vs.push(mk_id_var()) }),
            Err(e) => Err(e),
        },
        _ => Ok(ModelV { name, vars: Seq::empty() }),
    }
}

/// Once some prefix of the property list has failed, the whole list fails
/// with that same first error.
proof fn lemma_extract_vars_err_persists(
    model: Seq<char>,
    props: Seq<Property>,
    required: Seq<String>,
    j: int,
)
    requires
        0 <= j <= props.len(),
        spec_extract_vars(model, props.take(j), required) is Err,
    ensures
        spec_extract_vars(model, props, required) == spec_extract_vars(
            model,
            props.take(j),
            required,
        ),
    decreases props.len() - j,
{
    if j == props.len() {
        assert(props.take(j) =~= props);
    } else {
        assert(props.take(j + 1).drop_last() =~= props.take(j));
        lemma_extract_vars_err_persists(model, props, required, j + 1);
    }
}

impl Project {
    /// Turns one named schema into a model: an object schema becomes a
    /// record of its properties' variables with the implicit trailing
    /// `id`; any non-object schema becomes a marker model with no
    /// variables; a reference-typed or unsupported-kind property aborts
    /// with the corresponding error.
    #[verifier::loop_isolation(false)]
    pub fn parse_model(name: String, schema: SchemaNode) -> (r: Result<Model, ExtractError>)
        ensures
            model_result_view(r) == spec_parse_model(name@, schema),
    {
        let ghost schema0 = schema;
        match schema {
            SchemaNode::ObjectKind(props, required_vars) => {
                proof {
                    assert(schema0 == SchemaNode::ObjectKind(props, required_vars));
                }
                let mut vars: Vec<Variable> = Vec::new();
                let mut i: usize = 0;
                proof {
                    assert(props@.take(0) =~= Seq::<Property>::empty());
                    assert(vars_view(vars@) =~= Seq::<VariableV>::empty());
                }
                while i < props.len()
                    invariant
                        i <= props@.len(),
                        schema0 == SchemaNode::ObjectKind(props, required_vars),
                        spec_extract_vars(name@, props@.take(i as int), required_vars@) == Ok::<
                            _,
                            ErrorV,
                        >(vars_view(vars@)),
                    decreases props@.len() - i,
                {
                    let ghost pre = props@.take(i as int);
                    let ghost cur = props@.take(i as int + 1);
                    proof {
                        assert(cur.drop_last() =~= pre);
                        assert(cur.last() == props@[i as int]);
                    }
                    let p = &props[i];
                    if let SchemaNode::Reference(_) = &p.schema {
                        proof {
                            assert(spec_extract_vars(name@, cur, required_vars@) == Err::<
                                Seq<VariableV>,
                                ErrorV,
                            >(
                                ErrorV::UnsupportedReferenceProperty {
                                    model: name@,
                                    property: p.name@,
                                },
                            ));
                            lemma_extract_vars_err_persists(
                                name@,
                                props@,
                                required_vars@,
                                i as int + 1,
                            );
                        }
                        return Err(
                            ExtractError::UnsupportedReferenceProperty {
                                model: name,
                                property: p.name.clone(),
                            },
                        );
                    }
                    let optional = !vec_contains_string(&required_vars, &p.name);
                    match extract_variable_from_openapi(
                        name.as_str(),
                        p.name.as_str(),
                        &p.schema,
                        optional,
                    ) {
                        Ok(variable) => {
                            let ghost old_vars = vars@;
                            proof {
                                assert(spec_extract_vars(name@, cur, required_vars@) == Ok::<
                                    _,
                                    ErrorV,
                                >(vars_view(old_vars).push(var_view(variable))));
                            }
                            vars.push(variable);
                            proof {
                                assert(vars_view(vars@) =~= vars_view(old_vars).push(
                                    var_view(vars@.last()),
                                ));
                            }
                        },
                        Err(e) => {
                            proof {
                                assert(spec_extract_vars(name@, cur, required_vars@) == Err::<
                                    Seq<VariableV>,
                                    ErrorV,
                                >(error_view(e)));
                                lemma_extract_vars_err_persists(
                                    name@,
                                    props@,
                                    required_vars@,
                                    i as int + 1,
                                );
                            }
                            return Err(e);
                        },
                    }
                    i = i + 1;
                    proof {
                        assert(props@.take(i as int) == cur);
                        assert(spec_extract_vars(name@, props@.take(i as int), required_vars@)
                            == Ok::<_, ErrorV>(vars_view(vars@)));
                    }
                }
                proof {
                    assert(props@.take(props@.len() as int) =~= props@);
                }
                let ghost body_vars = vars@;
                vars.push(
                    Variable {
                        name: String::from_str("id"),
                        optional: false,
                        value: None,
                        variable_type: VariableType::IntType,
                    },
                );
                proof {
                    assert(vars_view(vars@) =~= vars_view(body_vars).push(var_view(vars@.last())));
                    assert(var_view(vars@.last()) == mk_id_var());
                }
                Ok(Model { name, vars })
            },
            _ => {
                proof {
                    assert(!(schema0 matches SchemaNode::ObjectKind(_, _)));
                }
                let vars: Vec<Variable> = Vec::new();
                proof {
                    assert(vars_view(vars@) =~= Seq::<VariableV>::empty());
                }
                Ok(Model { name, vars })
            },
        }
    }
}

} // verus!
