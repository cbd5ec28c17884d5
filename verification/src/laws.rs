//! Proved properties relating the extractors: the shape of object models,
//! depth preservation of array resolution, the alias map's effect on model
//! extraction, and reference resolution keeping only the final segment.

use crate::assemble::{spec_alias_of, spec_aliases, spec_models, spec_skips_model};
use crate::document::{NamedSchema, Property, SchemaNode};
use crate::error::ErrorV;
use crate::ir::{ModelV, TypeV};
use crate::resolve::{
    mk_id_var, spec_extract_vars, spec_parse_model, spec_resolve_type,
};
use crate::text::{contains_str, last_segment, last_slash};
use vstd::prelude::*;

verus! {

/// Shape of the variables a property list yields when extraction succeeds:
/// one variable per property, in order, named after it, optional exactly
/// when the property is missing from the required list.
proof fn lemma_extract_vars_shape(model: Seq<char>, props: Seq<Property>, required: Seq<String>)
    ensures
        spec_extract_vars(model, props, required) matches Ok(vs) ==> vs.len() == props.len() && (
        forall|i: int|
            0 <= i < props.len() ==> (#[trigger] vs[i]).name == props[i].name@ && vs[i].optional
                == !contains_str(required, props[i].name@)),
    decreases props.len(),
{
    if props.len() > 0 {
        lemma_extract_vars_shape(model, props.drop_last(), required);
    }
}

/// Every variable generated for an object schema is optional exactly when
/// its property name does not occur in the required list; the model has
/// exactly one variable per property plus one, and the extra one is the
/// trailing non-optional integer `id`.
pub proof fn lemma_object_model_shape(
    name: Seq<char>,
    props: Vec<Property>,
    required: Vec<String>,
    m: ModelV,
)
    requires
        spec_parse_model(name, SchemaNode::ObjectKind(props, required)) == Ok::<ModelV, ErrorV>(m),
    ensures
        m.vars.len() == props@.len() + 1,
        forall|i: int|
            0 <= i < props@.len() ==> (#[trigger] m.vars[i]).name == props@[i].name@
                && m.vars[i].optional == !contains_str(required@, props@[i].name@),
        m.vars.last() == mk_id_var(),
{
    lemma_extract_vars_shape(name, props@, required@);
}

/// The array-nesting depth of a resolved variable type.
pub open spec fn type_depth(t: TypeV) -> nat
    decreases t,
{
    match t {
        TypeV::ArrayT(e) => 1 + type_depth(*e),
        _ => 0,
    }
}

/// The array-nesting depth of a schema node.
pub open spec fn schema_array_depth(n: SchemaNode) -> nat
    decreases n,
{
    match n {
        SchemaNode::ArrayKind(item) => 1 + schema_array_depth(*item),
        _ => 0,
    }
}

/// A schema nested through `d` array kinds resolves to a variable type
/// with exactly `d` levels of array nesting.
pub proof fn lemma_resolve_preserves_array_depth(n: SchemaNode)
    ensures
        type_depth(spec_resolve_type(n)) == schema_array_depth(n),
    decreases n,
{
    match n {
        SchemaNode::ArrayKind(item) => {
            lemma_resolve_preserves_array_depth(*item);
        },
        _ => {},
    }
}

/// An alias recorded by some schema of the list is in the list's alias
/// map.
proof fn lemma_aliases_contains(schemas: Seq<NamedSchema>, i: int)
    requires
        0 <= i < schemas.len(),
        spec_alias_of(schemas[i]) is Some,
    ensures
        spec_aliases(schemas).contains(spec_alias_of(schemas[i])->0),
    decreases schemas.len(),
{
    if i == schemas.len() - 1 {
        let rest = spec_aliases(schemas.drop_last());
        assert(spec_aliases(schemas) == rest.push(spec_alias_of(schemas[i])->0));
        assert(spec_aliases(schemas).last() == spec_alias_of(schemas[i])->0);
    } else {
        assert(schemas.drop_last()[i] == schemas[i]);
        lemma_aliases_contains(schemas.drop_last(), i);
        let rest = spec_aliases(schemas.drop_last());
        let p = spec_alias_of(schemas[i])->0;
        let w = choose|w: int| 0 <= w < rest.len() && rest[w] == p;
        match spec_alias_of(schemas.last()) {
            Some(q) => {
                assert(spec_aliases(schemas)[w] == p);
            },
            None => {
                assert(spec_aliases(schemas)[w] == p);
            },
        }
    }
}

/// When every schema bearing a given name is one that model extraction
/// skips, no extracted model bears that name.
proof fn lemma_models_exclude_name(schemas: Seq<NamedSchema>, name: Seq<char>)
    requires
        forall|l: int|
            0 <= l < schemas.len() && (#[trigger] schemas[l]).name@ == name ==> spec_skips_model(
                schemas[l].schema,
            ),
    ensures
        spec_models(schemas) matches Ok(ms) ==> forall|j: int|
            0 <= j < ms.len() ==> (#[trigger] ms[j]).name != name,
    decreases schemas.len(),
{
    if schemas.len() > 0 {
        lemma_models_exclude_name(schemas.drop_last(), name);
    }
}

/// For a top-level array schema whose item resolves to a complex type,
/// the alias map maps the schema's name to that type's name, and, when no
/// other schema bears the same name, the extracted models include none
/// under that name.
pub proof fn lemma_array_alias_schema(schemas: Seq<NamedSchema>, i: int, target: Seq<char>)
    requires
        0 <= i < schemas.len(),
        spec_alias_of(schemas[i]) == Some((schemas[i].name@, target)),
        forall|l: int|
            0 <= l < schemas.len() && l != i ==> (#[trigger] schemas[l]).name@ != schemas[i].name@,
    ensures
        spec_aliases(schemas).contains((schemas[i].name@, target)),
        spec_models(schemas) matches Ok(ms) ==> forall|j: int|
            0 <= j < ms.len() ==> (#[trigger] ms[j]).name != schemas[i].name@,
{
    lemma_aliases_contains(schemas, i);
    assert(schemas[i].schema matches SchemaNode::ArrayKind(_));
    lemma_models_exclude_name(schemas, schemas[i].name@);
}

/// After a `/` followed only by non-`/` characters, resolution finds that
/// very `/` as the last one.
proof fn lemma_last_slash_after(prefix: Seq<char>, tail: Seq<char>)
    requires
        forall|i: int| 0 <= i < tail.len() ==> tail[i] != '/',
    ensures
        last_slash(prefix + seq!['/'] + tail) == Some(prefix.len() as int),
    decreases tail.len(),
{
    let s = prefix + seq!['/'] + tail;
    if tail.len() == 0 {
        assert(s.last() == '/');
    } else {
        assert(s.last() == tail.last());
        lemma_last_slash_after(prefix, tail.drop_last());
        assert(s.drop_last() =~= prefix + seq!['/'] + tail.drop_last());
    }
}

/// Resolving a reference string keeps only its final `/`-separated
/// segment, whatever prefix of further segments precedes it.
pub proof fn lemma_last_segment_ignores_prefix(prefix: Seq<char>, tail: Seq<char>)
    requires
        forall|i: int| 0 <= i < tail.len() ==> tail[i] != '/',
    ensures
        last_segment(prefix + seq!['/'] + tail) == tail,
{
    let s = prefix + seq!['/'] + tail;
    lemma_last_slash_after(prefix, tail);
    assert(s.skip(prefix.len() as int + 1) =~= tail);
}

} // verus!
