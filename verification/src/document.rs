//! A closed, tagged representation of the parts of an OpenAPI document that
//! the translator reads: servers, named component schemas, and the path
//! table with its operations. The open-ended source representation is
//! converted into these variants at the boundary and never carried further.

use crate::ir::Method;
use vstd::prelude::*;

verus! {

/// One schema node, flattened over OpenAPI's reference-or-inline
/// distinction and its finite set of type kinds.
#[derive(Debug)]
pub enum SchemaNode {
    /// A `$ref` pointer, holding the full reference string.
    Reference(String),
    /// The string type.
    StringKind,
    /// The number type.
    NumberKind,
    /// The integer type.
    IntegerKind,
    /// The boolean type.
    BooleanKind,
    /// An array type, holding its item schema.
    ArrayKind(Box<SchemaNode>),
    /// An inline object type: its properties in declared order, and the
    /// names of its required properties.
    ObjectKind(Vec<Property>, Vec<String>),
    /// Any other schema shape: composed `oneOf`/`anyOf`/`allOf`, `not`, or
    /// free-form.
    OtherKind,
}

/// One named property of an object schema.
#[derive(Debug)]
pub struct Property {
    pub name: String,
    pub schema: SchemaNode,
}

/// How a parameter states its type: an inline-or-referenced schema, or
/// content-type-keyed media definitions.
#[derive(Debug)]
pub enum ParameterFormat {
    Schema(SchemaNode),
    Content,
}

/// The data shared by every parameter kind.
#[derive(Debug)]
pub struct ParameterData {
    pub name: String,
    pub required: bool,
    pub format: ParameterFormat,
}

/// One parameter of an operation.
#[derive(Debug)]
pub enum ParameterNode {
    /// A referenced parameter; skipped by extraction.
    Ref(String),
    Query(ParameterData),
    Path(ParameterData),
    Header(ParameterData),
    Cookie(ParameterData),
}

/// One media entry of a response's content map, holding its optional
/// schema.
#[derive(Debug)]
pub struct MediaNode {
    pub schema: Option<SchemaNode>,
}

/// One response: a reference, or an item with its content entries in
/// declared order.
#[derive(Debug)]
pub enum ResponseNode {
    Ref(String),
    Item(Vec<MediaNode>),
}

/// The responses of one operation: the optional default response and the
/// declared status responses in order.
#[derive(Debug)]
pub struct ResponsesNode {
    pub default: Option<ResponseNode>,
    pub responses: Vec<ResponseNode>,
}

/// One operation of a path item.
#[derive(Debug)]
pub struct OperationNode {
    pub parameters: Vec<ParameterNode>,
    pub responses: ResponsesNode,
}

/// One path item: the operation declared for each HTTP verb, if any.
#[derive(Debug)]
pub struct PathEntry {
    pub get: Option<OperationNode>,
    pub post: Option<OperationNode>,
    pub put: Option<OperationNode>,
    pub delete: Option<OperationNode>,
    pub options: Option<OperationNode>,
    pub head: Option<OperationNode>,
    pub patch: Option<OperationNode>,
    pub trace: Option<OperationNode>,
}

/// One entry of the path table: a reference (skipped by extraction) or a
/// path item.
#[derive(Debug)]
pub enum PathItemNode {
    Ref(String),
    Item(PathEntry),
}

/// One row of the path table: the URL path and its entry.
#[derive(Debug)]
pub struct PathRecord {
    pub path: String,
    pub item: PathItemNode,
}

/// One named component schema.
#[derive(Debug)]
pub struct NamedSchema {
    pub name: String,
    pub schema: SchemaNode,
}

/// The parts of an OpenAPI document that the translator reads. A missing
/// component section is held as `None` and is distinct from an empty one.
#[derive(Debug)]
pub struct ApiDocument {
    pub servers: Vec<String>,
    pub components: Option<Vec<NamedSchema>>,
    pub paths: Vec<PathRecord>,
}

/// The contribution of one optional operation to a path item's operation
/// list.
pub open spec fn opt_op(o: Option<OperationNode>, m: Method) -> Seq<(OperationNode, Method)> {
    match o {
        Some(op) => seq![(op, m)],
        None => Seq::empty(),
    }
}

/// The operations declared on a path item, paired with their verbs, in the
/// fixed verb order GET, POST, PUT, DELETE, OPTIONS, HEAD, PATCH, TRACE.
pub open spec fn spec_path_ops(p: PathEntry) -> Seq<(OperationNode, Method)> {
    opt_op(p.get, Method::Get_) + opt_op(p.post, Method::Post_) + opt_op(p.put, Method::Put_)
        + opt_op(p.delete, Method::Delete_) + opt_op(p.options, Method::Options_) + opt_op(
        p.head,
        Method::Head_,
    ) + opt_op(p.patch, Method::Patch_) + opt_op(p.trace, Method::Trace_)
}

impl PathEntry {
    /// Lists the operations present on this path item, each with its verb,
    /// in the fixed verb order.
    #[verifier::rlimit(100)]
    pub fn path_to_request(&self) -> (r: Vec<(&OperationNode, Method)>)
        ensures
            r@.len() == spec_path_ops(*self).len(),
            forall|k: int|
                0 <= k < r@.len() ==> *(#[trigger] r@[k]).0 == spec_path_ops(*self)[k].0
                    && r@[k].1 == spec_path_ops(*self)[k].1,
    {
        let mut r: Vec<(&OperationNode, Method)> = Vec::new();
        if let Some(op) = &self.get {
            r.push((op, Method::Get_));
        }
        if let Some(op) = &self.post {
            r.push((op, Method::Post_));
        }
        if let Some(op) = &self.put {
            r.push((op, Method::Put_));
        }
        if let Some(op) = &self.delete {
            r.push((op, Method::Delete_));
        }
        if let Some(op) = &self.options {
            r.push((op, Method::Options_));
        }
        if let Some(op) = &self.head {
            r.push((op, Method::Head_));
        }
        if let Some(op) = &self.patch {
            r.push((op, Method::Patch_));
        }
        if let Some(op) = &self.trace {
            r.push((op, Method::Trace_));
        }
        proof {
            let ops = spec_path_ops(*self);
            assert(r@.len() == ops.len());
            assert forall|k: int|
                0 <= k < r@.len() implies *(#[trigger] r@[k]).0 == ops[k].0 && r@[k].1
                == ops[k].1 by {}
        }
        r
    }
}

} // verus!
