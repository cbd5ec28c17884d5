//! The intermediate representation produced by the translator: typed
//! variables, named models, network requests and the project that owns them.

use vstd::prelude::*;
use vstd::string::*;

verus! {

/// The HTTP verb attached to one operation of a path item.
#[derive(Clone, Copy, PartialEq, Eq, Debug)]
pub enum Method {
    Get_,
    Post_,
    Put_,
    Delete_,
    Options_,
    Head_,
    Patch_,
    Trace_,
}

/// The canonical upper-case label of a verb, as it appears in synthesized
/// request names.
pub open spec fn method_label(m: Method) -> Seq<char> {
    match m {
        Method::Get_ => "GET"@,
        Method::Post_ => "POST"@,
        Method::Put_ => "PUT"@,
        Method::Delete_ => "DELETE"@,
        Method::Options_ => "OPTIONS"@,
        Method::Head_ => "HEAD"@,
        Method::Patch_ => "PATCH"@,
        Method::Trace_ => "TRACE"@,
    }
}

impl Method {
    /// The verb's label as a borrowed string.
    pub fn as_str(&self) -> (r: &'static str)
        ensures
            r@ == method_label(*self),
    {
        match self {
            Method::Get_ => "GET",
            Method::Post_ => "POST",
            Method::Put_ => "PUT",
            Method::Delete_ => "DELETE",
            Method::Options_ => "OPTIONS",
            Method::Head_ => "HEAD",
            Method::Patch_ => "PATCH",
            Method::Trace_ => "TRACE",
        }
    }

    /// The verb's label as an owned string.
    pub fn as_string(self) -> (r: String)
        ensures
            r@ == method_label(self),
    {
        String::from_str(self.as_str())
    }
}

/// The type of one variable: a primitive, an array of a further type, or a
/// named reference to another model.
#[derive(PartialEq, Debug)]
pub enum VariableType {
    StringType,
    IntType,
    FloatType,
    BoolType,
    ArrayType(Box<VariableType>),
    ComplexType(String),
}

/// Ghost counterpart of [`VariableType`], with string views at the leaves.
pub ghost enum TypeV {
    StringT,
    IntT,
    FloatT,
    BoolT,
    ArrayT(Box<TypeV>),
    ComplexT(Seq<char>),
}

/// The mathematical value of a [`VariableType`].
pub open spec fn type_view(t: VariableType) -> TypeV
    decreases t,
{
    match t {
        VariableType::StringType => TypeV::StringT,
        VariableType::IntType => TypeV::IntT,
        VariableType::FloatType => TypeV::FloatT,
        VariableType::BoolType => TypeV::BoolT,
        VariableType::ArrayType(e) => TypeV::ArrayT(Box::new(type_view(*e))),
        VariableType::ComplexType(n) => TypeV::ComplexT(n@),
    }
}

/// One typed, optionality-tagged field of a model or request.
#[derive(PartialEq, Debug)]
pub struct Variable {
    pub name: String,
    pub optional: bool,
    pub value: Option<String>,
    pub variable_type: VariableType,
}

/// Ghost counterpart of [`Variable`].
pub ghost struct VariableV {
    pub name: Seq<char>,
    pub optional: bool,
    pub value: Option<Seq<char>>,
    pub variable_type: TypeV,
}

/// The mathematical value of a [`Variable`].
pub open spec fn var_view(v: Variable) -> VariableV {
    VariableV {
        name: v.name@,
        optional: v.optional,
        value: match v.value {
            Some(s) => Some(s@),
            None => None,
        },
        variable_type: type_view(v.variable_type),
    }
}

/// The mathematical value of an ordered sequence of variables.
pub open spec fn vars_view(vs: Seq<Variable>) -> Seq<VariableV> {
    vs.map_values(|v: Variable| var_view(v))
}

/// A named record type. A model with no variables denotes a non-object
/// schema used purely as an inheritance-hierarchy marker.
#[derive(PartialEq, Debug)]
pub struct Model {
    pub name: String,
    pub vars: Vec<Variable>,
}

/// Ghost counterpart of [`Model`].
pub ghost struct ModelV {
    pub name: Seq<char>,
    pub vars: Seq<VariableV>,
}

/// The mathematical value of a [`Model`].
pub open spec fn model_view(m: Model) -> ModelV {
    ModelV { name: m.name@, vars: vars_view(m.vars@) }
}

/// The server host and endpoint taken from the first declared server URL;
/// both fields are empty when no server is declared or its URL does not
/// parse.
#[derive(Clone, PartialEq, Debug)]
pub struct Info {
    pub host: String,
    pub endpoint: String,
}

/// Ghost counterpart of [`Info`].
pub ghost struct InfoV {
    pub host: Seq<char>,
    pub endpoint: Seq<char>,
}

/// The mathematical value of an [`Info`].
pub open spec fn info_view(i: Info) -> InfoV {
    InfoV { host: i.host@, endpoint: i.endpoint@ }
}

/// One network request synthesized from an operation of a path item.
#[derive(PartialEq, Debug)]
pub struct Request {
    pub name: String,
    pub path: String,
    pub vars: Vec<Variable>,
    pub method: Method,
    pub response_type: String,
    pub error_type: String,
}

/// Ghost counterpart of [`Request`].
pub ghost struct RequestV {
    pub name: Seq<char>,
    pub path: Seq<char>,
    pub vars: Seq<VariableV>,
    pub method: Method,
    pub response_type: Seq<char>,
    pub error_type: Seq<char>,
}

/// The mathematical value of a [`Request`].
pub open spec fn request_view(r: Request) -> RequestV {
    RequestV {
        name: r.name@,
        path: r.path@,
        vars: vars_view(r.vars@),
        method: r.method,
        response_type: r.response_type@,
        error_type: r.error_type@,
    }
}

/// The assembled intermediate representation of one OpenAPI document.
#[derive(PartialEq, Debug)]
pub struct Project {
    pub info: Info,
    pub models: Vec<Model>,
    pub requests: Vec<Request>,
}

/// Ghost counterpart of [`Project`].
pub ghost struct ProjectV {
    pub info: InfoV,
    pub models: Seq<ModelV>,
    pub requests: Seq<RequestV>,
}

/// The mathematical value of an ordered sequence of models.
pub open spec fn models_view(ms: Seq<Model>) -> Seq<ModelV> {
    ms.map_values(|m: Model| model_view(m))
}

/// The mathematical value of an ordered sequence of requests.
pub open spec fn requests_view(rs: Seq<Request>) -> Seq<RequestV> {
    rs.map_values(|r: Request| request_view(r))
}

/// The mathematical value of a [`Project`].
pub open spec fn project_view(p: Project) -> ProjectV {
    ProjectV {
        info: info_view(p.info),
        models: models_view(p.models@),
        requests: requests_view(p.requests@),
    }
}

/// Collections of named items that can list all their names in order.
pub trait CustomIterators {
    /// The names of the collection's items, in order.
    spec fn spec_all_names(&self) -> Seq<Seq<char>>;

    /// Returns the names of the collection's items, in order.
    fn all_names(&self) -> (r: Vec<String>)
        ensures
            r@.map_values(|s: String| s@) == self.spec_all_names(),
    ;
}

impl CustomIterators for Vec<Model> {
    open spec fn spec_all_names(&self) -> Seq<Seq<char>> {
        self@.map_values(|m: Model| m.name@)
    }

    fn all_names(&self) -> (r: Vec<String>)
        ensures
            r@.map_values(|s: String| s@) == self.spec_all_names(),
    {
        let mut r: Vec<String> = Vec::new();
        let mut i: usize = 0;
        while i < self.len()
            invariant
                i <= self@.len(),
                r@.len() == i,
                forall|j: int| 0 <= j < i ==> r@[j]@ == self@[j].name@,
            decreases self@.len() - i,
        {
            r.push(self[i].name.clone());
            i = i + 1;
        }
        proof {
            assert(r@.map_values(|s: String| s@) =~= self@.map_values(|m: Model| m.name@));
        }
        r
    }
}

impl CustomIterators for Vec<Request> {
    open spec fn spec_all_names(&self) -> Seq<Seq<char>> {
        self@.map_values(|r: Request| r.name@)
    }

    fn all_names(&self) -> (r: Vec<String>)
        ensures
            r@.map_values(|s: String| s@) == self.spec_all_names(),
    {
        let mut r: Vec<String> = Vec::new();
        let mut i: usize = 0;
        while i < self.len()
            invariant
                i <= self@.len(),
                r@.len() == i,
                forall|j: int| 0 <= j < i ==> r@[j]@ == self@[j].name@,
            decreases self@.len() - i,
        {
            r.push(self[i].name.clone());
            i = i + 1;
        }
        proof {
            assert(r@.map_values(|s: String| s@) =~= self@.map_values(|q: Request| q.name@));
        }
        r
    }
}

} // verus!
