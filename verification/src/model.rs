//! The resolved interface graph as the generator reads it: worlds,
//! interfaces, functions and parameters, with their mathematical models.

use crate::names::iface_ident_of;
use crate::names::pascal_case;
use crate::ty::clone_type;
use crate::ty::TypeModel;
use crate::ty::WitType;
use vstd::prelude::*;
use vstd::string::StringExecFns;

verus! {

/// A named, typed function parameter.
pub struct Param {
    pub name: String,
    pub ty: WitType,
}

/// Spec-level model of a parameter.
pub struct ParamModel {
    pub name: Seq<char>,
    pub ty: TypeModel,
}

impl Param {
    /// The mathematical value this parameter stands for.
    pub open spec fn model(self) -> ParamModel {
        ParamModel { name: self.name@, ty: self.ty.model() }
    }
}

/// The models of each parameter in a sequence, in order.
pub open spec fn params_model(ps: Seq<Param>) -> Seq<ParamModel> {
    ps.map_values(|p: Param| p.model())
}

/// A function of a WIT interface: a name, ordered typed parameters, and an
/// optional result type.
pub struct WitFunction {
    pub name: String,
    pub params: Vec<Param>,
    pub ret: Option<WitType>,
}

/// Spec-level model of a function signature.
pub struct FunctionModel {
    pub name: Seq<char>,
    pub params: Seq<ParamModel>,
    pub ret: Option<TypeModel>,
}

impl WitFunction {
    /// The mathematical value this function signature stands for.
    pub open spec fn model(self) -> FunctionModel {
        FunctionModel {
            name: self.name@,
            params: params_model(self.params@),
            ret: match self.ret {
                Some(t) => Some(t.model()),
                None => None,
            },
        }
    }
}

/// One resolved WIT interface: its package identity and its functions, in
/// declaration order.
pub struct WitInterface {
    pub namespace: String,
    pub package: String,
    pub name: String,
    pub functions: Vec<WitFunction>,
}

/// Spec-level model of an interface.
pub struct InterfaceModel {
    pub namespace: Seq<char>,
    pub package: Seq<char>,
    pub name: Seq<char>,
    pub functions: Seq<FunctionModel>,
}

impl WitInterface {
    /// The mathematical value this interface stands for.
    pub open spec fn model(self) -> InterfaceModel {
        InterfaceModel {
            namespace: self.namespace@,
            package: self.package@,
            name: self.name@,
            functions: self.functions@.map_values(|f: WitFunction| f.model()),
        }
    }
}

/// A resolved world: the interfaces the process calls outward (imports)
/// and the interfaces it serves (exports).
pub struct WitWorld {
    pub imports: Vec<WitInterface>,
    pub exports: Vec<WitInterface>,
}

/// Copy a parameter; the copy stands for the same name and type.
pub fn clone_param(p: &Param) -> (r: Param)
    ensures
        r.model() == p.model(),
{
    Param { name: p.name.clone(), ty: clone_type(&p.ty) }
}

/// Copy a function signature; the copy stands for the same signature.
pub fn clone_function(f: &WitFunction) -> (r: WitFunction)
    ensures
        r.model() == f.model(),
{
    let mut params: Vec<Param> = Vec::new();
    let n = f.params.len();
    let mut i: usize = 0;
    while i < n
        invariant
            n == f.params@.len(),
            params@.len() == i <= n,
            forall|j: int| 0 <= j < i ==> params@[j].model() == #[trigger] f.params@[j].model(),
        decreases n - i,
    {
        let p = clone_param(&f.params[i]);
        params.push(p);
        i += 1;
    }
    let ret = match &f.ret {
        Some(t) => Some(clone_type(t)),
        None => None,
    };
    let r = WitFunction { name: f.name.clone(), params, ret };
    proof {
        assert(params_model(r.params@) =~= params_model(f.params@));
    }
    r
}

/// The type ident under which an interface's bindings are emitted: the
/// Pascal-case interface name, or, for an unnamed interface, the
/// Pascal-case namespace and package joined.
pub fn interface_ident(iface: &WitInterface) -> (r: String)
    ensures
        r@ == iface_ident_of(iface.model().namespace, iface.model().package, iface.model().name),
{
    if iface.name.as_str().is_empty() {
        proof {
            assert(iface.name@.len() == 0);
        }
        let mut out = pascal_case(iface.namespace.as_str());
        let p = pascal_case(iface.package.as_str());
        out.append(p.as_str());
        out
    } else {
        pascal_case(iface.name.as_str())
    }
}

} // verus!
