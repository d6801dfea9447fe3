//! The argument translation strategy: how one function's parameter list
//! maps onto the single wire envelope of a lattice invocation.

use crate::config::ProviderBindgenConfig;
use crate::model::params_model;
use crate::model::FunctionModel;
use crate::model::Param;
use crate::model::ParamModel;
use crate::model::WitFunction;
use crate::names::invocation_struct_name;
use crate::names::invocation_struct_name_of;
use crate::names::lattice_method_name;
use crate::names::method_under_ident;
use crate::names::snake;
use crate::names::snake_case;
use crate::ty::render_type;
use crate::ty::rendered;
use crate::ty::TypeModel;
use crate::ty::WitType;
use crate::wit::normalized_param;
use crate::wit::process_fn_arg;
use vstd::prelude::*;
use vstd::string::StringExecFns;

verus! {

/// The two ways a function signature is flattened into a wire envelope:
/// reuse the single parameter's own type, or bundle all parameters into a
/// synthesized struct.
#[derive(Clone, Copy)]
pub enum WitFunctionLatticeTranslationStrategy {
    /// The function's first (and only) parameter is itself the envelope.
    FirstArgument,
    /// All parameters become fields of one synthesized envelope struct.
    BundleArguments,
}

impl Default for WitFunctionLatticeTranslationStrategy {
    /// The default strategy reuses the single parameter's own type.
    fn default() -> (r: Self)
        ensures
            r is FirstArgument,
    {
        WitFunctionLatticeTranslationStrategy::FirstArgument
    }
}

/// A fatal generation failure.
#[derive(Debug)]
pub enum BindgenError {
    /// A function has two or more parameters under the first-argument
    /// strategy; carries the function's name.
    FirstArgumentArity { func_name: String },
    /// Two functions of one generation run derived the same lattice
    /// method name; carries that name.
    MethodNameCollision { method_name: String },
}

impl BindgenError {
    /// A diagnostic line describing the failure.
    pub fn message(&self) -> (r: String)
        ensures
            self is FirstArgumentArity ==> r@ == "function has more than one parameter under the first-argument strategy: "@
                + self->FirstArgumentArity_func_name@,
            self is MethodNameCollision ==> r@ == "lattice method name derived twice in one run: "@
                + self->MethodNameCollision_method_name@,
    {
        match self {
            BindgenError::FirstArgumentArity { func_name } => {
                let mut out =
                    "function has more than one parameter under the first-argument strategy: ".to_owned();
                out.append(func_name.as_str());
                out
            },
            BindgenError::MethodNameCollision { method_name } => {
                let mut out = "lattice method name derived twice in one run: ".to_owned();
                out.append(method_name.as_str());
                out
            },
        }
    }
}

/// One function of one interface, translated for the lattice: the method
/// name used on the wire, the envelope type to deserialize (absent for a
/// parameterless function), the members of a synthesized envelope (absent
/// where an existing type is reused), the generated method's own name,
/// the argument names that reconstruct the call, and the return type.
pub struct LatticeMethod {
    pub lattice_method_name: String,
    pub envelope_type_name: Option<String>,
    pub struct_members: Option<Vec<Param>>,
    pub func_name: String,
    pub invocation_arg_names: Vec<String>,
    pub invocation_return: Option<WitType>,
}

/// Spec-level model of a translated method.
pub struct LatticeMethodModel {
    pub lattice_method_name: Seq<char>,
    pub envelope_type_name: Option<Seq<char>>,
    pub struct_members: Option<Seq<ParamModel>>,
    pub func_name: Seq<char>,
    pub invocation_arg_names: Seq<Seq<char>>,
    pub invocation_return: Option<TypeModel>,
}

impl LatticeMethod {
    /// The mathematical value this translated method stands for.
    pub open spec fn model(self) -> LatticeMethodModel {
        LatticeMethodModel {
            lattice_method_name: self.lattice_method_name@,
            envelope_type_name: match self.envelope_type_name {
                Some(s) => Some(s@),
                None => None,
            },
            struct_members: match self.struct_members {
                Some(v) => Some(params_model(v@)),
                None => None,
            },
            func_name: self.func_name@,
            invocation_arg_names: self.invocation_arg_names@.map_values(|s: String| s@),
            invocation_return: match self.invocation_return {
                Some(t) => Some(t.model()),
                None => None,
            },
        }
    }
}

/// The function's parameters after the map convention, which applies only
/// when the configuration asks for it.
pub open spec fn translated_params(ps: Seq<ParamModel>, replace_witified_maps: bool) -> Seq<
    ParamModel,
> {
    if replace_witified_maps {
        ps.map_values(|p: ParamModel| normalized_param(p))
    } else {
        ps
    }
}

/// What the bundle-arguments strategy makes of a function: for at least
/// one parameter, a synthesized envelope named after interface and
/// function whose fields are the translated parameters in declaration
/// order; for a parameterless function, no envelope at all.
pub open spec fn bundled_method_model(
    iface_ident: Seq<char>,
    mname: Seq<char>,
    f: FunctionModel,
    replace_witified_maps: bool,
) -> LatticeMethodModel {
    let ps = translated_params(f.params, replace_witified_maps);
    LatticeMethodModel {
        lattice_method_name: mname,
        envelope_type_name: if f.params.len() == 0 {
            None
        } else {
            Some(invocation_struct_name_of(iface_ident, f.name))
        },
        struct_members: if f.params.len() == 0 {
            None
        } else {
            Some(ps)
        },
        func_name: snake(f.name),
        invocation_arg_names: ps.map_values(|p: ParamModel| p.name),
        invocation_return: f.ret,
    }
}

/// What the first-argument strategy makes of a function with at most one
/// parameter: the single translated parameter's own type is the envelope,
/// nothing is synthesized; for a parameterless function, no envelope.
pub open spec fn first_arg_method_model(
    mname: Seq<char>,
    f: FunctionModel,
    replace_witified_maps: bool,
) -> LatticeMethodModel {
    let ps = translated_params(f.params, replace_witified_maps);
    LatticeMethodModel {
        lattice_method_name: mname,
        envelope_type_name: if f.params.len() == 0 {
            None
        } else {
            Some(rendered(ps[0].ty))
        },
        struct_members: None,
        func_name: snake(f.name),
        invocation_arg_names: ps.map_values(|p: ParamModel| p.name),
        invocation_return: f.ret,
    }
}

/// Apply the map convention to every parameter, where configured.
fn translate_args(ps: Vec<Param>, replace_witified_maps: bool) -> (r: Vec<Param>)
    ensures
        params_model(r@) == translated_params(params_model(ps@), replace_witified_maps),
{
    if !replace_witified_maps {
        return ps;
    }
    let mut rest = ps;
    let mut out: Vec<Param> = Vec::new();
    let ghost whole: Seq<Param> = rest@;
    while rest.len() > 0
        invariant
            out@.len() + rest@.len() == whole.len(),
            rest@ == whole.subrange(out@.len() as int, whole.len() as int),
            forall|j: int|
                0 <= j < out@.len() ==> out@[j].model() == normalized_param(
                    #[trigger] whole[j].model(),
                ),
        decreases rest.len(),
    {
        let ghost k = out@.len() as int;
        let p = rest.remove(0);
        proof {
            assert(p == whole[k]);
            assert(whole.subrange(k, whole.len() as int).remove(0) =~= whole.subrange(
                k + 1,
                whole.len() as int,
            ));
        }
        let q = process_fn_arg(p);
        out.push(q);
    }
    proof {
        assert(params_model(out@) =~= translated_params(params_model(whole), true));
    }
    out
}

/// The names of the parameters, in order.
fn arg_names_of(ps: &Vec<Param>) -> (r: Vec<String>)
    ensures
        r@.map_values(|s: String| s@) == params_model(ps@).map_values(|p: ParamModel| p.name),
{
    let mut out: Vec<String> = Vec::new();
    let n = ps.len();
    let mut i: usize = 0;
    while i < n
        invariant
            n == ps@.len(),
            out@.len() == i <= n,
            forall|j: int| 0 <= j < i ==> out@[j]@ == #[trigger] ps@[j].name@,
        decreases n - i,
    {
        out.push(ps[i].name.clone());
        i += 1;
    }
    proof {
        assert(out@.map_values(|s: String| s@) =~= params_model(ps@).map_values(
            |p: ParamModel| p.name,
        ));
    }
    out
}

impl WitFunctionLatticeTranslationStrategy {
    /// Translate one function served by the provider into its lattice
    /// method, deriving the method name from the interface ident and the
    /// function name. Fails exactly when the function has two or more
    /// parameters under the first-argument strategy.
    pub fn translate_export_fn_for_lattice(
        &self,
        bindgen_cfg: &ProviderBindgenConfig,
        wit_iface_name: String,
        func: WitFunction,
    ) -> (r: Result<(String, LatticeMethod), BindgenError>)
        ensures
            match r {
                Ok(p) => {
                    &&& p.0@ == wit_iface_name@
                    &&& (self is FirstArgument ==> func.params@.len() <= 1 && p.1.model()
                        == first_arg_method_model(
                        method_under_ident(wit_iface_name@, func.name@),
                        func.model(),
                        bindgen_cfg.replace_witified_maps,
                    ))
                    &&& (self is BundleArguments ==> p.1.model() == bundled_method_model(
                        wit_iface_name@,
                        method_under_ident(wit_iface_name@, func.name@),
                        func.model(),
                        bindgen_cfg.replace_witified_maps,
                    ))
                },
                Err(e) => self is FirstArgument && func.params@.len() >= 2 && e
                    == (BindgenError::FirstArgumentArity { func_name: func.name }),
            },
            r is Err <==> (self is FirstArgument && func.params@.len() >= 2),
    {
        let mname = lattice_method_name(wit_iface_name.as_str(), func.name.as_str());
        match self {
            WitFunctionLatticeTranslationStrategy::FirstArgument => {
                Self::translate_export_fn_via_first_arg(bindgen_cfg, wit_iface_name, mname, func)
            },
            WitFunctionLatticeTranslationStrategy::BundleArguments => {
                Self::translate_export_fn_via_bundled_args(bindgen_cfg, wit_iface_name, mname, func)
            },
        }
    }

    /// Translate a function of at most one parameter, reusing the
    /// parameter's own type as the envelope. Fails exactly on two or more
    /// parameters.
    pub fn translate_export_fn_via_first_arg(
        bindgen_cfg: &ProviderBindgenConfig,
        wit_iface_name: String,
        lattice_method_name: String,
        func: WitFunction,
    ) -> (r: Result<(String, LatticeMethod), BindgenError>)
        ensures
            match r {
                Ok(p) => {
                    &&& func.params@.len() <= 1
                    &&& p.0@ == wit_iface_name@
                    &&& p.1.model() == first_arg_method_model(
                        lattice_method_name@,
                        func.model(),
                        bindgen_cfg.replace_witified_maps,
                    )
                },
                Err(e) => func.params@.len() >= 2 && e == (BindgenError::FirstArgumentArity {
                    func_name: func.name,
                }),
            },
            r is Err <==> func.params@.len() >= 2,
    {
        let WitFunction { name, params, ret } = func;
        if params.len() >= 2 {
            return Err(BindgenError::FirstArgumentArity { func_name: name });
        }
        let ps = translate_args(params, bindgen_cfg.replace_witified_maps);
        proof {
            assert(params_model(ps@).len() == params_model(params@).len());
        }
        let envelope_type_name: Option<String> = if ps.len() == 0 {
            None
        } else {
            Some(render_type(&ps[0].ty))
        };
        proof {
            if ps@.len() > 0 {
                assert(params_model(ps@)[0] == ps@[0].model());
            }
        }
        let invocation_arg_names = arg_names_of(&ps);
        let method = LatticeMethod {
            lattice_method_name,
            envelope_type_name,
            struct_members: None,
            func_name: snake_case(name.as_str()),
            invocation_arg_names,
            invocation_return: ret,
        };
        Ok((wit_iface_name, method))
    }

    /// Translate a function of any arity by bundling its parameters into
    /// one synthesized envelope struct; a parameterless function gets no
    /// envelope at all.
    pub fn translate_export_fn_via_bundled_args(
        bindgen_cfg: &ProviderBindgenConfig,
        wit_iface_name: String,
        lattice_method_name: String,
        func: WitFunction,
    ) -> (r: Result<(String, LatticeMethod), BindgenError>)
        ensures
            r is Ok,
            r->Ok_0.0@ == wit_iface_name@,
            r->Ok_0.1.model() == bundled_method_model(
                wit_iface_name@,
                lattice_method_name@,
                func.model(),
                bindgen_cfg.replace_witified_maps,
            ),
    {
        let WitFunction { name, params, ret } = func;
        let n_params = params.len();
        let ps = translate_args(params, bindgen_cfg.replace_witified_maps);
        proof {
            assert(params_model(ps@).len() == params_model(params@).len());
        }
        let invocation_arg_names = arg_names_of(&ps);
        let (envelope_type_name, struct_members): (Option<String>, Option<Vec<Param>>) = if n_params == 0 {
            (None, None)
        } else {
            (Some(invocation_struct_name(wit_iface_name.as_str(), name.as_str())), Some(ps))
        };
        let method = LatticeMethod {
            lattice_method_name,
            envelope_type_name,
            struct_members,
            func_name: snake_case(name.as_str()),
            invocation_arg_names,
            invocation_return: ret,
        };
        Ok((wit_iface_name, method))
    }

    /// Translate one function the provider calls outward into the method
    /// its invocation handler exposes; the translation of the signature is
    /// the same as for a served function.
    pub fn translate_import_fn_for_lattice(
        &self,
        bindgen_cfg: &ProviderBindgenConfig,
        wit_iface_name: String,
        func: WitFunction,
    ) -> (r: Result<LatticeMethod, BindgenError>)
        ensures
            match r {
                Ok(m) => {
                    &&& (self is FirstArgument ==> func.params@.len() <= 1 && m.model()
                        == first_arg_method_model(
                        method_under_ident(wit_iface_name@, func.name@),
                        func.model(),
                        bindgen_cfg.replace_witified_maps,
                    ))
                    &&& (self is BundleArguments ==> m.model() == bundled_method_model(
                        wit_iface_name@,
                        method_under_ident(wit_iface_name@, func.name@),
                        func.model(),
                        bindgen_cfg.replace_witified_maps,
                    ))
                },
                Err(e) => self is FirstArgument && func.params@.len() >= 2 && e
                    == (BindgenError::FirstArgumentArity { func_name: func.name }),
            },
            r is Err <==> (self is FirstArgument && func.params@.len() >= 2),
    {
        match self.translate_export_fn_for_lattice(bindgen_cfg, wit_iface_name, func) {
            Ok(p) => Ok(p.1),
            Err(e) => Err(e),
        }
    }
}

} // verus!
