//! The dual code emitter, text side: rendering the generated bindings as
//! source text — envelope type declarations, one capability trait per
//! interface, the dispatch function, and the invocation handler for
//! outward calls.

use crate::dedup::TypeDecl;
use crate::dedup::TypeDeclModel;
use crate::dedup::decls_model;
use crate::emit::DispatchEntry;
use crate::emit::DispatchEntryModel;
use crate::emit::entry_model_list;
use crate::emit::table_model_of;
use crate::names::snake;
use crate::names::snake_case;
use crate::strategy::LatticeMethod;
use crate::strategy::LatticeMethodModel;
use crate::table::methods_model;
use crate::ty::render_type;
use crate::ty::rendered;
use crate::ty::TypeModel;
use crate::model::Param;
use crate::model::ParamModel;
use vstd::prelude::*;
use vstd::string::StringExecFns;

verus! {

/// The concatenated source of a list of type declarations, in order.
pub open spec fn types_source(ds: Seq<TypeDeclModel>) -> Seq<char>
    decreases ds.len(),
{
    if ds.len() == 0 {
        Seq::empty()
    } else {
        types_source(ds.drop_last()) + ds.last().source
    }
}

/// Render the type declarations.
pub fn render_types(ds: &Vec<TypeDecl>) -> (r: String)
    ensures
        r@ == types_source(decls_model(ds@)),
{
    let ghost dm = decls_model(ds@);
    let mut out = String::new();
    let n = ds.len();
    let mut i: usize = 0;
    proof {
        assert(dm.take(0) =~= Seq::<TypeDeclModel>::empty());
        assert(out@ =~= types_source(dm.take(0)));
    }
    while i < n
        invariant
            n == ds@.len(),
            i <= n,
            dm == decls_model(ds@),
            out@ == types_source(dm.take(i as int)),
        decreases n - i,
    {
        out.append(ds[i].source.as_str());
        proof {
            assert(dm.take(i as int + 1).drop_last() =~= dm.take(i as int));
            assert(dm.take(i as int + 1).last() == dm[i as int]);
            assert(dm[i as int] == ds@[i as int].model());
            assert(out@ =~= types_source(dm.take(i as int + 1)));
        }
        i += 1;
    }
    proof {
        assert(dm.take(n as int) =~= dm);
    }
    out
}

/// The typed argument list of a generated method, after the context
/// argument: the bundled parameters each by name and type, a single plain
/// parameter by name and envelope type, and nothing for a parameterless
/// function.
pub open spec fn sig_args_source(m: LatticeMethodModel) -> Seq<char> {
    match m.struct_members {
        Some(ms) => params_sig_source(ms),
        None => if m.invocation_arg_names.len() == 1 {
            ", "@ + snake(m.invocation_arg_names[0]) + ": "@ + (match m.envelope_type_name {
                Some(t) => t,
                None => "()"@,
            })
        } else {
            Seq::empty()
        },
    }
}

/// The typed argument list of bundled parameters, in order.
pub open spec fn params_sig_source(ms: Seq<ParamModel>) -> Seq<char>
    decreases ms.len(),
{
    if ms.len() == 0 {
        Seq::empty()
    } else {
        params_sig_source(ms.drop_last()) + ", "@ + snake(ms.last().name) + ": "@ + rendered(
            ms.last().ty,
        )
    }
}

/// The return type of a generated method, where the function declares one.
pub open spec fn ret_source(r: Option<TypeModel>) -> Seq<char> {
    match r {
        Some(t) => " -> "@ + rendered(t),
        None => Seq::empty(),
    }
}

/// Render the typed argument list of bundled parameters.
fn render_params_sig(ms: &Vec<Param>) -> (r: String)
    ensures
        r@ == params_sig_source(ms@.map_values(|p: Param| p.model())),
{
    let ghost mm = ms@.map_values(|p: Param| p.model());
    let mut out = String::new();
    let n = ms.len();
    let mut i: usize = 0;
    proof {
        assert(mm.take(0) =~= Seq::<ParamModel>::empty());
        assert(out@ =~= params_sig_source(mm.take(0)));
    }
    while i < n
        invariant
            n == ms@.len(),
            i <= n,
            mm == ms@.map_values(|p: Param| p.model()),
            out@ == params_sig_source(mm.take(i as int)),
        decreases n - i,
    {
        out.append(", ");
        let pn = snake_case(ms[i].name.as_str());
        out.append(pn.as_str());
        out.append(": ");
        let pt = render_type(&ms[i].ty);
        out.append(pt.as_str());
        proof {
            assert(mm.take(i as int + 1).drop_last() =~= mm.take(i as int));
            assert(mm.take(i as int + 1).last() == mm[i as int]);
            assert(mm[i as int] == ms@[i as int].model());
            assert(out@ =~= params_sig_source(mm.take(i as int + 1)));
        }
        i += 1;
    }
    proof {
        assert(mm.take(n as int) =~= mm);
    }
    out
}

/// Render the typed argument list of a generated method.
fn render_sig_args(m: &LatticeMethod) -> (r: String)
    ensures
        r@ == sig_args_source(m.model()),
{
    match &m.struct_members {
        Some(ms) => render_params_sig(ms),
        None => {
            if m.invocation_arg_names.len() == 1 {
                let mut out = ", ".to_owned();
                let an = snake_case(m.invocation_arg_names[0].as_str());
                out.append(an.as_str());
                out.append(": ");
                match &m.envelope_type_name {
                    Some(t) => {
                        out.append(t.as_str());
                    },
                    None => {
                        out.append("()");
                    },
                }
                proof {
                    assert(m.model().invocation_arg_names[0] == m.invocation_arg_names@[0]@);
                }
                out
            } else {
                String::new()
            }
        },
    }
}

/// Render the return type of a generated method.
fn render_ret(r: &Option<crate::ty::WitType>) -> (s: String)
    ensures
        s@ == ret_source(
            match *r {
                Some(t) => Some(t.model()),
                None => None,
            },
        ),
{
    match r {
        Some(t) => {
            let mut out = " -> ".to_owned();
            let rt = render_type(t);
            out.append(rt.as_str());
            out
        },
        None => String::new(),
    }
}

/// One trait method declaration of a capability trait.
pub open spec fn trait_method_source(m: LatticeMethodModel) -> Seq<char> {
    "    async fn "@ + m.func_name + "(&self, ctx: Context"@ + sig_args_source(m) + ")"@
        + ret_source(m.invocation_return) + ";\n"@
}

/// The trait method declarations of one interface, in order.
pub open spec fn trait_methods_source(ms: Seq<LatticeMethodModel>) -> Seq<char>
    decreases ms.len(),
{
    if ms.len() == 0 {
        Seq::empty()
    } else {
        trait_methods_source(ms.drop_last()) + trait_method_source(ms.last())
    }
}

/// One capability trait: the contract id and one asynchronous method per
/// lattice method of the interface.
pub open spec fn trait_source(
    name: Seq<char>,
    contract: Seq<char>,
    ms: Seq<LatticeMethodModel>,
) -> Seq<char> {
    "pub trait "@ + name + " {\n    fn contract_id() -> &'static str {\n        \""@ + contract
        + "\"\n    }\n"@ + trait_methods_source(ms) + "}\n"@
}

/// The capability traits of a whole method table, in discovery order.
pub open spec fn traits_source(
    t: Seq<(Seq<char>, Seq<LatticeMethodModel>)>,
    contract: Seq<char>,
) -> Seq<char>
    decreases t.len(),
{
    if t.len() == 0 {
        Seq::empty()
    } else {
        traits_source(t.drop_last(), contract) + trait_source(t.last().0, contract, t.last().1)
    }
}

/// Render the capability traits for the method table.
#[verifier::rlimit(100)]
pub fn render_traits(table: &Vec<(String, Vec<LatticeMethod>)>, contract: &str) -> (r: String)
    ensures
        r@ == traits_source(table_model_of(table@), contract@),
{
    let ghost tm = table_model_of(table@);
    let mut out = String::new();
    let n = table.len();
    let mut i: usize = 0;
    proof {
        assert(tm.take(0) =~= Seq::<(Seq<char>, Seq<LatticeMethodModel>)>::empty());
        assert(out@ =~= traits_source(tm.take(0), contract@));
    }
    while i < n
        invariant
            n == table@.len(),
            i <= n,
            tm == table_model_of(table@),
            out@ == traits_source(tm.take(i as int), contract@),
        decreases n - i,
    {
        out.append("pub trait ");
        out.append(table[i].0.as_str());
        out.append(" {\n    fn contract_id() -> &'static str {\n        \"");
        out.append(contract);
        out.append("\"\n    }\n");
        let methods = &table[i].1;
        let m = methods.len();
        let mut j: usize = 0;
        proof {
            assert(methods_model(methods@).take(0) =~= Seq::<LatticeMethodModel>::empty());
            assert(trait_methods_source(methods_model(methods@).take(0)) =~= Seq::<char>::empty());
        }
        let mut body = String::new();
        while j < m
            invariant
                m == methods@.len(),
                j <= m,
                body@ == trait_methods_source(methods_model(methods@).take(j as int)),
            decreases m - j,
        {
            body.append("    async fn ");
            body.append(methods[j].func_name.as_str());
            body.append("(&self, ctx: Context");
            let sa = render_sig_args(&methods[j]);
            body.append(sa.as_str());
            body.append(")");
            let rt = render_ret(&methods[j].invocation_return);
            body.append(rt.as_str());
            body.append(";\n");
            proof {
                let ms = methods_model(methods@);
                assert(ms.take(j as int + 1).drop_last() =~= ms.take(j as int));
                assert(ms.take(j as int + 1).last() == ms[j as int]);
                assert(ms[j as int] == methods@[j as int].model());
                assert(body@ =~= trait_methods_source(ms.take(j as int + 1)));
            }
            j += 1;
        }
        out.append(body.as_str());
        out.append("}\n");
        proof {
            let ms = methods_model(methods@);
            assert(ms.take(m as int) =~= ms);
            assert(tm.take(i as int + 1).drop_last() =~= tm.take(i as int));
            assert(tm.take(i as int + 1).last() == (table@[i as int].0@, ms));
            assert(out@ =~= traits_source(tm.take(i as int + 1), contract@));
        }
        i += 1;
    }
    proof {
        assert(tm.take(n as int) =~= tm);
    }
    out
}

/// The argument expressions that reconstruct a call inside a dispatch arm:
/// the fields of the deserialized envelope for bundled arguments, the
/// whole deserialized input for a single plain argument, and nothing for
/// a parameterless function.
pub open spec fn arm_args_source(e: DispatchEntryModel) -> Seq<char> {
    if e.bundled {
        bundled_args_source(e.invocation_arg_names)
    } else if e.invocation_arg_names.len() == 1 {
        ", input"@
    } else {
        Seq::empty()
    }
}

/// Field accesses into the deserialized envelope, in order.
pub open spec fn bundled_args_source(names: Seq<Seq<char>>) -> Seq<char>
    decreases names.len(),
{
    if names.len() == 0 {
        Seq::empty()
    } else {
        bundled_args_source(names.drop_last()) + ", input."@ + snake(names.last())
    }
}

/// One dispatch arm: deserialize the payload into the envelope type where
/// one exists, call the trait method, and serialize the result.
pub open spec fn arm_source(e: DispatchEntryModel) -> Seq<char> {
    "            \""@ + e.method_name + "\" => {\n"@ + (match e.envelope_type_name {
        Some(t) => "                let input: "@ + t + " = deserialize(&body)?;\n"@,
        None => Seq::empty(),
    }) + "                let result = "@ + e.trait_name + "::"@ + e.func_name
        + "(self, ctx"@ + arm_args_source(e) + ").await;\n                Ok(serialize(&result)?)\n            }\n"@
}

/// The dispatch arms, in table order.
pub open spec fn arms_source(es: Seq<DispatchEntryModel>) -> Seq<char>
    decreases es.len(),
{
    if es.len() == 0 {
        Seq::empty()
    } else {
        arms_source(es.drop_last()) + arm_source(es.last())
    }
}

/// The dispatch function: a match over the method name whose arms fulfil
/// the known methods and whose default answers an unknown method name with
/// the distinguished malformed-invocation error.
pub open spec fn dispatch_source(es: Seq<DispatchEntryModel>) -> Seq<char> {
    "    async fn dispatch(&self, ctx: Context, method: String, body: &[u8]) -> InvocationResult<Vec<u8>> {\n        match method.as_str() {\n"@
        + arms_source(es)
        + "            _ => Err(InvocationError::Malformed(method)),\n        }\n    }\n"@
}

/// Render the field accesses of a bundled dispatch arm.
fn render_bundled_args(names: &Vec<String>) -> (r: String)
    ensures
        r@ == bundled_args_source(names@.map_values(|s: String| s@)),
{
    let ghost nm = names@.map_values(|s: String| s@);
    let mut out = String::new();
    let n = names.len();
    let mut i: usize = 0;
    proof {
        assert(nm.take(0) =~= Seq::<Seq<char>>::empty());
        assert(out@ =~= bundled_args_source(nm.take(0)));
    }
    while i < n
        invariant
            n == names@.len(),
            i <= n,
            nm == names@.map_values(|s: String| s@),
            out@ == bundled_args_source(nm.take(i as int)),
        decreases n - i,
    {
        out.append(", input.");
        let an = snake_case(names[i].as_str());
        out.append(an.as_str());
        proof {
            assert(nm.take(i as int + 1).drop_last() =~= nm.take(i as int));
            assert(nm.take(i as int + 1).last() == nm[i as int]);
            assert(nm[i as int] == names@[i as int]@);
            assert(out@ =~= bundled_args_source(nm.take(i as int + 1)));
        }
        i += 1;
    }
    proof {
        assert(nm.take(n as int) =~= nm);
    }
    out
}

/// Render the dispatch function for the table's entries.
#[verifier::rlimit(100)]
pub fn render_dispatch(entries: &Vec<DispatchEntry>) -> (r: String)
    ensures
        r@ == dispatch_source(entry_model_list(entries@)),
{
    let ghost em = entry_model_list(entries@);
    let mut arms = String::new();
    let n = entries.len();
    let mut i: usize = 0;
    proof {
        assert(em.take(0) =~= Seq::<DispatchEntryModel>::empty());
        assert(arms@ =~= arms_source(em.take(0)));
    }
    while i < n
        invariant
            n == entries@.len(),
            i <= n,
            em == entry_model_list(entries@),
            arms@ == arms_source(em.take(i as int)),
        decreases n - i,
    {
        let e = &entries[i];
        arms.append("            \"");
        arms.append(e.method_name.as_str());
        arms.append("\" => {\n");
        match &e.envelope_type_name {
            Some(t) => {
                arms.append("                let input: ");
                arms.append(t.as_str());
                arms.append(" = deserialize(&body)?;\n");
            },
            None => {},
        }
        arms.append("                let result = ");
        arms.append(e.trait_name.as_str());
        arms.append("::");
        arms.append(e.func_name.as_str());
        arms.append("(self, ctx");
        if e.bundled {
            let ba = render_bundled_args(&e.invocation_arg_names);
            arms.append(ba.as_str());
        } else if e.invocation_arg_names.len() == 1 {
            arms.append(", input");
        }
        arms.append(").await;\n                Ok(serialize(&result)?)\n            }\n");
        proof {
            assert(em.take(i as int + 1).drop_last() =~= em.take(i as int));
            assert(em.take(i as int + 1).last() == em[i as int]);
            assert(em[i as int] == entries@[i as int].model());
            assert(arms@ =~= arms_source(em.take(i as int + 1)));
        }
        i += 1;
    }
    proof {
        assert(em.take(n as int) =~= em);
    }
    let mut out =
        "    async fn dispatch(&self, ctx: Context, method: String, body: &[u8]) -> InvocationResult<Vec<u8>> {\n        match method.as_str() {\n".to_owned();
    out.append(arms.as_str());
    out.append("            _ => Err(InvocationError::Malformed(method)),\n        }\n    }\n");
    out
}

/// The struct-literal shorthand that rebuilds an envelope from the
/// generated method's arguments, field by field in order.
pub open spec fn bundled_init_source(names: Seq<Seq<char>>) -> Seq<char>
    decreases names.len(),
{
    if names.len() == 0 {
        Seq::empty()
    } else {
        bundled_init_source(names.drop_last()) + snake(names.last()) + ", "@
    }
}

/// The payload expression one invocation-handler method serializes: the
/// envelope literal for bundled arguments, the single argument itself, or
/// the unit value for a parameterless function.
pub open spec fn payload_source(m: LatticeMethodModel) -> Seq<char> {
    match m.struct_members {
        Some(ms) => (match m.envelope_type_name {
            Some(t) => t,
            None => Seq::empty(),
        }) + " { "@ + bundled_init_source(m.invocation_arg_names) + "}"@,
        None => if m.invocation_arg_names.len() == 1 {
            snake(m.invocation_arg_names[0])
        } else {
            "()"@
        },
    }
}

/// One invocation-handler method: serialize the arguments into the
/// envelope shape, send it through the link, and deserialize the response
/// into the declared return type.
pub open spec fn client_method_source(m: LatticeMethodModel) -> Seq<char> {
    "    pub async fn "@ + m.func_name + "(&self"@ + sig_args_source(m)
        + ") -> InvocationResult<"@ + (match m.invocation_return {
        Some(t) => rendered(t),
        None => "()"@,
    }) + "> {\n        let body = serialize(&"@ + payload_source(m)
        + ")?;\n        let response = send(self.ld, \""@ + m.lattice_method_name
        + "\", body).await?;\n        Ok(deserialize(&response)?)\n    }\n"@
}

/// The invocation-handler methods, in discovery order.
pub open spec fn client_methods_source(ms: Seq<LatticeMethodModel>) -> Seq<char>
    decreases ms.len(),
{
    if ms.len() == 0 {
        Seq::empty()
    } else {
        client_methods_source(ms.drop_last()) + client_method_source(ms.last())
    }
}

/// The invocation handler: a link-addressed handle with one method per
/// imported function.
pub open spec fn handler_source(ms: Seq<LatticeMethodModel>) -> Seq<char> {
    "pub struct InvocationHandler<'a> {\n    ld: &'a LinkDefinition,\n}\n\nimpl<'a> InvocationHandler<'a> {\n    pub fn new(ld: &'a LinkDefinition) -> Self {\n        Self { ld }\n    }\n"@
        + client_methods_source(ms) + "}\n"@
}

/// Render the envelope literal shorthand for one bundled client method.
fn render_bundled_init(names: &Vec<String>) -> (r: String)
    ensures
        r@ == bundled_init_source(names@.map_values(|s: String| s@)),
{
    let ghost nm = names@.map_values(|s: String| s@);
    let mut out = String::new();
    let n = names.len();
    let mut i: usize = 0;
    proof {
        assert(nm.take(0) =~= Seq::<Seq<char>>::empty());
        assert(out@ =~= bundled_init_source(nm.take(0)));
    }
    while i < n
        invariant
            n == names@.len(),
            i <= n,
            nm == names@.map_values(|s: String| s@),
            out@ == bundled_init_source(nm.take(i as int)),
        decreases n - i,
    {
        let an = snake_case(names[i].as_str());
        out.append(an.as_str());
        out.append(", ");
        proof {
            assert(nm.take(i as int + 1).drop_last() =~= nm.take(i as int));
            assert(nm.take(i as int + 1).last() == nm[i as int]);
            assert(nm[i as int] == names@[i as int]@);
            assert(out@ =~= bundled_init_source(nm.take(i as int + 1)));
        }
        i += 1;
    }
    proof {
        assert(nm.take(n as int) =~= nm);
    }
    out
}

/// Render the invocation handler for the imported interfaces' methods.
#[verifier::rlimit(100)]
pub fn render_handler(methods: &Vec<LatticeMethod>) -> (r: String)
    ensures
        r@ == handler_source(methods_model(methods@)),
{
    let ghost ms = methods_model(methods@);
    let mut body = String::new();
    let n = methods.len();
    let mut i: usize = 0;
    proof {
        assert(ms.take(0) =~= Seq::<LatticeMethodModel>::empty());
        assert(body@ =~= client_methods_source(ms.take(0)));
    }
    while i < n
        invariant
            n == methods@.len(),
            i <= n,
            ms == methods_model(methods@),
            body@ == client_methods_source(ms.take(i as int)),
        decreases n - i,
    {
        let m = &methods[i];
        body.append("    pub async fn ");
        body.append(m.func_name.as_str());
        body.append("(&self");
        let sa = render_sig_args(m);
        body.append(sa.as_str());
        body.append(") -> InvocationResult<");
        match &m.invocation_return {
            Some(t) => {
                let rt = render_type(t);
                body.append(rt.as_str());
            },
            None => {
                body.append("()");
            },
        }
        body.append("> {\n        let body = serialize(&");
        match &m.struct_members {
            Some(_) => {
                match &m.envelope_type_name {
                    Some(t) => {
                        body.append(t.as_str());
                    },
                    None => {},
                }
                body.append(" { ");
                let init = render_bundled_init(&m.invocation_arg_names);
                body.append(init.as_str());
                body.append("}");
            },
            None => {
                if m.invocation_arg_names.len() == 1 {
                    let an = snake_case(m.invocation_arg_names[0].as_str());
                    body.append(an.as_str());
                    proof {
                        assert(ms[i as int].invocation_arg_names[0]
                            == m.invocation_arg_names@[0]@);
                    }
                } else {
                    body.append("()");
                }
            },
        }
        body.append(")?;\n        let response = send(self.ld, \"");
        body.append(m.lattice_method_name.as_str());
        body.append("\", body).await?;\n        Ok(deserialize(&response)?)\n    }\n");
        proof {
            assert(ms.take(i as int + 1).drop_last() =~= ms.take(i as int));
            assert(ms.take(i as int + 1).last() == ms[i as int]);
            assert(ms[i as int] == methods@[i as int].model());
            assert(body@ =~= client_methods_source(ms.take(i as int + 1)));
        }
        i += 1;
    }
    proof {
        assert(ms.take(n as int) =~= ms);
    }
    let mut out =
        "pub struct InvocationHandler<'a> {\n    ld: &'a LinkDefinition,\n}\n\nimpl<'a> InvocationHandler<'a> {\n    pub fn new(ld: &'a LinkDefinition) -> Self {\n        Self { ld }\n    }\n".to_owned();
    out.append(body.as_str());
    out.append("}\n");
    out
}

/// The whole generated artifact: the merged type declarations, the
/// capability traits, the dispatch implementation for the provider
/// struct, and the invocation handler.
pub open spec fn bindings_source(
    types: Seq<TypeDeclModel>,
    table: Seq<(Seq<char>, Seq<LatticeMethodModel>)>,
    entries: Seq<DispatchEntryModel>,
    client_methods: Seq<LatticeMethodModel>,
    contract: Seq<char>,
    impl_struct: Seq<char>,
) -> Seq<char> {
    types_source(types) + traits_source(table, contract) + "impl MessageDispatch for "@
        + impl_struct + " {\n"@ + dispatch_source(entries) + "}\n"@ + handler_source(
        client_methods,
    )
}

/// Render the whole generated artifact.
pub fn render_bindings(
    types: &Vec<TypeDecl>,
    table: &Vec<(String, Vec<LatticeMethod>)>,
    entries: &Vec<DispatchEntry>,
    client_methods: &Vec<LatticeMethod>,
    contract: &str,
    impl_struct: &str,
) -> (r: String)
    ensures
        r@ == bindings_source(
            decls_model(types@),
            table_model_of(table@),
            entry_model_list(entries@),
            methods_model(client_methods@),
            contract@,
            impl_struct@,
        ),
{
    let mut out = render_types(types);
    let traits = render_traits(table, contract);
    out.append(traits.as_str());
    out.append("impl MessageDispatch for ");
    out.append(impl_struct);
    out.append(" {\n");
    let dispatch = render_dispatch(entries);
    out.append(dispatch.as_str());
    out.append("}\n");
    let handler = render_handler(client_methods);
    out.append(handler.as_str());
    out
}

} // verus!
