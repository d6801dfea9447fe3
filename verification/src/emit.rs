//! The dual code emitter, structured side: the dispatch table entries that
//! bind method names to deserialize→call→serialize sequences, and the
//! envelope type declarations synthesized for bundled arguments.

use crate::dedup::TypeDecl;
use crate::dedup::TypeDeclModel;
use crate::dedup::decls_model;
use crate::names::snake;
use crate::names::snake_case;
use crate::strategy::LatticeMethod;
use crate::strategy::LatticeMethodModel;
use crate::table::methods_model;
use crate::ty::render_type;
use crate::ty::rendered;
use crate::model::Param;
use crate::model::ParamModel;
use vstd::prelude::*;
use vstd::string::StringExecFns;

verus! {

/// One dispatch table entry: the method name it answers to, the envelope
/// type the payload deserializes into (absent exactly when the function
/// takes no parameters, in which case no deserialization step is emitted),
/// the trait and method that fulfil the call, the argument names that
/// reconstruct the call, and whether they arrive bundled as envelope
/// fields.
pub struct DispatchEntry {
    pub method_name: String,
    pub envelope_type_name: Option<String>,
    pub trait_name: String,
    pub func_name: String,
    pub invocation_arg_names: Vec<String>,
    pub bundled: bool,
}

/// Spec-level model of a dispatch entry.
pub struct DispatchEntryModel {
    pub method_name: Seq<char>,
    pub envelope_type_name: Option<Seq<char>>,
    pub trait_name: Seq<char>,
    pub func_name: Seq<char>,
    pub invocation_arg_names: Seq<Seq<char>>,
    pub bundled: bool,
}

impl DispatchEntry {
    /// The mathematical value this entry stands for.
    pub open spec fn model(self) -> DispatchEntryModel {
        DispatchEntryModel {
            method_name: self.method_name@,
            envelope_type_name: match self.envelope_type_name {
                Some(s) => Some(s@),
                None => None,
            },
            trait_name: self.trait_name@,
            func_name: self.func_name@,
            invocation_arg_names: self.invocation_arg_names@.map_values(|s: String| s@),
            bundled: self.bundled,
        }
    }
}

/// The dispatch entry that fulfils one translated method under one trait.
pub open spec fn entry_of_method(trait_name: Seq<char>, m: LatticeMethodModel) -> DispatchEntryModel {
    DispatchEntryModel {
        method_name: m.lattice_method_name,
        envelope_type_name: m.envelope_type_name,
        trait_name: trait_name,
        func_name: m.func_name,
        invocation_arg_names: m.invocation_arg_names,
        bundled: m.struct_members is Some,
    }
}

/// The dispatch entries of one interface's methods, in order.
pub open spec fn entries_of_iface(trait_name: Seq<char>, ms: Seq<LatticeMethodModel>) -> Seq<
    DispatchEntryModel,
> {
    ms.map_values(|m: LatticeMethodModel| entry_of_method(trait_name, m))
}

/// The dispatch entries of a whole method table, interface by interface in
/// discovery order.
pub open spec fn entries_of_table(t: Seq<(Seq<char>, Seq<LatticeMethodModel>)>) -> Seq<
    DispatchEntryModel,
>
    decreases t.len(),
{
    if t.len() == 0 {
        Seq::empty()
    } else {
        entries_of_table(t.drop_last()) + entries_of_iface(t.last().0, t.last().1)
    }
}

/// The model of a method table.
pub open spec fn table_model_of(t: Seq<(String, Vec<LatticeMethod>)>) -> Seq<
    (Seq<char>, Seq<LatticeMethodModel>),
> {
    t.map_values(|e: (String, Vec<LatticeMethod>)| (e.0@, methods_model(e.1@)))
}

/// The models of a sequence of dispatch entries.
pub open spec fn entry_model_list(es: Seq<DispatchEntry>) -> Seq<DispatchEntryModel> {
    es.map_values(|e: DispatchEntry| e.model())
}

/// Copy the views of a list of names.
fn clone_names(names: &Vec<String>) -> (r: Vec<String>)
    ensures
        r@.map_values(|s: String| s@) == names@.map_values(|s: String| s@),
{
    let mut out: Vec<String> = Vec::new();
    let n = names.len();
    let mut i: usize = 0;
    while i < n
        invariant
            n == names@.len(),
            out@.len() == i <= n,
            forall|j: int| 0 <= j < i ==> out@[j]@ == #[trigger] names@[j]@,
        decreases n - i,
    {
        out.push(names[i].clone());
        i += 1;
    }
    proof {
        assert(out@.map_values(|s: String| s@) =~= names@.map_values(|s: String| s@));
    }
    out
}

/// Build the dispatch table entries for a whole method table: one entry
/// per translated method, in table order, each bound to its interface's
/// trait.
pub fn build_dispatch_entries(table: &Vec<(String, Vec<LatticeMethod>)>) -> (r: Vec<DispatchEntry>)
    ensures
        r@.map_values(|e: DispatchEntry| e.model()) == entries_of_table(table_model_of(table@)),
{
    let ghost tm = table_model_of(table@);
    let mut out: Vec<DispatchEntry> = Vec::new();
    let n = table.len();
    let mut i: usize = 0;
    proof {
        assert(tm.take(0) =~= Seq::<(Seq<char>, Seq<LatticeMethodModel>)>::empty());
        assert(out@.map_values(|e: DispatchEntry| e.model()) =~= entries_of_table(tm.take(0)));
    }
    while i < n
        invariant
            n == table@.len(),
            i <= n,
            tm == table_model_of(table@),
            out@.map_values(|e: DispatchEntry| e.model()) == entries_of_table(tm.take(i as int)),
        decreases n - i,
    {
        let trait_name = &table[i].0;
        let methods = &table[i].1;
        let m = methods.len();
        let mut j: usize = 0;
        proof {
            assert(methods_model(methods@).take(0) =~= Seq::<LatticeMethodModel>::empty());
            assert(entries_of_iface(trait_name@, methods_model(methods@).take(0)) =~= Seq::<
                DispatchEntryModel,
            >::empty());
            assert(out@.map_values(|e: DispatchEntry| e.model()) + entries_of_iface(
                trait_name@,
                methods_model(methods@).take(0),
            ) =~= entries_of_table(tm.take(i as int)));
        }
        while j < m
            invariant
                n == table@.len(),
                i < n,
                m == methods@.len(),
                j <= m,
                tm == table_model_of(table@),
                trait_name == &table@[i as int].0,
                methods == &table@[i as int].1,
                out@.map_values(|e: DispatchEntry| e.model()) == entries_of_table(tm.take(i as int))
                    + entries_of_iface(trait_name@, methods_model(methods@).take(j as int)),
            decreases m - j,
        {
            let lm = &methods[j];
            let entry = DispatchEntry {
                method_name: lm.lattice_method_name.clone(),
                envelope_type_name: match &lm.envelope_type_name {
                    Some(s) => Some(s.clone()),
                    None => None,
                },
                trait_name: trait_name.clone(),
                func_name: lm.func_name.clone(),
                invocation_arg_names: clone_names(&lm.invocation_arg_names),
                bundled: lm.struct_members.is_some(),
            };
            proof {
                assert(methods_model(methods@)[j as int] == lm.model());
                assert(entry.model() == entry_of_method(trait_name@, lm.model()));
            }
            let ghost out0 = out@;
            out.push(entry);
            proof {
                let f = |e: DispatchEntry| e.model();
                let e = entry_of_method(trait_name@, lm.model());
                assert(methods_model(methods@).take(j as int + 1).drop_last() =~= methods_model(
                    methods@,
                ).take(j as int));
                assert(methods_model(methods@).take(j as int + 1).last() == lm.model());
                assert(entries_of_iface(trait_name@, methods_model(methods@).take(j as int + 1))
                    =~= entries_of_iface(trait_name@, methods_model(methods@).take(j as int)).push(
                    e,
                ));
                assert(out@ == out0.push(entry));
                assert(out@.map_values(f) =~= out0.map_values(f).push(e));
                assert(out0.map_values(f).push(e) =~= entries_of_table(tm.take(i as int))
                    + entries_of_iface(trait_name@, methods_model(methods@).take(j as int)).push(
                    e,
                ));
                assert(out@.map_values(f) =~= entries_of_table(tm.take(i as int))
                    + entries_of_iface(trait_name@, methods_model(methods@).take(j as int + 1)));
            }
            j += 1;
        }
        proof {
            assert(methods_model(methods@).take(m as int) =~= methods_model(methods@));
            assert(tm.take(i as int + 1).drop_last() =~= tm.take(i as int));
            assert(tm.take(i as int + 1).last() == (trait_name@, methods_model(methods@)));
            assert(entries_of_table(tm.take(i as int + 1)) == entries_of_table(tm.take(i as int))
                + entries_of_iface(trait_name@, methods_model(methods@)));
        }
        i += 1;
    }
    proof {
        assert(tm.take(n as int) =~= tm);
    }
    out
}

/// The envelope declaration synthesized for one bundled method.
pub open spec fn envelope_decl_of(m: LatticeMethodModel) -> TypeDeclModel {
    TypeDeclModel {
        name: m.envelope_type_name->0,
        source: struct_source_of(m.envelope_type_name->0, m.struct_members->0),
    }
}

/// The source text of a synthesized envelope struct: a serializable plain
/// record with one public field per bundled parameter, in order.
pub open spec fn struct_source_of(name: Seq<char>, members: Seq<ParamModel>) -> Seq<char> {
    "#[derive(Debug, serde::Serialize, serde::Deserialize)]\npub struct "@ + name + " {\n"@
        + fields_source(members) + "}\n"@
}

/// The field lines of an envelope struct, in order.
pub open spec fn fields_source(members: Seq<ParamModel>) -> Seq<char>
    decreases members.len(),
{
    if members.len() == 0 {
        Seq::empty()
    } else {
        fields_source(members.drop_last()) + field_line(members.last())
    }
}

/// One field line of an envelope struct.
pub open spec fn field_line(p: ParamModel) -> Seq<char> {
    "    pub "@ + snake(p.name) + ": "@ + rendered(p.ty) + ",\n"@
}

/// The envelope declarations of a sequence of methods: one declaration per
/// method that bundles its parameters, in order.
pub open spec fn envelope_decls_of(ms: Seq<LatticeMethodModel>) -> Seq<TypeDeclModel>
    decreases ms.len(),
{
    if ms.len() == 0 {
        Seq::empty()
    } else {
        envelope_decls_of(ms.drop_last()) + if ms.last().struct_members is Some
            && ms.last().envelope_type_name is Some {
            seq![envelope_decl_of(ms.last())]
        } else {
            Seq::empty()
        }
    }
}

/// Render the field lines of an envelope struct.
fn render_fields(members: &Vec<Param>) -> (r: String)
    ensures
        r@ == fields_source(members@.map_values(|p: Param| p.model())),
{
    let ghost mm = members@.map_values(|p: Param| p.model());
    let mut out = String::new();
    let n = members.len();
    let mut i: usize = 0;
    proof {
        assert(mm.take(0) =~= Seq::<ParamModel>::empty());
        assert(out@ =~= fields_source(mm.take(0)));
    }
    while i < n
        invariant
            n == members@.len(),
            i <= n,
            mm == members@.map_values(|p: Param| p.model()),
            out@ == fields_source(mm.take(i as int)),
        decreases n - i,
    {
        out.append("    pub ");
        let fname = snake_case(members[i].name.as_str());
        out.append(fname.as_str());
        out.append(": ");
        let ft = render_type(&members[i].ty);
        out.append(ft.as_str());
        out.append(",\n");
        proof {
            assert(mm.take(i as int + 1).drop_last() =~= mm.take(i as int));
            assert(mm.take(i as int + 1).last() == mm[i as int]);
            assert(mm[i as int] == members@[i as int].model());
            assert(out@ =~= fields_source(mm.take(i as int + 1)));
        }
        i += 1;
    }
    proof {
        assert(mm.take(n as int) =~= mm);
    }
    out
}

/// Build the envelope struct declarations for the methods of one run: one
/// serializable record per bundled method.
pub fn build_envelope_decls(methods: &Vec<LatticeMethod>) -> (r: Vec<TypeDecl>)
    ensures
        decls_model(r@) == envelope_decls_of(methods_model(methods@)),
{
    let ghost ms = methods_model(methods@);
    let mut out: Vec<TypeDecl> = Vec::new();
    let n = methods.len();
    let mut i: usize = 0;
    proof {
        assert(ms.take(0) =~= Seq::<LatticeMethodModel>::empty());
        assert(decls_model(out@) =~= envelope_decls_of(ms.take(0)));
    }
    while i < n
        invariant
            n == methods@.len(),
            i <= n,
            ms == methods_model(methods@),
            decls_model(out@) == envelope_decls_of(ms.take(i as int)),
        decreases n - i,
    {
        let lm = &methods[i];
        proof {
            assert(ms[i as int] == lm.model());
            assert(ms.take(i as int + 1).drop_last() =~= ms.take(i as int));
            assert(ms.take(i as int + 1).last() == lm.model());
        }
        match (&lm.envelope_type_name, &lm.struct_members) {
            (Some(tname), Some(members)) => {
                let mut source =
                    "#[derive(Debug, serde::Serialize, serde::Deserialize)]\npub struct ".to_owned();
                source.append(tname.as_str());
                source.append(" {\n");
                let fields = render_fields(members);
                source.append(fields.as_str());
                source.append("}\n");
                let decl = TypeDecl { name: tname.clone(), source };
                proof {
                    assert(decl.model() == envelope_decl_of(lm.model()));
                }
                out.push(decl);
                proof {
                    assert(decls_model(out@) =~= envelope_decls_of(ms.take(i as int + 1)));
                }
            },
            _ => {
                proof {
                    assert(decls_model(out@) =~= envelope_decls_of(ms.take(i as int + 1)));
                }
            },
        }
        i += 1;
    }
    proof {
        assert(ms.take(n as int) =~= ms);
    }
    out
}

} // verus!
