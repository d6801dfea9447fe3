//! Type deduplication and merge: declarations synthesized in this run are
//! reconciled against declarations already produced upstream by name, and
//! a name that upstream already declares is never re-emitted.

use crate::strutil::str_eq;
use vstd::prelude::*;

verus! {

/// One emitted type declaration: its name and its source text.
pub struct TypeDecl {
    pub name: String,
    pub source: String,
}

/// Spec-level model of a type declaration.
pub struct TypeDeclModel {
    pub name: Seq<char>,
    pub source: Seq<char>,
}

impl TypeDecl {
    /// The mathematical value this declaration stands for.
    pub open spec fn model(self) -> TypeDeclModel {
        TypeDeclModel { name: self.name@, source: self.source@ }
    }
}

/// The models of each declaration in a sequence, in order.
pub open spec fn decls_model(v: Seq<TypeDecl>) -> Seq<TypeDeclModel> {
    v.map_values(|d: TypeDecl| d.model())
}

/// Whether a sequence of declarations holds one under the given name.
pub open spec fn declares(ds: Seq<TypeDeclModel>, name: Seq<char>) -> bool {
    exists|k: int| 0 <= k < ds.len() && #[trigger] ds[k].name == name
}

/// Whether one of the upstream declarations carries this name.
fn upstream_declares(upstream: &Vec<TypeDecl>, name: &str) -> (r: bool)
    ensures
        r == declares(decls_model(upstream@), name@),
{
    let n = upstream.len();
    let mut i: usize = 0;
    while i < n
        invariant
            n == upstream@.len(),
            i <= n,
            forall|k: int| 0 <= k < i ==> #[trigger] decls_model(upstream@)[k].name != name@,
        decreases n - i,
    {
        if str_eq(upstream[i].name.as_str(), name) {
            proof {
                assert(decls_model(upstream@)[i as int].name == name@);
            }
            return true;
        }
        i += 1;
    }
    proof {
        if declares(decls_model(upstream@), name@) {
            let k = choose|k: int|
                0 <= k < decls_model(upstream@).len() && #[trigger] decls_model(upstream@)[k].name
                    == name@;
            assert(false);
        }
    }
    false
}

/// Merge the upstream declarations with the locally synthesized ones:
/// every upstream declaration is kept, in order, and after them exactly
/// those local declarations whose names upstream does not already declare,
/// in order. On a name collision the upstream declaration wins and the
/// local one is dropped.
pub fn merge_type_decls(upstream: Vec<TypeDecl>, local: Vec<TypeDecl>) -> (r: Vec<TypeDecl>)
    ensures
        decls_model(r@) == decls_model(upstream@) + decls_model(local@).filter(
            |d: TypeDeclModel| !declares(decls_model(upstream@), d.name),
        ),
{
    let ghost um = decls_model(upstream@);
    let ghost pred = |d: TypeDeclModel| !declares(um, d.name);
    let ghost lm = decls_model(local@);
    let mut kept: Vec<TypeDecl> = Vec::new();
    let mut rest = local;
    proof {
        reveal(Seq::filter);
        assert(lm.take(0) =~= Seq::<TypeDeclModel>::empty());
        assert(decls_model(kept@) =~= lm.take(0).filter(pred));
        assert(decls_model(rest@) =~= lm.subrange(0, lm.len() as int));
    }
    while rest.len() > 0
        invariant
            um == decls_model(upstream@),
            pred == (|d: TypeDeclModel| !declares(um, d.name)),
            lm == decls_model(local@),
            rest@.len() <= lm.len(),
            decls_model(rest@) == lm.subrange(
                lm.len() - rest@.len(),
                lm.len() as int,
            ),
            decls_model(kept@) == lm.take(lm.len() - rest@.len()).filter(pred),
        decreases rest@.len(),
    {
        let ghost k = lm.len() - rest@.len();
        let ghost rest0 = rest@;
        let d = rest.remove(0);
        proof {
            assert(d.model() == decls_model(rest0)[0]);
            assert(d.model() == lm[k]);
            assert(rest@ == rest0.remove(0));
            assert forall|j: int| 0 <= j < rest@.len() implies #[trigger] decls_model(rest@)[j]
                == lm.subrange(k + 1, lm.len() as int)[j] by {
                assert(rest@[j] == rest0[j + 1]);
                assert(decls_model(rest0)[j + 1] == rest0[j + 1].model());
                assert(decls_model(rest0)[j + 1] == lm.subrange(k, lm.len() as int)[j + 1]);
            }
            assert(decls_model(rest@) =~= lm.subrange(k + 1, lm.len() as int));
            reveal(Seq::filter);
            assert(lm.take(k + 1).drop_last() =~= lm.take(k));
            assert(lm.take(k + 1).last() == lm[k]);
        }
        if !upstream_declares(&upstream, d.name.as_str()) {
            kept.push(d);
            proof {
                assert(decls_model(kept@) =~= lm.take(k + 1).filter(pred));
            }
        } else {
            proof {
                assert(decls_model(kept@) =~= lm.take(k + 1).filter(pred));
            }
        }
    }
    proof {
        assert(lm.take(lm.len() as int) =~= lm);
    }
    let mut out = upstream;
    let mut tail = kept;
    out.append(&mut tail);
    proof {
        assert(decls_model(out@) =~= decls_model(upstream@) + decls_model(local@).filter(pred));
    }
    out
}

} // verus!
