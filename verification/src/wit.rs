//! The map-convention normalizer: a parameter whose name carries the
//! reserved `_map` suffix and whose type is a sequence of 2-tuples of one
//! element type is rewritten to a plainly named parameter of an
//! associative-mapping type, before any translation step sees it.

use crate::model::Param;
use crate::model::ParamModel;
use crate::ty::clone_type;
use crate::ty::lemma_models_of;
use crate::ty::models_of;
use crate::ty::type_eq;
use crate::ty::TypeModel;
use crate::ty::WitType;
use vstd::prelude::*;
use vstd::string::StrSliceExecFns;

verus! {

/// The reserved name suffix that signals the map convention.
pub open spec fn map_suffix() -> Seq<char> {
    seq!['_', 'm', 'a', 'p']
}

/// Whether a name ends with the reserved `_map` suffix.
pub open spec fn has_map_suffix(s: Seq<char>) -> bool {
    s.len() >= 4 && s.subrange(s.len() - 4, s.len() as int) == map_suffix()
}

/// The name with every trailing `_map` suffix removed.
pub open spec fn strip_map_suffix(s: Seq<char>) -> Seq<char>
    decreases s.len(),
{
    if has_map_suffix(s) {
        strip_map_suffix(s.take(s.len() - 4))
    } else {
        s
    }
}

/// The associative-mapping type a WIT-ified map type stands for: a
/// `list<tuple<t, t>>` maps to a mapping from `t` to `t`; any other type
/// is no WIT-ified map.
pub open spec fn witified_map_model(m: TypeModel) -> Option<TypeModel> {
    match m {
        TypeModel::List(inner) => match *inner {
            TypeModel::Tuple(es) => if es.len() == 2 && es[0] == es[1] {
                Some(TypeModel::MapOf(Box::new(es[0]), Box::new(es[1])))
            } else {
                None
            },
            _ => None,
        },
        _ => None,
    }
}

/// What the normalizer makes of one parameter: a `_map`-suffixed name with
/// a WIT-ified map type becomes the stripped name with the mapping type;
/// anything else is left exactly as it is.
pub open spec fn normalized_param(p: ParamModel) -> ParamModel {
    if has_map_suffix(p.name) && witified_map_model(p.ty) is Some {
        ParamModel { name: strip_map_suffix(p.name), ty: witified_map_model(p.ty)->0 }
    } else {
        p
    }
}

/// Recognize a WIT-ified map type (`list<tuple<t, t>>` with both tuple
/// members the same type) and give back the associative-mapping type it
/// stands for.
pub fn extract_witified_map(ty: &WitType) -> (r: Option<WitType>)
    ensures
        match r {
            Some(m) => witified_map_model(ty.model()) == Some(m.model()),
            None => witified_map_model(ty.model()) is None,
        },
{
    match ty {
        WitType::List(inner) => match &**inner {
            WitType::Tuple(es) => {
                proof {
                    lemma_models_of(es@);
                }
                if es.len() == 2 && type_eq(&es[0], &es[1]) {
                    let k = clone_type(&es[0]);
                    let v = clone_type(&es[1]);
                    let r = Some(WitType::MapOf(Box::new(k), Box::new(v)));
                    proof {
                        let ems = models_of(es@);
                        assert(ems.len() == 2);
                        assert(ems[0] == es@[0].model() && ems[1] == es@[1].model());
                        assert(**inner == WitType::Tuple(*es));
                        assert((**inner).model() == TypeModel::Tuple(ems));
                        assert(*ty == WitType::List(*inner));
                        assert(ty.model() == TypeModel::List(Box::new((**inner).model())));
                        assert(ty.model() == TypeModel::List(Box::new(TypeModel::Tuple(ems))));
                        assert(witified_map_model(ty.model()) == Some(
                            TypeModel::MapOf(Box::new(ems[0]), Box::new(ems[1])),
                        ));
                        assert(r->0.model() == TypeModel::MapOf(
                            Box::new(k.model()),
                            Box::new(v.model()),
                        ));
                    }
                    r
                } else {
                    proof {
                        let ems = models_of(es@);
                        if es@.len() == 2 {
                            assert(ems[0] == es@[0].model() && ems[1] == es@[1].model());
                        }
                    }
                    None
                }
            },
            _ => None,
        },
        _ => None,
    }
}

/// Whether a parameter name ends with the reserved `_map` suffix.
pub fn name_has_map_suffix(s: &str) -> (r: bool)
    ensures
        r == has_map_suffix(s@),
{
    let n = s.unicode_len();
    if n < 4 {
        proof {
            assert(!has_map_suffix(s@));
        }
        return false;
    }
    let r = s.get_char(n - 4) == '_' && s.get_char(n - 3) == 'm' && s.get_char(n - 2) == 'a'
        && s.get_char(n - 1) == 'p';
    proof {
        if r {
            assert(s@.subrange(s@.len() - 4, s@.len() as int) =~= map_suffix());
        } else {
            if s@.subrange(s@.len() - 4, s@.len() as int) == map_suffix() {
                assert(s@[s@.len() - 4] == '_' && s@[s@.len() - 3] == 'm' && s@[s@.len() - 2]
                    == 'a' && s@[s@.len() - 1] == 'p') by {
                    let sub = s@.subrange(s@.len() - 4, s@.len() as int);
                    assert(sub[0] == s@[s@.len() - 4] && sub[1] == s@[s@.len() - 3] && sub[2]
                        == s@[s@.len() - 2] && sub[3] == s@[s@.len() - 1]);
                    assert(sub[0] == '_' && sub[1] == 'm' && sub[2] == 'a' && sub[3] == 'p');
                }
                assert(false);
            }
        }
    }
    r
}

/// Strip every trailing `_map` suffix from a name.
pub fn strip_name_map_suffix(s: &str) -> (r: String)
    ensures
        r@ == strip_map_suffix(s@),
{
    let n = s.unicode_len();
    let mut k: usize = n;
    proof {
        assert(s@.take(n as int) =~= s@);
    }
    while k >= 4 && s.get_char(k - 4) == '_' && s.get_char(k - 3) == 'm' && s.get_char(k - 2)
        == 'a' && s.get_char(k - 1) == 'p'
        invariant
            k <= n == s@.len(),
            strip_map_suffix(s@) == strip_map_suffix(s@.take(k as int)),
        decreases k,
    {
        proof {
            let cur = s@.take(k as int);
            assert(cur.subrange(cur.len() - 4, cur.len() as int) =~= map_suffix()) by {
                let sub = cur.subrange(cur.len() - 4, cur.len() as int);
                assert(sub[0] == s@[k - 4] && sub[1] == s@[k - 3] && sub[2] == s@[k - 2] && sub[3]
                    == s@[k - 1]);
            }
            assert(has_map_suffix(cur));
            assert(cur.take(cur.len() - 4) =~= s@.take(k as int - 4));
        }
        k -= 4;
    }
    proof {
        let cur = s@.take(k as int);
        if has_map_suffix(cur) {
            let sub = cur.subrange(cur.len() - 4, cur.len() as int);
            assert(sub[0] == s@[k - 4] && sub[1] == s@[k - 3] && sub[2] == s@[k - 2] && sub[3]
                == s@[k - 1]);
            assert(sub[0] == '_' && sub[1] == 'm' && sub[2] == 'a' && sub[3] == 'p');
            assert(false);
        }
    }
    let out = s.substring_char(0, k);
    proof {
        assert(out@ =~= s@.take(k as int));
    }
    out.to_owned()
}

/// Process one function argument: apply the map convention where the name
/// and the type both signal it, and pass the argument through untouched
/// otherwise.
pub fn process_fn_arg(arg: Param) -> (r: Param)
    ensures
        r.model() == normalized_param(arg.model()),
        !(has_map_suffix(arg.name@) && witified_map_model(arg.ty.model()) is Some) ==> r == arg,
{
    if !name_has_map_suffix(arg.name.as_str()) {
        return arg;
    }
    match extract_witified_map(&arg.ty) {
        Some(m) => {
            let name = strip_name_map_suffix(arg.name.as_str());
            Param { name, ty: m }
        },
        None => arg,
    }
}

} // verus!
