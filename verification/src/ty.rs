//! The structural model of WIT types that the generator works over,
//! and its mathematical view.

use vstd::prelude::*;
use vstd::string::StrSliceExecFns;
use vstd::string::StringExecFns;

verus! {

/// Spec-level model of a WIT type: the mathematical value that a
/// [`WitType`] stands for.
pub enum TypeModel {
    Bool,
    U8,
    U16,
    U32,
    U64,
    S8,
    S16,
    S32,
    S64,
    Char,
    Str,
    /// A reference to a declared type (record, variant, alias) by name.
    Named(Seq<char>),
    List(Box<TypeModel>),
    Tuple(Seq<TypeModel>),
    Optional(Box<TypeModel>),
    Fallible(Option<Box<TypeModel>>, Option<Box<TypeModel>>),
    /// An associative mapping, produced by the map-convention normalizer.
    MapOf(Box<TypeModel>, Box<TypeModel>),
}

/// A WIT type as the generator holds it: booleans, integers, chars and
/// strings, named type references, lists, tuples, options, results, and
/// the associative-mapping type that the normalizer introduces.
pub enum WitType {
    Bool,
    U8,
    U16,
    U32,
    U64,
    S8,
    S16,
    S32,
    S64,
    Char,
    Str,
    Named(String),
    List(Box<WitType>),
    Tuple(Vec<WitType>),
    Optional(Box<WitType>),
    Fallible(Option<Box<WitType>>, Option<Box<WitType>>),
    MapOf(Box<WitType>, Box<WitType>),
}

/// The models of each type in a sequence, in order.
pub open spec fn models_of(ts: Seq<WitType>) -> Seq<TypeModel>
    decreases ts,
{
    if ts.len() == 0 {
        Seq::empty()
    } else {
        seq![ts[0].model()] + models_of(ts.drop_first())
    }
}

impl WitType {
    /// The mathematical value this type stands for.
    pub open spec fn model(self) -> TypeModel
        decreases self,
    {
        match self {
            WitType::Bool => TypeModel::Bool,
            WitType::U8 => TypeModel::U8,
            WitType::U16 => TypeModel::U16,
            WitType::U32 => TypeModel::U32,
            WitType::U64 => TypeModel::U64,
            WitType::S8 => TypeModel::S8,
            WitType::S16 => TypeModel::S16,
            WitType::S32 => TypeModel::S32,
            WitType::S64 => TypeModel::S64,
            WitType::Char => TypeModel::Char,
            WitType::Str => TypeModel::Str,
            WitType::Named(n) => TypeModel::Named(n@),
            WitType::List(t) => TypeModel::List(Box::new(t.model())),
            WitType::Tuple(ts) => TypeModel::Tuple(models_of(ts@)),
            WitType::Optional(t) => TypeModel::Optional(Box::new(t.model())),
            WitType::Fallible(ok, err) => TypeModel::Fallible(
                match ok {
                    Some(t) => Some(Box::new(t.model())),
                    None => None,
                },
                match err {
                    Some(t) => Some(Box::new(t.model())),
                    None => None,
                },
            ),
            WitType::MapOf(k, v) => TypeModel::MapOf(Box::new(k.model()), Box::new(v.model())),
        }
    }
}

/// `models_of` maps each element of the sequence to its model, in place.
pub proof fn lemma_models_of(ts: Seq<WitType>)
    ensures
        models_of(ts).len() == ts.len(),
        forall|i: int| 0 <= i < ts.len() ==> models_of(ts)[i] == ts[i].model(),
    decreases ts,
{
    if ts.len() > 0 {
        lemma_models_of(ts.drop_first());
        assert forall|i: int| 0 <= i < ts.len() implies models_of(ts)[i] == ts[i].model() by {
            if i > 0 {
                assert(ts.drop_first()[i - 1] == ts[i]);
            }
        }
    }
}

/// Decide whether two WIT types stand for the same mathematical type.
pub fn type_eq(a: &WitType, b: &WitType) -> (r: bool)
    ensures
        r == (a.model() == b.model()),
    decreases *a, 1int,
{
    match (a, b) {
        (WitType::Bool, WitType::Bool) => true,
        (WitType::U8, WitType::U8) => true,
        (WitType::U16, WitType::U16) => true,
        (WitType::U32, WitType::U32) => true,
        (WitType::U64, WitType::U64) => true,
        (WitType::S8, WitType::S8) => true,
        (WitType::S16, WitType::S16) => true,
        (WitType::S32, WitType::S32) => true,
        (WitType::S64, WitType::S64) => true,
        (WitType::Char, WitType::Char) => true,
        (WitType::Str, WitType::Str) => true,
        (WitType::Named(m), WitType::Named(n)) => crate::strutil::str_eq(m.as_str(), n.as_str()),
        (WitType::List(s), WitType::List(t)) => type_eq(s, t),
        (WitType::Tuple(xs), WitType::Tuple(ys)) => tuple_elems_eq(a, xs, ys),
        (WitType::Optional(s), WitType::Optional(t)) => type_eq(s, t),
        (WitType::Fallible(ok1, err1), WitType::Fallible(ok2, err2)) => {
            let oks = match (ok1, ok2) {
                (Some(s), Some(t)) => type_eq(s, t),
                (None, None) => true,
                _ => false,
            };
            let errs = match (err1, err2) {
                (Some(s), Some(t)) => type_eq(s, t),
                (None, None) => true,
                _ => false,
            };
            oks && errs
        },
        (WitType::MapOf(k1, v1), WitType::MapOf(k2, v2)) => type_eq(k1, k2) && type_eq(v1, v2),
        _ => false,
    }
}

/// Element-wise comparison of the two tuples' member types. The first
/// parameter is the whole tuple type, carried only as the termination
/// measure for the mutual recursion with [`type_eq`].
fn tuple_elems_eq(whole: &WitType, xs: &Vec<WitType>, ys: &Vec<WitType>) -> (r: bool)
    requires
        *whole == WitType::Tuple(*xs),
    ensures
        r == (models_of(xs@) == models_of(ys@)),
    decreases *whole, 0int,
{
    proof {
        lemma_models_of(xs@);
        lemma_models_of(ys@);
    }
    if xs.len() != ys.len() {
        proof {
            assert(models_of(xs@).len() != models_of(ys@).len());
        }
        return false;
    }
    let n = xs.len();
    let mut i: usize = 0;
    while i < n
        invariant
            n == xs.len() == ys.len(),
            i <= n,
            *whole == WitType::Tuple(*xs),
            models_of(xs@).len() == models_of(ys@).len() == n,
            forall|j: int| 0 <= j < i ==> models_of(xs@)[j] == models_of(ys@)[j],
            forall|j: int| 0 <= j < xs@.len() ==> models_of(xs@)[j] == xs@[j].model(),
            forall|j: int| 0 <= j < ys@.len() ==> models_of(ys@)[j] == ys@[j].model(),
        decreases n - i,
    {
        proof {
            lemma_tuple_member_decreases(*whole, *xs, i as int);
        }
        if !type_eq(&xs[i], &ys[i]) {
            proof {
                assert(models_of(xs@)[i as int] != models_of(ys@)[i as int]);
            }
            return false;
        }
        i += 1;
    }
    proof {
        assert(models_of(xs@) =~= models_of(ys@));
    }
    true
}

/// A member of a tuple type is smaller than the tuple type itself, in the
/// well-founded order behind `decreases` measures.
proof fn lemma_tuple_member_decreases(whole: WitType, xs: Vec<WitType>, i: int)
    requires
        whole == WitType::Tuple(xs),
        0 <= i < xs.len(),
    ensures
        decreases_to!(whole => xs@[i]),
{
    assert(decreases_to!(whole => whole->Tuple_0));
    assert(decreases_to!(xs => xs@));
    assert(decreases_to!(xs@ => xs@[i]));
}

/// The source text a type model is rendered as in the emitted bindings.
pub open spec fn rendered(m: TypeModel) -> Seq<char>
    decreases m,
{
    match m {
        TypeModel::Bool => "bool"@,
        TypeModel::U8 => "u8"@,
        TypeModel::U16 => "u16"@,
        TypeModel::U32 => "u32"@,
        TypeModel::U64 => "u64"@,
        TypeModel::S8 => "i8"@,
        TypeModel::S16 => "i16"@,
        TypeModel::S32 => "i32"@,
        TypeModel::S64 => "i64"@,
        TypeModel::Char => "char"@,
        TypeModel::Str => "String"@,
        TypeModel::Named(n) => n,
        TypeModel::List(t) => "Vec<"@ + rendered(*t) + ">"@,
        TypeModel::Tuple(ts) => "("@ + rendered_list(ts) + ")"@,
        TypeModel::Optional(t) => "Option<"@ + rendered(*t) + ">"@,
        TypeModel::Fallible(ok, err) => "Result<"@ + rendered_opt(ok) + ", "@ + rendered_opt(err)
            + ">"@,
        TypeModel::MapOf(k, v) => "std::collections::HashMap<"@ + rendered(*k) + ", "@ + rendered(
            *v,
        ) + ">"@,
    }
}

/// The members of a tuple rendered in order, separated by commas.
pub open spec fn rendered_list(ts: Seq<TypeModel>) -> Seq<char>
    decreases ts,
{
    if ts.len() == 0 {
        Seq::empty()
    } else if ts.len() == 1 {
        rendered(ts[0])
    } else {
        rendered(ts[0]) + ", "@ + rendered_list(ts.drop_first())
    }
}

/// An absent payload type of a result is rendered as the unit type.
pub open spec fn rendered_opt(t: Option<Box<TypeModel>>) -> Seq<char>
    decreases t,
{
    match t {
        Some(t) => rendered(*t),
        None => "()"@,
    }
}

/// Render a WIT type as the source text used for it in emitted bindings.
pub fn render_type(t: &WitType) -> (r: String)
    ensures
        r@ == rendered(t.model()),
    decreases *t, 1int,
{
    match t {
        WitType::Bool => "bool".to_owned(),
        WitType::U8 => "u8".to_owned(),
        WitType::U16 => "u16".to_owned(),
        WitType::U32 => "u32".to_owned(),
        WitType::U64 => "u64".to_owned(),
        WitType::S8 => "i8".to_owned(),
        WitType::S16 => "i16".to_owned(),
        WitType::S32 => "i32".to_owned(),
        WitType::S64 => "i64".to_owned(),
        WitType::Char => "char".to_owned(),
        WitType::Str => "String".to_owned(),
        WitType::Named(n) => n.clone(),
        WitType::List(inner) => {
            let mut s = "Vec<".to_owned();
            let it = render_type(inner);
            s.append(it.as_str());
            s.append(">");
            s
        },
        WitType::Tuple(ts) => {
            let mut s = "(".to_owned();
            let items = render_tuple_members(t, ts);
            s.append(items.as_str());
            s.append(")");
            s
        },
        WitType::Optional(inner) => {
            let mut s = "Option<".to_owned();
            let it = render_type(inner);
            s.append(it.as_str());
            s.append(">");
            s
        },
        WitType::Fallible(ok, err) => {
            let mut s = "Result<".to_owned();
            match ok {
                Some(inner) => {
                    let it = render_type(inner);
                    s.append(it.as_str());
                },
                None => {
                    s.append("()");
                },
            }
            s.append(", ");
            match err {
                Some(inner) => {
                    let it = render_type(inner);
                    s.append(it.as_str());
                },
                None => {
                    s.append("()");
                },
            }
            s.append(">");
            proof {
                assert(rendered(t.model()) == "Result<"@ + rendered_opt(t.model()->Fallible_0)
                    + ", "@ + rendered_opt(t.model()->Fallible_1) + ">"@);
            }
            s
        },
        WitType::MapOf(k, v) => {
            let mut s = "std::collections::HashMap<".to_owned();
            let kt = render_type(k);
            s.append(kt.as_str());
            s.append(", ");
            let vt = render_type(v);
            s.append(vt.as_str());
            s.append(">");
            s
        },
    }
}

/// Render the comma-separated member list of a tuple type. The first
/// parameter is the whole tuple type, carried only as the termination
/// measure for the mutual recursion with [`render_type`].
fn render_tuple_members(whole: &WitType, ts: &Vec<WitType>) -> (r: String)
    requires
        *whole == WitType::Tuple(*ts),
    ensures
        r@ == rendered_list(models_of(ts@)),
    decreases *whole, 0int,
{
    proof {
        lemma_models_of(ts@);
    }
    let mut s = String::new();
    let n = ts.len();
    let mut i: usize = 0;
    while i < n
        invariant
            n == ts.len(),
            i <= n,
            *whole == WitType::Tuple(*ts),
            models_of(ts@).len() == n,
            forall|j: int| 0 <= j < n ==> models_of(ts@)[j] == ts@[j].model(),
            s@ == rendered_prefix(models_of(ts@), i as int),
        decreases n - i,
    {
        if i > 0 {
            s.append(", ");
        }
        proof {
            lemma_tuple_member_decreases(*whole, *ts, i as int);
        }
        let it = render_type(&ts[i]);
        s.append(it.as_str());
        proof {
            lemma_rendered_prefix_step(models_of(ts@), i as int);
        }
        i += 1;
    }
    proof {
        lemma_rendered_prefix_all(models_of(ts@));
    }
    s
}

/// The rendering of the first `k` members of a tuple, with separators.
pub open spec fn rendered_prefix(ts: Seq<TypeModel>, k: int) -> Seq<char>
    decreases k,
{
    if k <= 0 {
        Seq::empty()
    } else if k == 1 {
        rendered(ts[0])
    } else {
        rendered_prefix(ts, k - 1) + ", "@ + rendered(ts[k - 1])
    }
}

/// Appending the next member to a rendered prefix extends it by one step.
proof fn lemma_rendered_prefix_step(ts: Seq<TypeModel>, i: int)
    requires
        0 <= i < ts.len(),
    ensures
        i == 0 ==> rendered_prefix(ts, 1) == rendered(ts[0]),
        i > 0 ==> rendered_prefix(ts, i + 1) == rendered_prefix(ts, i) + ", "@ + rendered(ts[i]),
{
}

/// A full rendered prefix is the rendered member list.
proof fn lemma_rendered_prefix_all(ts: Seq<TypeModel>)
    ensures
        rendered_prefix(ts, ts.len() as int) == rendered_list(ts),
    decreases ts.len(),
{
    let n = ts.len() as int;
    if n <= 1 {
    } else {
        lemma_rendered_prefix_shift(ts, n - 1);
        lemma_rendered_prefix_all(ts.drop_first());
    }
}

/// A prefix of length `k + 1` over `ts` equals the head rendering followed
/// by a prefix of length `k` over the tail.
proof fn lemma_rendered_prefix_shift(ts: Seq<TypeModel>, k: int)
    requires
        1 <= k < ts.len(),
    ensures
        rendered_prefix(ts, k + 1) == rendered(ts[0]) + ", "@ + rendered_prefix(
            ts.drop_first(),
            k,
        ),
    decreases k,
{
    if k == 1 {
        assert(ts.drop_first()[0] == ts[1]);
    } else {
        lemma_rendered_prefix_shift(ts, k - 1);
        assert(ts.drop_first()[k - 1] == ts[k]);
        assert(rendered_prefix(ts, k + 1) == rendered_prefix(ts, k) + ", "@ + rendered(ts[k]));
        assert((rendered(ts[0]) + ", "@ + rendered_prefix(ts.drop_first(), k - 1)) + ", "@
            + rendered(ts.drop_first()[k - 1]) =~= rendered(ts[0]) + ", "@ + (rendered_prefix(
            ts.drop_first(),
            k - 1,
        ) + ", "@ + rendered(ts.drop_first()[k - 1])));
    }
}

/// Deep-copy a WIT type; the copy stands for the same mathematical type.
pub fn clone_type(t: &WitType) -> (r: WitType)
    ensures
        r.model() == t.model(),
    decreases *t, 1int,
{
    match t {
        WitType::Bool => WitType::Bool,
        WitType::U8 => WitType::U8,
        WitType::U16 => WitType::U16,
        WitType::U32 => WitType::U32,
        WitType::U64 => WitType::U64,
        WitType::S8 => WitType::S8,
        WitType::S16 => WitType::S16,
        WitType::S32 => WitType::S32,
        WitType::S64 => WitType::S64,
        WitType::Char => WitType::Char,
        WitType::Str => WitType::Str,
        WitType::Named(n) => WitType::Named(n.clone()),
        WitType::List(inner) => WitType::List(Box::new(clone_type(inner))),
        WitType::Tuple(ts) => WitType::Tuple(clone_tuple_members(t, ts)),
        WitType::Optional(inner) => WitType::Optional(Box::new(clone_type(inner))),
        WitType::Fallible(ok, err) => {
            let ok2 = match ok {
                Some(inner) => Some(Box::new(clone_type(inner))),
                None => None,
            };
            let err2 = match err {
                Some(inner) => Some(Box::new(clone_type(inner))),
                None => None,
            };
            WitType::Fallible(ok2, err2)
        },
        WitType::MapOf(k, v) => WitType::MapOf(
            Box::new(clone_type(k)),
            Box::new(clone_type(v)),
        ),
    }
}

/// Deep-copy the member types of a tuple. The first parameter is the whole
/// tuple type, carried only as the termination measure for the mutual
/// recursion with [`clone_type`].
fn clone_tuple_members(whole: &WitType, ts: &Vec<WitType>) -> (r: Vec<WitType>)
    requires
        *whole == WitType::Tuple(*ts),
    ensures
        models_of(r@) == models_of(ts@),
    decreases *whole, 0int,
{
    proof {
        lemma_models_of(ts@);
    }
    let mut out: Vec<WitType> = Vec::new();
    let n = ts.len();
    let mut i: usize = 0;
    while i < n
        invariant
            n == ts.len(),
            i <= n,
            *whole == WitType::Tuple(*ts),
            out@.len() == i,
            forall|j: int| 0 <= j < i ==> out@[j].model() == ts@[j].model(),
            forall|j: int| 0 <= j < n ==> models_of(ts@)[j] == ts@[j].model(),
        decreases n - i,
    {
        proof {
            lemma_tuple_member_decreases(*whole, *ts, i as int);
        }
        let c = clone_type(&ts[i]);
        out.push(c);
        i += 1;
    }
    proof {
        lemma_models_of(out@);
        assert(models_of(out@) =~= models_of(ts@));
    }
    out
}

} // verus!
