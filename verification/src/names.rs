//! Deterministic, collision-free derivation of lattice method names and
//! envelope type names from WIT interface and function identity.
//!
//! WIT names are kebab-case: non-empty segments of a lowercase letter
//! followed by lowercase letters and digits, joined by single dashes.
//! Pascal-casing such a name uppercases the first letter of each segment
//! and drops the dashes; on valid names this is injective, which is what
//! makes the derived method names collision-free.

use crate::strutil::push_char;
use vstd::prelude::*;
use vstd::string::StrSliceExecFns;
use vstd::string::StringExecFns;

verus! {

/// A lowercase ASCII letter.
pub open spec fn is_lower_char(c: char) -> bool {
    c == 'a' || c == 'b' || c == 'c' || c == 'd' || c == 'e' || c == 'f' || c == 'g' || c == 'h'
        || c == 'i' || c == 'j' || c == 'k' || c == 'l' || c == 'm' || c == 'n' || c == 'o' || c
        == 'p' || c == 'q' || c == 'r' || c == 's' || c == 't' || c == 'u' || c == 'v' || c == 'w'
        || c == 'x' || c == 'y' || c == 'z'
}

/// An uppercase ASCII letter.
pub open spec fn is_upper_char(c: char) -> bool {
    c == 'A' || c == 'B' || c == 'C' || c == 'D' || c == 'E' || c == 'F' || c == 'G' || c == 'H'
        || c == 'I' || c == 'J' || c == 'K' || c == 'L' || c == 'M' || c == 'N' || c == 'O' || c
        == 'P' || c == 'Q' || c == 'R' || c == 'S' || c == 'T' || c == 'U' || c == 'V' || c == 'W'
        || c == 'X' || c == 'Y' || c == 'Z'
}

/// An ASCII digit.
pub open spec fn is_digit_char(c: char) -> bool {
    c == '0' || c == '1' || c == '2' || c == '3' || c == '4' || c == '5' || c == '6' || c == '7'
        || c == '8' || c == '9'
}

/// The uppercase counterpart of a lowercase ASCII letter; any other
/// character is left as it is.
pub open spec fn upper_char(c: char) -> char {
    match c {
        'a' => 'A',
        'b' => 'B',
        'c' => 'C',
        'd' => 'D',
        'e' => 'E',
        'f' => 'F',
        'g' => 'G',
        'h' => 'H',
        'i' => 'I',
        'j' => 'J',
        'k' => 'K',
        'l' => 'L',
        'm' => 'M',
        'n' => 'N',
        'o' => 'O',
        'p' => 'P',
        'q' => 'Q',
        'r' => 'R',
        's' => 'S',
        't' => 'T',
        'u' => 'U',
        'v' => 'V',
        'w' => 'W',
        'x' => 'X',
        'y' => 'Y',
        'z' => 'Z',
        _ => c,
    }
}

/// The lowercase counterpart of an uppercase ASCII letter; any other
/// character is left as it is.
pub open spec fn lower_char(c: char) -> char {
    match c {
        'A' => 'a',
        'B' => 'b',
        'C' => 'c',
        'D' => 'd',
        'E' => 'e',
        'F' => 'f',
        'G' => 'g',
        'H' => 'h',
        'I' => 'i',
        'J' => 'j',
        'K' => 'k',
        'L' => 'l',
        'M' => 'm',
        'N' => 'n',
        'O' => 'o',
        'P' => 'p',
        'Q' => 'q',
        'R' => 'r',
        'S' => 's',
        'T' => 't',
        'U' => 'u',
        'V' => 'v',
        'W' => 'w',
        'X' => 'x',
        'Y' => 'y',
        'Z' => 'z',
        _ => c,
    }
}

/// A character that may appear anywhere in a valid kebab-case WIT name.
pub open spec fn is_name_char(c: char) -> bool {
    is_lower_char(c) || is_digit_char(c) || c == '-'
}

/// A valid kebab-case WIT identifier: non-empty, starts with a lowercase
/// letter, every dash is followed by a lowercase letter (so there is no
/// trailing dash and no run of dashes), and all characters are lowercase
/// letters, digits or dashes.
pub open spec fn valid_wit_name(s: Seq<char>) -> bool {
    &&& s.len() > 0
    &&& is_lower_char(s[0])
    &&& forall|i: int| 0 <= i < s.len() ==> is_name_char(#[trigger] s[i])
    &&& forall|i: int|
        0 <= i < s.len() && #[trigger] s[i] == '-' ==> i + 1 < s.len() && is_lower_char(s[i + 1])
}

/// Pascal-casing, one character at a time. `boost` says whether the next
/// emitted letter starts a segment and is uppercased; dashes are dropped
/// and re-arm `boost`.
pub open spec fn pascal_rec(s: Seq<char>, boost: bool) -> Seq<char>
    decreases s.len(),
{
    if s.len() == 0 {
        Seq::empty()
    } else if s[0] == '-' {
        pascal_rec(s.drop_first(), true)
    } else if boost {
        seq![upper_char(s[0])] + pascal_rec(s.drop_first(), false)
    } else {
        seq![s[0]] + pascal_rec(s.drop_first(), false)
    }
}

/// The Pascal-case form of a kebab-case name.
pub open spec fn pascal(s: Seq<char>) -> Seq<char> {
    pascal_rec(s, true)
}

/// The inverse of pascal-casing: an uppercase letter marks the start of a
/// segment and turns back into a dash (dropped for the very first segment)
/// followed by the lowercase letter; other characters pass through.
pub open spec fn unpascal_rec(p: Seq<char>, first: bool) -> Seq<char>
    decreases p.len(),
{
    if p.len() == 0 {
        Seq::empty()
    } else if is_upper_char(p[0]) {
        if first {
            seq![lower_char(p[0])] + unpascal_rec(p.drop_first(), false)
        } else {
            seq!['-', lower_char(p[0])] + unpascal_rec(p.drop_first(), false)
        }
    } else {
        seq![p[0]] + unpascal_rec(p.drop_first(), false)
    }
}

/// The character classes that may fill a valid name's tail. Unlike
/// [`valid_wit_name`] this does not constrain the first character, so it
/// holds of every suffix of a valid name.
pub open spec fn valid_name_tail(s: Seq<char>) -> bool {
    &&& forall|i: int| 0 <= i < s.len() ==> is_name_char(#[trigger] s[i])
    &&& forall|i: int|
        0 <= i < s.len() && #[trigger] s[i] == '-' ==> i + 1 < s.len() && is_lower_char(s[i + 1])
}

/// Un-pascal-casing a pascal-cased valid tail gives back the tail. With
/// `seg` set, the tail must open a fresh segment, and the dash that
/// introduced it is reproduced in front.
proof fn lemma_unpascal_pascal_rec(s: Seq<char>, seg: bool)
    requires
        valid_name_tail(s),
        seg ==> s.len() > 0 && is_lower_char(s[0]),
    ensures
        seg ==> unpascal_rec(pascal_rec(s, true), false) =~= seq!['-'] + s,
        !seg ==> unpascal_rec(pascal_rec(s, false), false) =~= s,
    decreases s.len(),
{
    if s.len() == 0 {
    } else {
        let tail = s.drop_first();
        assert(valid_name_tail(tail)) by {
            assert(forall|i: int| 0 <= i < tail.len() ==> tail[i] == s[i + 1]);
        }
        if seg {
            lemma_unpascal_pascal_rec(tail, false);
            let u = upper_char(s[0]);
            assert(is_upper_char(u));
            assert(lower_char(u) == s[0]);
            let p = pascal_rec(s, true);
            assert(p == seq![u] + pascal_rec(tail, false));
            assert(p.len() > 0 && p[0] == u);
            assert(p.drop_first() =~= pascal_rec(tail, false));
            assert(unpascal_rec(p, false) == seq!['-', lower_char(u)] + unpascal_rec(
                p.drop_first(),
                false,
            ));
            assert(seq!['-', s[0]] + tail =~= seq!['-'] + s);
        } else {
            if s[0] == '-' {
                assert(is_lower_char(s[1]));
                assert(tail.len() > 0 && tail[0] == s[1]);
                lemma_unpascal_pascal_rec(tail, true);
                assert(pascal_rec(s, false) == pascal_rec(tail, true));
                assert(seq!['-'] + tail =~= s);
            } else {
                lemma_unpascal_pascal_rec(tail, false);
                assert(is_name_char(s[0]));
                assert(!is_upper_char(s[0]));
                let p = pascal_rec(s, false);
                assert(p == seq![s[0]] + pascal_rec(tail, false));
                assert(p.len() > 0 && p[0] == s[0]);
                assert(p.drop_first() =~= pascal_rec(tail, false));
                assert(unpascal_rec(p, false) == seq![p[0]] + unpascal_rec(
                    p.drop_first(),
                    false,
                ));
                assert(seq![s[0]] + tail =~= s);
            }
        }
    }
}

/// Pascal-casing a valid WIT name can be undone, so it is injective.
proof fn lemma_unpascal_pascal(s: Seq<char>)
    requires
        valid_wit_name(s),
    ensures
        unpascal_rec(pascal(s), true) == s,
{
    let tail = s.drop_first();
    assert(valid_name_tail(tail)) by {
        assert(forall|i: int| 0 <= i < tail.len() ==> tail[i] == s[i + 1]);
    }
    lemma_unpascal_pascal_rec(tail, false);
    let u = upper_char(s[0]);
    assert(is_upper_char(u));
    assert(lower_char(u) == s[0]);
    let p = pascal(s);
    assert(p == seq![u] + pascal_rec(tail, false));
    assert(p.len() > 0 && p[0] == u);
    assert(p.drop_first() =~= pascal_rec(tail, false));
    assert(unpascal_rec(p, true) == seq![lower_char(u)] + unpascal_rec(p.drop_first(), false));
    assert(seq![s[0]] + tail =~= s);
    assert(unpascal_rec(pascal(s), true) =~= s);
}

/// Two distinct valid WIT names have distinct Pascal-case forms.
pub proof fn lemma_pascal_injective(s1: Seq<char>, s2: Seq<char>)
    requires
        valid_wit_name(s1),
        valid_wit_name(s2),
        pascal(s1) == pascal(s2),
    ensures
        s1 == s2,
{
    lemma_unpascal_pascal(s1);
    lemma_unpascal_pascal(s2);
}

/// No character of a pascal-cased valid tail is a dot.
proof fn lemma_pascal_no_dot(s: Seq<char>, boost: bool)
    requires
        valid_name_tail(s),
    ensures
        forall|j: int| 0 <= j < pascal_rec(s, boost).len() ==> #[trigger] pascal_rec(s, boost)[j]
            != '.',
    decreases s.len(),
{
    if s.len() > 0 {
        let tail = s.drop_first();
        assert(valid_name_tail(tail)) by {
            assert(forall|i: int| 0 <= i < tail.len() ==> tail[i] == s[i + 1]);
        }
        lemma_pascal_no_dot(tail, true);
        lemma_pascal_no_dot(tail, false);
        if s[0] == '-' {
            assert(pascal_rec(s, boost) == pascal_rec(tail, true));
        } else {
            assert(is_name_char(s[0]));
            let x = if boost {
                upper_char(s[0])
            } else {
                s[0]
            };
            assert(pascal_rec(s, boost) == seq![x] + pascal_rec(tail, false));
            assert(x != '.');
            assert forall|j: int| 0 <= j < pascal_rec(s, boost).len() implies #[trigger] pascal_rec(
                s,
                boost,
            )[j] != '.' by {
                if j > 0 {
                    assert(pascal_rec(s, boost)[j] == pascal_rec(tail, false)[j - 1]);
                }
            }
        }
    }
}

/// The lattice method name derived from an interface name and a function
/// name: the two Pascal-case forms joined by a dot.
pub open spec fn method_name_of(iface: Seq<char>, func: Seq<char>) -> Seq<char> {
    pascal(iface) + seq!['.'] + pascal(func)
}

/// Splitting at a separator that occurs in neither left part is
/// unambiguous.
proof fn lemma_sep_concat_injective(a1: Seq<char>, b1: Seq<char>, a2: Seq<char>, b2: Seq<char>)
    requires
        forall|j: int| 0 <= j < a1.len() ==> #[trigger] a1[j] != '.',
        forall|j: int| 0 <= j < a2.len() ==> #[trigger] a2[j] != '.',
        a1 + seq!['.'] + b1 == a2 + seq!['.'] + b2,
    ensures
        a1 == a2,
        b1 == b2,
{
    let p = a1 + seq!['.'] + b1;
    let q = a2 + seq!['.'] + b2;
    assert(p[a1.len() as int] == '.');
    assert(q[a2.len() as int] == '.');
    if a1.len() < a2.len() {
        assert(q[a1.len() as int] == a2[a1.len() as int]);
        assert(false);
    }
    if a2.len() < a1.len() {
        assert(p[a2.len() as int] == a1[a2.len() as int]);
        assert(false);
    }
    assert forall|j: int| 0 <= j < a1.len() implies a1[j] == a2[j] by {
        assert(p[j] == a1[j]);
        assert(q[j] == a2[j]);
    }
    assert(a1 =~= a2);
    assert(p.len() == a1.len() + 1 + b1.len());
    assert(q.len() == a2.len() + 1 + b2.len());
    assert(b1.len() == b2.len());
    assert forall|j: int| 0 <= j < b1.len() implies b1[j] == b2[j] by {
        assert(p[a1.len() + 1 + j] == b1[j]);
        assert(q[a2.len() + 1 + j] == b2[j]);
    }
    assert(b1 =~= b2);
}

/// LAW: method-name derivation is deterministic and collision-free.
///
/// The method name is a pure function of interface and function identity,
/// so computing it twice for the same pair gives the same string; and for
/// two pairs of valid WIT names that differ anywhere, the derived method
/// names differ. Equivalently, equal method names force equal identities.
pub proof fn lemma_method_name_collision_free(
    i1: Seq<char>,
    f1: Seq<char>,
    i2: Seq<char>,
    f2: Seq<char>,
)
    requires
        valid_wit_name(i1),
        valid_wit_name(f1),
        valid_wit_name(i2),
        valid_wit_name(f2),
        method_name_of(i1, f1) == method_name_of(i2, f2),
    ensures
        i1 == i2,
        f1 == f2,
{
    let t1 = i1.drop_first();
    assert(valid_name_tail(t1)) by {
        assert(forall|i: int| 0 <= i < t1.len() ==> t1[i] == i1[i + 1]);
    }
    let t2 = i2.drop_first();
    assert(valid_name_tail(t2)) by {
        assert(forall|i: int| 0 <= i < t2.len() ==> t2[i] == i2[i + 1]);
    }
    assert(forall|j: int| 0 <= j < pascal(i1).len() ==> #[trigger] pascal(i1)[j] != '.') by {
        lemma_pascal_no_dot(t1, false);
        assert(upper_char(i1[0]) != '.');
        assert(pascal(i1) == seq![upper_char(i1[0])] + pascal_rec(t1, false));
    }
    assert(forall|j: int| 0 <= j < pascal(i2).len() ==> #[trigger] pascal(i2)[j] != '.') by {
        lemma_pascal_no_dot(t2, false);
        assert(upper_char(i2[0]) != '.');
        assert(pascal(i2) == seq![upper_char(i2[0])] + pascal_rec(t2, false));
    }
    lemma_sep_concat_injective(pascal(i1), pascal(f1), pascal(i2), pascal(f2));
    lemma_pascal_injective(i1, i2);
    lemma_pascal_injective(f1, f2);
}

/// Check a name for kebab-case validity.
pub fn is_valid_wit_name(s: &str) -> (r: bool)
    ensures
        r == valid_wit_name(s@),
{
    let n = s.unicode_len();
    if n == 0 {
        return false;
    }
    let first = s.get_char(0);
    if !lower_char_exec(first) {
        return false;
    }
    let mut i: usize = 0;
    while i < n
        invariant
            n == s@.len(),
            i <= n,
            forall|j: int| 0 <= j < i ==> is_name_char(#[trigger] s@[j]),
            forall|j: int|
                0 <= j < i && #[trigger] s@[j] == '-' ==> j + 1 < n && is_lower_char(s@[j + 1]),
        decreases n - i,
    {
        let c = s.get_char(i);
        if c == '-' {
            if i + 1 >= n {
                return false;
            }
            let next = s.get_char(i + 1);
            if !lower_char_exec(next) {
                return false;
            }
        } else if !lower_char_exec(c) && !digit_char_exec(c) {
            return false;
        }
        i += 1;
    }
    true
}

/// Decide whether a character is a lowercase ASCII letter.
fn lower_char_exec(c: char) -> (r: bool)
    ensures
        r == is_lower_char(c),
{
    match c {
        'a' | 'b' | 'c' | 'd' | 'e' | 'f' | 'g' | 'h' | 'i' | 'j' | 'k' | 'l' | 'm' | 'n' | 'o'
            | 'p' | 'q' | 'r' | 's' | 't' | 'u' | 'v' | 'w' | 'x' | 'y' | 'z' => true,
        _ => false,
    }
}

/// Decide whether a character is an ASCII digit.
fn digit_char_exec(c: char) -> (r: bool)
    ensures
        r == is_digit_char(c),
{
    match c {
        '0' | '1' | '2' | '3' | '4' | '5' | '6' | '7' | '8' | '9' => true,
        _ => false,
    }
}

/// The uppercase counterpart of a lowercase ASCII letter.
fn upper_char_exec(c: char) -> (r: char)
    ensures
        r == upper_char(c),
{
    match c {
        'a' => 'A',
        'b' => 'B',
        'c' => 'C',
        'd' => 'D',
        'e' => 'E',
        'f' => 'F',
        'g' => 'G',
        'h' => 'H',
        'i' => 'I',
        'j' => 'J',
        'k' => 'K',
        'l' => 'L',
        'm' => 'M',
        'n' => 'N',
        'o' => 'O',
        'p' => 'P',
        'q' => 'Q',
        'r' => 'R',
        's' => 'S',
        't' => 'T',
        'u' => 'U',
        'v' => 'V',
        'w' => 'W',
        'x' => 'X',
        'y' => 'Y',
        'z' => 'Z',
        _ => c,
    }
}

/// Pascal-case a kebab-case name: uppercase the first letter of each
/// dash-separated segment and drop the dashes.
pub fn pascal_case(s: &str) -> (r: String)
    ensures
        r@ == pascal(s@),
{
    let n = s.unicode_len();
    let mut out = String::new();
    let mut boost: bool = true;
    let mut i: usize = 0;
    proof {
        assert(s@.skip(0) =~= s@);
        assert(Seq::<char>::empty() + pascal_rec(s@, true) =~= pascal_rec(s@, true));
    }
    while i < n
        invariant
            n == s@.len(),
            i <= n,
            pascal_rec(s@, true) == out@ + pascal_rec(s@.skip(i as int), boost),
        decreases n - i,
    {
        let c = s.get_char(i);
        proof {
            assert(s@.skip(i as int).len() > 0);
            assert(s@.skip(i as int)[0] == s@[i as int]);
            assert(s@.skip(i as int).drop_first() =~= s@.skip(i as int + 1));
        }
        if c == '-' {
            proof {
                assert(pascal_rec(s@.skip(i as int), boost) == pascal_rec(
                    s@.skip(i as int + 1),
                    true,
                ));
            }
            boost = true;
        } else if boost {
            push_char(&mut out, upper_char_exec(c));
            proof {
                assert(pascal_rec(s@.skip(i as int), true) == seq![upper_char(s@[i as int])]
                    + pascal_rec(s@.skip(i as int + 1), false));
                assert(out@ + pascal_rec(s@.skip(i as int + 1), false) =~= pascal_rec(s@, true));
            }
            boost = false;
        } else {
            push_char(&mut out, c);
            proof {
                assert(pascal_rec(s@.skip(i as int), false) == seq![s@[i as int]] + pascal_rec(
                    s@.skip(i as int + 1),
                    false,
                ));
                assert(out@ + pascal_rec(s@.skip(i as int + 1), false) =~= pascal_rec(s@, true));
            }
        }
        i += 1;
    }
    proof {
        assert(s@.skip(n as int) =~= Seq::<char>::empty());
        assert(out@ + pascal_rec(s@.skip(n as int), boost) =~= out@);
    }
    out
}

/// The lattice method name under an interface type ident: the ident, a
/// dot, and the pascal-cased function name. For an interface with a valid
/// WIT name, the ident is the Pascal-case form of that name, so this
/// equals [`method_name_of`] applied to the two WIT names.
pub open spec fn method_under_ident(iface_ident: Seq<char>, func: Seq<char>) -> Seq<char> {
    iface_ident + seq!['.'] + pascal(func)
}

/// Build the lattice method name for a function under an interface ident.
pub fn lattice_method_name(iface_ident: &str, func: &str) -> (r: String)
    ensures
        r@ == method_under_ident(iface_ident@, func@),
{
    let mut out = iface_ident.to_owned();
    push_char(&mut out, '.');
    let f = pascal_case(func);
    out.append(f.as_str());
    proof {
        assert(out@ =~= method_under_ident(iface_ident@, func@));
    }
    out
}

/// Deriving a method name under an interface's type ident agrees with
/// deriving it from the interface's WIT name, for a named interface.
pub proof fn lemma_method_under_pascal_ident(name: Seq<char>, func: Seq<char>)
    ensures
        method_under_ident(pascal(name), func) == method_name_of(name, func),
{
}

/// A name with each dash replaced by an underscore: the form under which
/// a kebab-case WIT function name appears as a generated method ident.
pub open spec fn snake(s: Seq<char>) -> Seq<char> {
    s.map_values(
        |c: char|
            if c == '-' {
                '_'
            } else {
                c
            },
    )
}

/// Snake-case a kebab-case name.
pub fn snake_case(s: &str) -> (r: String)
    ensures
        r@ == snake(s@),
{
    let n = s.unicode_len();
    let mut out = String::new();
    let mut i: usize = 0;
    while i < n
        invariant
            n == s@.len(),
            out@.len() == i <= n,
            forall|j: int| 0 <= j < i ==> out@[j] == snake(s@)[j],
        decreases n - i,
    {
        let c = s.get_char(i);
        if c == '-' {
            push_char(&mut out, '_');
        } else {
            push_char(&mut out, c);
        }
        i += 1;
    }
    proof {
        assert(out@ =~= snake(s@));
    }
    out
}

/// The type ident of an interface: the Pascal-case form of its name, or,
/// for an unnamed interface, of its namespace and package joined.
pub open spec fn iface_ident_of(ns: Seq<char>, pkg: Seq<char>, name: Seq<char>) -> Seq<char> {
    if name.len() > 0 {
        pascal(name)
    } else {
        pascal(ns) + pascal(pkg)
    }
}

/// The name of a synthesized envelope type for one function of one
/// interface: the interface's type ident, the pascal-cased function name,
/// and the `Invocation` suffix.
pub open spec fn invocation_struct_name_of(iface_ident: Seq<char>, func: Seq<char>) -> Seq<char> {
    iface_ident + pascal(func) + "Invocation"@
}

/// Build the synthesized envelope type name for a function.
pub fn invocation_struct_name(iface_ident: &str, func: &str) -> (r: String)
    ensures
        r@ == invocation_struct_name_of(iface_ident@, func@),
{
    let mut out = iface_ident.to_owned();
    let f = pascal_case(func);
    out.append(f.as_str());
    out.append("Invocation");
    out
}

} // verus!
