//! Planning one message from the signature of its method.
use crate::codegen::lifetimes::{lemma_slot_name_injective, name_lifetimes, name_slots, names, slot_name, TypeShape};
use crate::text::{chars_of, decimal, push_chars, push_decimal};
use vstd::prelude::*;

verus! {

/// The UpperCamelCase form of a name, as `heck` writes it.
pub uninterp spec fn upper_camel_case(s: Seq<char>) -> Seq<char>;

/// Calls `heck::ToUpperCamelCase::to_upper_camel_case`; the result is named
/// `upper_camel_case` of the input's characters (heck's word splitting is not
/// stated here).
#[verifier::external_body]
fn to_upper_camel_case(s: &str) -> (r: String)
    ensures
        r@ == upper_camel_case(s@),
{
    heck::ToUpperCamelCase::to_upper_camel_case(s)
}

/// One typed parameter of a message method.
pub struct FieldSig {
    /// The parameter's name, where its pattern is a plain identifier.
    pub ident: Option<String>,
    /// The parameter's type.
    pub ty: TypeShape,
}

/// How a message method takes its actor.
#[derive(Clone, Copy, PartialEq, Eq, Debug, Structural)]
pub enum ReceiverKind {
    /// `&self`: the method only reads the actor.
    Shared,
    /// `&mut self`.
    Exclusive,
    /// `self`, by value.
    Owned,
    /// No receiver at all.
    Absent,
}

/// The signature of a message method, as far as planning goes.
pub struct MessageSig {
    /// The method's name.
    pub name: String,
    /// How it takes the actor.
    pub receiver: ReceiverKind,
    /// Its typed parameters in order (the receiver is not among them).
    pub fields: Vec<FieldSig>,
    /// The names of its type parameters, in order.
    pub type_params: Vec<String>,
}

/// A planned message field.
pub struct FieldPlan {
    /// The field's name.
    pub ident: Vec<char>,
    /// The lifetimes given to the slots of its type, in order.
    pub lifetimes: Vec<Vec<char>>,
}

/// A planned message.
pub struct MessagePlan {
    /// The name of the message enum's variant.
    pub variant: String,
    /// The fields of the variant, one for each typed parameter.
    pub fields: Vec<FieldPlan>,
    /// The message's lifetime parameters, in order: those of each field in turn.
    pub lifetimes: Vec<Vec<char>>,
    /// The message's type parameters, in order.
    pub type_params: Vec<Vec<char>>,
    /// Whether the message only reads the actor, so that it may run beside
    /// other such messages.
    pub read_only: bool,
}

/// The name of field number `i`: its parameter's name, or `__field` and `i`.
pub open spec fn field_ident(f: FieldSig, i: nat) -> Seq<char> {
    match f.ident {
        Some(s) => s@,
        None => seq!['_', '_', 'f', 'i', 'e', 'l', 'd'] + decimal(i),
    }
}

/// The name that the lifetime slots of a field start from: `'`, the method's
/// name, `__` and the field's name.
pub open spec fn slot_base(method: Seq<char>, field: Seq<char>) -> Seq<char> {
    seq!['\''] + method + seq!['_', '_'] + field
}

/// The lifetimes of field number `i` of `sig`.
pub open spec fn field_lifetimes(sig: MessageSig, i: int) -> Seq<Seq<char>> {
    name_slots(slot_base(sig.name@, field_ident(sig.fields@[i], i as nat)), sig.fields@[i].ty)
}

/// The lifetimes of the first `n` fields of `sig`, in order.
pub open spec fn message_lifetimes(sig: MessageSig, n: nat) -> Seq<Seq<char>>
    decreases n,
{
    if n == 0 {
        Seq::empty()
    } else {
        message_lifetimes(sig, (n - 1) as nat) + field_lifetimes(sig, n - 1)
    }
}

/// The characters of each string.
pub open spec fn string_names(v: Seq<String>) -> Seq<Seq<char>> {
    v.map_values(|s: String| s@)
}

/// Whether the fields of `sig` have pairwise distinct names.
pub open spec fn distinct_fields(sig: MessageSig) -> bool {
    forall|i: int, j: int|
        0 <= i < j < sig.fields@.len() ==> field_ident(sig.fields@[i], i as nat) != field_ident(
            sig.fields@[j],
            j as nat,
        )
}

/// The name that the lifetimes of field number `i` start from.
pub open spec fn field_base(sig: MessageSig, i: int) -> Seq<char> {
    slot_base(sig.name@, field_ident(sig.fields@[i], i as nat))
}

/// Fields with different names have different base names.
proof fn lemma_slot_base_injective(m: Seq<char>, f1: Seq<char>, f2: Seq<char>)
    requires
        slot_base(m, f1) == slot_base(m, f2),
    ensures
        f1 == f2,
{
    assert(slot_base(m, f1).skip(m.len() as int + 3) =~= f1);
    assert(slot_base(m, f2).skip(m.len() as int + 3) =~= f2);
}

/// No lifetime of the first `n` fields is named from a base that none of
/// them has.
proof fn lemma_base_absent(sig: MessageSig, n: nat, b: Seq<char>, k: nat)
    requires
        n <= sig.fields@.len(),
        forall|i: int| 0 <= i < n ==> field_base(sig, i) != b,
    ensures
        !message_lifetimes(sig, n).contains(slot_name(b, k)),
    decreases n,
{
    if n > 0 {
        lemma_base_absent(sig, (n - 1) as nat, b, k);
        let a = message_lifetimes(sig, (n - 1) as nat);
        let f = field_lifetimes(sig, n - 1);
        assert(message_lifetimes(sig, n) == a + f);
        if (a + f).contains(slot_name(b, k)) {
            let x = choose|x: int| 0 <= x < (a + f).len() && (a + f)[x] == slot_name(b, k);
            if x < a.len() {
                assert(a[x] == (a + f)[x]);
                assert(a.contains(slot_name(b, k)));
            } else {
                let y = x - a.len();
                assert(f[y] == (a + f)[x]);
                assert(f[y] == slot_name(field_base(sig, n - 1), y as nat));
                lemma_slot_name_injective(field_base(sig, n - 1), y as nat, b, k);
            }
        }
    }
}

/// The lifetimes of a message's first `n` fields all have different names,
/// where its fields have different names: the generated message enum never
/// declares a lifetime twice.
pub proof fn lemma_lifetimes_distinct(sig: MessageSig, n: nat)
    requires
        n <= sig.fields@.len(),
        distinct_fields(sig),
    ensures
        message_lifetimes(sig, n).no_duplicates(),
    decreases n,
{
    if n > 0 {
        lemma_lifetimes_distinct(sig, (n - 1) as nat);
        let a = message_lifetimes(sig, (n - 1) as nat);
        let f = field_lifetimes(sig, n - 1);
        let b = field_base(sig, n - 1);
        assert(message_lifetimes(sig, n) == a + f);
        assert forall|i: int| 0 <= i < n - 1 implies field_base(sig, i) != b by {
            if field_base(sig, i) == b {
                lemma_slot_base_injective(sig.name@, field_ident(sig.fields@[i], i as nat), field_ident(sig.fields@[n - 1], (n - 1) as nat));
            }
        }
        assert forall|x: int, y: int|
            0 <= x < (a + f).len() && 0 <= y < (a + f).len() && x != y implies (a + f)[x] != (a + f)[y] by {
            if x >= a.len() && y >= a.len() {
                assert((a + f)[x] == slot_name(b, (x - a.len()) as nat));
                assert((a + f)[y] == slot_name(b, (y - a.len()) as nat));
                if (a + f)[x] == (a + f)[y] {
                    lemma_slot_name_injective(b, (x - a.len()) as nat, b, (y - a.len()) as nat);
                }
            } else if x >= a.len() || y >= a.len() {
                let (p, q) = if x >= a.len() { (x, y) } else { (y, x) };
                let k = (p - a.len()) as nat;
                assert((a + f)[p] == slot_name(b, k));
                lemma_base_absent(sig, (n - 1) as nat, b, k);
                assert((a + f)[q] == a[q]);
                if (a + f)[x] == (a + f)[y] {
                    assert(a.contains(slot_name(b, k)));
                }
            } else {
                assert((a + f)[x] == a[x]);
                assert((a + f)[y] == a[y]);
            }
        }
    }
}

/// What planning a message produces from its signature.
pub open spec fn plan_matches(sig: MessageSig, p: MessagePlan) -> bool {
    &&& p.variant@ == upper_camel_case(sig.name@)
    &&& p.fields@.len() == sig.fields@.len()
    &&& forall|i: int| 0 <= i < sig.fields@.len() ==> {
        &&& (#[trigger] p.fields@[i]).ident@ == field_ident(sig.fields@[i], i as nat)
        &&& names(p.fields@[i].lifetimes@) == field_lifetimes(sig, i)
    }
    &&& names(p.lifetimes@) == message_lifetimes(sig, sig.fields@.len())
    &&& names(p.type_params@) == string_names(sig.type_params@)
    &&& p.read_only == (sig.receiver == ReceiverKind::Shared)
}

/// Appends copies of the names of `src` to `dst`.
fn append_names(dst: &mut Vec<Vec<char>>, src: &Vec<Vec<char>>)
    ensures
        names(final(dst)@) == names(old(dst)@) + names(src@),
{
    let mut i: usize = 0;
    while i < src.len()
        invariant
            0 <= i <= src@.len(),
            names(dst@) == names(old(dst)@) + names(src@.take(i as int)),
        decreases src@.len() - i,
    {
        let c = src[i].clone();
        assert(c@ =~= src@[i as int]@);
        let ghost before = dst@;
        dst.push(c);
        assert(names(dst@) =~= names(before).push(src@[i as int]@));
        i = i + 1;
        assert(names(src@.take(i as int)) =~= names(src@.take(i - 1)).push(src@[i - 1]@));
    }
    assert(src@.take(src@.len() as int) =~= src@);
}

/// Plans a message: the variant's name, its fields, and its generics.
pub fn plan_message(sig: &MessageSig) -> (p: MessagePlan)
    ensures
        plan_matches(*sig, p),
        distinct_fields(*sig) ==> names(p.lifetimes@).no_duplicates(),
{
    let variant = to_upper_camel_case(sig.name.as_str());
    let method = chars_of(sig.name.as_str());
    let mut fields: Vec<FieldPlan> = Vec::new();
    let mut lifetimes: Vec<Vec<char>> = Vec::new();
    let mut i: usize = 0;
    while i < sig.fields.len()
        invariant
            0 <= i <= sig.fields@.len(),
            method@ == sig.name@,
            fields@.len() == i,
            forall|j: int| 0 <= j < i ==> {
                &&& (#[trigger] fields@[j]).ident@ == field_ident(sig.fields@[j], j as nat)
                &&& names(fields@[j].lifetimes@) == field_lifetimes(*sig, j)
            },
            names(lifetimes@) == message_lifetimes(*sig, i as nat),
        decreases sig.fields@.len() - i,
    {
        let field = &sig.fields[i];
        let ident = match &field.ident {
            Some(s) => chars_of(s.as_str()),
            None => {
                let mut v: Vec<char> = Vec::new();
                push_chars(&mut v, &['_', '_', 'f', 'i', 'e', 'l', 'd']);
                push_decimal(&mut v, i as u64);
                v
            },
        };
        let mut base: Vec<char> = Vec::new();
        base.push('\'');
        push_chars(&mut base, method.as_slice());
        push_chars(&mut base, &['_', '_']);
        push_chars(&mut base, ident.as_slice());
        assert(base@ =~= slot_base(sig.name@, field_ident(sig.fields@[i as int], i as nat)));
        let field_out = name_lifetimes(&base, &field.ty);
        assert(names(field_out@) =~= field_lifetimes(*sig, i as int));
        append_names(&mut lifetimes, &field_out);
        fields.push(FieldPlan { ident, lifetimes: field_out });
        i = i + 1;
    }
    let mut type_params: Vec<Vec<char>> = Vec::new();
    let mut t: usize = 0;
    while t < sig.type_params.len()
        invariant
            0 <= t <= sig.type_params@.len(),
            names(type_params@) == string_names(sig.type_params@.take(t as int)),
        decreases sig.type_params@.len() - t,
    {
        let ghost before = type_params@;
        type_params.push(chars_of(sig.type_params[t].as_str()));
        assert(names(type_params@) =~= names(before).push(sig.type_params@[t as int]@));
        t = t + 1;
        assert(string_names(sig.type_params@.take(t as int)) =~= string_names(sig.type_params@.take(t - 1)).push(
            sig.type_params@[t - 1]@,
        ));
    }
    assert(sig.type_params@.take(sig.type_params@.len() as int) =~= sig.type_params@);
    let read_only = match sig.receiver {
        ReceiverKind::Shared => true,
        _ => false,
    };
    proof {
        if distinct_fields(*sig) {
            lemma_lifetimes_distinct(*sig, sig.fields@.len());
        }
    }
    MessagePlan { variant, fields, lifetimes, type_params, read_only }
}

} // verus!
