//! Naming the lifetimes of borrowed message fields.
//!
//! A message field's type may borrow; the generated message enum needs a
//! named lifetime for each borrow. Each lifetime slot of the field's type (a
//! reference, or a lifetime argument of a path) gets a name built from the
//! method and the field, then an underscore and the number of the slot
//! among the field's slots, in the order they are met.
use crate::text::{decimal, push_decimal};
use vstd::prelude::*;

verus! {

/// The parts of a type that lifetime naming looks at.
pub enum TypeShape {
    /// `&T` or `&mut T`: one lifetime slot; the referent is not looked into.
    Reference,
    /// `[T; N]`.
    Array(Box<TypeShape>),
    /// A type in an invisible group.
    Group(Box<TypeShape>),
    /// `(T)`.
    Paren(Box<TypeShape>),
    /// `[T]`.
    Slice(Box<TypeShape>),
    /// `(A, B, ..)`.
    Tuple(Vec<TypeShape>),
    /// A path, segment by segment.
    Path(Vec<Segment>),
    /// Any other type: not looked into.
    Other,
}

/// One segment of a path: its name, and its angle-bracketed arguments if it has any.
pub struct Segment {
    pub ident: Vec<char>,
    pub args: Option<Vec<GenericArg>>,
}

/// One argument between angle brackets.
pub enum GenericArg {
    /// A lifetime argument: one lifetime slot.
    Lifetime,
    /// A type argument.
    Type(TypeShape),
    /// Any other argument (a constant, an associated type binding, ..): not looked into.
    Other,
}

/// The position of the last underscore of `s`, if any.
pub open spec fn last_underscore(s: Seq<char>) -> Option<nat>
    decreases s.len(),
{
    if s.len() == 0 {
        None
    } else if s.last() == '_' {
        Some((s.len() - 1) as nat)
    } else {
        last_underscore(s.drop_last())
    }
}

/// The name of slot number `k` of a field whose names start from `base`.
pub open spec fn slot_name(base: Seq<char>, k: nat) -> Seq<char> {
    base + seq!['_'] + decimal(k)
}

/// The names of `n` slots, numbered from `start`.
pub open spec fn slot_names(base: Seq<char>, start: nat, n: nat) -> Seq<Seq<char>> {
    Seq::new(n, |k: int| slot_name(base, start + k as nat))
}

/// The names of the lifetime slots of `ty`, in the order the slots are met.
pub open spec fn name_slots(base: Seq<char>, ty: TypeShape) -> Seq<Seq<char>> {
    slot_names(base, 0, slot_count(ty))
}

/// The number of lifetime slots of `ty`: its references and the lifetime
/// arguments of its paths, outside references.
pub open spec fn slot_count(ty: TypeShape) -> nat
    decreases ty, 0nat,
{
    match ty {
        TypeShape::Reference => 1,
        TypeShape::Array(e) => slot_count(*e),
        TypeShape::Group(e) => slot_count(*e),
        TypeShape::Paren(e) => slot_count(*e),
        TypeShape::Slice(e) => slot_count(*e),
        TypeShape::Tuple(elems) => tuple_slot_count(elems@, 0),
        TypeShape::Path(segs) => segment_slot_count(segs@, 0),
        TypeShape::Other => 0,
    }
}

/// The number of lifetime slots of the tuple elements from number `i` on.
pub open spec fn tuple_slot_count(elems: Seq<TypeShape>, i: nat) -> nat
    decreases elems, elems.len() - i,
{
    if i >= elems.len() {
        0
    } else {
        slot_count(elems[i as int]) + tuple_slot_count(elems, i + 1)
    }
}

/// The number of lifetime slots of the path segments from number `j` on.
pub open spec fn segment_slot_count(segs: Seq<Segment>, j: nat) -> nat
    decreases segs, segs.len() - j,
{
    if j >= segs.len() {
        0
    } else {
        match segs[j as int].args {
            None => segment_slot_count(segs, j + 1),
            Some(args) => arg_slot_count(args@, 0) + segment_slot_count(segs, j + 1),
        }
    }
}

/// The number of lifetime slots of the angle-bracketed arguments from number `i` on.
pub open spec fn arg_slot_count(args: Seq<GenericArg>, i: nat) -> nat
    decreases args, args.len() - i,
{
    if i >= args.len() {
        0
    } else {
        match args[i as int] {
            GenericArg::Lifetime => 1 + arg_slot_count(args, i + 1),
            GenericArg::Type(t) => slot_count(t) + arg_slot_count(args, i + 1),
            GenericArg::Other => arg_slot_count(args, i + 1),
        }
    }
}

/// The slots of the segments of `a` then those of `b`, from segment `j` of
/// `a` on, are those of `a` from `j` on and then all those of `b`.
proof fn lemma_segment_count_concat_from(a: Seq<Segment>, b: Seq<Segment>, j: nat)
    requires
        j <= a.len(),
    ensures
        segment_slot_count(a + b, j) == segment_slot_count(a, j) + segment_slot_count(b, 0),
    decreases a.len() - j,
{
    if j == a.len() {
        lemma_segment_count_shift(a, b, 0);
    } else {
        assert((a + b)[j as int] == a[j as int]);
        lemma_segment_count_concat_from(a, b, j + 1);
    }
}

/// Counting the segments of `a + b` from past `a` counts those of `b`.
proof fn lemma_segment_count_shift(a: Seq<Segment>, b: Seq<Segment>, i: nat)
    requires
        i <= b.len(),
    ensures
        segment_slot_count(a + b, a.len() + i) == segment_slot_count(b, i),
    decreases b.len() - i,
{
    if i < b.len() {
        assert((a + b)[a.len() + i as int] == b[i as int]);
        lemma_segment_count_shift(a, b, i + 1);
    }
}

/// The lifetime slots of a path are those of all its segments, whichever of
/// them carries angle-bracketed arguments: the slots of two runs of segments
/// add up, a segment without arguments has none, and one with a lifetime
/// argument has at least one.
pub proof fn lemma_path_slots_add(a: Seq<Segment>, b: Seq<Segment>)
    ensures
        segment_slot_count(a + b, 0) == segment_slot_count(a, 0) + segment_slot_count(b, 0),
        forall|seg: Segment| seg.args is None ==> segment_slot_count(seq![seg], 0) == 0,
        forall|seg: Segment|
            #![trigger segment_slot_count(seq![seg], 0)]
            seg.args is Some ==> segment_slot_count(seq![seg], 0) == arg_slot_count(seg.args.unwrap()@, 0),
{
    lemma_segment_count_concat_from(a, b, 0);
    assert forall|seg: Segment| seg.args is None implies segment_slot_count(seq![seg], 0) == 0 by {
        assert(segment_slot_count(seq![seg], 1) == 0);
    }
    assert forall|seg: Segment|
        #![trigger segment_slot_count(seq![seg], 0)]
        seg.args is Some implies segment_slot_count(seq![seg], 0) == arg_slot_count(seg.args.unwrap()@, 0) by {
        assert(segment_slot_count(seq![seg], 1) == 0);
    }
}

/// A path segment without angle-bracketed arguments, such as `std` or
/// `borrow` in `std::borrow::Cow<'_, str>`, neither adds a lifetime nor hides
/// those of the segments after it: the names are those of the path without it.
pub proof fn lemma_plain_segment_adds_nothing(base: Seq<char>, v1: Vec<Segment>, v2: Vec<Segment>, plain: Segment)
    requires
        plain.args is None,
        v1@ == seq![plain] + v2@,
    ensures
        slot_count(TypeShape::Path(v1)) == slot_count(TypeShape::Path(v2)),
        name_slots(base, TypeShape::Path(v1)) == name_slots(base, TypeShape::Path(v2)),
{
    lemma_path_slots_add(seq![plain], v2@);
}

/// A lifetime argument of a path segment is always named, wherever the
/// segment stands in the path.
pub proof fn lemma_lifetime_argument_named(a: Seq<Segment>, seg: Segment, b: Seq<Segment>, args: Vec<GenericArg>)
    requires
        seg.args == Some(args),
        args@.len() > 0,
        args@[0] is Lifetime,
    ensures
        segment_slot_count(a + seq![seg] + b, 0) >= 1,
{
    lemma_path_slots_add(a, seq![seg]);
    lemma_path_slots_add(a + seq![seg], b);
    assert(segment_slot_count(seq![seg], 1) == 0);
}

/// Every lifetime slot of a type gets exactly one name.
pub proof fn lemma_one_name_per_slot(base: Seq<char>, ty: TypeShape)
    ensures
        name_slots(base, ty).len() == slot_count(ty),
{
}

/// Every lifetime name of a field starts with the name the naming starts
/// from: the method's and the field's names.
pub proof fn lemma_names_extend_base(base: Seq<char>, ty: TypeShape)
    ensures
        forall|i: int|
            0 <= i < name_slots(base, ty).len() ==> (#[trigger] name_slots(base, ty)[i]).take(base.len() as int)
                == base,
{
    assert forall|i: int| 0 <= i < name_slots(base, ty).len() implies (#[trigger] name_slots(base, ty)[i]).take(
        base.len() as int,
    ) == base by {
        assert(name_slots(base, ty)[i].take(base.len() as int) =~= base);
    }
}

/// Two slot names are equal only where their bases and their numbers are.
pub proof fn lemma_slot_name_injective(b1: Seq<char>, k1: nat, b2: Seq<char>, k2: nat)
    requires
        slot_name(b1, k1) == slot_name(b2, k2),
    ensures
        b1 == b2,
        k1 == k2,
{
    lemma_last_underscore_of_slot_name(b1, k1);
    lemma_last_underscore_of_slot_name(b2, k2);
    let s = slot_name(b1, k1);
    assert(s.take(b1.len() as int) =~= b1);
    assert(s.take(b2.len() as int) =~= b2);
    assert(s.skip(b1.len() as int + 1) =~= decimal(k1));
    assert(s.skip(b2.len() as int + 1) =~= decimal(k2));
    lemma_decimal_injective(k1, k2);
}

/// The last underscore of a slot name is the one after its base.
proof fn lemma_last_underscore_of_slot_name(b: Seq<char>, k: nat)
    ensures
        last_underscore(slot_name(b, k)) == Some(b.len()),
{
    lemma_decimal_no_underscore(k);
    lemma_last_underscore_append(b + seq!['_'], decimal(k));
    assert((b + seq!['_']).last() == '_');
}

/// The last underscore of `s + t` is that of `s` where `t` has none.
proof fn lemma_last_underscore_append(s: Seq<char>, t: Seq<char>)
    requires
        !t.contains('_'),
    ensures
        last_underscore(s + t) == last_underscore(s),
    decreases t.len(),
{
    if t.len() == 0 {
        assert(s + t =~= s);
    } else {
        assert((s + t).last() == t.last());
        assert((s + t).drop_last() =~= s + t.drop_last());
        assert(t[t.len() - 1] == t.last());
        if t.drop_last().contains('_') {
            let i = choose|i: int| 0 <= i < t.drop_last().len() && t.drop_last()[i] == '_';
            assert(t[i] == '_');
        }
        lemma_last_underscore_append(s, t.drop_last());
    }
}

/// A decimal notation holds no underscore.
proof fn lemma_decimal_no_underscore(k: nat)
    ensures
        !decimal(k).contains('_'),
    decreases k,
{
    if k >= 10 {
        lemma_decimal_no_underscore(k / 10);
        let d = decimal(k / 10).push(digit_char_of(k % 10));
        assert(decimal(k) == d);
        if d.contains('_') {
            let i = choose|i: int| 0 <= i < d.len() && d[i] == '_';
            if i < d.len() - 1 {
                assert(decimal(k / 10)[i] == '_');
            }
        }
    } else {
        assert(decimal(k) == seq![digit_char_of(k)]);
    }
}

/// The digit character, as `decimal` writes it.
spec fn digit_char_of(d: nat) -> char {
    crate::text::digit_char(d)
}

/// A decimal notation has at least one digit, and at least two from ten on.
proof fn lemma_decimal_len(k: nat)
    ensures
        decimal(k).len() >= 1,
        k >= 10 ==> decimal(k).len() >= 2,
    decreases k,
{
    if k >= 10 {
        lemma_decimal_len(k / 10);
    }
}

/// Different numbers have different decimal notations.
pub proof fn lemma_decimal_injective(a: nat, b: nat)
    requires
        decimal(a) == decimal(b),
    ensures
        a == b,
    decreases a,
{
    lemma_decimal_len(a);
    lemma_decimal_len(b);
    let da = decimal(a);
    let db = decimal(b);
    assert(da.last() == db.last());
    if a < 10 && b < 10 {
        assert(da[0] == digit_char_of(a));
        assert(db[0] == digit_char_of(b));
    } else if a >= 10 && b >= 10 {
        assert(da.last() == digit_char_of(a % 10));
        assert(db.last() == digit_char_of(b % 10));
        assert(da.drop_last() =~= decimal(a / 10));
        assert(db.drop_last() =~= decimal(b / 10));
        lemma_decimal_injective(a / 10, b / 10);
    }
}

/// The names held in a list of character vectors.
pub open spec fn names(v: Seq<Vec<char>>) -> Seq<Seq<char>> {
    v.map_values(|x: Vec<char>| x@)
}

/// Appends the name of slot number `k` to `out`.
fn push_slot(base: &Vec<char>, k: usize, out: &mut Vec<Vec<char>>)
    ensures
        names(final(out)@) == names(old(out)@).push(slot_name(base@, k as nat)),
{
    let mut v = base.clone();
    assert(v@ =~= base@);
    v.push('_');
    let ghost with_sep = v@;
    assert(with_sep =~= base@ + seq!['_']);
    push_decimal(&mut v, k as u64);
    assert(v@ =~= slot_name(base@, k as nat));
    let ghost before = out@;
    out.push(v);
    assert(names(out@) =~= names(before).push(slot_name(base@, k as nat)));
}

/// Names the lifetime slots of `ty`, the names starting from `base`, in the
/// order the slots are met.
pub fn name_lifetimes(base: &Vec<char>, ty: &TypeShape) -> (out: Vec<Vec<char>>)
    ensures
        names(out@) == name_slots(base@, *ty),
{
    let mut out: Vec<Vec<char>> = Vec::new();
    push_slot_names(base, ty, 0, &mut out);
    assert(names(out@) =~= Seq::<Seq<char>>::empty() + slot_names(base@, 0, slot_count(*ty)));
    out
}

/// Appends the names of the slots of `ty` to `out`, numbered on from the
/// names that follow `start` in `out`.
fn push_slot_names(base: &Vec<char>, ty: &TypeShape, start: usize, out: &mut Vec<Vec<char>>)
    requires
        start <= old(out)@.len(),
    ensures
        names(final(out)@) == names(old(out)@) + slot_names(base@, (old(out)@.len() - start) as nat, slot_count(*ty)),
    decreases ty, 0nat,
{
    let ghost o0 = out@;
    let ghost s0 = (o0.len() - start) as nat;
    match ty {
        TypeShape::Reference => {
            let k = out.len() - start;
            push_slot(base, k, out);
            assert(names(out@) =~= names(o0) + slot_names(base@, s0, 1));
        },
        TypeShape::Array(e) => push_slot_names(base, e, start, out),
        TypeShape::Group(e) => push_slot_names(base, e, start, out),
        TypeShape::Paren(e) => push_slot_names(base, e, start, out),
        TypeShape::Slice(e) => push_slot_names(base, e, start, out),
        TypeShape::Tuple(elems) => push_tuple_names(base, elems, 0, start, out),
        TypeShape::Path(segs) => push_segment_names(base, segs, 0, start, out),
        TypeShape::Other => {
            assert(names(out@) =~= names(o0) + slot_names(base@, s0, 0));
        },
    }
}

/// The names of `n1` slots then `n2` more are those of `n1 + n2` slots.
proof fn lemma_slot_names_concat(base: Seq<char>, s: nat, n1: nat, n2: nat)
    ensures
        slot_names(base, s, n1) + slot_names(base, s + n1, n2) == slot_names(base, s, n1 + n2),
{
    assert(slot_names(base, s, n1) + slot_names(base, s + n1, n2) =~= slot_names(base, s, n1 + n2));
}

fn push_tuple_names(base: &Vec<char>, elems: &Vec<TypeShape>, i: usize, start: usize, out: &mut Vec<Vec<char>>)
    requires
        i <= elems.len(),
        start <= old(out)@.len(),
    ensures
        names(final(out)@) == names(old(out)@) + slot_names(
            base@,
            (old(out)@.len() - start) as nat,
            tuple_slot_count(elems@, i as nat),
        ),
    decreases elems@, elems.len() - i,
{
    let ghost o0 = out@;
    let ghost s0 = (o0.len() - start) as nat;
    if i >= elems.len() {
        assert(names(out@) =~= names(o0) + slot_names(base@, s0, 0));
        return;
    }
    push_slot_names(base, &elems[i], start, out);
    let ghost n1 = slot_count(elems@[i as int]);
    assert(names(out@).len() == names(o0).len() + n1);
    push_tuple_names(base, elems, i + 1, start, out);
    proof {
        let n2 = tuple_slot_count(elems@, (i + 1) as nat);
        lemma_slot_names_concat(base@, s0, n1, n2);
        assert(names(out@) =~= names(o0) + slot_names(base@, s0, n1 + n2));
    }
}

fn push_segment_names(base: &Vec<char>, segs: &Vec<Segment>, j: usize, start: usize, out: &mut Vec<Vec<char>>)
    requires
        j <= segs.len(),
        start <= old(out)@.len(),
    ensures
        names(final(out)@) == names(old(out)@) + slot_names(
            base@,
            (old(out)@.len() - start) as nat,
            segment_slot_count(segs@, j as nat),
        ),
    decreases segs@, segs.len() - j,
{
    let ghost o0 = out@;
    let ghost s0 = (o0.len() - start) as nat;
    if j >= segs.len() {
        assert(names(out@) =~= names(o0) + slot_names(base@, s0, 0));
        return;
    }
    match &segs[j].args {
        None => push_segment_names(base, segs, j + 1, start, out),
        Some(args) => {
            push_arg_names(base, args, 0, start, out);
            let ghost n1 = arg_slot_count(args@, 0);
            assert(names(out@).len() == names(o0).len() + n1);
            push_segment_names(base, segs, j + 1, start, out);
            proof {
                let n2 = segment_slot_count(segs@, (j + 1) as nat);
                lemma_slot_names_concat(base@, s0, n1, n2);
                assert(names(out@) =~= names(o0) + slot_names(base@, s0, n1 + n2));
            }
        },
    }
}

fn push_arg_names(base: &Vec<char>, args: &Vec<GenericArg>, i: usize, start: usize, out: &mut Vec<Vec<char>>)
    requires
        i <= args.len(),
        start <= old(out)@.len(),
    ensures
        names(final(out)@) == names(old(out)@) + slot_names(
            base@,
            (old(out)@.len() - start) as nat,
            arg_slot_count(args@, i as nat),
        ),
    decreases args@, args.len() - i,
{
    let ghost o0 = out@;
    let ghost s0 = (o0.len() - start) as nat;
    if i >= args.len() {
        assert(names(out@) =~= names(o0) + slot_names(base@, s0, 0));
        return;
    }
    let ghost n1: nat = match args@[i as int] {
        GenericArg::Lifetime => 1,
        GenericArg::Type(t) => slot_count(t),
        GenericArg::Other => 0,
    };
    match &args[i] {
        GenericArg::Lifetime => {
            let k = out.len() - start;
            push_slot(base, k, out);
            assert(names(out@) =~= names(o0) + slot_names(base@, s0, 1));
        },
        GenericArg::Type(t) => push_slot_names(base, t, start, out),
        GenericArg::Other => {
            assert(names(out@) =~= names(o0) + slot_names(base@, s0, 0));
        },
    }
    assert(names(out@).len() == names(o0).len() + n1);
    let ghost o1 = out@;
    push_arg_names(base, args, i + 1, start, out);
    proof {
        let n2 = arg_slot_count(args@, (i + 1) as nat);
        lemma_slot_names_concat(base@, s0, n1, n2);
        assert(names(out@) =~= names(o0) + slot_names(base@, s0, n1 + n2));
    }
}

} // verus!
