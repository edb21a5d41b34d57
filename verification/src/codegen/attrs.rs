//! Finding the `#[message]` methods of an `impl` block.
use vstd::prelude::*;

verus! {

/// The parts of an attribute that matter for finding messages.
pub enum AttrShape {
    /// `#[a::b]`: a bare path, segment by segment.
    Path(Vec<String>),
    /// `#[a::b(..)]`: a path with arguments; `infallible_arg` tells whether the
    /// arguments are exactly the keyword `infallible`.
    List { path: Vec<String>, infallible_arg: bool },
    /// Any other attribute, such as `#[a = ..]`.
    Other,
}

/// An associated function of the `impl` block, as far as finding messages goes.
pub struct ImplFn {
    pub attrs: Vec<AttrShape>,
    /// Whether the function declares a return type.
    pub returns: bool,
}

/// What scanning one function's attributes found.
pub struct FnScan {
    /// Which attributes stay on the function (the `#[message]` marker is removed).
    pub keep: Vec<bool>,
    /// Whether the function is a message.
    pub is_message: bool,
    /// Whether the message is infallible: it returns nothing, or says so.
    pub infallible: bool,
    /// The positions of `#[message(..)]` markers whose arguments are not `infallible`.
    pub bad_args: Vec<usize>,
}

/// Whether a path is the single segment `message`.
pub open spec fn is_message_path(p: Seq<String>) -> bool {
    p.len() == 1 && p[0]@ == "message"@
}

/// Whether attribute `a` marks a message.
pub open spec fn marks_message(a: AttrShape) -> bool {
    match a {
        AttrShape::Path(p) => is_message_path(p@),
        AttrShape::List { path, infallible_arg } => is_message_path(path@),
        AttrShape::Other => false,
    }
}

/// The position of the first message marker among `attrs`, if any.
pub open spec fn first_marker(attrs: Seq<AttrShape>) -> Option<nat>
    decreases attrs.len(),
{
    if attrs.len() == 0 {
        None
    } else if marks_message(attrs[0]) {
        Some(0)
    } else {
        match first_marker(attrs.drop_first()) {
            Some(i) => Some(i + 1),
            None => None,
        }
    }
}

/// What scanning finds: only the first marker counts and is removed; every
/// other attribute stays; a `#[message(infallible)]` marker makes the message
/// infallible, and one with other arguments is reported.
pub open spec fn scan_matches(f: ImplFn, s: FnScan) -> bool {
    let attrs = f.attrs@;
    &&& s.keep@.len() == attrs.len()
    &&& match first_marker(attrs) {
        None => {
            &&& !s.is_message
            &&& forall|i: int| 0 <= i < attrs.len() ==> s.keep@[i]
            &&& s.bad_args@.len() == 0
            &&& s.infallible == !f.returns
        },
        Some(m) => {
            &&& s.is_message
            &&& forall|i: int| 0 <= i < attrs.len() ==> (s.keep@[i] <==> i != m)
            &&& match attrs[m as int] {
                AttrShape::List { path, infallible_arg } => {
                    &&& s.infallible == (!f.returns || infallible_arg)
                    &&& s.bad_args@ == (if infallible_arg { Seq::<usize>::empty() } else { seq![m as usize] })
                },
                _ => s.infallible == !f.returns && s.bad_args@.len() == 0,
            }
        },
    }
}

fn is_message_marker_path(p: &Vec<String>) -> (b: bool)
    ensures
        b == is_message_path(p@),
{
    if p.len() != 1 {
        return false;
    }
    let message = String::from_str("message");
    p[0] == message
}

/// Scans the attributes of one function.
pub fn scan_attrs(f: &ImplFn) -> (s: FnScan)
    ensures
        scan_matches(*f, s),
{
    let mut keep: Vec<bool> = Vec::new();
    let mut is_message = false;
    let mut infallible = !f.returns;
    let mut bad_args: Vec<usize> = Vec::new();
    let mut i: usize = 0;
    let ghost attrs = f.attrs@;
    while i < f.attrs.len()
        invariant
            attrs == f.attrs@,
            0 <= i <= attrs.len(),
            keep@.len() == i,
            is_message == (first_marker(attrs.take(i as int)) is Some),
            match first_marker(attrs.take(i as int)) {
                None => {
                    &&& forall|j: int| 0 <= j < i ==> keep@[j]
                    &&& bad_args@.len() == 0
                    &&& infallible == !f.returns
                },
                Some(m) => {
                    &&& m < i
                    &&& first_marker(attrs) == Some(m)
                    &&& forall|j: int| 0 <= j < i ==> (keep@[j] <==> j != m)
                    &&& match attrs[m as int] {
                        AttrShape::List { path, infallible_arg } => {
                            &&& infallible == (!f.returns || infallible_arg)
                            &&& bad_args@ == (if infallible_arg { Seq::<usize>::empty() } else { seq![m as usize] })
                        },
                        _ => infallible == !f.returns && bad_args@.len() == 0,
                    }
                },
            },
        decreases attrs.len() - i,
    {
        proof { lemma_first_marker_step(attrs, i as nat); }
        if is_message {
            keep.push(true);
        } else {
            let marker = match &f.attrs[i] {
                AttrShape::Path(p) => is_message_marker_path(p),
                AttrShape::List { path, infallible_arg } => is_message_marker_path(path),
                AttrShape::Other => false,
            };
            if marker {
                is_message = true;
                match &f.attrs[i] {
                    AttrShape::List { path, infallible_arg } => {
                        if *infallible_arg {
                            infallible = true;
                        } else {
                            bad_args.push(i);
                        }
                    },
                    _ => {},
                }
                keep.push(false);
            } else {
                keep.push(true);
            }
        }
        i = i + 1;
    }
    assert(attrs.take(attrs.len() as int) =~= attrs);
    FnScan { keep, is_message, infallible, bad_args }
}

/// What scanning every function of an `impl` block found.
pub struct Extraction {
    /// The scan of each function, in order.
    pub scans: Vec<FnScan>,
    /// The positions of the functions that are messages, in order.
    pub messages: Vec<usize>,
    /// The (function, attribute) positions of markers with bad arguments, in
    /// the order the combined error reports them: the last found first.
    pub errors: Vec<(usize, usize)>,
}

/// The positions of the message functions among `scans`.
pub open spec fn message_positions(scans: Seq<FnScan>) -> Seq<usize>
    decreases scans.len(),
{
    if scans.len() == 0 {
        Seq::empty()
    } else {
        message_positions(scans.drop_last()) + (if scans.last().is_message {
            seq![(scans.len() - 1) as usize]
        } else {
            Seq::empty()
        })
    }
}

/// The message positions are exactly the positions of the scans that found
/// a `#[message]` marker, in increasing order.
pub proof fn lemma_message_positions(scans: Seq<FnScan>)
    requires
        scans.len() <= usize::MAX + 1,
    ensures
        forall|x: int|
            0 <= x < message_positions(scans).len() ==> (#[trigger] message_positions(scans)[x]) < scans.len()
                && scans[message_positions(scans)[x] as int].is_message,
        forall|k: int|
            0 <= k < scans.len() && (#[trigger] scans[k]).is_message ==> message_positions(scans).contains(
                k as usize,
            ),
        forall|x: int, y: int|
            0 <= x < y < message_positions(scans).len() ==> message_positions(scans)[x] < message_positions(
                scans,
            )[y],
    decreases scans.len(),
{
    if scans.len() > 0 {
        let init = scans.drop_last();
        lemma_message_positions(init);
        let mp = message_positions(scans);
        let mi = message_positions(init);
        let last = (scans.len() - 1) as usize;
        assert forall|x: int| 0 <= x < mp.len() implies (#[trigger] mp[x]) < scans.len() && scans[mp[x] as int].is_message by {
            if x < mi.len() {
                assert(mp[x] == mi[x]);
                assert(scans[mi[x] as int] == init[mi[x] as int]);
            } else {
                assert(mp[x] == last);
            }
        }
        assert forall|k: int| 0 <= k < scans.len() && (#[trigger] scans[k]).is_message implies mp.contains(k as usize) by {
            if k < scans.len() - 1 {
                assert(init[k] == scans[k]);
                let x = choose|x: int| 0 <= x < mi.len() && mi[x] == k as usize;
                assert(mp[x] == mi[x]);
            } else {
                assert(mp[mi.len() as int] == last);
            }
        }
        assert forall|x: int, y: int| 0 <= x < y < mp.len() implies mp[x] < mp[y] by {
            if y < mi.len() {
                assert(mp[x] == mi[x]);
                assert(mp[y] == mi[y]);
            } else {
                assert(mp[x] == mi[x]);
                assert(mi[x] < init.len());
            }
        }
    }
}

/// The (function, attribute) positions of bad markers among `scans`, in the order found.
pub open spec fn bad_positions(scans: Seq<FnScan>) -> Seq<(usize, usize)>
    decreases scans.len(),
{
    if scans.len() == 0 {
        Seq::empty()
    } else {
        bad_positions(scans.drop_last()) + scans.last().bad_args@.map_values(
            |a: usize| ((scans.len() - 1) as usize, a),
        )
    }
}

/// Scans every function of an `impl` block.
pub fn extract_messages(fns: &Vec<ImplFn>) -> (x: Extraction)
    ensures
        x.scans@.len() == fns@.len(),
        forall|k: int| 0 <= k < fns@.len() ==> scan_matches(fns@[k], #[trigger] x.scans@[k]),
        x.messages@ == message_positions(x.scans@),
        forall|k: int| 0 <= k < fns@.len() ==> (x.messages@.contains(k as usize) <==> (#[trigger] x.scans@[k]).is_message),
        forall|y: int| 0 <= y < x.messages@.len() ==> (#[trigger] x.messages@[y]) < fns@.len(),
        forall|y: int, z: int| 0 <= y < z < x.messages@.len() ==> x.messages@[y] < x.messages@[z],
        x.errors@ == bad_positions(x.scans@).reverse(),
{
    let mut scans: Vec<FnScan> = Vec::new();
    let mut messages: Vec<usize> = Vec::new();
    let mut found: Vec<(usize, usize)> = Vec::new();
    let mut k: usize = 0;
    while k < fns.len()
        invariant
            0 <= k <= fns@.len(),
            scans@.len() == k,
            forall|j: int| 0 <= j < k ==> scan_matches(fns@[j], #[trigger] scans@[j]),
            messages@ == message_positions(scans@),
            found@ == bad_positions(scans@),
        decreases fns@.len() - k,
    {
        let scan = scan_attrs(&fns[k]);
        let ghost before = scans@;
        let ghost found_before = found@;
        let ghost messages_before = messages@;
        if scan.is_message {
            messages.push(k);
        }
        let mut a: usize = 0;
        while a < scan.bad_args.len()
            invariant
                0 <= a <= scan.bad_args@.len(),
                found@ == found_before + scan.bad_args@.take(a as int).map_values(|b: usize| (k, b)),
            decreases scan.bad_args@.len() - a,
        {
            found.push((k, scan.bad_args[a]));
            a = a + 1;
            assert(scan.bad_args@.take(a as int).map_values(|b: usize| (k, b)) =~= scan.bad_args@.take(a - 1).map_values(
                |b: usize| (k, b),
            ).push((k, scan.bad_args@[a - 1])));
        }
        assert(scan.bad_args@.take(scan.bad_args@.len() as int) =~= scan.bad_args@);
        scans.push(scan);
        proof {
            assert(scans@.drop_last() =~= before);
            assert(messages@ =~= message_positions(scans@));
            assert(found@ =~= bad_positions(scans@));
        }
        k = k + 1;
    }
    let mut errors: Vec<(usize, usize)> = Vec::new();
    let mut r: usize = found.len();
    while r > 0
        invariant
            r <= found@.len(),
            errors@ == found@.subrange(r as int, found@.len() as int).reverse(),
        decreases r,
    {
        r = r - 1;
        errors.push(found[r]);
        assert(found@.subrange(r as int, found@.len() as int).reverse() =~= found@.subrange(
            (r + 1) as int,
            found@.len() as int,
        ).reverse().push(found@[r as int]));
    }
    assert(found@.subrange(0, found@.len() as int) =~= found@);
    proof {
        lemma_message_positions(scans@);
        assert forall|k: int| 0 <= k < fns@.len() implies (messages@.contains(k as usize) <==> (#[trigger] scans@[k]).is_message) by {
            if messages@.contains(k as usize) {
                let y = choose|y: int| 0 <= y < messages@.len() && messages@[y] == k as usize;
                assert(scans@[messages@[y] as int].is_message);
            }
        }
    }
    Extraction { scans, messages, errors }
}

/// How the first marker of a prefix grows by one attribute.
proof fn lemma_first_marker_step(attrs: Seq<AttrShape>, i: nat)
    requires
        i < attrs.len(),
    ensures
        first_marker(attrs.take((i + 1) as int)) == (match first_marker(attrs.take(i as int)) {
            Some(m) => Some(m),
            None => if marks_message(attrs[i as int]) { Some(i) } else { None },
        }),
        first_marker(attrs.take(i as int)) is Some ==> first_marker(attrs) == first_marker(attrs.take(i as int)),
        first_marker(attrs.take(i as int)) is None && marks_message(attrs[i as int]) ==> first_marker(attrs) == Some(i),
        first_marker(attrs.take(i as int)) matches Some(m) ==> m < i,
    decreases i,
{
    if i == 0 {
        assert(attrs.take(1).drop_first() =~= Seq::<AttrShape>::empty());
        assert(attrs.take(0) =~= Seq::<AttrShape>::empty());
        if !marks_message(attrs[0]) {
            assert(first_marker(attrs.take(1)) == None::<nat>);
        }
    } else {
        lemma_first_marker_step(attrs.drop_first(), (i - 1) as nat);
        assert(attrs.take((i + 1) as int).drop_first() =~= attrs.drop_first().take(i as int));
        assert(attrs.take(i as int).drop_first() =~= attrs.drop_first().take(i - 1));
        assert(attrs.take((i + 1) as int)[0] == attrs[0]);
        assert(attrs.take(i as int)[0] == attrs[0]);
        assert(attrs.drop_first()[i - 1] == attrs[i as int]);
    }
}

} // verus!
