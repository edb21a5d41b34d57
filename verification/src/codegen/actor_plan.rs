//! Planning the items that `#[actor]` generates for an actor: their names,
//! their generics, and the methods of the actor's reference.
use crate::codegen::lifetimes::names;
use crate::codegen::message::MessagePlan;
use vstd::prelude::*;

verus! {

/// The SHOUTY_SNAKE_CASE form of a name, as `heck` writes it.
pub uninterp spec fn shouty_snake_case(s: Seq<char>) -> Seq<char>;

/// Calls `heck::ToShoutySnekCase::TO_SHOUTY_SNEK_CASE`; the result is named
/// `shouty_snake_case` of the input's characters (heck's word splitting is not
/// stated here).
#[verifier::external_body]
fn to_shouty_snake_case(s: &str) -> (r: String)
    ensures
        r@ == shouty_snake_case(s@),
{
    heck::ToShoutySnekCase::TO_SHOUTY_SNEK_CASE(s)
}

/// Why the `impl` block cannot be planned.
#[derive(Clone, Copy, PartialEq, Eq, Debug, Structural)]
pub enum PlanError {
    /// The implemented type is not a path ("expected a path or ident").
    NotAPath,
    /// The implemented type's path has no segment ("missing ident from path").
    MissingIdent,
}

/// The names of the items generated for an actor.
pub struct ActorNames {
    /// The actor type's name.
    pub ident: String,
    /// The message enum: the name and `Msg`.
    pub msg_ident: String,
    /// The reference type: the name and `Ref`.
    pub ref_ident: String,
    /// The task-local holding the running actor's reference: the name in
    /// SHOUTY_SNAKE_CASE and `_ACTOR_REF`.
    pub ref_global_ident: String,
}

/// The names planned for an actor whose type has the path `path` (`None`
/// where the type is not a path).
pub open spec fn names_matches(path: Option<Seq<String>>, r: Result<ActorNames, PlanError>) -> bool {
    match path {
        None => r == Err::<ActorNames, PlanError>(PlanError::NotAPath),
        Some(p) => if p.len() == 0 {
            r == Err::<ActorNames, PlanError>(PlanError::MissingIdent)
        } else {
            let ident = p.last()@;
            &&& r is Ok
            &&& r->Ok_0.ident@ == ident
            &&& r->Ok_0.msg_ident@ == ident + "Msg"@
            &&& r->Ok_0.ref_ident@ == ident + "Ref"@
            &&& r->Ok_0.ref_global_ident@ == shouty_snake_case(ident) + "_ACTOR_REF"@
        },
    }
}

/// Plans the names of the items generated for an actor.
pub fn plan_names(path: Option<&Vec<String>>) -> (r: Result<ActorNames, PlanError>)
    ensures
        names_matches(
            match path {
                Some(p) => Some(p@),
                None => None,
            },
            r,
        ),
{
    let p = match path {
        None => return Err(PlanError::NotAPath),
        Some(p) => p,
    };
    if p.len() == 0 {
        return Err(PlanError::MissingIdent);
    }
    let ident = p[p.len() - 1].clone();
    let msg_ident = ident.clone().concat("Msg");
    let ref_ident = ident.clone().concat("Ref");
    let ref_global_ident = to_shouty_snake_case(ident.as_str()).concat("_ACTOR_REF");
    Ok(ActorNames { ident, msg_ident, ref_ident, ref_global_ident })
}

/// The methods planned on the actor's reference for one message.
pub struct MethodPlan {
    /// The name of the method that sends without waiting, where one is generated:
    /// only for messages without lifetimes, whose values may outlive the call.
    pub async_name: Option<String>,
    /// The name of the method that sends after a delay and waits for the
    /// reply, where one is generated: only for messages without lifetimes.
    pub after_name: Option<String>,
    /// The name of the method that sends after a delay without waiting,
    /// where one is generated: only for messages without lifetimes.
    pub async_after_name: Option<String>,
    /// The text of the debug assertion that stops an actor from waiting on itself.
    pub deadlock_message: String,
}

/// The text of the debug assertion that stops an actor from waiting on itself
/// through the method named `name`.
pub open spec fn deadlock_text(name: Seq<char>) -> Seq<char> {
    "cannot call non-async messages on self as this would deadlock - please use the "@ + name
        + "_async variant instead\nthis assertion only occurs on debug builds, release builds will deadlock"@
}

/// Plans the methods on the actor's reference for the message method `name`.
pub fn plan_methods(name: &str, m: &MessagePlan) -> (r: MethodPlan)
    ensures
        r.async_name is Some <==> m.lifetimes@.len() == 0,
        r.async_name matches Some(a) ==> a@ == name@ + "_async"@,
        r.after_name is Some <==> m.lifetimes@.len() == 0,
        r.after_name matches Some(a) ==> a@ == name@ + "_after"@,
        r.async_after_name is Some <==> m.lifetimes@.len() == 0,
        r.async_after_name matches Some(a) ==> a@ == name@ + "_async_after"@,
        r.deadlock_message@ == deadlock_text(name@),
{
    let mut deadlock_message = String::from_str(
        "cannot call non-async messages on self as this would deadlock - please use the ",
    );
    deadlock_message.append(name);
    deadlock_message.append(
        "_async variant instead\nthis assertion only occurs on debug builds, release builds will deadlock",
    );
    if m.lifetimes.len() == 0 {
        MethodPlan {
            async_name: Some(String::from_str(name).concat("_async")),
            after_name: Some(String::from_str(name).concat("_after")),
            async_after_name: Some(String::from_str(name).concat("_async_after")),
            deadlock_message,
        }
    } else {
        MethodPlan { async_name: None, after_name: None, async_after_name: None, deadlock_message }
    }
}

/// A generic parameter of the message enum.
pub enum GenericParam {
    Lifetime(Vec<char>),
    Type(Vec<char>),
}

/// A generic argument given to the message enum.
pub enum GenericArgument {
    /// A lifetime of the message being sent.
    Lifetime(Vec<char>),
    /// `'static`, for a lifetime of another message.
    Static,
    /// A type parameter of the message being sent.
    Type(Vec<char>),
    /// `()`, for a type parameter of another message.
    Unit,
}

/// The view of a generic parameter: whether it is a lifetime, and its name.
pub open spec fn param_view(p: GenericParam) -> (bool, Seq<char>) {
    match p {
        GenericParam::Lifetime(n) => (true, n@),
        GenericParam::Type(n) => (false, n@),
    }
}

/// The view of a generic argument: `Some` with a name for one of the message's
/// own parameters, `None` for a filler (`'static` or `()`), and whether it
/// stands for a lifetime.
pub open spec fn arg_view(a: GenericArgument) -> (bool, Option<Seq<char>>) {
    match a {
        GenericArgument::Lifetime(n) => (true, Some(n@)),
        GenericArgument::Static => (true, None),
        GenericArgument::Type(n) => (false, Some(n@)),
        GenericArgument::Unit => (false, None),
    }
}

/// The generic parameters of one message: its lifetimes, then its type parameters.
pub open spec fn message_params(m: MessagePlan) -> Seq<(bool, Seq<char>)> {
    names(m.lifetimes@).map_values(|n: Seq<char>| (true, n)) + names(m.type_params@).map_values(
        |n: Seq<char>| (false, n),
    )
}

/// The generic parameters of the message enum: those of each message in turn.
pub open spec fn enum_params(ms: Seq<MessagePlan>) -> Seq<(bool, Seq<char>)>
    decreases ms.len(),
{
    if ms.len() == 0 {
        Seq::empty()
    } else {
        enum_params(ms.drop_last()) + message_params(ms.last())
    }
}

/// The generic arguments that message `i` uses for the parameters of message
/// `j`: its own parameters where `j` is `i`, fillers otherwise.
pub open spec fn args_for(m: MessagePlan, own: bool) -> Seq<(bool, Option<Seq<char>>)> {
    names(m.lifetimes@).map_values(|n: Seq<char>| (true, if own { Some(n) } else { None }))
        + names(m.type_params@).map_values(|n: Seq<char>| (false, if own { Some(n) } else { None }))
}

/// The generic arguments with which message `i` names the message enum.
pub open spec fn mailbox_args(ms: Seq<MessagePlan>, i: int) -> Seq<(bool, Option<Seq<char>>)>
    decreases ms.len(),
{
    if ms.len() == 0 {
        Seq::empty()
    } else {
        mailbox_args(ms.drop_last(), i) + args_for(ms.last(), i == ms.len() - 1)
    }
}

/// How many parameters of `params` are lifetimes.
pub open spec fn count_lifetimes(params: Seq<(bool, Seq<char>)>) -> nat
    decreases params.len(),
{
    if params.len() == 0 {
        0
    } else {
        count_lifetimes(params.drop_last()) + (if params.last().0 { 1nat } else { 0nat })
    }
}

/// The generic arguments with which the message enum is named where no
/// message is being sent: `'static` for each lifetime parameter, then `()`
/// for each type parameter; none at all where there are no parameters.
pub open spec fn filler_args(params: Seq<(bool, Seq<char>)>) -> Option<Seq<(bool, Option<Seq<char>>)>> {
    if params.len() == 0 {
        None
    } else {
        let l = count_lifetimes(params);
        Some(Seq::new(l, |i: int| (true, None::<Seq<char>>)) + Seq::new(
            (params.len() - l) as nat,
            |i: int| (false, None::<Seq<char>>),
        ))
    }
}

/// The views of a list of generic parameters.
pub open spec fn params_view(v: Seq<GenericParam>) -> Seq<(bool, Seq<char>)> {
    v.map_values(|p: GenericParam| param_view(p))
}

/// The views of a list of generic arguments.
pub open spec fn args_view(v: Seq<GenericArgument>) -> Seq<(bool, Option<Seq<char>>)> {
    v.map_values(|a: GenericArgument| arg_view(a))
}

/// Appends a copy of each name of `src` as a parameter of one kind.
fn push_params(dst: &mut Vec<GenericParam>, src: &Vec<Vec<char>>, lifetime: bool)
    ensures
        params_view(final(dst)@) == params_view(old(dst)@) + names(src@).map_values(
            |n: Seq<char>| (lifetime, n),
        ),
{
    let mut i: usize = 0;
    while i < src.len()
        invariant
            0 <= i <= src@.len(),
            params_view(dst@) == params_view(old(dst)@) + names(src@.take(i as int)).map_values(
                |n: Seq<char>| (lifetime, n),
            ),
        decreases src@.len() - i,
    {
        let c = src[i].clone();
        assert(c@ =~= src@[i as int]@);
        let ghost before = dst@;
        if lifetime {
            dst.push(GenericParam::Lifetime(c));
        } else {
            dst.push(GenericParam::Type(c));
        }
        assert(params_view(dst@) =~= params_view(before).push((lifetime, src@[i as int]@)));
        i = i + 1;
        assert(names(src@.take(i as int)).map_values(|n: Seq<char>| (lifetime, n)) =~= names(
            src@.take(i - 1),
        ).map_values(|n: Seq<char>| (lifetime, n)).push((lifetime, src@[i - 1]@)));
    }
    assert(src@.take(src@.len() as int) =~= src@);
}

/// Appends the arguments that a message uses for the parameters of one
/// message: the names themselves where `own`, fillers otherwise.
fn push_args(dst: &mut Vec<GenericArgument>, src: &Vec<Vec<char>>, lifetime: bool, own: bool)
    ensures
        args_view(final(dst)@) == args_view(old(dst)@) + names(src@).map_values(
            |n: Seq<char>| (lifetime, if own { Some(n) } else { None }),
        ),
{
    let mut i: usize = 0;
    while i < src.len()
        invariant
            0 <= i <= src@.len(),
            args_view(dst@) == args_view(old(dst)@) + names(src@.take(i as int)).map_values(
                |n: Seq<char>| (lifetime, if own { Some(n) } else { None }),
            ),
        decreases src@.len() - i,
    {
        let ghost before = dst@;
        let arg = if own {
            let c = src[i].clone();
            assert(c@ =~= src@[i as int]@);
            if lifetime { GenericArgument::Lifetime(c) } else { GenericArgument::Type(c) }
        } else {
            if lifetime { GenericArgument::Static } else { GenericArgument::Unit }
        };
        dst.push(arg);
        assert(args_view(dst@) =~= args_view(before).push(
            (lifetime, if own { Some(src@[i as int]@) } else { None }),
        ));
        i = i + 1;
        assert(names(src@.take(i as int)).map_values(
            |n: Seq<char>| (lifetime, if own { Some(n) } else { None }),
        ) =~= names(src@.take(i - 1)).map_values(
            |n: Seq<char>| (lifetime, if own { Some(n) } else { None }),
        ).push((lifetime, if own { Some(src@[i - 1]@) } else { None })));
    }
    assert(src@.take(src@.len() as int) =~= src@);
}

/// The generic parameters of the message enum: those of each message in turn.
pub fn enum_generics(ms: &Vec<MessagePlan>) -> (g: Vec<GenericParam>)
    ensures
        params_view(g@) == enum_params(ms@),
{
    let mut g: Vec<GenericParam> = Vec::new();
    let mut j: usize = 0;
    while j < ms.len()
        invariant
            0 <= j <= ms@.len(),
            params_view(g@) == enum_params(ms@.take(j as int)),
        decreases ms@.len() - j,
    {
        push_params(&mut g, &ms[j].lifetimes, true);
        push_params(&mut g, &ms[j].type_params, false);
        j = j + 1;
        assert(ms@.take(j as int).drop_last() =~= ms@.take(j - 1));
        assert(params_view(g@) =~= enum_params(ms@.take(j as int)));
    }
    assert(ms@.take(ms@.len() as int) =~= ms@);
    g
}

/// The generic arguments with which message `i` names the message enum when it
/// is sent; none at all where the enum has no parameters.
pub fn mailbox_arguments(ms: &Vec<MessagePlan>, i: usize) -> (r: Option<Vec<GenericArgument>>)
    ensures
        match r {
            None => mailbox_args(ms@, i as int).len() == 0,
            Some(v) => v@.len() > 0 && args_view(v@) == mailbox_args(ms@, i as int),
        },
{
    let mut g: Vec<GenericArgument> = Vec::new();
    let mut j: usize = 0;
    while j < ms.len()
        invariant
            0 <= j <= ms@.len(),
            args_view(g@) == mailbox_args(ms@.take(j as int), i as int),
        decreases ms@.len() - j,
    {
        push_args(&mut g, &ms[j].lifetimes, true, j == i);
        push_args(&mut g, &ms[j].type_params, false, j == i);
        j = j + 1;
        assert(ms@.take(j as int).drop_last() =~= ms@.take(j - 1));
        assert(args_view(g@) =~= mailbox_args(ms@.take(j as int), i as int));
    }
    assert(ms@.take(ms@.len() as int) =~= ms@);
    if g.len() == 0 {
        None
    } else {
        Some(g)
    }
}

/// The generic arguments with which the message enum is named where no
/// message is being sent.
pub fn enum_arguments(params: &Vec<GenericParam>) -> (r: Option<Vec<GenericArgument>>)
    ensures
        match (r, filler_args(params_view(params@))) {
            (None, None) => true,
            (Some(v), Some(f)) => args_view(v@) == f,
            _ => false,
        },
{
    let ghost pv = params_view(params@);
    if params.len() == 0 {
        return None;
    }
    let mut lifetimes: usize = 0;
    let mut k: usize = 0;
    while k < params.len()
        invariant
            0 <= k <= params@.len(),
            pv == params_view(params@),
            lifetimes == count_lifetimes(pv.take(k as int)),
            lifetimes <= k,
        decreases params@.len() - k,
    {
        assert(pv.take(k + 1 as int).drop_last() =~= pv.take(k as int));
        match &params[k] {
            GenericParam::Lifetime(_) => {
                lifetimes = lifetimes + 1;
            },
            GenericParam::Type(_) => {},
        }
        k = k + 1;
    }
    assert(pv.take(params@.len() as int) =~= pv);
    let mut v: Vec<GenericArgument> = Vec::new();
    let mut a: usize = 0;
    while a < lifetimes
        invariant
            0 <= a <= lifetimes,
            args_view(v@) == Seq::new(a as nat, |i: int| (true, None::<Seq<char>>)),
        decreases lifetimes - a,
    {
        let ghost before = v@;
        v.push(GenericArgument::Static);
        assert(args_view(v@) =~= args_view(before).push((true, None::<Seq<char>>)));
        a = a + 1;
        assert(args_view(v@) =~= Seq::new(a as nat, |i: int| (true, None::<Seq<char>>)));
    }
    let ghost ls = args_view(v@);
    let mut b: usize = 0;
    while b < params.len() - lifetimes
        invariant
            lifetimes <= params@.len(),
            0 <= b <= params@.len() - lifetimes,
            args_view(v@) == ls + Seq::new(b as nat, |i: int| (false, None::<Seq<char>>)),
        decreases params@.len() - lifetimes - b,
    {
        let ghost before = v@;
        v.push(GenericArgument::Unit);
        assert(args_view(v@) =~= args_view(before).push((false, None::<Seq<char>>)));
        b = b + 1;
        assert(args_view(v@) =~= ls + Seq::new(b as nat, |i: int| (false, None::<Seq<char>>)));
    }
    Some(v)
}

} // verus!
