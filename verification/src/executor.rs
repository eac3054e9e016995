//! The environment holder: an ordered, immutable list of environment
//! bindings, reusable across any number of launches.

use vstd::prelude::*;
use crate::diagnostic::views_of;
use crate::launch::{Invocation, LaunchError};

verus! {

/// The view of a sequence of owned string pairs as a sequence of
/// character-sequence pairs.
pub open spec fn pairs_view(s: Seq<(String, String)>) -> Seq<(Seq<char>, Seq<char>)> {
    s.map_values(|p: (String, String)| (p.0@, p.1@))
}

/// An execution environment, consisting of environment variables which are
/// provided on the launch of each new process.
pub struct Executor {
    env: Vec<(String, String)>,
}

impl View for Executor {
    type V = Seq<(Seq<char>, Seq<char>)>;

    closed spec fn view(&self) -> Seq<(Seq<char>, Seq<char>)> {
        pairs_view(self.env@)
    }
}

impl Executor {
    /// Initializes a new Executor.
    ///
    /// All environment bindings are stored verbatim, in order, duplicates
    /// included; they are provided to every process prepared from this
    /// holder.
    pub fn new(env: Vec<(String, String)>) -> (r: Executor)
        ensures
            r@ == pairs_view(env@),
    {
        Executor { env }
    }

    /// Prepares one launch from the given token sequence: the first token is
    /// the command, the rest are its arguments, and a copy of this holder's
    /// bindings rides along. An empty token sequence has no command and is a
    /// fatal precondition violation, whatever the bindings are.
    pub fn prepare(&self, args: &Vec<String>) -> (r: Result<Invocation, LaunchError>)
        ensures
            r is Err <==> args@.len() == 0,
            r matches Err(e) ==> e is MissingCommand,
            r matches Ok(inv) ==> Some(
                (inv.cmd@, views_of(inv.args@), pairs_view(inv.env@)),
            ) == spec_prepare(self@, views_of(args@)),
    {
        if args.len() == 0 {
            return Err(LaunchError::MissingCommand);
        }
        let cmd = args[0].clone();
        let mut rest: Vec<String> = Vec::new();
        let mut i: usize = 1;
        while i < args.len()
            invariant
                1 <= i <= args@.len(),
                rest@.len() == i - 1,
                forall|k: int| 0 <= k < i - 1 ==> rest@[k]@ == args@[1 + k]@,
            decreases args@.len() - i,
        {
            rest.push(args[i].clone());
            i = i + 1;
        }
        let mut env: Vec<(String, String)> = Vec::new();
        let mut j: usize = 0;
        while j < self.env.len()
            invariant
                j <= self.env@.len(),
                env@.len() == j,
                forall|k: int|
                    0 <= k < j ==> env@[k].0@ == self.env@[k].0@ && env@[k].1@
                        == self.env@[k].1@,
            decreases self.env@.len() - j,
        {
            let key = self.env[j].0.clone();
            let value = self.env[j].1.clone();
            env.push((key, value));
            j = j + 1;
        }
        proof {
            assert(views_of(rest@) =~= views_of(args@).skip(1));
            assert(pairs_view(env@) =~= pairs_view(self.env@));
        }
        Ok(Invocation { cmd, args: rest, env })
    }
}

/// What preparing a launch yields, over the views alone: no command for an
/// empty token sequence; otherwise the first token as the command, the
/// remaining tokens as its arguments, and the holder's bindings verbatim.
pub open spec fn spec_prepare(env: Seq<(Seq<char>, Seq<char>)>, args: Seq<Seq<char>>) -> Option<
    (Seq<char>, Seq<Seq<char>>, Seq<(Seq<char>, Seq<char>)>),
> {
    if args.len() == 0 {
        None
    } else {
        Some((args[0], args.skip(1), env))
    }
}

/// Environment propagation: every binding supplied at construction is handed
/// verbatim, in order, to every launch prepared from the holder; the child's
/// environment receives exactly these pairs on top of the inherited one.
pub proof fn lemma_environment_propagation(
    env: Seq<(Seq<char>, Seq<char>)>,
    args: Seq<Seq<char>>,
)
    requires
        args.len() > 0,
    ensures
        spec_prepare(env, args) is Some,
        spec_prepare(env, args).unwrap().2 == env,
{
}

/// Empty command precondition: a launch prepared from an empty token
/// sequence always fails for want of a command, whatever bindings the holder
/// carries.
pub proof fn lemma_missing_command(env: Seq<(Seq<char>, Seq<char>)>, args: Seq<Seq<char>>)
    requires
        args.len() == 0,
    ensures
        spec_prepare(env, args) is None,
{
}

/// Reuse across calls: one holder serves any number of sequential launches.
/// Two launches prepared from the same holder observe exactly the same
/// bindings, and each launch's command and arguments come from its own token
/// sequence alone, so the outcome of the first is untouched by whatever the
/// second does.
pub proof fn lemma_reuse_across_calls(
    env: Seq<(Seq<char>, Seq<char>)>,
    args1: Seq<Seq<char>>,
    args2: Seq<Seq<char>>,
)
    requires
        args1.len() > 0,
        args2.len() > 0,
    ensures
        spec_prepare(env, args1).unwrap().2 == spec_prepare(env, args2).unwrap().2,
        spec_prepare(env, args1).unwrap().2 == env,
        spec_prepare(env, args1).unwrap().0 == args1[0],
        spec_prepare(env, args1).unwrap().1 == args1.skip(1),
{
}

} // verus!
