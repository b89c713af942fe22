use vstd::prelude::*;

verus! {

/// How a light path ends: absorbed or out of bounce budget (black), or
/// escaping the scene into the background gradient (sky).
#[derive(Clone, Copy, Debug, PartialEq, Eq, Structural)]
pub enum Terminal {
    Black,
    Sky,
}

/// What one trace of the current ray found in the scene.
#[derive(Clone, Copy, Debug, PartialEq, Eq, Structural)]
pub enum Surface {
    /// No object lies along the ray.
    Missed,
    /// The nearest object's material absorbed the ray.
    Absorbed,
    /// The nearest object's material sent out a new ray with an attenuation.
    Scattered,
}

/// What the integrator asks for next.
#[derive(Clone, Copy, Debug, PartialEq, Eq, Structural)]
pub enum Step {
    /// Trace the current ray against the scene and report what it found.
    Trace,
    /// The path is complete; its radiance is the product of the attenuations
    /// gathered so far times the terminal colour.
    Finish(Terminal),
}

/// The recursive colour integrator, read over the sequence of trace results
/// along one path. `depth` is the bounce budget. The result is the terminal
/// colour and the number of scatter events whose attenuations multiply it, or
/// `None` while `found` is too short to decide.
pub open spec fn path_end(depth: int, found: Seq<Surface>) -> Option<(Terminal, nat)>
    decreases found.len(),
{
    if depth <= 0 {
        Some((Terminal::Black, 0))
    } else if found.len() == 0 {
        None
    } else {
        match found[0] {
            Surface::Missed => Some((Terminal::Sky, 0)),
            Surface::Absorbed => Some((Terminal::Black, 0)),
            Surface::Scattered => match path_end(depth - 1, found.drop_first()) {
                Some((t, n)) => Some((t, n + 1)),
                None => None,
            },
        }
    }
}

/// A path still undecided has only scattered, and fewer times than its budget.
proof fn lemma_undecided(depth: int, found: Seq<Surface>)
    requires
        path_end(depth, found) is None,
    ensures
        found.len() < depth,
        forall|i: int| 0 <= i < found.len() ==> found[i] == Surface::Scattered,
    decreases found.len(),
{
    if found.len() > 0 {
        lemma_undecided(depth - 1, found.drop_first());
        assert forall|i: int| 0 <= i < found.len() implies found[i] == Surface::Scattered by {
            if i > 0 {
                assert(found[i] == found.drop_first()[i - 1]);
            }
        }
    }
}

/// Appending one trace result to an undecided path.
proof fn lemma_extend(depth: int, found: Seq<Surface>, next: Surface)
    requires
        path_end(depth, found) is None,
    ensures
        path_end(depth, found.push(next)) == (match next {
            Surface::Missed => Some((Terminal::Sky, found.len())),
            Surface::Absorbed => Some((Terminal::Black, found.len())),
            Surface::Scattered => if depth - found.len() - 1 <= 0 {
                Some((Terminal::Black, (found.len() + 1) as nat))
            } else {
                None
            },
        }),
    decreases found.len(),
{
    lemma_undecided(depth, found);
    if found.len() == 0 {
        assert(found.push(next).drop_first() =~= Seq::<Surface>::empty());
    } else {
        assert(found.push(next).drop_first() =~= found.drop_first().push(next));
        lemma_extend(depth - 1, found.drop_first(), next);
    }
}

/// With no bounce budget left, every path is black, whatever the scene holds.
pub proof fn lemma_exhausted_is_black(depth: int, found: Seq<Surface>)
    requires
        depth <= 0,
    ensures
        path_end(depth, found) == Some((Terminal::Black, 0nat)),
{
}

/// With budget for one trace or more, a ray that misses the scene ends the
/// path in the background gradient at once, with no attenuation, whatever
/// would have followed.
pub proof fn lemma_miss_is_sky(depth: int, found: Seq<Surface>)
    requires
        depth >= 1,
        found.len() >= 1,
        found[0] == Surface::Missed,
    ensures
        path_end(depth, found) == Some((Terminal::Sky, 0nat)),
{
}

/// A path never gathers more attenuations than its bounce budget.
pub proof fn lemma_bounces_within_budget(depth: int, found: Seq<Surface>)
    requires
        path_end(depth, found) is Some,
    ensures
        path_end(depth, found).unwrap().1 <= if depth <= 0 { 0 } else { depth },
    decreases found.len(),
{
    if depth > 0 && found.len() > 0 && found[0] == Surface::Scattered {
        lemma_bounces_within_budget(depth - 1, found.drop_first());
    }
}

/// The integrator for one camera sample, run as an explicit loop: the caller
/// asks `next`, traces when told to, and reports each result with `record`.
pub struct Bounces {
    remaining: i64,
    ended: Option<Terminal>,
    depth: Ghost<int>,
    found: Ghost<Seq<Surface>>,
}

impl Bounces {
    /// The bounce budget the path was started with.
    pub closed spec fn depth(&self) -> int {
        self.depth@
    }

    /// The trace results recorded so far, oldest first.
    pub closed spec fn found(&self) -> Seq<Surface> {
        self.found@
    }

    pub closed spec fn wf(&self) -> bool {
        match self.ended {
            None => {
                &&& self.remaining == self.depth@ - self.found@.len()
                &&& path_end(self.depth@, self.found@) == if self.remaining <= 0 {
                    Some((Terminal::Black, self.found@.len()))
                } else {
                    None
                }
            },
            Some(t) => path_end(self.depth@, self.found@) matches Some((u, _)) && u == t,
        }
    }

    /// Starts a path with `depth` bounces of budget and nothing traced.
    pub fn new(depth: i64) -> (b: Bounces)
        ensures
            b.wf(),
            b.depth() == depth,
            b.found() == Seq::<Surface>::empty(),
    {
        Bounces { remaining: depth, ended: None, depth: Ghost(depth as int), found: Ghost(Seq::empty()) }
    }

    /// What to do next: trace while the path is undecided, else finish it with
    /// its terminal colour.
    pub fn next(&self) -> (s: Step)
        requires
            self.wf(),
        ensures
            s == (match path_end(self.depth(), self.found()) {
                None => Step::Trace,
                Some((t, _)) => Step::Finish(t),
            }),
            s == Step::Trace ==> self.found().len() < self.depth(),
    {
        proof {
            if path_end(self.depth(), self.found()) is None {
                lemma_undecided(self.depth(), self.found());
            }
        }
        match self.ended {
            Some(t) => Step::Finish(t),
            None => if self.remaining <= 0 {
                Step::Finish(Terminal::Black)
            } else {
                Step::Trace
            },
        }
    }

    /// Records what the last trace found. Only an undecided path is traced.
    pub fn record(&mut self, found: Surface)
        requires
            old(self).wf(),
            path_end(old(self).depth(), old(self).found()) is None,
        ensures
            final(self).wf(),
            final(self).depth() == old(self).depth(),
            final(self).found() == old(self).found().push(found),
            path_end(final(self).depth(), final(self).found()) == (match found {
                Surface::Missed => Some((Terminal::Sky, old(self).found().len())),
                Surface::Absorbed => Some((Terminal::Black, old(self).found().len())),
                Surface::Scattered => if old(self).depth() - old(self).found().len() - 1 <= 0 {
                    Some((Terminal::Black, (old(self).found().len() + 1) as nat))
                } else {
                    None
                },
            }),
    {
        proof {
            lemma_extend(self.depth@, self.found@, found);
        }
        match found {
            Surface::Missed => {
                self.ended = Some(Terminal::Sky);
            },
            Surface::Absorbed => {
                self.ended = Some(Terminal::Black);
            },
            Surface::Scattered => {
                self.remaining = self.remaining - 1;
            },
        }
        self.found = Ghost(self.found@.push(found));
    }
}

} // verus!
