//! Depth-first walks through the accessibility tree. The tree itself stays
//! outside: the caller names its elements by indices, reads an element when
//! the walk hands out its index, and hands back the indices of its children.

use vstd::prelude::*;

verus! {

/// The entries that `expand` pushes for `children` found at `depth`: the
/// children in reverse order, so that the first child is popped first, each
/// one level deeper.
pub open spec fn pushed(children: Seq<usize>, depth: int) -> Seq<(usize, usize)> {
    Seq::new(children.len(), |i: int| (children[children.len() - 1 - i], (depth + 1) as usize))
}

/// A depth-first walk from one root that visits at most `max_visits`
/// elements and does not descend below depth `max_depth`; siblings are
/// visited in their document order.
pub struct TreeWalk {
    stack: Vec<(usize, usize)>,
    visited: usize,
    max_visits: usize,
    max_depth: usize,
}

impl TreeWalk {
    /// The elements still to visit, with their depths; the last is next.
    pub closed spec fn pending(&self) -> Seq<(usize, usize)> {
        self.stack@
    }

    /// How many elements the walk has handed out.
    pub closed spec fn visited(&self) -> nat {
        self.visited as nat
    }

    /// The most elements that the walk hands out.
    pub closed spec fn max_visits(&self) -> nat {
        self.max_visits as nat
    }

    /// The deepest level whose elements are visited.
    pub closed spec fn max_depth(&self) -> nat {
        self.max_depth as nat
    }

    /// The walk's invariant: within its visit budget, and every pending
    /// element within the depth limit.
    #[verifier::type_invariant]
    pub open spec fn wf(&self) -> bool {
        &&& self.visited() <= self.max_visits()
        &&& forall|i: int| 0 <= i < self.pending().len() ==> #[trigger] self.pending()[i].1 <= self.max_depth()
    }

    /// A walk that starts at `root`, at depth 0.
    pub fn new(root: usize, max_visits: usize, max_depth: usize) -> (walk: TreeWalk)
        ensures
            walk.pending() == seq![(root, 0usize)],
            walk.visited() == 0,
            walk.max_visits() == max_visits,
            walk.max_depth() == max_depth,
    {
        let mut stack: Vec<(usize, usize)> = Vec::new();
        stack.push((root, 0));
        TreeWalk { stack, visited: 0, max_visits, max_depth }
    }

    /// The next element to visit and its depth, or `None` when nothing is
    /// left or when the visit budget is spent (the walk then ends).
    pub fn next(&mut self) -> (res: Option<(usize, usize)>)
        ensures
            final(self).max_visits() == old(self).max_visits(),
            final(self).max_depth() == old(self).max_depth(),
            old(self).pending().len() == 0 ==> res is None && final(self).pending() == old(self).pending()
                && final(self).visited() == old(self).visited(),
            old(self).pending().len() > 0 && old(self).visited() == old(self).max_visits() ==> res is None
                && final(self).pending().len() == 0 && final(self).visited() == old(self).visited(),
            old(self).pending().len() > 0 && old(self).visited() < old(self).max_visits() ==> res == Some(
                old(self).pending().last(),
            ) && final(self).pending() == old(self).pending().drop_last() && final(self).visited()
                == old(self).visited() + 1,
            res matches Some(entry) ==> entry.1 <= final(self).max_depth(),
    {
        proof {
            use_type_invariant(&*self);
        }
        let mut stack: Vec<(usize, usize)> = Vec::new();
        std::mem::swap(&mut stack, &mut self.stack);
        match stack.pop() {
            None => {
                self.stack = stack;
                None
            },
            Some(entry) => {
                if self.visited >= self.max_visits {
                    None
                } else {
                    self.visited = self.visited + 1;
                    assert(entry == old(self).pending().last());
                    assert(entry.1 <= self.max_depth);
                    assert forall|k: int| 0 <= k < stack@.len() implies #[trigger] stack@[k].1
                        <= self.max_depth by {
                        assert(stack@[k] == old(self).pending()[k]);
                    }
                    self.stack = stack;
                    Some(entry)
                }
            },
        }
    }

    /// Whether elements are left to visit; when some are and `next` gives
    /// nothing, the visit budget is spent.
    pub fn has_pending(&self) -> (res: bool)
        ensures
            res == (self.pending().len() > 0),
    {
        self.stack.len() > 0
    }

    /// Whether the children of an element at `depth` are walked.
    pub fn descends_from(&self, depth: usize) -> (res: bool)
        ensures
            res == (depth < self.max_depth()),
    {
        depth < self.max_depth
    }

    /// Schedules the children of an element visited at `depth`, unless that
    /// element is at the depth limit.
    pub fn expand(&mut self, depth: usize, children: &Vec<usize>)
        ensures
            final(self).visited() == old(self).visited(),
            final(self).max_visits() == old(self).max_visits(),
            final(self).max_depth() == old(self).max_depth(),
            depth < old(self).max_depth() ==> final(self).pending() == old(self).pending() + pushed(
                children@,
                depth as int,
            ),
            depth >= old(self).max_depth() ==> final(self).pending() == old(self).pending(),
    {
        proof {
            use_type_invariant(&*self);
        }
        if depth < self.max_depth {
            let mut stack: Vec<(usize, usize)> = Vec::new();
            std::mem::swap(&mut stack, &mut self.stack);
            let ghost start = stack@;
            assert forall|k: int| 0 <= k < start.len() implies #[trigger] start[k].1 <= self.max_depth by {
                assert(old(self).pending()[k].1 <= old(self).max_depth());
            }
            let mut i: usize = children.len();
            while i > 0
                invariant
                    i <= children@.len(),
                    depth < self.max_depth,
                    stack@ == start + pushed(children@, depth as int).take(children@.len() - i),
                    forall|k: int| 0 <= k < stack@.len() ==> #[trigger] stack@[k].1 <= self.max_depth,
                decreases i,
            {
                i = i - 1;
                stack.push((children[i], depth + 1));
                proof {
                    let p = pushed(children@, depth as int);
                    assert(p.take(children@.len() - i) =~= p.take(children@.len() - i - 1).push(
                        (children@[i as int], (depth + 1) as usize),
                    ));
                }
            }
            proof {
                let p = pushed(children@, depth as int);
                assert(p.take(children@.len() as int) =~= p);
            }
            self.stack = stack;
        }
    }
}

/// A walk through the elements under a window, for the microphone menu and
/// the meeting window: it starts with the window's children, visits the
/// most recently scheduled element first and adds the children of each
/// visited element in document order; with a limit, it stops adding
/// children once that many elements have been visited.
pub struct MenuWalk {
    stack: Vec<usize>,
    visited: usize,
    expansion_limit: Option<usize>,
}

impl MenuWalk {
    /// The elements still to visit; the last is next.
    pub closed spec fn pending(&self) -> Seq<usize> {
        self.stack@
    }

    /// How many elements the walk has handed out, counted up to the limit.
    pub closed spec fn visited(&self) -> nat {
        self.visited as nat
    }

    /// The limit on visits after which no more children are added.
    pub closed spec fn expansion_limit(&self) -> Option<usize> {
        self.expansion_limit
    }

    /// The walk's invariant: the count never passes the limit.
    #[verifier::type_invariant]
    pub open spec fn wf(&self) -> bool {
        match self.expansion_limit() {
            Some(limit) => self.visited() <= limit,
            None => self.visited() == 0,
        }
    }

    /// A walk over the children of a window.
    pub fn new(children: &Vec<usize>, expansion_limit: Option<usize>) -> (walk: MenuWalk)
        ensures
            walk.pending() == children@,
            walk.visited() == 0,
            walk.expansion_limit() == expansion_limit,
    {
        let mut stack: Vec<usize> = Vec::new();
        let mut i: usize = 0;
        while i < children.len()
            invariant
                i <= children@.len(),
                stack@ == children@.take(i as int),
            decreases children@.len() - i,
        {
            stack.push(children[i]);
            proof {
                assert(children@.take(i + 1) =~= children@.take(i as int).push(children@[i as int]));
            }
            i = i + 1;
        }
        assert(children@.take(children@.len() as int) =~= children@);
        MenuWalk { stack, visited: 0, expansion_limit }
    }

    /// The next element to visit, or `None` when nothing is left.
    pub fn next(&mut self) -> (res: Option<usize>)
        ensures
            final(self).expansion_limit() == old(self).expansion_limit(),
            old(self).pending().len() == 0 ==> res is None && final(self).pending() == old(self).pending()
                && final(self).visited() == old(self).visited(),
            old(self).pending().len() > 0 ==> res == Some(old(self).pending().last())
                && final(self).pending() == old(self).pending().drop_last(),
            old(self).pending().len() > 0 ==> match old(self).expansion_limit() {
                Some(limit) => final(self).visited() == if old(self).visited() < limit {
                    old(self).visited() + 1
                } else {
                    old(self).visited()
                },
                None => final(self).visited() == 0,
            },
    {
        proof {
            use_type_invariant(&*self);
        }
        let mut stack: Vec<usize> = Vec::new();
        std::mem::swap(&mut stack, &mut self.stack);
        let res = stack.pop();
        if res.is_some() {
            match self.expansion_limit {
                Some(limit) => {
                    if self.visited < limit {
                        self.visited = self.visited + 1;
                    }
                },
                None => {},
            }
        }
        self.stack = stack;
        res
    }

    /// Whether the children of the element just visited are added: always
    /// without a limit, and while fewer than the limit have been visited
    /// with one.
    pub fn descends(&self) -> (res: bool)
        ensures
            res == match self.expansion_limit() {
                Some(limit) => self.visited() < limit,
                None => true,
            },
    {
        match self.expansion_limit {
            Some(limit) => self.visited < limit,
            None => true,
        }
    }

    /// Adds the children of the element just visited, in document order, if
    /// the walk still descends.
    pub fn expand(&mut self, children: &Vec<usize>)
        ensures
            final(self).visited() == old(self).visited(),
            final(self).expansion_limit() == old(self).expansion_limit(),
            final(self).pending() == if match old(self).expansion_limit() {
                Some(limit) => old(self).visited() < limit,
                None => true,
            } {
                old(self).pending() + children@
            } else {
                old(self).pending()
            },
    {
        proof {
            use_type_invariant(&*self);
        }
        if self.descends() {
            let mut stack: Vec<usize> = Vec::new();
            std::mem::swap(&mut stack, &mut self.stack);
            let ghost start = stack@;
            let mut i: usize = 0;
            while i < children.len()
                invariant
                    i <= children@.len(),
                    stack@ == start + children@.take(i as int),
                decreases children@.len() - i,
            {
                stack.push(children[i]);
                proof {
                    assert(children@.take(i + 1) =~= children@.take(i as int).push(children@[i as int]));
                }
                i = i + 1;
            }
            assert(children@.take(children@.len() as int) =~= children@);
            self.stack = stack;
        }
    }
}

/// Siblings are visited in document order: after `expand` schedules the
/// children of an element, the next visits hand them out first child first,
/// one level below their parent.
pub proof fn children_are_visited_in_order(
    pending: Seq<(usize, usize)>,
    children: Seq<usize>,
    depth: int,
)
    ensures
        forall|k: int|
            0 <= k < children.len() ==> #[trigger] (pending + pushed(children, depth))[pending.len()
                + children.len() - 1 - k] == (children[k], (depth + 1) as usize),
{
}

/// The most children read from one element.
pub const MAX_CHILDREN: usize = 500;

/// How many children of an element are read, given the count that the
/// accessibility interface reports: that count, at most [`MAX_CHILDREN`],
/// and none for a count that is not positive.
pub fn readable_children(count: isize) -> (n: usize)
    ensures
        n as int == if count <= 0 {
            0
        } else if count > 500 {
            500
        } else {
            count as int
        },
{
    if count <= 0 {
        0
    } else if count > 500 {
        MAX_CHILDREN
    } else {
        count as usize
    }
}

} // verus!
