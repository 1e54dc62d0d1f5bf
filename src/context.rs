//! The ambient signer: a registry of scopes, each binding a signer to one task.
//! Entering a scope shadows the task's earlier binding; leaving it restores
//! that binding. Scopes of other tasks are never seen.
use vstd::prelude::*;

verus! {

/// One open scope: `signer` is bound for `task`.
pub struct Frame<S> {
    pub task: u64,
    pub signer: S,
}

/// The position of the innermost open scope of `task`.
pub open spec fn last_index<S>(frames: Seq<Frame<S>>, task: u64) -> Option<int>
    decreases frames.len(),
{
    if frames.len() == 0 {
        None
    } else if frames.last().task == task {
        Some(frames.len() - 1)
    } else {
        last_index(frames.drop_last(), task)
    }
}

/// The signer that `task` sees: the one of its innermost open scope.
pub open spec fn bound<S>(frames: Seq<Frame<S>>, task: u64) -> Option<S> {
    match last_index(frames, task) {
        Some(j) => Some(frames[j].signer),
        None => None,
    }
}

/// The scopes after `task` leaves its innermost one.
pub open spec fn close_innermost<S>(frames: Seq<Frame<S>>, task: u64) -> Seq<Frame<S>> {
    match last_index(frames, task) {
        Some(j) => frames.remove(j),
        None => frames,
    }
}

/// The scopes after `task` enters one that binds `signer`.
pub open spec fn open_scope<S>(frames: Seq<Frame<S>>, task: u64, signer: S) -> Seq<Frame<S>> {
    frames.push(Frame { task, signer })
}

/// The registry of open scopes, oldest first.
pub struct SignerContext<S> {
    frames: Vec<Frame<S>>,
}

impl<S> View for SignerContext<S> {
    type V = Seq<Frame<S>>;

    closed spec fn view(&self) -> Seq<Frame<S>> {
        self.frames@
    }
}

pub proof fn lemma_last_index_in_bounds<S>(frames: Seq<Frame<S>>, task: u64)
    ensures
        last_index(frames, task) matches Some(j) ==> 0 <= j < frames.len() && frames[j].task
            == task,
    decreases frames.len(),
{
    if frames.len() > 0 && frames.last().task != task {
        lemma_last_index_in_bounds(frames.drop_last(), task);
    }
}

/// Inside a scope that binds `signer`, its task sees `signer`.
pub proof fn lemma_scope_binds<S>(frames: Seq<Frame<S>>, task: u64, signer: S)
    ensures
        bound(open_scope(frames, task, signer), task) == Some(signer),
{
    let f = open_scope(frames, task, signer);
    assert(f.last() == Frame { task, signer });
}

/// Leaving a scope right after entering it gives back the scopes as they were,
/// so every task, the one that left included, sees what it saw before.
pub proof fn lemma_leave_restores<S>(frames: Seq<Frame<S>>, task: u64, signer: S)
    ensures
        close_innermost(open_scope(frames, task, signer), task) == frames,
        forall|t: u64| bound(close_innermost(open_scope(frames, task, signer), task), t) == bound(frames, t),
{
    let f = open_scope(frames, task, signer);
    assert(f.last().task == task);
    assert(f.remove(f.len() - 1) =~= frames);
}

/// A scope nested in another of the same task shadows it, and once the inner
/// one is left the outer signer is seen again.
pub proof fn lemma_nested_scopes<S>(frames: Seq<Frame<S>>, task: u64, outer: S, inner: S)
    ensures
        bound(open_scope(open_scope(frames, task, outer), task, inner), task) == Some(inner),
        bound(
            close_innermost(open_scope(open_scope(frames, task, outer), task, inner), task),
            task,
        ) == Some(outer),
{
    lemma_scope_binds(open_scope(frames, task, outer), task, inner);
    lemma_leave_restores(open_scope(frames, task, outer), task, inner);
    lemma_scope_binds(frames, task, outer);
}

proof fn lemma_bound_push<S>(frames: Seq<Frame<S>>, f: Frame<S>, t: u64)
    ensures
        bound(frames.push(f), t) == (if f.task == t {
            Some(f.signer)
        } else {
            bound(frames, t)
        }),
{
    assert(frames.push(f).drop_last() =~= frames);
    lemma_last_index_in_bounds(frames, t);
}

/// Entering a scope changes what no other task sees.
pub proof fn lemma_open_isolated<S>(frames: Seq<Frame<S>>, task: u64, signer: S, other: u64)
    requires
        other != task,
    ensures
        bound(open_scope(frames, task, signer), other) == bound(frames, other),
{
    lemma_bound_push(frames, Frame { task, signer }, other);
}

/// Leaving a scope changes what no other task sees.
pub proof fn lemma_close_isolated<S>(frames: Seq<Frame<S>>, task: u64, other: u64)
    requires
        other != task,
    ensures
        bound(close_innermost(frames, task), other) == bound(frames, other),
    decreases frames.len(),
{
    if frames.len() > 0 {
        let prefix = frames.drop_last();
        let last = frames.last();
        assert(prefix.push(last) =~= frames);
        lemma_bound_push(prefix, last, other);
        if last.task == task {
            assert(frames.remove(frames.len() - 1) =~= prefix);
        } else {
            lemma_last_index_in_bounds(prefix, task);
            match last_index(prefix, task) {
                Some(j) => {
                    assert(frames.remove(j) =~= prefix.remove(j).push(last));
                    lemma_bound_push(prefix.remove(j), last, other);
                    lemma_close_isolated(prefix, task, other);
                },
                None => {},
            }
        }
    }
}

/// A change to the open scopes made by some task.
pub enum ScopeEvent<S> {
    Open(u64, S),
    Close(u64),
}

pub open spec fn event_task<S>(e: ScopeEvent<S>) -> u64 {
    match e {
        ScopeEvent::Open(t, _) => t,
        ScopeEvent::Close(t) => t,
    }
}

pub open spec fn apply_event<S>(frames: Seq<Frame<S>>, e: ScopeEvent<S>) -> Seq<Frame<S>> {
    match e {
        ScopeEvent::Open(t, s) => open_scope(frames, t, s),
        ScopeEvent::Close(t) => close_innermost(frames, t),
    }
}

/// The scopes after the events, in order.
pub open spec fn apply_events<S>(frames: Seq<Frame<S>>, events: Seq<ScopeEvent<S>>) -> Seq<
    Frame<S>,
>
    decreases events.len(),
{
    if events.len() == 0 {
        frames
    } else {
        apply_events(apply_event(frames, events[0]), events.drop_first())
    }
}

/// However the scopes of other tasks open and close while a task is suspended,
/// the task sees the same signer before and after.
pub proof fn lemma_interleaving_isolated<S>(
    frames: Seq<Frame<S>>,
    events: Seq<ScopeEvent<S>>,
    task: u64,
)
    requires
        forall|i: int| 0 <= i < events.len() ==> event_task(#[trigger] events[i]) != task,
    ensures
        bound(apply_events(frames, events), task) == bound(frames, task),
    decreases events.len(),
{
    if events.len() > 0 {
        let e = events[0];
        assert(event_task(events[0]) != task);
        match e {
            ScopeEvent::Open(t, s) => lemma_open_isolated(frames, t, s, task),
            ScopeEvent::Close(t) => lemma_close_isolated(frames, t, task),
        }
        let rest = events.drop_first();
        assert forall|i: int| 0 <= i < rest.len() implies event_task(#[trigger] rest[i]) != task by {
            assert(rest[i] == events[i + 1]);
        }
        lemma_interleaving_isolated(apply_event(frames, e), rest, task);
    }
}

impl<S> SignerContext<S> {
    /// A registry with no open scope.
    pub fn new() -> (r: Self)
        ensures
            r@ == Seq::<Frame<S>>::empty(),
    {
        SignerContext { frames: Vec::new() }
    }

    /// Opens a scope in which `task` sees `signer`.
    pub fn enter_scope(&mut self, task: u64, signer: S)
        ensures
            final(self)@ == open_scope(old(self)@, task, signer),
    {
        self.frames.push(Frame { task, signer });
    }

    /// Closes the innermost scope of `task` and hands back its signer; the
    /// task then sees the binding it had before that scope.
    pub fn exit_scope(&mut self, task: u64) -> (r: Option<S>)
        ensures
            final(self)@ == close_innermost(old(self)@, task),
            r == bound(old(self)@, task),
    {
        match self.innermost(task) {
            Some(j) => {
                proof {
                    lemma_last_index_in_bounds(self@, task);
                }
                let frame = self.frames.remove(j);
                Some(frame.signer)
            },
            None => None,
        }
    }

    fn innermost(&self, task: u64) -> (r: Option<usize>)
        ensures
            r matches Some(j) ==> last_index(self@, task) == Some(j as int),
            r is None ==> last_index(self@, task) is None,
    {
        let mut i: usize = self.frames.len();
        assert(self.frames@.subrange(0, i as int) =~= self.frames@);
        while i > 0
            invariant
                i <= self.frames@.len(),
                last_index(self.frames@, task) == last_index(self.frames@.subrange(0, i as int), task),
            decreases i,
        {
            let k = i - 1;
            let prefix = Ghost(self.frames@.subrange(0, i as int));
            assert(prefix@.drop_last() =~= self.frames@.subrange(0, k as int));
            if self.frames[k].task == task {
                return Some(k);
            }
            i = k;
        }
        None
    }

    /// The signer that `task` sees, if it is inside any scope.
    pub fn current(&self, task: u64) -> (r: Option<&S>)
        ensures
            r matches Some(s) ==> bound(self@, task) == Some(*s),
            r is None ==> bound(self@, task) is None,
    {
        match self.innermost(task) {
            Some(j) => {
                proof {
                    lemma_last_index_in_bounds(self@, task);
                }
                Some(&self.frames[j].signer)
            },
            None => None,
        }
    }

    /// Whether any scope is open.
    pub fn is_empty(&self) -> (r: bool)
        ensures
            r == (self@.len() == 0),
    {
        self.frames.len() == 0
    }
}

} // verus!
