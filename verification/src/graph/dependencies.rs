//! The two-phase link between an entity and what it depends on.
use crate::graph::table::{LookupTable, TableView};
use crate::model::views;
use vstd::prelude::*;

verus! {

/// What a link holds: the raw list until it is taken, and the resolved table
/// once it is set.
pub struct LinkView<R, S> {
    pub raw: Option<Seq<R>>,
    pub resolved: Option<TableView<S>>,
}

/// One call on a link, as far as it can change the link.
pub enum LinkOp<S> {
    TakeRaw,
    SetResolved(TableView<S>),
}

impl<R, S> LinkView<R, S> {
    /// The link that `new` makes.
    pub open spec fn fresh(raw: Seq<R>) -> Self {
        LinkView { raw: Some(raw), resolved: None }
    }

    /// The link after `take_raw`.
    pub open spec fn after_take(self) -> Self {
        LinkView { raw: None, resolved: self.resolved }
    }

    /// Whether `set_resolved` succeeds on this link.
    pub open spec fn accepts_resolved(self) -> bool {
        self.resolved is None
    }

    /// The link after `set_resolved(table)`.
    pub open spec fn after_set(self, table: TableView<S>) -> Self {
        if self.accepts_resolved() {
            LinkView { raw: self.raw, resolved: Some(table) }
        } else {
            self
        }
    }

    /// The link after one call.
    pub open spec fn after(self, op: LinkOp<S>) -> Self {
        match op {
            LinkOp::TakeRaw => self.after_take(),
            LinkOp::SetResolved(table) => self.after_set(table),
        }
    }

    /// The link after a run of calls, first to last.
    pub open spec fn after_all(self, ops: Seq<LinkOp<S>>) -> Self
        decreases ops.len(),
    {
        if ops.len() == 0 {
            self
        } else {
            self.after_all(ops.drop_last()).after(ops.last())
        }
    }
}

/// Guards the dependencies of one entity. The raw list can be taken once, the
/// resolved table can be set once and is then read as often as needed.
#[derive(Debug)]
pub struct DependencyLink<RawT, ResolvedT> {
    raw: Option<Vec<RawT>>,
    resolved: Option<LookupTable<ResolvedT>>,
}

impl<RawT: View, ResolvedT: View> View for DependencyLink<RawT, ResolvedT> {
    type V = LinkView<RawT::V, ResolvedT::V>;

    closed spec fn view(&self) -> LinkView<RawT::V, ResolvedT::V> {
        LinkView {
            raw: match self.raw {
                Some(raw) => Some(views(raw@)),
                None => None,
            },
            resolved: match self.resolved {
                Some(table) => Some(table@),
                None => None,
            },
        }
    }
}

impl<RawT: View, ResolvedT: View> DependencyLink<RawT, ResolvedT> {
    /// The resolved table, where there is one, is well-formed.
    pub closed spec fn wf(&self) -> bool {
        match self.resolved {
            Some(table) => table.wf(),
            None => true,
        }
    }

    /// A link that holds `raw` and no resolved table yet.
    pub fn new(raw: Vec<RawT>) -> (r: Self)
        ensures
            r.wf(),
            r@ == LinkView::<RawT::V, ResolvedT::V>::fresh(views(raw@)),
    {
        Self { raw: Some(raw), resolved: None }
    }

    /// Hands out the raw list the first time, and nothing after that.
    pub fn take_raw(&mut self) -> (r: Option<Vec<RawT>>)
        ensures
            match r {
                Some(raw) => old(self)@.raw == Some(views(raw@)),
                None => old(self)@.raw is None,
            },
            final(self)@ == old(self)@.after_take(),
            final(self).wf() == old(self).wf(),
    {
        self.raw.take()
    }

    /// The resolved table if it was set, without waiting.
    pub fn try_resolved(&self) -> (r: Option<&LookupTable<ResolvedT>>)
        ensures
            match r {
                Some(table) => self@.resolved == Some(table@) && (self.wf() ==> table.wf()),
                None => self@.resolved is None,
            },
    {
        self.resolved.as_ref()
    }

    /// Publishes the resolved table. The first call succeeds; every later one
    /// fails, hands its argument back and leaves the link as it was.
    pub fn set_resolved(&mut self, resolved: LookupTable<ResolvedT>) -> (r: Result<
        (),
        LookupTable<ResolvedT>,
    >)
        ensures
            r is Ok <==> old(self)@.accepts_resolved(),
            r matches Err(back) ==> back == resolved,
            final(self)@ == old(self)@.after_set(resolved@),
            old(self).wf() && resolved.wf() ==> final(self).wf(),
    {
        if self.resolved.is_some() {
            Err(resolved)
        } else {
            self.resolved = Some(resolved);
            Ok(())
        }
    }
}

/// Once the raw list was taken, no run of further calls brings it back: every
/// later `take_raw` finds nothing.
pub proof fn lemma_raw_taken_at_most_once<R, S>(link: LinkView<R, S>, later: Seq<LinkOp<S>>)
    ensures
        link.after_take().after_all(later).raw is None,
    decreases later.len(),
{
    if later.len() > 0 {
        lemma_raw_taken_at_most_once(link, later.drop_last());
    }
}

/// A fresh link hands out exactly the list it was made with, as long as no
/// `take_raw` came before.
pub proof fn lemma_first_take_returns_raw<R, S>(raw: Seq<R>, earlier: Seq<LinkOp<S>>)
    requires
        forall|i: int| 0 <= i < earlier.len() ==> earlier[i] is SetResolved,
    ensures
        LinkView::<R, S>::fresh(raw).after_all(earlier).raw == Some(raw),
    decreases earlier.len(),
{
    if earlier.len() > 0 {
        lemma_first_take_returns_raw::<R, S>(raw, earlier.drop_last());
    }
}

/// On a fresh link the resolved table is absent until the first
/// `set_resolved`.
pub proof fn lemma_unresolved_before_first_set<R, S>(raw: Seq<R>, earlier: Seq<LinkOp<S>>)
    requires
        forall|i: int| 0 <= i < earlier.len() ==> earlier[i] is TakeRaw,
    ensures
        LinkView::<R, S>::fresh(raw).after_all(earlier).resolved is None,
    decreases earlier.len(),
{
    if earlier.len() > 0 {
        lemma_unresolved_before_first_set::<R, S>(raw, earlier.drop_last());
    }
}

/// `set_resolved` succeeds exactly once: after it has succeeded with `table`,
/// the link holds `table` whatever is called later, so that no later
/// `set_resolved` is accepted.
pub proof fn lemma_resolved_set_exactly_once<R, S>(
    link: LinkView<R, S>,
    table: TableView<S>,
    later: Seq<LinkOp<S>>,
)
    requires
        link.accepts_resolved(),
    ensures
        link.after_set(table).after_all(later).resolved == Some(table),
        !link.after_set(table).after_all(later).accepts_resolved(),
    decreases later.len(),
{
    if later.len() > 0 {
        lemma_resolved_set_exactly_once(link, table, later.drop_last());
    }
}

} // verus!
