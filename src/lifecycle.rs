use vstd::prelude::*;

verus! {

/// The driver objects of a rendering context, each depending on all that
/// come before it.
#[derive(Clone, Copy, Debug, PartialEq, Eq, Structural)]
pub enum Resource {
    Context,
    Diagnostics,
    Surface,
    LogicalDevice,
    Swapchain,
}

/// A request that breaks the dependency order.
#[derive(Clone, Copy, Debug, PartialEq, Eq, Structural)]
pub enum LifecycleError {
    OutOfOrder,
}

/// The number of resources a context holds.
pub const RESOURCE_COUNT: usize = 5usize;

/// The position of a resource in the creation order.
pub open spec fn rank(r: Resource) -> nat {
    match r {
        Resource::Context => 0,
        Resource::Diagnostics => 1,
        Resource::Surface => 2,
        Resource::LogicalDevice => 3,
        Resource::Swapchain => 4,
    }
}

pub open spec fn creation_order() -> Seq<Resource> {
    seq![
        Resource::Context,
        Resource::Diagnostics,
        Resource::Surface,
        Resource::LogicalDevice,
        Resource::Swapchain,
    ]
}

/// Swapchain, logical device, surface, diagnostics registration, context.
pub open spec fn teardown_order_spec() -> Seq<Resource> {
    seq![
        Resource::Swapchain,
        Resource::LogicalDevice,
        Resource::Surface,
        Resource::Diagnostics,
        Resource::Context,
    ]
}

/// Whether the destructions `rs`, in this order, are each accepted when the
/// first `live` resources of the creation order are alive.
pub open spec fn accepts_teardown(live: nat, rs: Seq<Resource>) -> bool {
    rs.len() <= live && forall|i: int| 0 <= i < rs.len() ==> rank(#[trigger] rs[i]) + i + 1 == live
}

/// Tracks which resources of a context are alive. The live ones are always a
/// prefix of the creation order, so a resource can only be created once all
/// it depends on exist, and only destroyed once nothing depends on it.
pub struct Lifecycle {
    live: usize,
    destroyed: Vec<Resource>,
}

impl Lifecycle {
    pub closed spec fn live_count(&self) -> nat {
        self.live as nat
    }

    /// The resources destroyed so far, in the order of destruction.
    pub closed spec fn destroyed_log(&self) -> Seq<Resource> {
        self.destroyed@
    }

    pub closed spec fn wf(&self) -> bool {
        self.live <= RESOURCE_COUNT
    }

    /// Nothing created yet.
    pub fn new() -> (r: Lifecycle)
        ensures
            r.wf(),
            r.live_count() == 0,
            r.destroyed_log() == Seq::<Resource>::empty(),
    {
        Lifecycle { live: 0, destroyed: Vec::new() }
    }

    /// The number of resources alive.
    pub fn live(&self) -> (r: usize)
        ensures
            r == self.live_count(),
    {
        self.live
    }

    /// The resources destroyed so far, in the order of destruction.
    pub fn destroyed(&self) -> (r: Vec<Resource>)
        ensures
            r@ == self.destroyed_log(),
    {
        self.destroyed.clone()
    }

    /// Records the creation of `res`; accepted only when it is the next one
    /// of the creation order.
    pub fn create(&mut self, res: Resource) -> (r: Result<(), LifecycleError>)
        requires
            old(self).wf(),
        ensures
            final(self).wf(),
            r is Ok <==> rank(res) == old(self).live_count(),
            r is Ok ==> final(self).live_count() == old(self).live_count() + 1,
            r is Err ==> final(self).live_count() == old(self).live_count(),
            r matches Err(e) ==> e == LifecycleError::OutOfOrder,
            final(self).destroyed_log() == old(self).destroyed_log(),
    {
        if resource_rank(res) == self.live {
            self.live = self.live + 1;
            Ok(())
        } else {
            Err(LifecycleError::OutOfOrder)
        }
    }

    /// Records the destruction of `res`; accepted only when it is the most
    /// recently created resource still alive.
    pub fn destroy(&mut self, res: Resource) -> (r: Result<(), LifecycleError>)
        requires
            old(self).wf(),
        ensures
            final(self).wf(),
            r is Ok <==> rank(res) + 1 == old(self).live_count(),
            r is Ok ==> final(self).live_count() + 1 == old(self).live_count()
                && final(self).destroyed_log() == old(self).destroyed_log().push(res),
            r is Err ==> final(self).live_count() == old(self).live_count()
                && final(self).destroyed_log() == old(self).destroyed_log(),
            r matches Err(e) ==> e == LifecycleError::OutOfOrder,
    {
        if self.live > 0 && resource_rank(res) + 1 == self.live {
            self.live = self.live - 1;
            self.destroyed.push(res);
            Ok(())
        } else {
            Err(LifecycleError::OutOfOrder)
        }
    }
}

/// The position of a resource in the creation order.
pub fn resource_rank(r: Resource) -> (n: usize)
    ensures
        n == rank(r),
{
    match r {
        Resource::Context => 0,
        Resource::Diagnostics => 1,
        Resource::Surface => 2,
        Resource::LogicalDevice => 3,
        Resource::Swapchain => 4,
    }
}

/// The order in which a fully built context is released.
pub fn teardown_order() -> (r: Vec<Resource>)
    ensures
        r@ == teardown_order_spec(),
        r@ == creation_order().reverse(),
{
    let r = vec![
        Resource::Swapchain,
        Resource::LogicalDevice,
        Resource::Surface,
        Resource::Diagnostics,
        Resource::Context,
    ];
    assert(teardown_order_spec() =~= creation_order().reverse());
    r
}

/// Creating every resource is accepted only in the creation order.
pub proof fn lemma_only_creation_order_builds(rs: Seq<Resource>)
    requires
        rs.len() == RESOURCE_COUNT,
    ensures
        (forall|i: int| 0 <= i < rs.len() ==> rank(#[trigger] rs[i]) == i) <==> rs
            == creation_order(),
{
    if forall|i: int| 0 <= i < rs.len() ==> rank(#[trigger] rs[i]) == i {
        assert forall|i: int| 0 <= i < rs.len() implies rs[i] == creation_order()[i] by {
            assert(rank(rs[i]) == i);
        }
        assert(rs =~= creation_order());
    }
}

/// A sequence of destructions is accepted exactly when its first one is
/// accepted by `Lifecycle::destroy` and the rest is accepted afterwards, with
/// one resource fewer alive.
pub proof fn lemma_teardown_step(live: nat, rs: Seq<Resource>)
    requires
        rs.len() > 0,
    ensures
        accepts_teardown(live, rs) <==> (rank(rs[0]) + 1 == live && accepts_teardown(
            (live - 1) as nat,
            rs.drop_first(),
        )),
{
    if accepts_teardown(live, rs) {
        assert(rank(rs[0]) + 1 == live);
        assert forall|i: int| 0 <= i < rs.drop_first().len() implies rank(
            #[trigger] rs.drop_first()[i],
        ) + i + 1 == live - 1 by {
            assert(rs.drop_first()[i] == rs[i + 1]);
        }
    }
    if rank(rs[0]) + 1 == live && accepts_teardown((live - 1) as nat, rs.drop_first()) {
        assert forall|i: int| 0 <= i < rs.len() implies rank(#[trigger] rs[i]) + i + 1 == live by {
            if i > 0 {
                assert(rs[i] == rs.drop_first()[i - 1]);
            }
        }
    }
}

/// Once everything is built, a full teardown is accepted exactly when it goes
/// swapchain, logical device, surface, diagnostics registration, context: any
/// other order is rejected at its first step out of line.
pub proof fn lemma_only_reverse_order_tears_down(rs: Seq<Resource>)
    requires
        rs.len() == RESOURCE_COUNT,
    ensures
        accepts_teardown(RESOURCE_COUNT as nat, rs) <==> rs == teardown_order_spec(),
{
    if accepts_teardown(RESOURCE_COUNT as nat, rs) {
        assert forall|i: int| 0 <= i < rs.len() implies rs[i] == teardown_order_spec()[i] by {
            assert(rank(rs[i]) + i + 1 == 5);
        }
        assert(rs =~= teardown_order_spec());
    }
    if rs == teardown_order_spec() {
        assert forall|i: int| 0 <= i < rs.len() implies rank(#[trigger] rs[i]) + i + 1 == 5 by {
            assert(rs[i] == teardown_order_spec()[i]);
        }
    }
}

} // verus!
