use vstd::prelude::*;
use crate::sequence::{Sequence, SequenceStep, lemma_running_in_row};

verus! {

/// The routes and services added to an application, before they become one
/// service: `G` is a group of routes still to be listed, `S` a service.
pub struct RoutesBuilder<G, S> {
    routes: Vec<G>,
    services: Vec<S>,
}

impl<G, S> RoutesBuilder<G, S> {
    /// The groups of routes, in the order they were added.
    pub closed spec fn groups(&self) -> Seq<G> {
        self.routes@
    }

    /// The services, in the order they were added.
    pub closed spec fn services(&self) -> Seq<S> {
        self.services@
    }

    /// A builder with no routes and no services.
    pub fn new() -> (r: RoutesBuilder<G, S>)
        ensures
            r.groups() == Seq::<G>::empty(),
            r.services() == Seq::<S>::empty(),
    {
        RoutesBuilder { routes: Vec::new(), services: Vec::new() }
    }

    /// Adds a group of routes, after those already added.
    pub fn route(&mut self, group: G)
        ensures
            final(self).groups() == old(self).groups().push(group),
            final(self).services() == old(self).services(),
    {
        self.routes.push(group);
    }

    /// Adds a service, after those already added.
    pub fn service(&mut self, service: S)
        ensures
            final(self).services() == old(self).services().push(service),
            final(self).groups() == old(self).groups(),
    {
        self.services.push(service);
    }

    /// Adds the routes and services of `other` after those already added.
    pub fn extend(&mut self, other: RoutesBuilder<G, S>)
        ensures
            final(self).groups() == old(self).groups() + other.groups(),
            final(self).services() == old(self).services() + other.services(),
    {
        let RoutesBuilder { routes, services } = other;
        let mut routes = routes;
        let mut services = services;
        self.routes.append(&mut routes);
        self.services.append(&mut services);
    }

    /// Splits into the groups and the services.
    pub fn into_parts(self) -> (r: (Vec<G>, Vec<S>))
        ensures
            r.0@ == self.groups(),
            r.1@ == self.services(),
    {
        (self.routes, self.services)
    }
}

/// The order in which the application's services are asked: the added
/// services in the order they were added, then the router.
pub fn service_chain<S>(services: Vec<S>, router: S) -> (r: Vec<S>)
    ensures
        r@ == services@.push(router),
{
    let mut chain = services;
    chain.push(router);
    chain
}

/// What to do next while the router's table is built from the groups.
#[derive(Debug, Clone, Copy, PartialEq, Eq, Structural)]
pub enum TableStep {
    /// List the routes of the group at this position.
    List(usize),
    /// Register the route at position `.1` of the group at position `.0`.
    Register(usize, usize),
    /// Every group was listed and every route registered.
    Finish,
    /// A group could not be listed or a route not registered: stop with
    /// that error.
    Fail,
}

/// The step after the group at position `i` of `total` was fully registered.
pub open spec fn after_group(total: nat, i: nat) -> TableStep {
    if i + 1 == total {
        TableStep::Finish
    } else {
        TableStep::List((i + 1) as usize)
    }
}

/// The step that starts building a table from `total` groups.
pub open spec fn first_table_step(total: nat) -> TableStep {
    if total == 0 {
        TableStep::Finish
    } else {
        TableStep::List(0)
    }
}

/// A build of one or more groups starts by listing the first; after a
/// group is done the next one is listed, and the build finishes exactly
/// when the group done was the last.
pub proof fn law_table_build_lists_every_group(total: nat, i: nat)
    ensures
        total > 0 ==> first_table_step(total) == TableStep::List(0),
        first_table_step(total) is Finish <==> total == 0,
        i + 1 < total ==> after_group(total, i) == TableStep::List((i + 1) as usize),
        after_group(total, i) is Finish <==> i + 1 == total,
        !(after_group(total, i) is Register) && !(after_group(total, i) is Fail),
{
}

/// Building the router's table: the groups are listed in order; the routes
/// of each group are registered in order before the next group is listed;
/// the first group that cannot be listed, or the first route that cannot be
/// registered, ends the build.
pub struct TableBuild {
    groups: Sequence,
    routes: Sequence,
    registering: bool,
}

impl TableBuild {
    /// The number of groups.
    pub closed spec fn group_count(self) -> nat {
        self.groups.total()
    }

    /// The position of the group being worked on (the number of groups
    /// fully registered).
    pub closed spec fn group(self) -> nat {
        self.groups.completed()
    }

    /// Whether the listing of group `group()` is awaited.
    pub closed spec fn listing(self) -> bool {
        self.groups.running() && !self.registering
    }

    /// Whether the registration of a route of group `group()` is awaited.
    pub closed spec fn registering(self) -> bool {
        self.groups.running() && self.registering
    }

    /// The number of routes listed for group `group()`.
    pub closed spec fn group_size(self) -> nat {
        self.routes.total()
    }

    /// The number of routes of group `group()` registered so far.
    pub closed spec fn registered(self) -> nat {
        self.routes.completed()
    }

    /// The build's state is consistent.
    pub closed spec fn wf(self) -> bool {
        &&& self.groups.wf()
        &&& self.routes.wf()
        &&& self.registering ==> self.groups.running() && self.routes.running()
    }

    /// Starts building a table from `total` groups.
    pub fn start(total: usize) -> (r: (TableBuild, TableStep))
        ensures
            r.0.wf(),
            r.0.group_count() == total,
            r.0.group() == 0,
            r.1 == first_table_step(total as nat),
            total > 0 ==> r.1 == TableStep::List(0),
            r.1 is Finish <==> total == 0,
            r.1 is Finish ==> r.0.group() == r.0.group_count(),
            r.0.listing() <==> r.1 is List,
            !r.0.registering(),
    {
        let (groups, step) = Sequence::start(total);
        let (routes, _) = Sequence::start(0);
        let b = TableBuild { groups, routes, registering: false };
        match step {
            SequenceStep::Run(i) => (b, TableStep::List(i)),
            _ => (b, TableStep::Finish),
        }
    }

    /// The group being worked on is done: go on with the next one.
    fn close_group(&mut self) -> (r: TableStep)
        requires
            old(self).groups.wf(),
            old(self).groups.running(),
            old(self).routes.wf(),
        ensures
            final(self).wf(),
            final(self).group_count() == old(self).group_count(),
            final(self).group() == old(self).group() + 1,
            r == after_group(old(self).group_count(), old(self).group()),
            final(self).listing() <==> r is List,
            !final(self).registering(),
            r matches TableStep::List(i) ==> i == final(self).group() && final(self).group() < final(self).group_count(),
            r is Finish ==> final(self).group() == final(self).group_count(),
    {
        proof {
            lemma_running_in_row(self.groups);
        }
        self.registering = false;
        match self.groups.report(true) {
            SequenceStep::Run(i) => TableStep::List(i),
            _ => TableStep::Finish,
        }
    }

    /// Takes the listing of group `group()`: the number of its routes, or
    /// `None` when it could not be listed.
    pub fn listed(&mut self, count: Option<usize>) -> (r: TableStep)
        requires
            old(self).wf(),
            old(self).listing(),
        ensures
            final(self).wf(),
            final(self).group_count() == old(self).group_count(),
            r is Finish ==> final(self).group() == final(self).group_count(),
            r matches TableStep::List(i) ==> i == old(self).group() + 1 && i < final(self).group_count(),
            match count {
                None => r is Fail && !final(self).listing() && !final(self).registering(),
                Some(n) => if n == 0 {
                    &&& r == after_group(old(self).group_count(), old(self).group())
                    &&& final(self).group() == old(self).group() + 1
                    &&& (final(self).listing() <==> r is List)
                    &&& !final(self).registering()
                } else {
                    &&& r == TableStep::Register(old(self).group() as usize, 0)
                    &&& final(self).group() == old(self).group()
                    &&& final(self).registering()
                    &&& final(self).group_size() == n
                    &&& final(self).registered() == 0
                },
            },
    {
        match count {
            None => {
                self.groups.report(false);
                TableStep::Fail
            },
            Some(n) => {
                let (routes, step) = Sequence::start(n);
                self.routes = routes;
                match step {
                    SequenceStep::Run(j) => {
                        self.registering = true;
                        TableStep::Register(self.groups.completed_count(), j)
                    },
                    _ => self.close_group(),
                }
            },
        }
    }

    /// Takes the report of registering route `registered()` of group
    /// `group()`.
    pub fn registered_route(&mut self, ok: bool) -> (r: TableStep)
        requires
            old(self).wf(),
            old(self).registering(),
        ensures
            final(self).wf(),
            final(self).group_count() == old(self).group_count(),
            r is Finish ==> final(self).group() == final(self).group_count(),
            r matches TableStep::List(i) ==> i == old(self).group() + 1 && i < final(self).group_count(),
            if !ok {
                r is Fail && !final(self).listing() && !final(self).registering()
            } else if old(self).registered() + 1 < old(self).group_size() {
                &&& r == TableStep::Register(old(self).group() as usize, (old(self).registered() + 1) as usize)
                &&& final(self).group() == old(self).group()
                &&& final(self).registering()
                &&& final(self).group_size() == old(self).group_size()
                &&& final(self).registered() == old(self).registered() + 1
            } else {
                &&& r == after_group(old(self).group_count(), old(self).group())
                &&& final(self).group() == old(self).group() + 1
                &&& (final(self).listing() <==> r is List)
                &&& !final(self).registering()
            },
    {
        if !ok {
            self.routes.report(false);
            self.registering = false;
            self.groups.report(false);
            return TableStep::Fail;
        }
        proof {
            lemma_running_in_row(self.routes);
        }
        match self.routes.report(true) {
            SequenceStep::Run(j) => TableStep::Register(self.groups.completed_count(), j),
            _ => self.close_group(),
        }
    }
}

} // verus!
