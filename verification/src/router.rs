//! The route table: an ordered set of path-and-method bindings, each naming
//! a handler by index into the host's handler table, plus the two
//! decorations the assembly step applies — the shared database pool and the
//! request-lifecycle middleware. Re-registering a path and method overwrites
//! the prior binding; registration order has no other observable effect.

use vstd::prelude::*;
use vstd::string::StringExecFns;

use crate::context::RequestContextExtension;
use crate::text::str_eq;

verus! {

#[derive(Clone, Copy, Debug, PartialEq, Eq, Structural)]
pub enum HttpMethod {
    Get,
    Post,
    Put,
    Delete,
    Patch,
    Head,
    Options,
}

/// One method-and-handler pair, registered under a path. `handler` indexes
/// the host's table of actual handlers, which the library treats as opaque.
#[derive(Clone, Copy, Debug, PartialEq, Eq, Structural)]
pub struct MethodBinding {
    pub method: HttpMethod,
    pub handler: usize,
}

pub struct Route {
    pub path: String,
    pub method: HttpMethod,
    pub handler: usize,
}

#[verifier::ext_equal]
pub struct RouteView {
    pub path: Seq<char>,
    pub method: HttpMethod,
    pub handler: usize,
}

impl View for Route {
    type V = RouteView;

    open spec fn view(&self) -> RouteView {
        RouteView { path: self.path@, method: self.method, handler: self.handler }
    }
}

pub struct Router {
    pub routes: Vec<Route>,
    pub instrumented: bool,
    pub pool_attached: bool,
}

#[verifier::ext_equal]
pub struct RouterView {
    pub routes: Seq<RouteView>,
    pub instrumented: bool,
    pub pool_attached: bool,
}

impl View for Router {
    type V = RouterView;

    open spec fn view(&self) -> RouterView {
        RouterView {
            routes: self.routes@.map_values(|r: Route| r@),
            instrumented: self.instrumented,
            pool_attached: self.pool_attached,
        }
    }
}

/// No two entries bind the same path and method.
pub open spec fn routes_unique(routes: Seq<RouteView>) -> bool {
    forall|i: int, j: int|
        0 <= i < j < routes.len() ==> !(routes[i].path == routes[j].path && routes[i].method
            == routes[j].method)
}

/// The handler bound for a path and method: the first entry that matches.
/// Under `routes_unique` it is also the only one.
pub open spec fn binding_of(routes: Seq<RouteView>, path: Seq<char>, method: HttpMethod) -> Option<
    usize,
>
    decreases routes.len(),
{
    if routes.len() == 0 {
        None
    } else if routes[0].path == path && routes[0].method == method {
        Some(routes[0].handler)
    } else {
        binding_of(routes.drop_first(), path, method)
    }
}

proof fn lemma_binding_of_update(
    routes: Seq<RouteView>,
    i: int,
    new: RouteView,
    p: Seq<char>,
    m: HttpMethod,
)
    requires
        0 <= i < routes.len(),
        new.path == routes[i].path,
        new.method == routes[i].method,
        routes_unique(routes),
    ensures
        binding_of(routes.update(i, new), p, m) == (if p == new.path && m == new.method {
            Some(new.handler)
        } else {
            binding_of(routes, p, m)
        }),
    decreases routes.len(),
{
    let up = routes.update(i, new);
    if i == 0 {
        assert(up.drop_first() =~= routes.drop_first());
    } else {
        if routes[0].path == p && routes[0].method == m {
            if p == new.path && m == new.method {
                assert(!(routes[0].path == routes[i].path && routes[0].method
                    == routes[i].method));
            }
        } else {
            assert(routes_unique(routes.drop_first())) by {
                assert forall|a: int, b: int|
                    0 <= a < b < routes.drop_first().len() implies !(routes.drop_first()[a].path
                    == routes.drop_first()[b].path && routes.drop_first()[a].method
                    == routes.drop_first()[b].method) by {
                    assert(routes.drop_first()[a] == routes[a + 1]);
                    assert(routes.drop_first()[b] == routes[b + 1]);
                }
            }
            assert(up.drop_first() =~= routes.drop_first().update(i - 1, new));
            lemma_binding_of_update(routes.drop_first(), i - 1, new, p, m);
        }
    }
}

proof fn lemma_binding_of_push(routes: Seq<RouteView>, new: RouteView, p: Seq<char>, m: HttpMethod)
    requires
        forall|j: int|
            0 <= j < routes.len() ==> !(routes[j].path == new.path && routes[j].method
                == new.method),
    ensures
        binding_of(routes.push(new), p, m) == (if p == new.path && m == new.method {
            Some(new.handler)
        } else {
            binding_of(routes, p, m)
        }),
    decreases routes.len(),
{
    let ps = routes.push(new);
    assert(ps[0] == if routes.len() == 0 {
        new
    } else {
        routes[0]
    });
    if routes.len() == 0 {
        reveal_with_fuel(binding_of, 2);
        assert(ps.drop_first() =~= Seq::<RouteView>::empty());
    } else {
        assert(ps[0] == routes[0]);
        if routes[0].path == p && routes[0].method == m {
            assert(!(routes[0].path == new.path && routes[0].method == new.method));
        } else {
            assert(ps.drop_first() =~= routes.drop_first().push(new));
            assert forall|j: int| 0 <= j < routes.drop_first().len() implies !(
            routes.drop_first()[j].path == new.path && routes.drop_first()[j].method
                == new.method) by {
                assert(routes.drop_first()[j] == routes[j + 1]);
            }
            lemma_binding_of_push(routes.drop_first(), new, p, m);
        }
    }
}

impl Router {
    /// The table is well formed when no path and method is bound twice.
    pub open spec fn wf(&self) -> bool {
        routes_unique(self@.routes)
    }

    pub fn new() -> (r: Router)
        ensures
            r.wf(),
            r@.routes == Seq::<RouteView>::empty(),
            !r@.instrumented,
            !r@.pool_attached,
    {
        let r = Router { routes: Vec::new(), instrumented: false, pool_attached: false };
        proof {
            assert(r@.routes =~= Seq::<RouteView>::empty());
        }
        r
    }

    fn find_index(&self, path: &str, method: HttpMethod) -> (o: Option<usize>)
        ensures
            match o {
                Some(i) => i < self@.routes.len() && self@.routes[i as int].path == path@
                    && self@.routes[i as int].method == method,
                None => forall|j: int|
                    0 <= j < self@.routes.len() ==> !(self@.routes[j].path == path@
                        && self@.routes[j].method == method),
            },
    {
        let n = self.routes.len();
        let mut i: usize = 0;
        while i < n
            invariant
                n == self@.routes.len(),
                i <= n,
                forall|j: int|
                    0 <= j < i ==> !(self@.routes[j].path == path@ && self@.routes[j].method
                        == method),
            decreases n - i,
        {
            let r = &self.routes[i];
            if r.method == method && str_eq(r.path.as_str(), path) {
                return Some(i);
            }
            i += 1;
        }
        None
    }

    /// Registers `binding` under `path`. A binding already present for the
    /// same path and method is overwritten; every other binding is kept.
    pub fn route(self, path: &str, binding: MethodBinding) -> (r: Router)
        requires
            self.wf(),
        ensures
            r.wf(),
            r@.instrumented == self@.instrumented,
            r@.pool_attached == self@.pool_attached,
            binding_of(r@.routes, path@, binding.method) == Some(binding.handler),
            forall|p: Seq<char>, m: HttpMethod|
                !(p == path@ && m == binding.method) ==> #[trigger] binding_of(r@.routes, p, m)
                    == binding_of(self@.routes, p, m),
    {
        let mut this = self;
        let new_route = Route {
            path: String::from_str(path),
            method: binding.method,
            handler: binding.handler,
        };
        let ghost new_view = new_route@;
        let ghost pre = this@.routes;
        match this.find_index(path, binding.method) {
            Some(i) => {
                this.routes[i] = new_route;
                proof {
                    assert(this@.routes =~= pre.update(i as int, new_view));
                    assert forall|x: int| 0 <= x < pre.len() implies this@.routes[x].path
                        == pre[x].path && this@.routes[x].method == pre[x].method by {}
                    assert(routes_unique(this@.routes));
                    assert forall|p: Seq<char>, m: HttpMethod| true implies #[trigger] binding_of(
                        this@.routes,
                        p,
                        m,
                    ) == (if p == new_view.path && m == new_view.method {
                        Some(new_view.handler)
                    } else {
                        binding_of(pre, p, m)
                    }) by {
                        lemma_binding_of_update(pre, i as int, new_view, p, m);
                    }
                }
            },
            None => {
                this.routes.push(new_route);
                proof {
                    assert(this@.routes =~= pre.push(new_view));
                    assert(routes_unique(this@.routes));
                    assert forall|p: Seq<char>, m: HttpMethod| true implies #[trigger] binding_of(
                        this@.routes,
                        p,
                        m,
                    ) == (if p == new_view.path && m == new_view.method {
                        Some(new_view.handler)
                    } else {
                        binding_of(pre, p, m)
                    }) by {
                        lemma_binding_of_push(pre, new_view, p, m);
                    }
                }
            },
        }
        this
    }

    /// Looks up the handler bound for `path` and `method`.
    pub fn dispatch(&self, path: &str, method: HttpMethod) -> (o: Option<usize>)
        ensures
            o == binding_of(self@.routes, path@, method),
    {
        let ghost rv = self@.routes;
        proof {
            assert(rv.skip(0) =~= rv);
        }
        let n = self.routes.len();
        let mut i: usize = 0;
        while i < n
            invariant
                n == rv.len(),
                rv == self@.routes,
                i <= n,
                binding_of(rv, path@, method) == binding_of(rv.skip(i as int), path@, method),
            decreases n - i,
        {
            let r = &self.routes[i];
            proof {
                assert(rv.skip(i as int)[0] == rv[i as int]);
            }
            if r.method == method && str_eq(r.path.as_str(), path) {
                return Some(r.handler);
            }
            proof {
                assert(rv.skip(i as int).drop_first() =~= rv.skip(i as int + 1));
            }
            i += 1;
        }
        proof {
            assert(rv.skip(n as int) =~= Seq::<RouteView>::empty());
        }
        None
    }

    /// Attaches the shared database pool, making it visible to every
    /// handler. The table and the middleware flag are unchanged.
    pub fn attach_pool(self) -> (r: Router)
        ensures
            r@.routes == self@.routes,
            r@.instrumented == self@.instrumented,
            r@.pool_attached,
    {
        Router { routes: self.routes, instrumented: self.instrumented, pool_attached: true }
    }

    /// Wraps the whole table in the request-lifecycle middleware. The table
    /// and the pool flag are unchanged.
    pub fn attach_middleware(self) -> (r: Router)
        ensures
            r@.routes == self@.routes,
            r@.pool_attached == self@.pool_attached,
            r@.instrumented,
    {
        Router { routes: self.routes, instrumented: true, pool_attached: self.pool_attached }
    }
}

impl RequestContextExtension for Router {
    open spec fn is_instrumented(&self) -> bool {
        self@.instrumented
    }

    fn with_trace_layer(self) -> (r: Router)
        ensures
            r@.routes == self@.routes,
            r@.pool_attached == self@.pool_attached,
    {
        self.attach_middleware()
    }
}

} // verus!
