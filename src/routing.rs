//! The route table: which handler is responsible for an event. Command routes
//! are tried in the order they were registered and the first one whose trigger
//! matches the message text wins; an event that no command route takes goes to
//! the fallback route, if one is registered, and is otherwise dropped. Where
//! several command routes match the same text, the one registered first is
//! chosen, so that resolution does not depend on how a table is laid out.
use crate::error::Error;
use crate::filter::{command_matches, matchit, Filter};
use crate::json::{lookup_str, str_at, text_view};
use crate::session::Event;
use vstd::prelude::*;

verus! {

/// An event whose payload is arbitrary JSON.
pub type Update = Event<serde_json::Value>;

/// The kind of event that command routes listen to.
pub const MESSAGE_NEW: &'static str = "message_new";

/// What a route listens for.
#[derive(Debug)]
pub enum ListenerMethod {
    /// Every event that no command route takes.
    Watch,
    /// Events of kind `update_type` whose message text matches `trigger` under `filter`.
    Command { update_type: String, trigger: String, filter: Filter },
}

/// Whether two methods listen for the same thing: both the fallback, or the same
/// kind, trigger and filter.
pub open spec fn same_method(a: ListenerMethod, b: ListenerMethod) -> bool {
    match a {
        ListenerMethod::Watch => b is Watch,
        ListenerMethod::Command { update_type: k1, trigger: t1, filter: f1 } => match b {
            ListenerMethod::Command { update_type: k2, trigger: t2, filter: f2 } => k1@ == k2@
                && t1@ == t2@ && f1 == f2,
            ListenerMethod::Watch => false,
        },
    }
}

impl ListenerMethod {
    /// A command route for new messages.
    pub fn command(trigger: String, filter: Filter) -> (r: Self)
        ensures
            r matches ListenerMethod::Command { update_type, trigger: t, filter: f } && update_type@
                == MESSAGE_NEW@ && t == trigger && f == filter,
    {
        ListenerMethod::Command { update_type: String::from_str(MESSAGE_NEW), trigger, filter }
    }

    /// Whether `self` and `other` listen for the same thing.
    pub fn same_as(&self, other: &ListenerMethod) -> (r: bool)
        ensures
            r == same_method(*self, *other),
    {
        match self {
            ListenerMethod::Watch => match other {
                ListenerMethod::Watch => true,
                ListenerMethod::Command { .. } => false,
            },
            ListenerMethod::Command { update_type: k1, trigger: t1, filter: f1 } => match other {
                ListenerMethod::Command { update_type: k2, trigger: t2, filter: f2 } => {
                    *k1 == *k2 && *t1 == *t2 && *f1 == *f2
                },
                ListenerMethod::Watch => false,
            },
        }
    }
}

/// A command route: what it listens for and the handler it leads to.
#[derive(Debug)]
pub struct Route<H> {
    pub method: ListenerMethod,
    pub handler: H,
}

/// The route that resolution selected.
#[derive(Clone, Copy, Debug, PartialEq, Eq, Structural)]
pub enum Target {
    /// The command route at this position in registration order.
    Command(usize),
    /// The fallback route.
    Fallback,
}

/// Whether `route` takes an event of kind `kind`, given whether its trigger
/// matched the event's text.
pub open spec fn takes<H>(route: Route<H>, kind: Seq<char>, hit: bool) -> bool {
    route.method matches ListenerMethod::Command { update_type, .. } && update_type@ == kind && hit
}

/// The first route from position `k` on that takes the event.
pub open spec fn first_from<H>(routes: Seq<Route<H>>, kind: Seq<char>, hits: Seq<bool>, k: int) -> Option<int>
    decreases routes.len() - k,
{
    if k < 0 || k >= routes.len() {
        None
    } else if takes(routes[k], kind, hits[k]) {
        Some(k)
    } else {
        first_from(routes, kind, hits, k + 1)
    }
}

/// The route selected for an event of kind `kind`, where `hits[i]` tells whether
/// the trigger of route `i` matched the event's text.
pub open spec fn selection<H>(routes: Seq<Route<H>>, has_fallback: bool, kind: Seq<char>, hits: Seq<bool>) -> Option<Target> {
    match first_from(routes, kind, hits, 0) {
        Some(i) => Some(Target::Command(i as usize)),
        None => if has_fallback {
            Some(Target::Fallback)
        } else {
            None
        },
    }
}

/// Whether the trigger of `route` matches `text` (an event without text matches
/// no trigger).
pub open spec fn hit<H>(route: Route<H>, kind: Seq<char>, text: Option<Seq<char>>) -> bool {
    match route.method {
        ListenerMethod::Command { update_type, trigger, filter } => update_type@ == kind
            && text is Some && command_matches(text->0, trigger@, filter),
        ListenerMethod::Watch => false,
    }
}

/// For each route, whether its trigger matches `text`.
pub open spec fn hits_for<H>(routes: Seq<Route<H>>, kind: Seq<char>, text: Option<Seq<char>>) -> Seq<bool> {
    Seq::new(routes.len(), |i: int| hit(routes[i], kind, text))
}

/// Where the text of a message sits in an event's payload.
pub const TEXT_POINTER: &'static str = "/message/text";

/// The text of the message that an event carries, if any.
pub fn message_text(event: &Update) -> (r: Option<&str>)
    ensures
        text_view(r) == str_at(event.object, TEXT_POINTER@),
{
    lookup_str(&event.object, TEXT_POINTER)
}

/// An event that no command route takes goes to the fallback route where one is
/// registered, and to no route at all where none is.
pub proof fn lemma_unmatched_goes_to_fallback<H>(
    vk: SafeVk<H>,
    kind: Seq<char>,
    text: Option<Seq<char>>,
)
    requires
        forall|i: int|
            0 <= i < vk.routes().len() ==> !takes(
                #[trigger] vk.routes()[i],
                kind,
                hits_for(vk.routes(), kind, text)[i],
            ),
    ensures
        vk.resolution(kind, text) == if vk.fallback() is Some {
            Some(Target::Fallback)
        } else {
            None
        },
{
    lemma_first_from_none(vk.routes(), kind, hits_for(vk.routes(), kind, text), 0);
}

/// Once a route is registered, a second registration for the same kind,
/// trigger and filter is refused.
pub proof fn lemma_registered_route_is_taken<H>(vk: SafeVk<H>, later: SafeVk<H>, method: ListenerMethod, handler: H)
    requires
        method is Command,
        later.routes() == vk.routes().push(Route { method, handler }),
    ensures
        later.taken(method),
{
    let i = vk.routes().len() as int;
    assert(later.routes()[i].method == method);
    assert(same_method(later.routes()[i].method, method));
}

/// A set of routes: command routes, unique by kind, trigger and filter, and at
/// most one fallback route. `H` is the handler type.
pub struct SafeVk<H> {
    routes: Vec<Route<H>>,
    fallback: Option<H>,
}

proof fn lemma_first_from_none<H>(routes: Seq<Route<H>>, kind: Seq<char>, hits: Seq<bool>, k: int)
    requires
        0 <= k,
        forall|i: int| k <= i < routes.len() ==> !takes(#[trigger] routes[i], kind, hits[i]),
    ensures
        first_from(routes, kind, hits, k) is None,
    decreases routes.len() - k,
{
    if k < routes.len() {
        lemma_first_from_none(routes, kind, hits, k + 1);
    }
}

impl<H> SafeVk<H> {
    /// The command routes, in registration order.
    pub closed spec fn routes(&self) -> Seq<Route<H>> {
        self.routes@
    }

    /// The fallback handler, if one is registered.
    pub closed spec fn fallback(&self) -> Option<H> {
        self.fallback
    }

    /// Every route is a command route, and no two share kind, trigger and filter.
    pub open spec fn wf(&self) -> bool {
        &&& forall|i: int| 0 <= i < self.routes().len() ==> #[trigger] self.routes()[i].method is Command
        &&& forall|i: int, j: int|
            0 <= i < j < self.routes().len() ==> !same_method(
                #[trigger] self.routes()[i].method,
                #[trigger] self.routes()[j].method,
            )
    }

    /// Whether a route that listens for the same thing as `m` is registered.
    pub open spec fn taken(&self, m: ListenerMethod) -> bool {
        match m {
            ListenerMethod::Watch => self.fallback() is Some,
            ListenerMethod::Command { .. } => exists|i: int|
                0 <= i < self.routes().len() && same_method(#[trigger] self.routes()[i].method, m),
        }
    }

    /// The route selected for an event of kind `kind` with message text `text`.
    pub open spec fn resolution(&self, kind: Seq<char>, text: Option<Seq<char>>) -> Option<Target> {
        selection(self.routes(), self.fallback() is Some, kind, hits_for(self.routes(), kind, text))
    }

    /// An empty route table.
    pub fn new() -> (r: Self)
        ensures
            r.routes().len() == 0,
            r.fallback() is None,
            r.wf(),
    {
        SafeVk { routes: Vec::new(), fallback: None }
    }

    /// Registers `handler` for `method`: a command route, or the fallback route
    /// for `Watch`. Fails, leaving nothing registered, where a route that listens
    /// for the same thing exists.
    pub fn listen(self, method: ListenerMethod, handler: H) -> (r: Result<Self, Error>)
        requires
            self.wf(),
        ensures
            r is Err <==> self.taken(method),
            match r {
                Err(e) => match method {
                    ListenerMethod::Watch => e is FallbackExists,
                    ListenerMethod::Command { trigger, .. } => e == Error::ListenerExists { trigger },
                },
                Ok(vk) => {
                    &&& vk.wf()
                    &&& method is Watch ==> vk.routes() == self.routes() && vk.fallback() == Some(
                        handler,
                    )
                    &&& method is Command ==> vk.routes() == self.routes().push(
                        Route { method, handler },
                    ) && vk.fallback() == self.fallback()
                },
            },
    {
        let SafeVk { mut routes, fallback } = self;
        match method {
            ListenerMethod::Watch => {
                if fallback.is_some() {
                    return Err(Error::FallbackExists);
                }
                Ok(SafeVk { routes, fallback: Some(handler) })
            },
            ListenerMethod::Command { .. } => {
                let mut i: usize = 0;
                while i < routes.len()
                    invariant
                        0 <= i <= routes.len(),
                        routes@ == self.routes(),
                        method is Command,
                        forall|j: int| 0 <= j < i ==> !same_method(#[trigger] routes@[j].method, method),
                    decreases routes.len() - i,
                {
                    if routes[i].method.same_as(&method) {
                        proof {
                            assert(same_method(self.routes()[i as int].method, method));
                        }
                        return match method {
                            ListenerMethod::Command { trigger, .. } => Err(Error::ListenerExists { trigger }),
                            ListenerMethod::Watch => Err(Error::FallbackExists),
                        };
                    }
                    i = i + 1;
                }
                let ghost before = routes@;
                routes.push(Route { method, handler });
                let vk = SafeVk { routes, fallback };
                proof {
                    assert forall|i: int, j: int|
                        0 <= i < j < vk.routes().len() implies !same_method(
                        #[trigger] vk.routes()[i].method,
                        #[trigger] vk.routes()[j].method,
                    ) by {
                        if j == before.len() {
                            assert(!same_method(before[i].method, method));
                            assert(vk.routes()[i] == before[i]);
                        } else {
                            assert(vk.routes()[i] == before[i]);
                            assert(vk.routes()[j] == before[j]);
                        }
                    }
                }
                Ok(vk)
            },
        }
    }

    /// Registers `handler` for messages whose text matches `trigger` under `filter`.
    pub fn command(self, trigger: String, handler: H, filter: Filter) -> (r: Result<Self, Error>)
        requires
            self.wf(),
        ensures
            r is Err <==> exists|i: int|
                0 <= i < self.routes().len() && ((#[trigger] self.routes()[i]).method matches ListenerMethod::Command {
                    update_type,
                    trigger: t,
                    filter: f,
                } && update_type@ == MESSAGE_NEW@ && t@ == trigger@ && f == filter),
            match r {
                Err(e) => e == Error::ListenerExists { trigger },
                Ok(vk) => {
                    &&& vk.wf()
                    &&& vk.fallback() == self.fallback()
                    &&& vk.routes().len() == self.routes().len() + 1
                    &&& vk.routes().drop_last() == self.routes()
                    &&& vk.routes().last().handler == handler
                    &&& vk.routes().last().method matches ListenerMethod::Command {
                        update_type,
                        trigger: t,
                        filter: f,
                    } && update_type@ == MESSAGE_NEW@ && t == trigger && f == filter
                },
            },
    {
        let method = ListenerMethod::command(trigger, filter);
        let r = self.listen(method, handler);
        proof {
            if r is Ok {
                assert(r->Ok_0.routes().drop_last() =~= self.routes());
            }
        }
        r
    }

    /// Registers `handler` as the fallback route. Fails where one is registered.
    pub fn watch(self, handler: H) -> (r: Result<Self, Error>)
        requires
            self.wf(),
        ensures
            r is Err <==> self.fallback() is Some,
            match r {
                Err(e) => e is FallbackExists,
                Ok(vk) => vk.wf() && vk.routes() == self.routes() && vk.fallback() == Some(handler),
            },
    {
        self.listen(ListenerMethod::Watch, handler)
    }

    /// Selects the route for an event of kind `kind`, where `hits[i]` tells whether
    /// the trigger of command route `i` matched the event's text: the first route
    /// of that kind with a hit, else the fallback route, else none.
    pub fn select(&self, kind: &str, hits: &Vec<bool>) -> (r: Option<Target>)
        requires
            hits.len() == self.routes().len(),
        ensures
            r == selection(self.routes(), self.fallback() is Some, kind@, hits@),
    {
        let kind_owned = String::from_str(kind);
        let mut i: usize = 0;
        while i < self.routes.len()
            invariant
                0 <= i <= self.routes.len(),
                hits.len() == self.routes.len(),
                kind_owned@ == kind@,
                first_from(self.routes@, kind@, hits@, 0) == first_from(self.routes@, kind@, hits@, i as int),
            decreases self.routes.len() - i,
        {
            let taken = match &self.routes[i].method {
                ListenerMethod::Command { update_type, .. } => hits[i] && *update_type == kind_owned,
                ListenerMethod::Watch => false,
            };
            if taken {
                return Some(Target::Command(i));
            }
            i = i + 1;
        }
        if self.fallback.is_some() {
            Some(Target::Fallback)
        } else {
            None
        }
    }

    /// Selects the route for an event of kind `kind` whose message text is
    /// `text` (`None` for an event without text, which no command route takes).
    pub fn resolve_text(&self, kind: &str, text: Option<&str>) -> (r: Option<Target>)
        ensures
            r == self.resolution(kind@, text_view(text)),
    {
        let kind_owned = String::from_str(kind);
        let ghost expected = hits_for(self.routes@, kind@, text_view(text));
        let mut hits: Vec<bool> = Vec::new();
        let mut i: usize = 0;
        while i < self.routes.len()
            invariant
                0 <= i <= self.routes.len(),
                kind_owned@ == kind@,
                expected == hits_for(self.routes@, kind@, text_view(text)),
                hits@ == expected.subrange(0, i as int),
            decreases self.routes.len() - i,
        {
            let h = match &self.routes[i].method {
                ListenerMethod::Command { update_type, trigger, filter } => match text {
                    Some(t) => *update_type == kind_owned && matchit(t, trigger.as_str(), filter),
                    None => false,
                },
                ListenerMethod::Watch => false,
            };
            hits.push(h);
            proof {
                assert(hits@ =~= expected.subrange(0, i + 1));
            }
            i = i + 1;
        }
        proof {
            assert(hits@ =~= expected);
        }
        self.select(kind, &hits)
    }

    /// Selects the route for `event`: the first command route, in registration
    /// order, of the event's kind whose trigger matches the event's message text;
    /// else the fallback route; else none.
    pub fn resolve(&self, event: &Update) -> (r: Option<Target>)
        ensures
            r == self.resolution(event.update_type@, str_at(event.object, TEXT_POINTER@)),
    {
        let text = message_text(event);
        let r = self.resolve_text(event.update_type.as_str(), text);
        proof {
            assert(r == self.resolution(event.update_type@, text_view(text)));
        }
        r
    }

    /// The handler that `target` leads to, if it names a registered route.
    pub fn handler(&self, target: Target) -> (r: Option<&H>)
        ensures
            match target {
                Target::Command(i) => if i < self.routes().len() {
                    r matches Some(h) && *h == self.routes()[i as int].handler
                } else {
                    r is None
                },
                Target::Fallback => match self.fallback() {
                    Some(f) => r matches Some(h) && *h == f,
                    None => r is None,
                },
            },
    {
        match target {
            Target::Command(i) => if i < self.routes.len() {
                Some(&self.routes[i].handler)
            } else {
                None
            },
            Target::Fallback => match &self.fallback {
                Some(f) => Some(f),
                None => None,
            },
        }
    }
}

} // verus!
