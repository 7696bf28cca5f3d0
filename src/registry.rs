//! Subscriptions to the registry's two events, and the decision of which
//! subscription receives which event.
//!
//! A subscription is a hook: an id and an event table that says for which of
//! the two events ("global added", "global removed") the subscriber supplied a
//! callback. A slot that was not supplied is never dispatched to. Releasing a
//! listener unlinks its hook, after which no event reaches it.
use vstd::prelude::*;
use crate::global_object::{describes, GlobalObject};
use crate::object_type::RegistryError;
use crate::permission::valid_bits;

verus! {

/// The version tag written into every event table.
pub const VERSION_REGISTRY_EVENTS: u32 = 0;

/// The two events the registry reports.
#[derive(Debug, Clone, Copy, PartialEq, Eq, Structural)]
pub enum EventKind {
    /// An object was added to the registry.
    Global,
    /// An object was removed from the registry.
    GlobalRemove,
}

/// The event table of one subscription: its version tag and, for each event,
/// whether a callback was supplied for it.
#[derive(Debug, Clone, Copy, PartialEq, Eq, Structural)]
pub struct RegistryEvents {
    pub version: u32,
    pub global: bool,
    pub global_remove: bool,
}

/// A subscription linked into a registry.
#[derive(Debug, Clone, Copy, PartialEq, Eq, Structural)]
pub struct Hook {
    pub id: u64,
    pub events: RegistryEvents,
}

/// The table has a callback for events of `kind`.
pub open spec fn wants(events: RegistryEvents, kind: EventKind) -> bool {
    match kind {
        EventKind::Global => events.global,
        EventKind::GlobalRemove => events.global_remove,
    }
}

/// The ids of the hooks, in order, whose table has a callback for `kind`.
pub open spec fn targets(hooks: Seq<Hook>, kind: EventKind) -> Seq<u64> {
    hooks.filter(|h: Hook| wants(h.events, kind)).map_values(|h: Hook| h.id)
}

/// The registry's list of linked subscriptions.
#[derive(Debug)]
pub struct Registry {
    next_hook: u64,
    hooks: Vec<Hook>,
}

impl Registry {
    /// The linked hooks, in the order they were registered.
    pub closed spec fn hooks(&self) -> Seq<Hook> {
        self.hooks@
    }

    /// The id the next registration receives.
    pub closed spec fn next_hook(&self) -> u64 {
        self.next_hook
    }

    /// The hooks are ordered by strictly increasing id, and every id was
    /// handed out before the next one.
    pub open spec fn wf(&self) -> bool {
        &&& forall|i: int| 0 <= i < self.hooks().len() ==> #[trigger] self.hooks()[i].id
            < self.next_hook()
        &&& forall|i: int, j: int|
            0 <= i < j < self.hooks().len() ==> #[trigger] self.hooks()[i].id
                < #[trigger] self.hooks()[j].id
    }

    /// A hook with id `hook` is linked.
    pub open spec fn is_linked(&self, hook: u64) -> bool {
        exists|i: int| 0 <= i < self.hooks().len() && #[trigger] self.hooks()[i].id == hook
    }

    /// The registry holds the hook of `l` with the event table of `l`, if it
    /// holds it at all.
    pub open spec fn agrees_with(&self, l: Listener) -> bool {
        forall|i: int|
            0 <= i < self.hooks().len() && #[trigger] self.hooks()[i].id == l.hook_id() ==> self.hooks()[i].events
                == l.events()
    }

    /// A registry without subscriptions.
    pub fn new() -> (r: Registry)
        ensures
            r.wf(),
            r.hooks() == Seq::<Hook>::empty(),
            r.next_hook() == 0,
    {
        Registry { next_hook: 0, hooks: Vec::new() }
    }

    /// Another subscription can be registered: hook ids are not used up.
    pub fn can_register(&self) -> (r: bool)
        ensures
            r == (self.next_hook() < u64::MAX),
    {
        self.next_hook < u64::MAX
    }

    /// Starts a subscription with no callback supplied yet.
    pub fn add_listener_local(&self) -> (r: ListenerLocalBuilder)
        ensures
            r.events() == (RegistryEvents {
                version: VERSION_REGISTRY_EVENTS,
                global: false,
                global_remove: false,
            }),
    {
        ListenerLocalBuilder {
            events: RegistryEvents {
                version: VERSION_REGISTRY_EVENTS,
                global: false,
                global_remove: false,
            },
        }
    }

    /// Removes the hook with id `hook`, if it is linked.
    fn unlink(&mut self, hook: u64)
        requires
            old(self).wf(),
        ensures
            final(self).wf(),
            final(self).next_hook() == old(self).next_hook(),
            forall|h: Hook|
                final(self).hooks().contains(h) <==> (old(self).hooks().contains(h) && h.id
                    != hook),
            !final(self).is_linked(hook),
    {
        let ghost start = self.hooks@;
        assert forall|a: int, b: int| 0 <= a < b < start.len() implies #[trigger] start[a].id
            < #[trigger] start[b].id by {
            assert(old(self).hooks()[a].id < old(self).hooks()[b].id);
        }
        assert forall|a: int| 0 <= a < start.len() implies #[trigger] start[a].id
            < old(self).next_hook by {
            assert(old(self).hooks()[a].id < old(self).next_hook());
        }
        let n = self.hooks.len();
        let mut i: usize = 0;
        while i < n
            invariant
                n == self.hooks@.len(),
                i <= n,
                self.hooks@ == start,
                forall|a: int, b: int|
                    0 <= a < b < start.len() ==> #[trigger] start[a].id < #[trigger] start[b].id,
                forall|a: int| 0 <= a < start.len() ==> #[trigger] start[a].id < old(self).next_hook,
                self.hooks@ == old(self).hooks@,
                self.next_hook == old(self).next_hook,
                old(self).wf(),
                forall|j: int| 0 <= j < i ==> #[trigger] self.hooks@[j].id != hook,
            decreases n - i,
        {
            if self.hooks[i].id == hook {
                let ghost before = self.hooks@;
                self.hooks.remove(i);
                assert forall|h: Hook|
                    self.hooks@.contains(h) <==> (before.contains(h) && h.id != hook) by {
                    if before.contains(h) && h.id != hook {
                        let k = choose|k: int| 0 <= k < before.len() && before[k] == h;
                        if k < i {
                            assert(self.hooks@[k] == h);
                        } else {
                            assert(k != i);
                            assert(self.hooks@[k - 1] == h);
                        }
                    }
                    if self.hooks@.contains(h) {
                        let k = choose|k: int| 0 <= k < self.hooks@.len() && self.hooks@[k] == h;
                        if k < i {
                            assert(before[k] == h);
                        } else {
                            assert(before[k + 1] == h);
                            assert(before[k + 1].id > before[i as int].id) by {
                                assert(0 <= i < k + 1 < before.len());
                            }
                        }
                    }
                }
                assert(self.wf()) by {
                    assert forall|a: int, b: int|
                        0 <= a < b < self.hooks@.len() implies #[trigger] self.hooks@[a].id
                        < #[trigger] self.hooks@[b].id by {
                        let a2 = if a < i { a } else { a + 1 };
                        let b2 = if b < i { b } else { b + 1 };
                        assert(self.hooks@[a] == before[a2]);
                        assert(self.hooks@[b] == before[b2]);
                        assert(before[a2].id < before[b2].id);
                    }
                    assert forall|a: int| 0 <= a < self.hooks@.len() implies #[trigger] self.hooks@[a].id
                        < self.next_hook by {
                        let a2 = if a < i { a } else { a + 1 };
                        assert(self.hooks@[a] == before[a2]);
                        assert(before[a2].id < self.next_hook);
                    }
                }
                assert(!self.is_linked(hook)) by {
                    if self.is_linked(hook) {
                        let k = choose|k: int|
                            0 <= k < self.hooks@.len() && #[trigger] self.hooks@[k].id == hook;
                        if k < i {
                            assert(before[k].id == hook);
                        } else {
                            assert(before[k + 1].id > before[i as int].id) by {
                                assert(0 <= i < k + 1 < before.len());
                            }
                            assert(self.hooks@[k] == before[k + 1]);
                        }
                    }
                }
                return;
            }
            i += 1;
        }
        assert(self.wf()) by {
            assert forall|a: int, b: int|
                0 <= a < b < self.hooks@.len() implies #[trigger] self.hooks@[a].id
                < #[trigger] self.hooks@[b].id by {
                assert(start[a].id < start[b].id);
            }
        }
        assert forall|h: Hook| self.hooks@.contains(h) implies h.id != hook by {
            let k = choose|k: int| 0 <= k < self.hooks@.len() && self.hooks@[k] == h;
            assert(self.hooks@[k].id != hook);
        }
    }

    /// The hooks, in order, that receive an event of `kind`.
    fn collect_targets(&self, kind: EventKind) -> (r: Vec<u64>)
        ensures
            r@ == targets(self.hooks(), kind),
    {
        let mut out: Vec<u64> = Vec::new();
        let n = self.hooks.len();
        let mut i: usize = 0;
        while i < n
            invariant
                n == self.hooks@.len(),
                i <= n,
                out@ == targets(self.hooks@.subrange(0, i as int), kind),
            decreases n - i,
        {
            let h = self.hooks[i];
            let wanted = match kind {
                EventKind::Global => h.events.global,
                EventKind::GlobalRemove => h.events.global_remove,
            };
            if wanted {
                out.push(h.id);
            }
            proof {
                lemma_targets_step(self.hooks@, i as int, kind);
            }
            i += 1;
        }
        assert(self.hooks@.subrange(0, n as int) =~= self.hooks@);
        out
    }

    /// Handles an "object added" event: builds the object's descriptor and
    /// names the hooks, in registration order, whose callback receives it.
    /// `InvalidPermissions` when the permission mask has an unknown bit.
    pub fn dispatch_global(
        &self,
        id: u32,
        permissions: u32,
        type_: &str,
        version: u32,
        props: Option<Vec<(String, String)>>,
    ) -> (r: Result<(GlobalObject, Vec<u64>), RegistryError>)
        ensures
            r is Ok <==> valid_bits(permissions),
            r matches Ok((o, hooks)) ==> describes(o, id, permissions, type_@, version, props)
                && hooks@ == targets(self.hooks(), EventKind::Global),
            r matches Err(e) ==> e == RegistryError::InvalidPermissions,
    {
        match GlobalObject::new(id, permissions, type_, version, props) {
            Ok(o) => Ok((o, self.collect_targets(EventKind::Global))),
            Err(e) => Err(e),
        }
    }

    /// Handles an "object removed" event: names the hooks, in registration
    /// order, whose callback receives the removed id.
    pub fn dispatch_global_remove(&self, id: u32) -> (r: Vec<u64>)
        ensures
            r@ == targets(self.hooks(), EventKind::GlobalRemove),
    {
        self.collect_targets(EventKind::GlobalRemove)
    }
}

/// A subscription being put together: which callbacks it will have.
#[derive(Debug)]
pub struct ListenerLocalBuilder {
    events: RegistryEvents,
}

impl ListenerLocalBuilder {
    /// The event table the subscription will be registered with.
    pub closed spec fn events(&self) -> RegistryEvents {
        self.events
    }

    /// Supplies the callback for added objects.
    pub fn global(self) -> (r: ListenerLocalBuilder)
        ensures
            r.events() == (RegistryEvents { global: true, ..self.events() }),
    {
        ListenerLocalBuilder { events: RegistryEvents { global: true, ..self.events } }
    }

    /// Supplies the callback for removed objects.
    pub fn global_remove(self) -> (r: ListenerLocalBuilder)
        ensures
            r.events() == (RegistryEvents { global_remove: true, ..self.events() }),
    {
        ListenerLocalBuilder { events: RegistryEvents { global_remove: true, ..self.events } }
    }

    /// Links the subscription into `registry` under a fresh hook id, with
    /// the event table put together so far.
    pub fn register(self, registry: &mut Registry) -> (r: Listener)
        requires
            old(registry).wf(),
            old(registry).next_hook() < u64::MAX,
        ensures
            final(registry).wf(),
            final(registry).hooks() == old(registry).hooks().push(
                Hook { id: old(registry).next_hook(), events: self.events() },
            ),
            final(registry).next_hook() == old(registry).next_hook() + 1,
            r.hook_id() == old(registry).next_hook(),
            r.events() == self.events(),
            final(registry).agrees_with(r),
            forall|h: u64|
                final(registry).is_linked(h) <==> (old(registry).is_linked(h) || h == old(
                    registry,
                ).next_hook()),
    {
        let id = registry.next_hook;
        let ghost before = registry.hooks@;
        registry.hooks.push(Hook { id, events: self.events });
        registry.next_hook = id + 1;
        assert forall|a: int| 0 <= a < before.len() implies #[trigger] registry.hooks@[a]
            == before[a] by {}
        assert forall|a: int| 0 <= a < before.len() implies before[a].id < id by {
            assert(old(registry).hooks()[a].id < old(registry).next_hook());
        }
        assert forall|h: u64|
            registry.is_linked(h) <==> (old(registry).is_linked(h) || h == id) by {
            if registry.is_linked(h) {
                let k = choose|k: int|
                    0 <= k < registry.hooks().len() && #[trigger] registry.hooks()[k].id == h;
                if k < before.len() {
                    assert(old(registry).hooks()[k].id == h);
                }
            }
            if old(registry).is_linked(h) {
                let k = choose|k: int|
                    0 <= k < old(registry).hooks().len() && #[trigger] old(registry).hooks()[k].id
                        == h;
                assert(registry.hooks()[k].id == h);
            }
            if h == id {
                assert(registry.hooks()[before.len() as int].id == h);
            }
        }
        Listener { hook: id, events: self.events }
    }
}

/// A linked subscription. It stays linked until it is unregistered.
#[derive(Debug)]
pub struct Listener {
    hook: u64,
    events: RegistryEvents,
}

impl Listener {
    /// The id of the subscription's hook.
    pub closed spec fn hook_id(&self) -> u64 {
        self.hook
    }

    /// The event table the subscription was registered with.
    pub closed spec fn events(&self) -> RegistryEvents {
        self.events
    }

    /// The id of the subscription's hook.
    pub fn hook(&self) -> (r: u64)
        ensures
            r == self.hook_id(),
    {
        self.hook
    }

    /// The event table the subscription was registered with.
    pub fn registered_events(&self) -> (r: RegistryEvents)
        ensures
            r == self.events(),
    {
        self.events
    }

    /// Releases the subscription: its hook is unlinked from `registry` first,
    /// then the listener itself is dropped. Afterwards no event reaches it.
    pub fn unregister(self, registry: &mut Registry)
        requires
            old(registry).wf(),
        ensures
            final(registry).wf(),
            final(registry).next_hook() == old(registry).next_hook(),
            forall|h: Hook|
                final(registry).hooks().contains(h) <==> (old(registry).hooks().contains(h)
                    && h.id != self.hook_id()),
            !final(registry).is_linked(self.hook_id()),
            !targets(final(registry).hooks(), EventKind::Global).contains(self.hook_id()),
            !targets(final(registry).hooks(), EventKind::GlobalRemove).contains(self.hook_id()),
    {
        registry.unlink(self.hook);
        proof {
            lemma_targets_linked(*registry, self.hook, EventKind::Global);
            lemma_targets_linked(*registry, self.hook, EventKind::GlobalRemove);
        }
    }
}

/// One step of collecting targets: the targets of the first `i + 1` hooks.
proof fn lemma_targets_step(hooks: Seq<Hook>, i: int, kind: EventKind)
    requires
        0 <= i < hooks.len(),
    ensures
        targets(hooks.subrange(0, i + 1), kind) == if wants(hooks[i].events, kind) {
            targets(hooks.subrange(0, i), kind).push(hooks[i].id)
        } else {
            targets(hooks.subrange(0, i), kind)
        },
{
    let pred = |h: Hook| wants(h.events, kind);
    let f = |h: Hook| h.id;
    let s = hooks.subrange(0, i + 1);
    assert(s.drop_last() =~= hooks.subrange(0, i));
    assert(s.last() == hooks[i]);
    reveal(Seq::filter);
    let pre = hooks.subrange(0, i).filter(pred);
    assert(pre.push(hooks[i]).map_values(f) =~= pre.map_values(f).push(hooks[i].id));
}

/// Only linked hooks are dispatched to, and only for events their table has a
/// callback for.
proof fn lemma_targets_wanted(reg: Registry, hook: u64, kind: EventKind)
    requires
        targets(reg.hooks(), kind).contains(hook),
    ensures
        exists|i: int|
            0 <= i < reg.hooks().len() && #[trigger] reg.hooks()[i].id == hook && wants(
                reg.hooks()[i].events,
                kind,
            ),
{
    broadcast use vstd::seq_lib::group_filter_ensures;
    let pred = |h: Hook| wants(h.events, kind);
    let fl = reg.hooks().filter(pred);
    let ids = fl.map_values(|h: Hook| h.id);
    assert(ids == targets(reg.hooks(), kind));
    let k = choose|k: int| 0 <= k < ids.len() && #[trigger] ids[k] == hook;
    assert(fl[k].id == hook);
    assert(pred(fl[k]));
    assert(fl.contains(fl[k]));
    reg.hooks().lemma_filter_contains_rev(pred, fl[k]);
    let i = choose|i: int| 0 <= i < reg.hooks().len() && reg.hooks()[i] == fl[k];
    assert(reg.hooks()[i].id == hook);
}

/// A hook that is not linked is never dispatched to: once a listener is
/// released, neither event reaches it.
pub proof fn lemma_targets_linked(reg: Registry, hook: u64, kind: EventKind)
    requires
        !reg.is_linked(hook),
    ensures
        !targets(reg.hooks(), kind).contains(hook),
{
    if targets(reg.hooks(), kind).contains(hook) {
        lemma_targets_wanted(reg, hook, kind);
    }
}

/// A listener receives only the events it supplied a callback for: one built
/// with only the removal callback never receives an added object, and one
/// built with only the added callback never receives a removal.
pub proof fn lemma_dispatch_selectivity(reg: Registry, l: Listener, kind: EventKind)
    requires
        reg.agrees_with(l),
        !wants(l.events(), kind),
    ensures
        !targets(reg.hooks(), kind).contains(l.hook_id()),
{
    if targets(reg.hooks(), kind).contains(l.hook_id()) {
        lemma_targets_wanted(reg, l.hook_id(), kind);
    }
}

} // verus!
