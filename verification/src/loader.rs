//! Registration of widget kinds.
//!
//! The script behind a widget kind has to be loaded before an element of that
//! kind is rendered, and loaded once however many instances there are. The
//! registry remembers which kinds were loaded and says, on each request,
//! whether the caller has to load the kind now.

use vstd::prelude::*;

verus! {

/// The widget kinds that this library binds.
#[derive(Clone, Copy, Debug, PartialEq, Eq, Structural)]
pub enum WidgetKind {
    Ripple,
    Formfield,
    IconButton,
    TextField,
}

/// The widget kinds that have been registered so far. A kind, once in, stays.
#[derive(Debug)]
pub struct Registry {
    loaded: Vec<WidgetKind>,
}

impl View for Registry {
    type V = Set<WidgetKind>;

    closed spec fn view(&self) -> Set<WidgetKind> {
        Set::new(|kind: WidgetKind| self.loaded@.contains(kind))
    }
}

impl Registry {
    /// A registry in which no kind is registered.
    pub fn new() -> (registry: Registry)
        ensures
            registry@ == Set::<WidgetKind>::empty(),
    {
        let registry = Registry { loaded: Vec::new() };
        assert(registry@ =~= Set::<WidgetKind>::empty());
        registry
    }

    /// Whether `kind` has been registered.
    pub fn is_loaded(&self, kind: WidgetKind) -> (loaded: bool)
        ensures
            loaded == self@.contains(kind),
    {
        let mut i: usize = 0;
        while i < self.loaded.len()
            invariant
                0 <= i <= self.loaded.len(),
                forall|j: int| 0 <= j < i ==> self.loaded@[j] != kind,
            decreases self.loaded.len() - i,
        {
            if self.loaded[i] == kind {
                return true;
            }
            i += 1;
        }
        false
    }

    /// Records that `kind` is needed and says whether the caller has to
    /// register it now: `true` on the first request for a kind, `false` on
    /// every later one. Registration itself is assumed to succeed.
    pub fn ensure_loaded(&mut self, kind: WidgetKind) -> (register: bool)
        ensures
            register == !old(self)@.contains(kind),
            final(self)@ == old(self)@.insert(kind),
    {
        if self.is_loaded(kind) {
            assert(self@ =~= self@.insert(kind));
            false
        } else {
            let ghost before = self.loaded@;
            self.loaded.push(kind);
            assert forall|other: WidgetKind| self.loaded@.contains(other) <==> (before.contains(
                other,
            ) || other == kind) by {
                if before.contains(other) {
                    let j = choose|j: int| 0 <= j < before.len() && before[j] == other;
                    assert(self.loaded@[j] == other);
                }
                if other == kind {
                    assert(self.loaded@[before.len() as int] == kind);
                }
            }
            assert(self@ =~= old(self)@.insert(kind));
            true
        }
    }
}

/// The registrations that a run of requests causes, in order: one for each
/// request that asks for a kind not registered before it.
pub open spec fn registrations(before: Set<WidgetKind>, requests: Seq<WidgetKind>) -> Seq<
    WidgetKind,
>
    decreases requests.len(),
{
    if requests.len() == 0 {
        Seq::empty()
    } else {
        let rest = registrations(before.insert(requests[0]), requests.drop_first());
        if before.contains(requests[0]) {
            rest
        } else {
            seq![requests[0]] + rest
        }
    }
}

/// The kinds registered after a run of requests.
pub open spec fn registered_after(before: Set<WidgetKind>, requests: Seq<WidgetKind>) -> Set<
    WidgetKind,
>
    decreases requests.len(),
{
    if requests.len() == 0 {
        before
    } else {
        registered_after(before.insert(requests[0]), requests.drop_first())
    }
}

/// How often `kind` occurs in `kinds`.
pub open spec fn occurrences(kinds: Seq<WidgetKind>, kind: WidgetKind) -> nat
    decreases kinds.len(),
{
    if kinds.len() == 0 {
        0
    } else {
        (if kinds[0] == kind {
            1nat
        } else {
            0nat
        }) + occurrences(kinds.drop_first(), kind)
    }
}

/// A kind that is registered already is never registered again.
pub proof fn lemma_registered_stays(
    before: Set<WidgetKind>,
    requests: Seq<WidgetKind>,
    kind: WidgetKind,
)
    requires
        before.contains(kind),
    ensures
        occurrences(registrations(before, requests), kind) == 0,
        registered_after(before, requests).contains(kind),
    decreases requests.len(),
{
    if requests.len() > 0 {
        lemma_registered_stays(before.insert(requests[0]), requests.drop_first(), kind);
        let rest = registrations(before.insert(requests[0]), requests.drop_first());
        if !before.contains(requests[0]) {
            assert((seq![requests[0]] + rest).drop_first() =~= rest);
        }
    }
}

/// However often a kind is requested, and whatever else is requested in
/// between, it is registered exactly once if it is requested at all and was
/// not registered before, and not at all if it is never requested.
pub proof fn lemma_registered_once(
    before: Set<WidgetKind>,
    requests: Seq<WidgetKind>,
    kind: WidgetKind,
)
    requires
        !before.contains(kind),
    ensures
        requests.contains(kind) ==> occurrences(registrations(before, requests), kind) == 1,
        !requests.contains(kind) ==> occurrences(registrations(before, requests), kind) == 0,
        registered_after(before, requests).contains(kind) == requests.contains(kind),
    decreases requests.len(),
{
    if requests.len() > 0 {
        let first = requests[0];
        let later = requests.drop_first();
        let rest = registrations(before.insert(first), later);
        if !before.contains(first) {
            assert((seq![first] + rest).drop_first() =~= rest);
        }
        if first == kind {
            lemma_registered_stays(before.insert(first), later, kind);
        } else {
            lemma_registered_once(before.insert(first), later, kind);
            if requests.contains(kind) {
                let j = choose|j: int| 0 <= j < requests.len() && requests[j] == kind;
                assert(later[j - 1] == kind);
            }
            if later.contains(kind) {
                let j = choose|j: int| 0 <= j < later.len() && later[j] == kind;
                assert(requests[j + 1] == kind);
            }
        }
    }
}

} // verus!
