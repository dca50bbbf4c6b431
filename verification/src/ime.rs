//! Per-window input contexts bound to the negotiated input method: the
//! registry keyed by window, the tombstone-and-rebuild protocol that
//! survives a server-side teardown of the input method, and the preedit
//! spot bookkeeping.
//!
//! The adapter owns the native calls; each method here decides what must
//! be done and returns the native handle to act on, so that the sequencing
//! rules — reset before retry, tombstone before rebuild — are enforced in
//! one place.

use vstd::prelude::*;

use crate::input_method::PotentialInputMethods;

verus! {

/// Why the input-method subsystem could not be brought up. Exhausting
/// every candidate keeps the loop running without composition or preedit
/// support; it is reported, not fatal.
#[derive(Debug, Clone, PartialEq, Eq)]
pub enum ImeCreationError {
    /// The display server reported an error.
    XError(XError),
    /// Every candidate failed to open; the list carries which were tried,
    /// for diagnostics.
    OpenFailure(PotentialInputMethods),
}

/// A typed native error: the code of the failed request and the error
/// itself, as the display server reported them.
#[derive(Debug, Copy, Clone, PartialEq, Eq, Structural, Hash)]
pub struct XError {
    pub error_code: u8,
    pub request_code: u8,
    pub minor_code: u8,
}

/// Why creating an input context failed.
#[derive(Debug, Copy, Clone, PartialEq, Eq, Structural)]
pub enum NewImeContextError {
    /// The display server reported an error.
    XError(XError),
    /// The native create call returned a null context.
    Null,
}

/// A live input context: the native handle and the preedit spot last sent
/// for it.
#[derive(Debug, Copy, Clone, PartialEq, Eq)]
pub struct ImeContext {
    pub ic: u64,
    pub ic_spot: (i16, i16),
}

/// The preedit-spot update decision: a context records the spot last sent,
/// and a new spot equal to the recorded one issues no native update.
pub open spec fn spot_update(recorded: (i16, i16), x: i16, y: i16) -> Option<(i16, i16)> {
    if recorded == (x, y) {
        None
    } else {
        Some((x, y))
    }
}

impl ImeContext {
    /// Validates the adapter's raw outcome of a native context creation: a
    /// null handle is its own error, a server error follows it, and a
    /// created context starts at the given spot (or the origin).
    pub fn new(ic: Option<u64>, ic_spot: Option<(i16, i16)>, check: Option<XError>) -> (r: Result<
        Self,
        NewImeContextError,
    >)
        ensures
            ic is None ==> r == Err::<Self, NewImeContextError>(NewImeContextError::Null),
            ic is Some && check is Some ==> r == Err::<Self, NewImeContextError>(
                NewImeContextError::XError(check->Some_0),
            ),
            ic is Some && check is None ==> r == Ok::<Self, NewImeContextError>(
                ImeContext {
                    ic: ic->Some_0,
                    ic_spot: (match ic_spot {
                        Some(spot) => spot,
                        None => (0i16, 0i16),
                    }),
                },
            ),
    {
        match ic {
            None => Err(NewImeContextError::Null),
            Some(handle) => match check {
                Some(err) => Err(NewImeContextError::XError(err)),
                None => Ok(
                    ImeContext {
                        ic: handle,
                        ic_spot: (match ic_spot {
                            Some(spot) => spot,
                            None => (0, 0),
                        }),
                    },
                ),
            },
        }
    }

    /// Records a new preedit spot. Returns the spot to send natively, or
    /// `None` — with the context untouched — when it equals the spot
    /// already recorded.
    pub fn set_spot(&mut self, x: i16, y: i16) -> (update: Option<(i16, i16)>)
        ensures
            update == spot_update(old(self).ic_spot, x, y),
            final(self).ic == old(self).ic,
            final(self).ic_spot == (x, y),
    {
        if self.ic_spot.0 == x && self.ic_spot.1 == y {
            None
        } else {
            self.ic_spot = (x, y);
            Some((x, y))
        }
    }
}

/// Sending the same spot twice issues at most one native update: after any
/// update to `(x, y)` the recorded spot is `(x, y)`, and the next update
/// with the same coordinates is suppressed.
pub proof fn lemma_spot_update_once(recorded: (i16, i16), x: i16, y: i16)
    ensures
        spot_update((x, y), x, y) is None,
{
}

/// Spec-level image of one context entry.
pub struct IcModel {
    pub ic: u64,
    pub spot: (i16, i16),
}

/// Spec-level image of the registry: the input-method handle, whether the
/// server has destroyed it, and the per-window entries — `None` marks a
/// tombstone awaiting rebuild.
#[verifier::ext_equal]
pub struct ImeModel {
    pub im: u64,
    pub destroyed: bool,
    pub contexts: Seq<(u64, Option<IcModel>)>,
}

impl ImeModel {
    /// The window keys, in registry order.
    pub open spec fn keys(&self) -> Seq<u64> {
        self.contexts.map_values(|e: (u64, Option<IcModel>)| e.0)
    }

    /// No window is keyed twice.
    pub open spec fn wf(&self) -> bool {
        forall|i: int, j: int|
            0 <= i < j < self.contexts.len() ==> (#[trigger] self.contexts[i]).0 != (
            #[trigger] self.contexts[j]).0
    }

    /// Whether `window` is keyed.
    pub open spec fn has_key(&self, window: u64) -> bool {
        exists|i: int| 0 <= i < self.contexts.len() && (#[trigger] self.contexts[i]).0 == window
    }

    /// The position of `window` in the registry.
    pub open spec fn index_of(&self, window: u64) -> int {
        choose|i: int| 0 <= i < self.contexts.len() && (#[trigger] self.contexts[i]).0 == window
    }

    /// The entry of `window`, when keyed.
    pub open spec fn entry_of(&self, window: u64) -> Option<IcModel> {
        self.contexts[self.index_of(window)].1
    }

    /// What `get_context` observes: the native handle of a live context,
    /// `None` while the input method is destroyed, for tombstones, and for
    /// unknown windows.
    pub open spec fn get_context_model(&self, window: u64) -> Option<u64> {
        if self.destroyed {
            None
        } else if self.has_key(window) && self.entry_of(window) is Some {
            Some(self.entry_of(window)->Some_0.ic)
        } else {
            None
        }
    }

    /// The registry after a destroy of `window`'s context: the key is
    /// dropped entirely — unless the input method itself is destroyed, in
    /// which case nothing changes.
    pub open spec fn destroy_model(&self, window: u64) -> ImeModel {
        if self.destroyed || !self.has_key(window) {
            *self
        } else {
            ImeModel {
                im: self.im,
                destroyed: self.destroyed,
                contexts: self.contexts.remove(self.index_of(window)),
            }
        }
    }

    /// The native handle a destroy of `window`'s context must release:
    /// present only when the input method is live and the window holds a
    /// live context.
    pub open spec fn destroy_result(&self, window: u64) -> Option<u64> {
        if !self.destroyed && self.has_key(window) && self.entry_of(window) is Some {
            Some(self.entry_of(window)->Some_0.ic)
        } else {
            None
        }
    }

    /// The registry after the server announced the input method's
    /// destruction: entries stay keyed, awaiting rebuild.
    pub open spec fn mark_destroyed_model(&self) -> ImeModel {
        ImeModel { im: self.im, destroyed: true, contexts: self.contexts }
    }

    /// The spot a rebuilt context must reopen with: the spot recorded
    /// before the teardown, or the origin for a tombstone.
    pub open spec fn rebuild_spot(&self, i: int) -> (i16, i16) {
        match self.contexts[i].1 {
            Some(ctx) => ctx.spot,
            None => (0i16, 0i16),
        }
    }

    /// The registry after a rebuild: the same keys in the same order, each
    /// bound to its fresh native context with its previous spot, under the
    /// new input method.
    pub open spec fn rebuild_model(&self, new_im: u64, ics: Seq<u64>) -> ImeModel {
        ImeModel {
            im: new_im,
            destroyed: false,
            contexts: Seq::new(
                self.contexts.len(),
                |i: int| (self.contexts[i].0, Some(IcModel { ic: ics[i], spot: self.rebuild_spot(i) })),
            ),
        }
    }
}

/// Keys stay unique when every key is preserved position by position.
proof fn lemma_wf_same_keys(pre: ImeModel, post: ImeModel)
    requires
        pre.wf(),
        post.contexts.len() == pre.contexts.len(),
        forall|j: int|
            0 <= j < pre.contexts.len() ==> (#[trigger] post.contexts[j]).0 == pre.contexts[j].0,
    ensures
        post.wf(),
{
    assert forall|a: int, b: int|
        0 <= a < b < post.contexts.len() implies (#[trigger] post.contexts[a]).0 != (
    #[trigger] post.contexts[b]).0 by {
        assert(pre.contexts[a].0 != pre.contexts[b].0);
    }
}

/// Keys stay unique when a key not yet present is appended.
proof fn lemma_wf_push(pre: ImeModel, post: ImeModel, window: u64)
    requires
        pre.wf(),
        !pre.has_key(window),
        post.contexts.len() == pre.contexts.len() + 1,
        forall|j: int|
            0 <= j < pre.contexts.len() ==> (#[trigger] post.contexts[j]).0 == pre.contexts[j].0,
        post.contexts[pre.contexts.len() as int].0 == window,
    ensures
        post.wf(),
{
    assert forall|a: int, b: int|
        0 <= a < b < post.contexts.len() implies (#[trigger] post.contexts[a]).0 != (
    #[trigger] post.contexts[b]).0 by {
        if b == pre.contexts.len() {
            assert(pre.contexts[a].0 != window);
        } else {
            assert(pre.contexts[a].0 != pre.contexts[b].0);
        }
    }
}

/// The input-method registry: the native input-method handle, the
/// candidate list that opened it (kept for re-negotiation after a server
/// bounce), the per-window contexts, and the destroyed flag set by the
/// server's destroy notification.
pub struct Ime {
    pub im: u64,
    pub potential_input_methods: PotentialInputMethods,
    pub contexts: Vec<(u64, Option<ImeContext>)>,
    pub destroyed: bool,
}

impl View for Ime {
    type V = ImeModel;

    open spec fn view(&self) -> ImeModel {
        ImeModel {
            im: self.im,
            destroyed: self.destroyed,
            contexts: self.contexts@.map_values(
                |e: (u64, Option<ImeContext>)|
                    (
                        e.0,
                        match e.1 {
                            Some(ctx) => Some(IcModel { ic: ctx.ic, spot: ctx.ic_spot }),
                            None => None,
                        },
                    ),
            ),
        }
    }
}

impl Ime {
    /// A registry over a freshly opened input method, with no contexts.
    pub fn new(im: u64, potential_input_methods: PotentialInputMethods) -> (r: Self)
        ensures
            r@.im == im,
            !r@.destroyed,
            r@.contexts =~= Seq::<(u64, Option<IcModel>)>::empty(),
            r@.wf(),
            r.potential_input_methods == potential_input_methods,
    {
        Ime { im, potential_input_methods, contexts: Vec::new(), destroyed: false }
    }

    /// Whether the server has destroyed the input method.
    pub fn is_destroyed(&self) -> (r: bool)
        ensures
            r == self@.destroyed,
    {
        self.destroyed
    }

    /// Position of `window` in the registry, if keyed.
    fn find_index(&self, window: u64) -> (r: Option<usize>)
        requires
            self@.wf(),
        ensures
            r is Some ==> self@.has_key(window) && r->Some_0 == self@.index_of(window)
                && r->Some_0 < self@.contexts.len() && self@.contexts[r->Some_0 as int].0 == window,
            r is None ==> !self@.has_key(window),
    {
        let n = self.contexts.len();
        let mut i: usize = 0;
        while i < n
            invariant
                i <= n,
                n == self.contexts@.len(),
                self@.wf(),
                forall|j: int| 0 <= j < i ==> (#[trigger] self@.contexts[j]).0 != window,
            decreases n - i,
        {
            if self.contexts[i].0 == window {
                proof {
                    assert(self@.contexts[i as int].0 == window);
                    let k = self@.index_of(window);
                    if k != i as int {
                        if k < i as int {
                            assert(self@.contexts[k].0 != window);
                        } else {
                            assert(self@.contexts[i as int].0 != self@.contexts[k].0);
                        }
                    }
                }
                return Some(i);
            }
            i = i + 1;
        }
        None
    }

    /// Registers a context for `window`. While the input method is
    /// destroyed no native attempt is made and a tombstone is inserted —
    /// the window will receive a context when the input method is rebuilt;
    /// that is not an error. Otherwise the adapter's creation outcome is
    /// recorded: a failure propagates and leaves the registry unchanged.
    pub fn create_context(&mut self, window: u64, outcome: Option<
        Result<ImeContext, NewImeContextError>,
    >) -> (r: Result<(), NewImeContextError>)
        requires
            old(self)@.wf(),
            old(self)@.destroyed <==> outcome is None,
        ensures
            final(self)@.wf(),
            final(self)@.im == old(self)@.im,
            final(self)@.destroyed == old(self)@.destroyed,
            final(self).potential_input_methods == old(self).potential_input_methods,
            outcome matches Some(Err(e)) ==> r == Err::<(), NewImeContextError>(e) && final(self)@
                == old(self)@,
            (outcome is None || outcome matches Some(Ok(_))) ==> {
                let entry = (match outcome {
                    None => None::<IcModel>,
                    Some(Ok(ctx)) => Some(IcModel { ic: ctx.ic, spot: ctx.ic_spot }),
                    Some(Err(_)) => None::<IcModel>,
                });
                &&& r == Ok::<(), NewImeContextError>(())
                &&& final(self)@.has_key(window)
                &&& final(self)@.entry_of(window) == entry
                &&& (old(self)@.has_key(window) ==> final(self)@.keys() =~= old(self)@.keys())
                &&& (!old(self)@.has_key(window) ==> final(self)@.keys() =~= old(
                    self,
                )@.keys().push(window))
                &&& (forall|w: u64|
                    w != window ==> #[trigger] final(self)@.get_context_model(w) == old(
                        self,
                    )@.get_context_model(w))
            },
    {
        let entry: Option<ImeContext> = match outcome {
            None => None,
            Some(Ok(ctx)) => Some(ctx),
            Some(Err(e)) => {
                return Err(e);
            },
        };
        let found = self.find_index(window);
        match found {
            Some(i) => {
                self.contexts[i] = (window, entry);
                proof {
                    assert(self@.contexts[i as int].0 == window);
                    assert forall|j: int|
                        0 <= j < old(self)@.contexts.len() implies (#[trigger] self@.contexts[j]).0
                        == old(self)@.contexts[j].0 by {
                        if j != i as int {
                            assert(self.contexts@[j] == old(self).contexts@[j]);
                        }
                    }
                    lemma_wf_same_keys(old(self)@, self@);
                    assert(self@.index_of(window) == i as int) by {
                        let k = self@.index_of(window);
                        assert(self@.has_key(window));
                        if k != i as int {
                            assert(old(self)@.contexts[k].0 == window);
                            assert(old(self)@.contexts[old(self)@.index_of(window)].0 == window);
                        }
                    }
                    assert(self@.keys() =~= old(self)@.keys());
                    assert forall|w: u64| w != window implies #[trigger] self@.get_context_model(w) == old(self)@.get_context_model(w) by {
                        if self@.has_key(w) {
                            let k = self@.index_of(w);
                            assert(old(self)@.contexts[k].0 == w);
                            assert(old(self)@.has_key(w));
                            assert(old(self)@.index_of(w) == k);
                        } else {
                            if old(self)@.has_key(w) {
                                let k = old(self)@.index_of(w);
                                assert(self@.contexts[k].0 == w);
                            }
                        }
                    }
                }
                Ok(())
            },
            None => {
                self.contexts.push((window, entry));
                proof {
                    let n = old(self)@.contexts.len();
                    assert(self@.contexts[n as int].0 == window);
                    assert(self@.has_key(window));
                    assert forall|j: int|
                        0 <= j < n implies (#[trigger] self@.contexts[j]).0 == old(
                    self)@.contexts[j].0 by {
                        assert(self.contexts@[j] == old(self).contexts@[j]);
                    }
                    lemma_wf_push(old(self)@, self@, window);
                    assert(self@.index_of(window) == n as int) by {
                        let k = self@.index_of(window);
                        if k != n as int {
                            assert(old(self)@.contexts[k].0 == window);
                        }
                    }
                    assert(self@.keys() =~= old(self)@.keys().push(window));
                    assert forall|w: u64| w != window implies #[trigger] self@.get_context_model(w) == old(self)@.get_context_model(w) by {
                        if self@.has_key(w) {
                            let k = self@.index_of(w);
                            assert(k != n as int);
                            assert(old(self)@.contexts[k].0 == w);
                            assert(old(self)@.has_key(w));
                            assert(old(self)@.index_of(w) == k);
                        } else {
                            if old(self)@.has_key(w) {
                                let k = old(self)@.index_of(w);
                                assert(self@.contexts[k].0 == w);
                            }
                        }
                    }
                }
                Ok(())
            },
        }
    }

    /// Destroys `window`'s context: removes its key and returns the native
    /// handle the adapter must release. Idempotent: with the input method
    /// destroyed, the window unknown, or the entry a tombstone there is
    /// nothing to release, and a repeated call succeeds as a no-op.
    pub fn destroy_context(&mut self, window: u64) -> (r: Option<u64>)
        requires
            old(self)@.wf(),
        ensures
            final(self)@.wf(),
            final(self)@ == old(self)@.destroy_model(window),
            r == old(self)@.destroy_result(window),
            final(self).potential_input_methods == old(self).potential_input_methods,
            !final(self)@.has_key(window) || old(self)@.destroyed,
    {
        if self.destroyed {
            return None;
        }
        let found = self.find_index(window);
        match found {
            Some(i) => {
                let (_, entry) = self.contexts.remove(i);
                proof {
                    assert(self@.contexts =~= old(self)@.contexts.remove(
                        old(self)@.index_of(window),
                    ));
                    assert(self@.wf()) by {
                        assert forall|a: int, b: int|
                            0 <= a < b < self@.contexts.len() implies (#[trigger] self@.contexts[a]).0 != (#[trigger] self@.contexts[b]).0 by {
                            let i_ = i as int;
                            let oa = if a < i_ {
                                a
                            } else {
                                a + 1
                            };
                            let ob = if b < i_ {
                                b
                            } else {
                                b + 1
                            };
                            assert(old(self)@.contexts[oa].0 != old(self)@.contexts[ob].0);
                        }
                    }
                    assert(!self@.has_key(window)) by {
                        if self@.has_key(window) {
                            let k = self@.index_of(window);
                            let i_ = i as int;
                            let ok = if k < i_ {
                                k
                            } else {
                                k + 1
                            };
                            assert(old(self)@.contexts[ok].0 == window);
                            assert(ok != i_);
                            assert(old(self)@.contexts[i_].0 == window);
                        }
                    }
                }
                match entry {
                    Some(ctx) => Some(ctx.ic),
                    None => None,
                }
            },
            None => None,
        }
    }

    /// The native handle of `window`'s live context: `None` while the
    /// input method is destroyed, for tombstones, and for unknown windows.
    pub fn get_context(&self, window: u64) -> (r: Option<u64>)
        requires
            self@.wf(),
        ensures
            r == self@.get_context_model(window),
    {
        if self.destroyed {
            return None;
        }
        let found = self.find_index(window);
        match found {
            Some(i) => match &self.contexts[i].1 {
                Some(ctx) => Some(ctx.ic),
                None => None,
            },
            None => None,
        }
    }

    /// The handle to give keyboard focus, if `window` holds a live
    /// context; `None` is a successful no-op, not an error.
    pub fn focus(&self, window: u64) -> (r: Option<u64>)
        requires
            self@.wf(),
        ensures
            r == self@.get_context_model(window),
    {
        self.get_context(window)
    }

    /// The handle to remove keyboard focus from, if `window` holds a live
    /// context; `None` is a successful no-op, not an error.
    pub fn unfocus(&self, window: u64) -> (r: Option<u64>)
        requires
            self@.wf(),
        ensures
            r == self@.get_context_model(window),
    {
        self.get_context(window)
    }

    /// Records the preedit spot for `window` and returns the native update
    /// to send: the handle and the new spot — or `None` when the window
    /// holds no live context or the spot is unchanged, in which case no
    /// native call is issued.
    pub fn send_xim_spot(&mut self, window: u64, x: i16, y: i16) -> (r: Option<(u64, i16, i16)>)
        requires
            old(self)@.wf(),
        ensures
            final(self)@.wf(),
            final(self)@.im == old(self)@.im,
            final(self)@.destroyed == old(self)@.destroyed,
            final(self)@.keys() =~= old(self)@.keys(),
            final(self).potential_input_methods == old(self).potential_input_methods,
            old(self)@.get_context_model(window) is None ==> r is None && final(self)@ == old(
                self,
            )@,
            old(self)@.get_context_model(window) matches Some(ic) ==> {
                let recorded = old(self)@.entry_of(window)->Some_0.spot;
                &&& r == (match spot_update(recorded, x, y) {
                    None => None::<(u64, i16, i16)>,
                    Some(spot) => Some((ic, spot.0, spot.1)),
                })
                &&& final(self)@.entry_of(window) == Some(
                    IcModel { ic, spot: (x, y) },
                )
                &&& forall|w: u64|
                    w != window ==> #[trigger] final(self)@.get_context_model(w) == old(
                        self,
                    )@.get_context_model(w)
            },
    {
        if self.destroyed {
            return None;
        }
        let found = self.find_index(window);
        match found {
            Some(i) => {
                let has_ctx = self.contexts[i].1.is_some();
                if !has_ctx {
                    return None;
                }
                let entry = &mut self.contexts[i];
                match &mut entry.1 {
                    Some(ctx) => {
                        let ic = ctx.ic;
                        let update = ctx.set_spot(x, y);
                        proof {
                            assert(self@.contexts[i as int].0 == window);
                            assert(self@.has_key(window));
                            assert forall|j: int|
                                0 <= j < old(self)@.contexts.len() implies (#[trigger] self@.contexts[j]).0
                                == old(self)@.contexts[j].0 by {
                                if j != i as int {
                                    assert(self.contexts@[j] == old(self).contexts@[j]);
                                }
                            }
                            lemma_wf_same_keys(old(self)@, self@);
                            assert(self@.index_of(window) == i as int) by {
                                let k = self@.index_of(window);
                                if k != i as int {
                                    assert(old(self)@.contexts[k].0 == window);
                                    assert(old(self)@.index_of(window) == i as int);
                                }
                            }
                            assert(self@.keys() =~= old(self)@.keys());
                            assert forall|w: u64| w != window implies #[trigger] self@.get_context_model(w) == old(self)@.get_context_model(w) by {
                                if self@.has_key(w) {
                                    let k = self@.index_of(w);
                                    assert(old(self)@.contexts[k].0 == w);
                                    assert(old(self)@.has_key(w));
                                    assert(old(self)@.index_of(w) == k);
                                } else {
                                    if old(self)@.has_key(w) {
                                        let k = old(self)@.index_of(w);
                                        assert(self@.contexts[k].0 == w);
                                    }
                                }
                            }
                        }
                        match update {
                            Some(spot) => Some((ic, spot.0, spot.1)),
                            None => None,
                        }
                    },
                    None => None,
                }
            },
            None => None,
        }
    }

    /// The server's destroy notification: the native resources are already
    /// gone, so nothing is released; entries stay keyed as tombstone state
    /// for the rebuild.
    pub fn mark_destroyed(&mut self)
        requires
            old(self)@.wf(),
        ensures
            final(self)@.wf(),
            final(self)@ == old(self)@.mark_destroyed_model(),
            final(self).potential_input_methods == old(self).potential_input_methods,
    {
        self.destroyed = true;
        proof {
            assert(self@ =~= old(self)@.mark_destroyed_model());
        }
    }

    /// What a rebuild must create natively: every keyed window, with the
    /// preedit spot its previous context recorded (`None` for tombstones,
    /// which open at the origin).
    pub fn rebuild_plan(&self) -> (r: Vec<(u64, Option<(i16, i16)>)>)
        requires
            self@.wf(),
        ensures
            r@.len() == self@.contexts.len(),
            forall|i: int|
                0 <= i < r@.len() ==> (#[trigger] r@[i]).0 == self@.contexts[i].0 && r@[i].1
                    == (match self@.contexts[i].1 {
                    Some(ctx) => Some(ctx.spot),
                    None => None::<(i16, i16)>,
                }),
    {
        let n = self.contexts.len();
        let mut plan: Vec<(u64, Option<(i16, i16)>)> = Vec::new();
        let mut i: usize = 0;
        while i < n
            invariant
                i <= n,
                n == self.contexts@.len(),
                plan@.len() == i,
                forall|j: int|
                    0 <= j < i ==> (#[trigger] plan@[j]).0 == self@.contexts[j].0 && plan@[j].1
                        == (match self@.contexts[j].1 {
                        Some(ctx) => Some(ctx.spot),
                        None => None::<(i16, i16)>,
                    }),
            decreases n - i,
        {
            let window = self.contexts[i].0;
            let spot = match &self.contexts[i].1 {
                Some(ctx) => Some(ctx.ic_spot),
                None => None,
            };
            plan.push((window, spot));
            i = i + 1;
        }
        plan
    }

    /// Installs the rebuilt contexts: the same windows in the same order,
    /// each with the fresh native handle the adapter created for it and
    /// its previous spot, under the new input method; the destroyed flag
    /// clears.
    pub fn rebuild_commit(&mut self, new_im: u64, created: Vec<u64>)
        requires
            old(self)@.wf(),
            created@.len() == old(self)@.contexts.len(),
        ensures
            final(self)@.wf(),
            final(self)@ == old(self)@.rebuild_model(new_im, created@),
            final(self).potential_input_methods == old(self).potential_input_methods,
    {
        self.im = new_im;
        self.destroyed = false;
        let n = self.contexts.len();
        let mut i: usize = 0;
        while i < n
            invariant
                i <= n,
                n == self.contexts@.len(),
                n == old(self)@.contexts.len(),
                created@.len() == n,
                self.potential_input_methods == old(self).potential_input_methods,
                forall|j: int|
                    i <= j < n ==> #[trigger] self.contexts@[j] == old(self).contexts@[j],
                forall|j: int|
                    0 <= j < i ==> (#[trigger] self.contexts@[j]).0 == old(self)@.contexts[j].0
                        && self.contexts@[j].1 == Some(
                        ImeContext { ic: created@[j], ic_spot: old(self)@.rebuild_spot(j) },
                    ),
                self.im == new_im,
                self.destroyed == false,
            decreases n - i,
        {
            let window = self.contexts[i].0;
            let spot = match &self.contexts[i].1 {
                Some(ctx) => ctx.ic_spot,
                None => (0, 0),
            };
            proof {
                assert(old(self)@.contexts[i as int] == (
                    old(self).contexts@[i as int].0,
                    match old(self).contexts@[i as int].1 {
                        Some(c) => Some(IcModel { ic: c.ic, spot: c.ic_spot }),
                        None => None::<IcModel>,
                    },
                ));
                assert(old(self)@.rebuild_spot(i as int) == spot);
            }
            self.contexts[i] = (window, Some(ImeContext { ic: created[i], ic_spot: spot }));
            i = i + 1;
        }
        proof {
            assert(self@.contexts =~= old(self)@.rebuild_model(new_im, created@).contexts);
            assert(self@.wf()) by {
                assert forall|a: int, b: int|
                    0 <= a < b < self@.contexts.len() implies (#[trigger] self@.contexts[a]).0 != (#[trigger] self@.contexts[b]).0 by {
                    assert(old(self)@.contexts[a].0 != old(self)@.contexts[b].0);
                }
            }
        }
    }
}

/// Destroying a window's context twice is a no-op the second time and
/// succeeds both times: the first destroy removes the key, so the second
/// finds nothing, releases nothing, and leaves the registry unchanged.
pub proof fn lemma_destroy_idempotent(m: ImeModel, window: u64)
    requires
        m.wf(),
        !m.destroyed,
    ensures
        !m.destroy_model(window).has_key(window),
        m.destroy_model(window).destroy_model(window) == m.destroy_model(window),
        m.destroy_model(window).destroy_result(window) is None,
{
    let m1 = m.destroy_model(window);
    if m.has_key(window) {
        let i = m.index_of(window);
        assert(m.contexts[i].0 == window);
        if m1.has_key(window) {
            let k = m1.index_of(window);
            assert(m1.contexts[k].0 == window);
            let ok = if k < i {
                k
            } else {
                k + 1
            };
            assert(m.contexts[ok].0 == window);
            assert(ok != i);
        }
    } else {
        assert(m1 == m);
        if m1.has_key(window) {
        }
    }
}

/// The destroy/rebuild round trip preserves every window and its preedit
/// spot. After the server destroys the input method, `get_context` answers
/// `None` for every window; committing a rebuild gives each keyed window
/// the fresh native context created for it, with the spot its old context
/// had recorded, and `get_context` answers again.
pub proof fn lemma_destroy_rebuild_roundtrip(m: ImeModel, window: u64, new_im: u64, ics: Seq<u64>)
    requires
        m.wf(),
        !m.destroyed,
        m.has_key(window),
        m.entry_of(window) is Some,
        ics.len() == m.contexts.len(),
    ensures
        m.mark_destroyed_model().get_context_model(window) is None,
        m.mark_destroyed_model().rebuild_model(new_im, ics).wf(),
        m.mark_destroyed_model().rebuild_model(new_im, ics).keys() =~= m.keys(),
        m.mark_destroyed_model().rebuild_model(new_im, ics).get_context_model(window) == Some(
            ics[m.index_of(window)],
        ),
        m.mark_destroyed_model().rebuild_model(new_im, ics).entry_of(window)->Some_0.spot == m.entry_of(
            window,
        )->Some_0.spot,
{
    let md = m.mark_destroyed_model();
    let m2 = md.rebuild_model(new_im, ics);
    assert(m2.wf()) by {
        assert forall|a: int, b: int|
            0 <= a < b < m2.contexts.len() implies (#[trigger] m2.contexts[a]).0 != (
        #[trigger] m2.contexts[b]).0 by {
            assert(m.contexts[a].0 != m.contexts[b].0);
        }
    }
    assert(m2.keys() =~= m.keys());
    let i = m.index_of(window);
    assert(m.contexts[i].0 == window);
    assert(m2.contexts[i].0 == window);
    assert(m2.has_key(window));
    assert(m2.index_of(window) == i) by {
        let k = m2.index_of(window);
        if k != i {
            assert(m2.contexts[k].0 == window);
            assert(m.contexts[k].0 == window);
        }
    }
    assert(m2.entry_of(window) == Some(IcModel { ic: ics[i], spot: md.rebuild_spot(i) }));
}

} // verus!
