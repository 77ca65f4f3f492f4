use vstd::prelude::*;

use crate::decode::{decode, decode_spec, DecodeError, PointCloudAsset, PointRecord};

verus! {

/// An opaque, copyable reference into an [`AssetStore`]. The default handle is
/// null: it refers to nothing and never resolves.
#[derive(Clone, Copy, Debug, PartialEq, Eq, Structural)]
pub struct Handle {
    id: usize,
}

impl Handle {
    /// Slot that the handle names; negative for the null handle.
    pub closed spec fn slot(self) -> int {
        self.id - 1
    }

    pub open spec fn null_spec(self) -> bool {
        self.slot() < 0
    }

    /// The null handle: "unresolved, spawn nothing".
    pub fn null() -> (r: Handle)
        ensures
            r.null_spec(),
    {
        Handle { id: 0 }
    }

    pub fn is_null(&self) -> (r: bool)
        ensures
            r == self.null_spec(),
    {
        self.id == 0
    }

    fn for_slot(i: usize) -> (r: Handle)
        requires
            i < usize::MAX,
        ensures
            r.slot() == i,
    {
        Handle { id: i + 1 }
    }

    fn slot_index(&self) -> (r: Option<usize>)
        ensures
            match r {
                Some(i) => i == self.slot(),
                None => self.null_spec(),
            },
    {
        if self.id == 0 {
            None
        } else {
            Some(self.id - 1)
        }
    }
}

impl Default for Handle {
    fn default() -> (r: Handle)
        ensures
            r.null_spec(),
    {
        Handle::null()
    }
}

/// What [`AssetStore::poll`] reports for a handle.
#[derive(Clone, Copy, Debug, PartialEq, Eq, Structural)]
pub enum LoadState {
    /// The handle is null or names no entry of this store.
    Unregistered,
    /// Registered; decoding has not finished.
    Pending,
    /// Decoded; the asset is available (GPU upload may still be outstanding).
    Resolved,
    /// Decoding failed. Terminal.
    Failed(DecodeError),
}

impl LoadState {
    pub open spec fn is_terminal(self) -> bool {
        self is Resolved || self is Failed
    }
}

/// GPU-side state built from one resolved asset: the key of its bind group and
/// the number of points (one instanced quad each).
#[derive(Clone, Copy, Debug, PartialEq, Eq, Structural)]
pub struct GpuPointCloud {
    pub bind_group: usize,
    pub num_points: usize,
}

/// The state of one entry, by value.
pub enum EntryState {
    Pending,
    Resolved(PointCloudAsset),
    Failed(DecodeError),
}

/// The state of one entry, as the contracts see it.
pub enum StateView {
    Pending,
    Resolved(Seq<PointRecord>),
    Failed(DecodeError),
}

/// One entry of the store, as the contracts see it.
pub struct EntryView {
    /// The source path, for entries registered by path.
    pub path: Option<Seq<char>>,
    /// False for entries inserted straight for GPU use.
    pub managed: bool,
    pub state: StateView,
    pub gpu: Option<GpuPointCloud>,
}

pub open spec fn state_view(s: EntryState) -> StateView {
    match s {
        EntryState::Pending => StateView::Pending,
        EntryState::Resolved(a) => StateView::Resolved(a@),
        EntryState::Failed(e) => StateView::Failed(e),
    }
}

pub open spec fn path_view(p: Option<String>) -> Option<Seq<char>> {
    match p {
        Some(s) => Some(s@),
        None => None,
    }
}

/// What a poll of `h` reports on entries `s`.
pub open spec fn poll_spec(s: Seq<EntryView>, h: Handle) -> LoadState {
    if 0 <= h.slot() < s.len() {
        match s[h.slot()].state {
            StateView::Pending => LoadState::Pending,
            StateView::Resolved(_) => LoadState::Resolved,
            StateView::Failed(e) => LoadState::Failed(e),
        }
    } else {
        LoadState::Unregistered
    }
}

/// The GPU resource that `h` reaches on entries `s`, if it was built.
pub open spec fn gpu_spec(s: Seq<EntryView>, h: Handle) -> Option<GpuPointCloud> {
    if 0 <= h.slot() < s.len() {
        s[h.slot()].gpu
    } else {
        None
    }
}

/// How the store may change between two moments: entries are only appended,
/// keep their path and kind, a terminal state never changes, and a built GPU
/// resource is never rebuilt or dropped.
pub open spec fn evolves(a: Seq<EntryView>, b: Seq<EntryView>) -> bool {
    &&& a.len() <= b.len()
    &&& forall|i: int|
        0 <= i < a.len() ==> {
            &&& (#[trigger] b[i]).path == a[i].path
            &&& b[i].managed == a[i].managed
            &&& !(a[i].state is Pending) ==> b[i].state == a[i].state
            &&& a[i].gpu is Some ==> b[i].gpu == a[i].gpu
        }
}

/// The entry that completing the load of a `Pending` entry `e` from `bytes`
/// gives.
pub open spec fn completed(e: EntryView, bytes: Seq<u8>) -> EntryView {
    EntryView {
        state: match decode_spec(bytes) {
            Ok(p) => StateView::Resolved(p),
            Err(e) => StateView::Failed(e),
        },
        ..e
    }
}

/// The entry that `upload` turns entry `e` at slot `i` into.
pub open spec fn uploaded(e: EntryView, i: int) -> EntryView {
    match e.state {
        StateView::Resolved(p) => if e.gpu is None {
            EntryView {
                gpu: Some(GpuPointCloud { bind_group: i as usize, num_points: p.len() as usize }),
                ..e
            }
        } else {
            e
        },
        _ => e,
    }
}

/// Number of entries that hold a GPU resource.
pub open spec fn gpu_count(s: Seq<EntryView>) -> nat
    decreases s.len(),
{
    if s.len() == 0 {
        0
    } else {
        gpu_count(s.drop_last()) + if s.last().gpu is Some {
            1nat
        } else {
            0nat
        }
    }
}

/// The asset handle store: an arena of entries, each `Pending`, `Resolved` or
/// `Failed`, with the GPU resource built from it once it is resolved. Paths
/// are not deduplicated: every registration is an entry of its own.
pub struct AssetStore {
    paths: Vec<Option<String>>,
    managed: Vec<bool>,
    states: Vec<EntryState>,
    gpu: Vec<Option<GpuPointCloud>>,
}

impl View for AssetStore {
    type V = Seq<EntryView>;

    closed spec fn view(&self) -> Seq<EntryView> {
        Seq::new(
            self.states@.len(),
            |i: int|
                EntryView {
                    path: path_view(self.paths@[i]),
                    managed: self.managed@[i],
                    state: state_view(self.states@[i]),
                    gpu: self.gpu@[i],
                },
        )
    }
}

impl AssetStore {
    pub closed spec fn wf(&self) -> bool {
        &&& self.paths@.len() == self.states@.len()
        &&& self.managed@.len() == self.states@.len()
        &&& self.gpu@.len() == self.states@.len()
    }

    /// An empty store.
    pub fn new() -> (r: AssetStore)
        ensures
            r.wf(),
            r@ == Seq::<EntryView>::empty(),
    {
        let r = AssetStore { paths: Vec::new(), managed: Vec::new(), states: Vec::new(), gpu: Vec::new() };
        assert(r@ =~= Seq::<EntryView>::empty());
        r
    }

    /// Number of entries.
    pub fn len(&self) -> (r: usize)
        requires
            self.wf(),
        ensures
            r == self@.len(),
    {
        self.states.len()
    }

    fn push_entry(&mut self, path: Option<String>, managed: bool, state: EntryState) -> (r: Handle)
        requires
            old(self).wf(),
            old(self)@.len() + 1 < usize::MAX,
        ensures
            final(self).wf(),
            final(self)@ == old(self)@.push(
                EntryView {
                    path: path_view(path),
                    managed: managed,
                    state: state_view(state),
                    gpu: None,
                },
            ),
            r.slot() == old(self)@.len(),
    {
        let i = self.states.len();
        let ghost p = path_view(path);
        let ghost st = state_view(state);
        self.paths.push(path);
        self.managed.push(managed);
        self.states.push(state);
        self.gpu.push(None);
        assert(self@ =~= old(self)@.push(EntryView { path: p, managed: managed, state: st, gpu: None }));
        Handle::for_slot(i)
    }

    /// Registers a path for loading out of band: a new `Pending` entry, never
    /// shared with an earlier registration of the same path.
    pub fn register_path(&mut self, path: String) -> (r: Handle)
        requires
            old(self).wf(),
            old(self)@.len() + 1 < usize::MAX,
        ensures
            final(self).wf(),
            final(self)@ == old(self)@.push(
                EntryView { path: Some(path@), managed: true, state: StateView::Pending, gpu: None },
            ),
            r.slot() == old(self)@.len(),
            !r.null_spec(),
            evolves(old(self)@, final(self)@),
    {
        self.push_entry(Some(path), true, EntryState::Pending)
    }

    /// Inserts an already decoded asset: the entry is `Resolved` at once and
    /// waits for its GPU upload.
    pub fn insert_resolved(&mut self, asset: PointCloudAsset) -> (r: Handle)
        requires
            old(self).wf(),
            old(self)@.len() + 1 < usize::MAX,
        ensures
            final(self).wf(),
            final(self)@ == old(self)@.push(
                EntryView { path: None, managed: true, state: StateView::Resolved(asset@), gpu: None },
            ),
            r.slot() == old(self)@.len(),
            !r.null_spec(),
            evolves(old(self)@, final(self)@),
    {
        self.push_entry(None, true, EntryState::Resolved(asset))
    }

    /// Inserts an already decoded asset for direct GPU use, outside the
    /// managed pending/resolved bookkeeping of paths.
    pub fn insert_direct_gpu(&mut self, asset: PointCloudAsset) -> (r: Handle)
        requires
            old(self).wf(),
            old(self)@.len() + 1 < usize::MAX,
        ensures
            final(self).wf(),
            final(self)@ == old(self)@.push(
                EntryView { path: None, managed: false, state: StateView::Resolved(asset@), gpu: None },
            ),
            r.slot() == old(self)@.len(),
            !r.null_spec(),
            evolves(old(self)@, final(self)@),
    {
        self.push_entry(None, false, EntryState::Resolved(asset))
    }

    /// Records a load that failed before it reached the store: a new entry,
    /// `Failed` for good.
    pub fn insert_failed(&mut self, error: DecodeError, managed: bool) -> (r: Handle)
        requires
            old(self).wf(),
            old(self)@.len() + 1 < usize::MAX,
        ensures
            final(self).wf(),
            final(self)@ == old(self)@.push(
                EntryView { path: None, managed: managed, state: StateView::Failed(error), gpu: None },
            ),
            r.slot() == old(self)@.len(),
            !r.null_spec(),
            evolves(old(self)@, final(self)@),
    {
        self.push_entry(None, managed, EntryState::Failed(error))
    }

    /// Non-blocking readiness query.
    pub fn poll(&self, h: Handle) -> (r: LoadState)
        requires
            self.wf(),
        ensures
            r == poll_spec(self@, h),
    {
        match h.slot_index() {
            Some(i) => if i < self.states.len() {
                match &self.states[i] {
                    EntryState::Pending => LoadState::Pending,
                    EntryState::Resolved(_) => LoadState::Resolved,
                    EntryState::Failed(e) => LoadState::Failed(*e),
                }
            } else {
                LoadState::Unregistered
            },
            None => LoadState::Unregistered,
        }
    }

    /// Completes the out-of-band load of a registered entry from the bytes
    /// that were read for it: a `Pending` entry becomes `Resolved` or `Failed`
    /// by what the bytes decode to. Any other entry, or a handle that names no
    /// entry, is left as it is. Returns the poll state afterwards.
    pub fn complete_load(&mut self, h: Handle, bytes: &[u8]) -> (r: LoadState)
        requires
            old(self).wf(),
        ensures
            final(self).wf(),
            final(self)@ == (if 0 <= h.slot() < old(self)@.len() && old(self)@[h.slot()].state is Pending {
                old(self)@.update(h.slot(), completed(old(self)@[h.slot()], bytes@))
            } else {
                old(self)@
            }),
            r == poll_spec(final(self)@, h),
            evolves(old(self)@, final(self)@),
    {
        if let Some(i) = h.slot_index() {
            if i < self.states.len() {
                let pending = match &self.states[i] {
                    EntryState::Pending => true,
                    _ => false,
                };
                if pending {
                    let state = match decode(bytes) {
                        Ok(a) => EntryState::Resolved(a),
                        Err(e) => EntryState::Failed(e),
                    };
                    let ghost st = state_view(state);
                    self.states.set(i, state);
                    assert(self@ =~= old(self)@.update(i as int, completed(old(self)@[i as int], bytes@)));
                }
            }
        }
        self.poll(h)
    }

    /// Builds the GPU resource of a resolved entry that has none yet; returns
    /// whether it did. An entry is uploaded at most once.
    pub fn upload(&mut self, h: Handle) -> (r: bool)
        requires
            old(self).wf(),
        ensures
            final(self).wf(),
            final(self)@ == (if 0 <= h.slot() < old(self)@.len() {
                old(self)@.update(h.slot(), uploaded(old(self)@[h.slot()], h.slot()))
            } else {
                old(self)@
            }),
            r == (0 <= h.slot() < old(self)@.len() && old(self)@[h.slot()].state is Resolved
                && old(self)@[h.slot()].gpu is None),
            evolves(old(self)@, final(self)@),
            gpu_count(final(self)@) == gpu_count(old(self)@) + if r {
                1int
            } else {
                0int
            },
    {
        match h.slot_index() {
            Some(i) => if i < self.states.len() {
                proof {
                    lemma_gpu_count_update(self@, i as int, uploaded(self@[i as int], i as int));
                }
                self.upload_slot(i)
            } else {
                assert(self@ =~= old(self)@);
                false
            },
            None => {
                assert(self@ =~= old(self)@);
                false
            },
        }
    }

    fn upload_slot(&mut self, i: usize) -> (r: bool)
        requires
            old(self).wf(),
            i < old(self)@.len(),
        ensures
            final(self).wf(),
            final(self)@ == old(self)@.update(i as int, uploaded(old(self)@[i as int], i as int)),
            r == (old(self)@[i as int].state is Resolved && old(self)@[i as int].gpu is None),
    {
        let n = match &self.states[i] {
            EntryState::Resolved(a) => if self.gpu[i].is_none() {
                Some(a.len())
            } else {
                None
            },
            _ => None,
        };
        match n {
            Some(n) => {
                self.gpu.set(i, Some(GpuPointCloud { bind_group: i, num_points: n }));
                assert(self@ =~= old(self)@.update(i as int, uploaded(old(self)@[i as int], i as int)));
                true
            },
            None => {
                assert(self@ =~= old(self)@.update(i as int, uploaded(old(self)@[i as int], i as int)));
                false
            },
        }
    }

    /// Runs the uploader over every entry: each resolved entry without a GPU
    /// resource gets one. Returns how many were built.
    pub fn upload_ready(&mut self) -> (r: usize)
        requires
            old(self).wf(),
        ensures
            final(self).wf(),
            final(self)@.len() == old(self)@.len(),
            forall|i: int| 0 <= i < old(self)@.len() ==> #[trigger] final(self)@[i] == uploaded(old(self)@[i], i),
            evolves(old(self)@, final(self)@),
            gpu_count(final(self)@) == gpu_count(old(self)@) + r,
    {
        let n = self.states.len();
        let mut built: usize = 0;
        let mut i: usize = 0;
        while i < n
            invariant
                self.wf(),
                n == old(self)@.len(),
                self@.len() == n,
                i <= n,
                built <= i,
                forall|k: int| 0 <= k < i ==> #[trigger] self@[k] == uploaded(old(self)@[k], k),
                forall|k: int| i <= k < n ==> #[trigger] self@[k] == old(self)@[k],
                gpu_count(self@) == gpu_count(old(self)@) + built,
            decreases n - i,
        {
            let ghost before = self@;
            proof {
                lemma_gpu_count_update(before, i as int, uploaded(before[i as int], i as int));
            }
            if self.upload_slot(i) {
                built = built + 1;
            }
            i = i + 1;
        }
        built
    }

    /// The GPU resource that `h` reaches, once it was built.
    pub fn gpu_resource(&self, h: Handle) -> (r: Option<GpuPointCloud>)
        requires
            self.wf(),
        ensures
            r == gpu_spec(self@, h),
    {
        match h.slot_index() {
            Some(i) => if i < self.gpu.len() {
                self.gpu[i]
            } else {
                None
            },
            None => None,
        }
    }

    /// Number of GPU resources built so far.
    pub fn resource_count(&self) -> (r: usize)
        requires
            self.wf(),
        ensures
            r == gpu_count(self@),
    {
        let mut c: usize = 0;
        let mut i: usize = 0;
        while i < self.gpu.len()
            invariant
                self.wf(),
                i <= self@.len(),
                c == gpu_count(self@.take(i as int)),
                c <= i,
            decreases self@.len() - i,
        {
            assert(self@.take(i + 1).drop_last() =~= self@.take(i as int));
            if self.gpu[i].is_some() {
                c = c + 1;
            }
            i = i + 1;
        }
        assert(self@.take(i as int) =~= self@);
        c
    }
}

/// Once a poll reports `Resolved` or `Failed`, every later poll through any
/// sequence of store operations reports the same state.
pub proof fn lemma_poll_monotonic(a: Seq<EntryView>, b: Seq<EntryView>, h: Handle)
    requires
        evolves(a, b),
        poll_spec(a, h).is_terminal(),
    ensures
        poll_spec(b, h) == poll_spec(a, h),
{
    assert(b[h.slot()].state == a[h.slot()].state);
}

/// Store changes compose: a run of operations, each of which evolves the
/// store, evolves it as a whole.
pub proof fn lemma_evolves_transitive(a: Seq<EntryView>, b: Seq<EntryView>, c: Seq<EntryView>)
    requires
        evolves(a, b),
        evolves(b, c),
    ensures
        evolves(a, c),
{
    assert forall|i: int| 0 <= i < a.len() implies {
        &&& (#[trigger] c[i]).path == a[i].path
        &&& c[i].managed == a[i].managed
        &&& !(a[i].state is Pending) ==> c[i].state == a[i].state
        &&& a[i].gpu is Some ==> c[i].gpu == a[i].gpu
    } by {
        assert(b[i].path == a[i].path);
    }
}

/// Paths are not deduplicated: registering one path twice gives two entries
/// with distinct handles, and once both are loaded from bytes that decode and
/// uploaded, two GPU resources with distinct bind groups, one per
/// registration.
pub proof fn lemma_same_path_uploads_twice(s: Seq<EntryView>, path: Seq<char>, bytes: Seq<u8>)
    requires
        decode_spec(bytes) is Ok,
        s.len() + 2 < usize::MAX,
    ensures
        ({
            let reg = EntryView { path: Some(path), managed: true, state: StateView::Pending, gpu: None };
            let n = s.len() as int;
            let two = s.push(reg).push(reg);
            let done = two.update(n, uploaded(completed(two[n], bytes), n)).update(
                n + 1,
                uploaded(completed(two[n + 1], bytes), n + 1),
            );
            &&& two[n].path == two[n + 1].path
            &&& done[n].gpu is Some
            &&& done[n + 1].gpu is Some
            &&& done[n].gpu->Some_0.bind_group != done[n + 1].gpu->Some_0.bind_group
            &&& gpu_count(done) == gpu_count(s) + 2
        }),
{
    let reg = EntryView { path: Some(path), managed: true, state: StateView::Pending, gpu: None };
    let n = s.len() as int;
    let two = s.push(reg).push(reg);
    let x = uploaded(completed(two[n], bytes), n);
    let y = uploaded(completed(two[n + 1], bytes), n + 1);
    let done = two.update(n, x).update(n + 1, y);
    assert(x.gpu == Some(GpuPointCloud { bind_group: n as usize, num_points: decode_spec(bytes)->Ok_0.len() as usize }));
    assert(y.gpu == Some(GpuPointCloud { bind_group: (n + 1) as usize, num_points: decode_spec(bytes)->Ok_0.len() as usize }));
    assert(done =~= s.push(x).push(y));
    assert(s.push(x).push(y).drop_last() =~= s.push(x));
    assert(s.push(x).drop_last() =~= s);
    assert(gpu_count(s.push(x)) == gpu_count(s) + 1);
    assert(gpu_count(s.push(x).push(y)) == gpu_count(s.push(x)) + 1);
    assert(done[n] == x);
    assert(done[n + 1] == y);
}

/// Replacing one entry changes the GPU resource count by what the two
/// entries hold.
pub proof fn lemma_gpu_count_update(s: Seq<EntryView>, i: int, e: EntryView)
    requires
        0 <= i < s.len(),
    ensures
        gpu_count(s.update(i, e)) + (if s[i].gpu is Some {
            1int
        } else {
            0int
        }) == gpu_count(s) + (if e.gpu is Some {
            1int
        } else {
            0int
        }),
    decreases s.len(),
{
    let t = s.update(i, e);
    if i < s.len() - 1 {
        assert(t.drop_last() =~= s.drop_last().update(i, e));
        lemma_gpu_count_update(s.drop_last(), i, e);
    } else {
        assert(t.drop_last() =~= s.drop_last());
    }
}

} // verus!
