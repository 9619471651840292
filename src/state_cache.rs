//! Bookkeeping of what is currently bound, used to skip redundant rebinds.
use vstd::prelude::*;
use crate::resources::{opt_vec_view, DynamicState, DynamicStateView, IndexType, Scissor, Viewport};

verus! {

/// Whether a bind must be emitted.
#[derive(Debug, Copy, Clone, PartialEq, Eq, Structural)]
pub enum StateCacherOutcome {
    /// The state differs from what is bound: the bind must be emitted.
    NeedChange,
    /// The state is already bound: nothing needs to be emitted.
    AlreadyOk,
}

/// The mathematical value of a `StateCacher`.
pub struct CacheView {
    pub compute_pipeline: Option<u64>,
    pub graphics_pipeline: Option<u64>,
    pub index_buffer: Option<(u64, IndexType)>,
    pub line_width: Option<u32>,
    pub viewports: Option<Seq<Viewport>>,
    pub scissors: Option<Seq<Scissor>>,
}

/// The cache that knows nothing.
pub open spec fn empty_cache() -> CacheView {
    CacheView {
        compute_pipeline: None,
        graphics_pipeline: None,
        index_buffer: None,
        line_width: None,
        viewports: None,
        scissors: None,
    }
}

/// `NeedChange` exactly when the state changed.
pub open spec fn outcome_of(changed: bool) -> StateCacherOutcome {
    if changed {
        StateCacherOutcome::NeedChange
    } else {
        StateCacherOutcome::AlreadyOk
    }
}

/// One dynamic-state field filtered against its cached value: the part of the
/// request to emit, and the value cached afterwards. An equal value is dropped;
/// a new value is emitted and cached; an absent one leaves the cache alone.
pub open spec fn filter_field<T>(cached: Option<T>, requested: Option<T>) -> (Option<T>, Option<T>) {
    if cached == requested {
        (None, cached)
    } else if requested is Some {
        (requested, requested)
    } else {
        (requested, cached)
    }
}

/// The dynamic state left to emit for a request, and the cache afterwards.
pub open spec fn filter_dynamic_state(c: CacheView, d: DynamicStateView) -> (DynamicStateView, CacheView) {
    let lw = filter_field(c.line_width, d.line_width);
    let vp = filter_field(c.viewports, d.viewports);
    let sc = filter_field(c.scissors, d.scissors);
    (
        DynamicStateView { line_width: lw.0, viewports: vp.0, scissors: sc.0 },
        CacheView { line_width: lw.1, viewports: vp.1, scissors: sc.1, ..c },
    )
}

/// Records the state bound through one recorder.
pub struct StateCacher {
    compute_pipeline: Option<u64>,
    graphics_pipeline: Option<u64>,
    index_buffer: Option<(u64, IndexType)>,
    dynamic_state: DynamicState,
}

impl View for StateCacher {
    type V = CacheView;

    closed spec fn view(&self) -> CacheView {
        CacheView {
            compute_pipeline: self.compute_pipeline,
            graphics_pipeline: self.graphics_pipeline,
            index_buffer: self.index_buffer,
            line_width: self.dynamic_state@.line_width,
            viewports: self.dynamic_state@.viewports,
            scissors: self.dynamic_state@.scissors,
        }
    }
}

fn same_id(a: Option<u64>, id: u64) -> (r: bool)
    ensures
        r == (a == Some(id)),
{
    match a {
        Some(x) => x == id,
        None => false,
    }
}

fn same_viewports(a: &Option<Vec<Viewport>>, b: &Option<Vec<Viewport>>) -> (r: bool)
    ensures
        r == (opt_vec_view(*a) == opt_vec_view(*b)),
{
    if a.is_none() || b.is_none() {
        return a.is_none() && b.is_none();
    }
    let x = a.as_ref().unwrap();
    let y = b.as_ref().unwrap();
    assert(opt_vec_view(*a) == Some(x@));
        if x.len() != y.len() {
            return false;
        }
        let mut i: usize = 0;
        while i < x.len()
            invariant
                opt_vec_view(*a) == Some(x@),
                opt_vec_view(*b) == Some(y@),
                x@.len() == y@.len(),
                i <= x@.len(),
                forall|j: int| 0 <= j < i ==> x@[j] == y@[j],
            decreases x.len() - i,
        {
            if !(x[i] == y[i]) {
                assert(x@[i as int] != y@[i as int]);
                assert(x@ != y@);
                return false;
            }
            i += 1;
        }
        assert(x@ =~= y@);
        true
}

fn same_scissors(a: &Option<Vec<Scissor>>, b: &Option<Vec<Scissor>>) -> (r: bool)
    ensures
        r == (opt_vec_view(*a) == opt_vec_view(*b)),
{
    if a.is_none() || b.is_none() {
        return a.is_none() && b.is_none();
    }
    let x = a.as_ref().unwrap();
    let y = b.as_ref().unwrap();
    assert(opt_vec_view(*a) == Some(x@));
        if x.len() != y.len() {
            return false;
        }
        let mut i: usize = 0;
        while i < x.len()
            invariant
                opt_vec_view(*a) == Some(x@),
                opt_vec_view(*b) == Some(y@),
                x@.len() == y@.len(),
                i <= x@.len(),
                forall|j: int| 0 <= j < i ==> x@[j] == y@[j],
            decreases x.len() - i,
        {
            if !(x[i] == y[i]) {
                assert(x@[i as int] != y@[i as int]);
                assert(x@ != y@);
                return false;
            }
            i += 1;
        }
        assert(x@ =~= y@);
        true
}

impl StateCacher {
    /// A cache that knows nothing about the bound state.
    pub fn new() -> (r: StateCacher)
        ensures
            r@ == empty_cache(),
    {
        StateCacher {
            compute_pipeline: None,
            graphics_pipeline: None,
            index_buffer: None,
            dynamic_state: DynamicState::none(),
        }
    }

    /// Forgets everything, so that the next binds are all emitted.
    pub fn invalidate(&mut self)
        ensures
            final(self)@ == empty_cache(),
    {
        *self = StateCacher::new();
    }

    /// Notes that `pipeline` is to be bound as the graphics pipeline.
    pub fn bind_graphics_pipeline(&mut self, pipeline: u64) -> (r: StateCacherOutcome)
        ensures
            r == outcome_of(old(self)@.graphics_pipeline != Some(pipeline)),
            final(self)@ == (CacheView { graphics_pipeline: Some(pipeline), ..old(self)@ }),
    {
        if same_id(self.graphics_pipeline, pipeline) {
            StateCacherOutcome::AlreadyOk
        } else {
            self.graphics_pipeline = Some(pipeline);
            StateCacherOutcome::NeedChange
        }
    }

    /// Notes that `pipeline` is to be bound as the compute pipeline.
    pub fn bind_compute_pipeline(&mut self, pipeline: u64) -> (r: StateCacherOutcome)
        ensures
            r == outcome_of(old(self)@.compute_pipeline != Some(pipeline)),
            final(self)@ == (CacheView { compute_pipeline: Some(pipeline), ..old(self)@ }),
    {
        if same_id(self.compute_pipeline, pipeline) {
            StateCacherOutcome::AlreadyOk
        } else {
            self.compute_pipeline = Some(pipeline);
            StateCacherOutcome::NeedChange
        }
    }

    /// Notes that `buffer` is to be bound as the index buffer, with indices of type `ty`.
    pub fn bind_index_buffer(&mut self, buffer: u64, ty: IndexType) -> (r: StateCacherOutcome)
        ensures
            r == outcome_of(old(self)@.index_buffer != Some((buffer, ty))),
            final(self)@ == (CacheView { index_buffer: Some((buffer, ty)), ..old(self)@ }),
    {
        let same = match self.index_buffer {
            Some((b, t)) => b == buffer && t == ty,
            None => false,
        };
        if same {
            StateCacherOutcome::AlreadyOk
        } else {
            self.index_buffer = Some((buffer, ty));
            StateCacherOutcome::NeedChange
        }
    }

    /// Filters `incoming` down to the fields that differ from the cached
    /// state, and caches the new values.
    pub fn dynamic_state(&mut self, incoming: DynamicState) -> (r: DynamicState)
        ensures
            (r@, final(self)@) == filter_dynamic_state(old(self)@, incoming@),
    {
        let mut incoming = incoming;
        if self.dynamic_state.line_width == incoming.line_width {
            incoming.line_width = None;
        } else if incoming.line_width.is_some() {
            self.dynamic_state.line_width = incoming.line_width;
        }
        if same_viewports(&self.dynamic_state.viewports, &incoming.viewports) {
            incoming.viewports = None;
        } else if incoming.viewports.is_some() {
            self.dynamic_state.viewports = copy_opt_vec(&incoming.viewports);
        }
        if same_scissors(&self.dynamic_state.scissors, &incoming.scissors) {
            incoming.scissors = None;
        } else if incoming.scissors.is_some() {
            self.dynamic_state.scissors = copy_opt_vec(&incoming.scissors);
        }
        incoming
    }
}

/// A copy of a vector of plain values.
fn copy_vec<T: Copy>(v: &Vec<T>) -> (r: Vec<T>)
    ensures
        r@ == v@,
{
    let mut r: Vec<T> = Vec::new();
    let mut i: usize = 0;
    while i < v.len()
        invariant
            i <= v@.len(),
            r@ == v@.subrange(0, i as int),
        decreases v.len() - i,
    {
        r.push(v[i]);
        i += 1;
        assert(r@ =~= v@.subrange(0, i as int));
    }
    assert(r@ =~= v@);
    r
}

fn copy_opt_vec<T: Copy>(v: &Option<Vec<T>>) -> (r: Option<Vec<T>>)
    ensures
        opt_vec_view(r) == opt_vec_view(*v),
{
    match v {
        Some(x) => Some(copy_vec(x)),
        None => None,
    }
}

} // verus!
