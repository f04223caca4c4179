use vstd::prelude::*;

use crate::binding::BindingSet;
use crate::resources::{Extent, ResourceHandle};

verus! {

/// What a stage runs: a compute program over a fixed grid of work groups, or
/// the render programs drawing a fixed number of vertices as a triangle list.
#[derive(Clone, Copy, Debug, PartialEq, Eq, Structural)]
pub enum StageKind {
    Compute { program: u32, grid: Extent },
    Render {
        vertex_program: u32,
        fragment_program: u32,
        vertex_buffer: ResourceHandle,
        vertex_count: u32,
    },
}

/// One unit of GPU work with the binding sets it binds, in slot-namespace
/// order, and the resources it reads and writes.
pub struct Stage {
    pub kind: StageKind,
    pub bindings: Vec<BindingSet>,
    pub reads: Vec<ResourceHandle>,
    pub writes: Vec<ResourceHandle>,
}

/// Work recorded into a frame's command stream; `stage` is the index of the
/// stage in its graph.
#[derive(Clone, Copy, Debug, PartialEq, Eq, Structural)]
pub enum Command {
    Dispatch { stage: usize, grid: Extent },
    Draw { stage: usize, vertex_count: u32, target: u64 },
}

/// Why a list of stages cannot form a graph; `stage` is the first offender.
#[derive(Clone, Copy, Debug, PartialEq, Eq, Structural)]
pub enum GraphError {
    /// The stage binds a resource it declares neither as read nor as written.
    UndeclaredBinding { stage: usize },
    /// The stage is placed before a stage that writes what it reads.
    DependencyOrder { stage: usize },
}

/// Every resource bound by the stage is among its declared reads or writes.
pub open spec fn bindings_declared(s: Stage) -> bool {
    forall|b: int, v: int|
        0 <= b < s.bindings@.len() && 0 <= v < s.bindings@[b].views_view().len() ==> {
            let h = (#[trigger] s.bindings@[b].views_view()[v])@.handle;
            s.reads@.contains(h) || s.writes@.contains(h)
        }
}

pub open spec fn all_declared(stages: Seq<Stage>) -> bool {
    forall|i: int| 0 <= i < stages.len() ==> #[trigger] bindings_declared(stages[i])
}

/// Some resource in `reads` is also in `writes`.
pub open spec fn overlaps(reads: Seq<ResourceHandle>, writes: Seq<ResourceHandle>) -> bool {
    exists|k: int| 0 <= k < reads.len() && writes.contains(#[trigger] reads[k])
}

/// Stage `i` reads a resource written by a stage after it.
pub open spec fn misplaced(stages: Seq<Stage>, i: int) -> bool {
    exists|j: int| i < j < stages.len() && overlaps(stages[i].reads@, #[trigger] stages[j].writes@)
}

/// Every writer of a resource stands before each of its readers.
pub open spec fn dependency_ordered(stages: Seq<Stage>) -> bool {
    forall|i: int| 0 <= i < stages.len() ==> !#[trigger] misplaced(stages, i)
}

pub open spec fn command_stage(c: Command) -> int {
    match c {
        Command::Dispatch { stage, .. } => stage as int,
        Command::Draw { stage, .. } => stage as int,
    }
}

/// The command that stage `i` of kind `k` records into a frame whose output
/// is the presentable image `image`.
pub open spec fn command_for(k: StageKind, i: int, image: u64) -> Command {
    match k {
        StageKind::Compute { grid, .. } => Command::Dispatch { stage: i as usize, grid },
        StageKind::Render { vertex_count, .. } => Command::Draw {
            stage: i as usize,
            vertex_count,
            target: image,
        },
    }
}

/// The whole command stream of one frame: one command per stage, in order.
pub open spec fn recorded(stages: Seq<Stage>, image: u64) -> Seq<Command> {
    Seq::new(stages.len(), |i: int| command_for(stages[i].kind, i, image))
}

fn contains_handle(v: &Vec<ResourceHandle>, h: ResourceHandle) -> (r: bool)
    ensures
        r == v@.contains(h),
{
    let mut i: usize = 0;
    while i < v.len()
        invariant
            0 <= i <= v@.len(),
            forall|j: int| 0 <= j < i ==> v@[j] != h,
        decreases v@.len() - i,
    {
        if v[i] == h {
            return true;
        }
        i = i + 1;
    }
    false
}

fn overlap(reads: &Vec<ResourceHandle>, writes: &Vec<ResourceHandle>) -> (r: bool)
    ensures
        r == overlaps(reads@, writes@),
{
    let mut k: usize = 0;
    while k < reads.len()
        invariant
            0 <= k <= reads@.len(),
            forall|j: int| 0 <= j < k ==> !writes@.contains(#[trigger] reads@[j]),
        decreases reads@.len() - k,
    {
        if contains_handle(writes, reads[k]) {
            return true;
        }
        k = k + 1;
    }
    false
}

fn declares_bindings(s: &Stage) -> (r: bool)
    ensures
        r == bindings_declared(*s),
{
    let mut b: usize = 0;
    while b < s.bindings.len()
        invariant
            0 <= b <= s.bindings@.len(),
            forall|bb: int, v: int|
                0 <= bb < b && 0 <= v < s.bindings@[bb].views_view().len() ==> {
                    let h = (#[trigger] s.bindings@[bb].views_view()[v])@.handle;
                    s.reads@.contains(h) || s.writes@.contains(h)
                },
        decreases s.bindings@.len() - b,
    {
        let views = s.bindings[b].views();
        let mut v: usize = 0;
        while v < views.len()
            invariant
                0 <= b < s.bindings@.len(),
                views@ == s.bindings@[b as int].views_view(),
                0 <= v <= views@.len(),
                forall|bb: int, w: int|
                    0 <= bb < b && 0 <= w < s.bindings@[bb].views_view().len() ==> {
                        let h = (#[trigger] s.bindings@[bb].views_view()[w])@.handle;
                        s.reads@.contains(h) || s.writes@.contains(h)
                    },
                forall|w: int|
                    0 <= w < v ==> {
                        let h = (#[trigger] s.bindings@[b as int].views_view()[w])@.handle;
                        s.reads@.contains(h) || s.writes@.contains(h)
                    },
            decreases views@.len() - v,
        {
            let h = views[v].handle();
            if !contains_handle(&s.reads, h) && !contains_handle(&s.writes, h) {
                return false;
            }
            v = v + 1;
        }
        b = b + 1;
    }
    true
}

fn misplaced_at(stages: &Vec<Stage>, i: usize) -> (r: bool)
    requires
        i < stages@.len(),
    ensures
        r == misplaced(stages@, i as int),
{
    let n = stages.len();
    let mut j: usize = i + 1;
    while j < n
        invariant
            n == stages@.len(),
            i < j <= stages@.len(),
            forall|m: int|
                i < m < j ==> !overlaps(stages@[i as int].reads@, #[trigger] stages@[m].writes@),
        decreases stages@.len() - j,
    {
        if overlap(&stages[i].reads, &stages[j].writes) {
            return true;
        }
        j = j + 1;
    }
    false
}

/// A fixed, dependency-ordered sequence of stages.
pub struct StageGraph {
    stages: Vec<Stage>,
}

impl StageGraph {
    pub closed spec fn stages_view(&self) -> Seq<Stage> {
        self.stages@
    }

    pub open spec fn wf(&self) -> bool {
        all_declared(self.stages_view()) && dependency_ordered(self.stages_view())
    }

    /// Accepts the stages in the given order when each binds only resources
    /// it declares and every writer precedes its readers. Otherwise names
    /// the first stage with an undeclared binding or, when there is none,
    /// the first stage that reads what a later stage writes.
    pub fn build(stages: Vec<Stage>) -> (r: Result<StageGraph, GraphError>)
        ensures
            (all_declared(stages@) && dependency_ordered(stages@)) <==> r is Ok,
            r matches Ok(g) ==> g.stages_view() == stages@ && g.wf(),
            r matches Err(GraphError::UndeclaredBinding { stage }) ==> {
                &&& stage < stages@.len()
                &&& !bindings_declared(stages@[stage as int])
                &&& forall|i: int| 0 <= i < stage ==> #[trigger] bindings_declared(stages@[i])
            },
            r matches Err(GraphError::DependencyOrder { stage }) ==> {
                &&& all_declared(stages@)
                &&& stage < stages@.len()
                &&& misplaced(stages@, stage as int)
                &&& forall|i: int| 0 <= i < stage ==> !#[trigger] misplaced(stages@, i)
            },
    {
        let mut d: usize = 0;
        while d < stages.len()
            invariant
                0 <= d <= stages@.len(),
                forall|m: int| 0 <= m < d ==> #[trigger] bindings_declared(stages@[m]),
            decreases stages@.len() - d,
        {
            if !declares_bindings(&stages[d]) {
                return Err(GraphError::UndeclaredBinding { stage: d });
            }
            d = d + 1;
        }
        let mut i: usize = 0;
        while i < stages.len()
            invariant
                all_declared(stages@),
                0 <= i <= stages@.len(),
                forall|m: int| 0 <= m < i ==> !#[trigger] misplaced(stages@, m),
            decreases stages@.len() - i,
        {
            if misplaced_at(&stages, i) {
                return Err(GraphError::DependencyOrder { stage: i });
            }
            i = i + 1;
        }
        Ok(StageGraph { stages })
    }

    /// Gives the stages back, in graph order.
    pub fn into_stages(self) -> (r: Vec<Stage>)
        ensures
            r@ == self.stages_view(),
    {
        self.stages
    }

    pub fn stages(&self) -> (r: &Vec<Stage>)
        ensures
            r@ == self.stages_view(),
    {
        &self.stages
    }

    /// Records one command per stage, in graph order, for a frame that
    /// presents `image`: a dispatch over the stage's grid for a compute
    /// stage, a draw into `image` for the render stage.
    pub fn record(&self, image: u64) -> (r: Vec<Command>)
        ensures
            r@ == recorded(self.stages_view(), image),
    {
        let mut out: Vec<Command> = Vec::new();
        let mut i: usize = 0;
        while i < self.stages.len()
            invariant
                0 <= i <= self.stages@.len(),
                out@ == recorded(self.stages@, image).take(i as int),
            decreases self.stages@.len() - i,
        {
            let c = match self.stages[i].kind {
                StageKind::Compute { grid, .. } => Command::Dispatch { stage: i, grid },
                StageKind::Render { vertex_count, .. } => Command::Draw {
                    stage: i,
                    vertex_count,
                    target: image,
                },
            };
            out.push(c);
            i = i + 1;
            assert(out@ =~= recorded(self.stages@, image).take(i as int));
        }
        assert(out@ =~= recorded(self.stages@, image));
        out
    }
}

/// A stage placed before a stage that writes something it reads (the render
/// stage ahead of the projection that fills its field) makes the order
/// invalid, so building a graph from it fails.
pub proof fn lemma_reader_before_writer_rejected(stages: Seq<Stage>, rd: int, w: int, k: int)
    requires
        0 <= rd < w < stages.len(),
        0 <= k < stages[rd].reads@.len(),
        stages[w].writes@.contains(stages[rd].reads@[k]),
    ensures
        misplaced(stages, rd),
        !dependency_ordered(stages),
{
    assert(overlaps(stages[rd].reads@, stages[w].writes@));
    assert(misplaced(stages, rd));
}

/// Every frame's command stream runs the stages in graph order, and in a
/// dependency-ordered graph each stage that writes a resource is recorded
/// before every other stage that reads it.
pub proof fn lemma_recorded_in_dependency_order(stages: Seq<Stage>, image: u64)
    requires
        dependency_ordered(stages),
        stages.len() <= usize::MAX,
    ensures
        recorded(stages, image).len() == stages.len(),
        forall|a: int, b: int|
            0 <= a < b < stages.len() ==> command_stage(#[trigger] recorded(stages, image)[a])
                < command_stage(#[trigger] recorded(stages, image)[b]),
        forall|w: int, rd: int|
            0 <= w < stages.len() && 0 <= rd < stages.len() && w != rd && overlaps(
                #[trigger] stages[rd].reads@,
                #[trigger] stages[w].writes@,
            ) ==> w < rd,
{
    let cmds = recorded(stages, image);
    assert forall|a: int, b: int|
        0 <= a < b < stages.len() implies command_stage(#[trigger] cmds[a]) < command_stage(
        #[trigger] cmds[b],
    ) by {
        assert(command_stage(cmds[a]) == a);
        assert(command_stage(cmds[b]) == b);
    }
    assert forall|w: int, rd: int|
        0 <= w < stages.len() && 0 <= rd < stages.len() && w != rd && overlaps(
            #[trigger] stages[rd].reads@,
            #[trigger] stages[w].writes@,
        ) implies w < rd by {
        if w > rd {
            assert(misplaced(stages, rd));
        }
    }
}

} // verus!
