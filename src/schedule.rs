use vstd::prelude::*;

use crate::loader::LoadConfig;

verus! {

/// What the spawning schedule asks for on one frame, by configuration index.
#[derive(Clone, Copy, Debug, PartialEq, Eq, Structural)]
pub enum FrameAction {
    /// Load configuration `i` now and hold its handle until its spawn frame.
    LoadEarly(usize),
    /// Spawn configuration `i` with the handle held since its early load.
    SpawnHeld(usize),
    /// Load configuration `i` now and spawn it with the new handle.
    LoadAndSpawn(usize),
    /// The run is over.
    Exit,
}

/// One combination of the load-strategy flags, with `same` telling whether
/// every configuration reads one shared source.
#[derive(Clone, Copy, Debug, PartialEq, Eq, Structural)]
pub struct LoadCase {
    pub direct: bool,
    pub auto: bool,
    pub early: bool,
    pub delay: bool,
    pub same: bool,
}

/// The spawn frame and the source number of one configuration of a case.
#[derive(Clone, Copy, Debug, PartialEq, Eq, Structural)]
pub struct ScheduledLoad {
    pub spawn_frame: u64,
    pub source: u32,
}

/// Early loads, in configuration order, on the first frame.
pub open spec fn early_loads(cs: Seq<LoadConfig>) -> Seq<FrameAction>
    decreases cs.len(),
{
    if cs.len() == 0 {
        Seq::empty()
    } else {
        let rest = early_loads(cs.drop_last());
        if cs.last().early {
            rest.push(FrameAction::LoadEarly((cs.len() - 1) as usize))
        } else {
            rest
        }
    }
}

/// Spawns due on `frame`, in configuration order.
pub open spec fn spawns(cs: Seq<LoadConfig>, frame: u64) -> Seq<FrameAction>
    decreases cs.len(),
{
    if cs.len() == 0 {
        Seq::empty()
    } else {
        let rest = spawns(cs.drop_last(), frame);
        let i = (cs.len() - 1) as usize;
        if cs.last().delay == frame {
            rest.push(
                if cs.last().early {
                    FrameAction::SpawnHeld(i)
                } else {
                    FrameAction::LoadAndSpawn(i)
                },
            )
        } else {
            rest
        }
    }
}

/// The run ends three first-spawn spans after the last spawn.
pub open spec fn exits(cs: Seq<LoadConfig>, frame: u64) -> bool {
    cs.len() > 0 && frame == 3 * cs[0].delay + cs.last().delay
}

pub open spec fn frame_actions_spec(cs: Seq<LoadConfig>, frame: u64) -> Seq<FrameAction> {
    (if frame == 1 {
        early_loads(cs)
    } else {
        Seq::empty()
    }) + spawns(cs, frame) + (if exits(cs, frame) {
        seq![FrameAction::Exit]
    } else {
        Seq::empty()
    })
}

/// The actions of frame `frame`: on the first frame the early loads, then the
/// spawns due on this frame, then the exit if this is the last frame.
pub fn frame_actions(configs: &Vec<LoadConfig>, frame: u64) -> (r: Vec<FrameAction>)
    ensures
        r@ == frame_actions_spec(configs@, frame),
{
    let mut out: Vec<FrameAction> = Vec::new();
    let n = configs.len();
    if frame == 1 {
        let mut i: usize = 0;
        while i < n
            invariant
                n == configs@.len(),
                i <= n,
                out@ == early_loads(configs@.take(i as int)),
            decreases n - i,
        {
            assert(configs@.take(i + 1).drop_last() =~= configs@.take(i as int));
            if configs[i].early {
                out.push(FrameAction::LoadEarly(i));
            }
            i = i + 1;
        }
        assert(configs@.take(n as int) =~= configs@);
    }
    let ghost before = out@;
    let mut i: usize = 0;
    while i < n
        invariant
            n == configs@.len(),
            i <= n,
            out@ == before + spawns(configs@.take(i as int), frame),
        decreases n - i,
    {
        assert(configs@.take(i + 1).drop_last() =~= configs@.take(i as int));
        if configs[i].delay == frame {
            if configs[i].early {
                out.push(FrameAction::SpawnHeld(i));
            } else {
                out.push(FrameAction::LoadAndSpawn(i));
            }
        }
        i = i + 1;
    }
    assert(configs@.take(n as int) =~= configs@);
    if n > 0 {
        let last = (configs[0].delay as u128) * 3 + (configs[n - 1].delay as u128);
        if frame as u128 == last {
            out.push(FrameAction::Exit);
        }
    }
    assert(out@ =~= frame_actions_spec(configs@, frame));
    out
}

impl LoadCase {
    /// Whether the flags name a strategy: not `auto` with `direct`.
    pub open spec fn valid(self) -> bool {
        !(self.auto && self.direct)
    }

    pub fn is_valid(&self) -> (r: bool)
        ensures
            r == self.valid(),
    {
        !(self.auto && self.direct)
    }

    /// Rank of the timing flags: `early`, `delay`, `same` from the slowest to
    /// the fastest.
    pub open spec fn timing(self) -> int {
        (if self.early {
            4int
        } else {
            0int
        }) + (if self.delay {
            2int
        } else {
            0int
        }) + (if self.same {
            1int
        } else {
            0int
        })
    }

    /// Position of a valid case in [`LoadCase::all_valid`]: first the manual
    /// managed cases, then the registered ones, then the direct ones, each
    /// group in the order of [`LoadCase::timing`].
    pub open spec fn position(self) -> int {
        (if self.direct {
            16int
        } else if self.auto {
            8int
        } else {
            0int
        }) + self.timing()
    }

    fn push_timings(out: &mut Vec<LoadCase>, direct: bool, auto: bool)
        ensures
            final(out)@.len() == old(out)@.len() + 8,
            forall|i: int| 0 <= i < old(out)@.len() ==> #[trigger] final(out)@[i] == old(out)@[i],
            forall|c: LoadCase|
                c.direct == direct && c.auto == auto ==> final(out)@[old(out)@.len() + #[trigger] c.timing()] == c,
    {
        let ghost start = out@.len();
        let flags = [false, true];
        let mut e: usize = 0;
        while e < 2
            invariant
                flags@ == seq![false, true],
                e <= 2,
                out@.len() == start + 4 * e,
                forall|i: int| 0 <= i < start ==> #[trigger] out@[i] == old(out)@[i],
                forall|c: LoadCase|
                    c.direct == direct && c.auto == auto && #[trigger] c.timing() < 4 * e ==> out@[start + c.timing()] == c,
            decreases 2 - e,
        {
            let mut d: usize = 0;
            while d < 2
                invariant
                    flags@ == seq![false, true],
                    e < 2,
                    d <= 2,
                    out@.len() == start + 4 * e + 2 * d,
                    forall|i: int| 0 <= i < start ==> #[trigger] out@[i] == old(out)@[i],
                    forall|c: LoadCase|
                        c.direct == direct && c.auto == auto && #[trigger] c.timing() < 4 * e + 2 * d ==> out@[start + c.timing()] == c,
                decreases 2 - d,
            {
                out.push(LoadCase { direct, auto, early: flags[e], delay: flags[d], same: false });
                out.push(LoadCase { direct, auto, early: flags[e], delay: flags[d], same: true });
                d = d + 1;
            }
            e = e + 1;
        }
    }

    /// Every valid combination of the flags, each once, in the order of
    /// [`LoadCase::position`].
    pub fn all_valid() -> (r: Vec<LoadCase>)
        ensures
            r@.len() == 24,
            forall|i: int| 0 <= i < 24 ==> (#[trigger] r@[i]).valid(),
            forall|c: LoadCase| c.valid() ==> #[trigger] r@[c.position()] == c,
    {
        let mut out: Vec<LoadCase> = Vec::new();
        LoadCase::push_timings(&mut out, false, false);
        LoadCase::push_timings(&mut out, false, true);
        LoadCase::push_timings(&mut out, true, false);
        assert forall|c: LoadCase| c.valid() implies #[trigger] out@[c.position()] == c by {
            assert(0 <= c.timing() < 8);
        }
        assert forall|i: int| 0 <= i < 24 implies (#[trigger] out@[i]).valid() by {
            let c = LoadCase {
                direct: i >= 16,
                auto: 8 <= i < 16,
                early: i % 8 >= 4,
                delay: i % 4 >= 2,
                same: i % 2 == 1,
            };
            assert(c.valid());
            assert(c.position() == i);
        }
        out
    }

    /// The `count` configurations of this case, spawned every `frames` frames
    /// when `delay` is set (else all on frame `frames`), each with a source of
    /// its own unless `same` is set.
    pub fn schedule(&self, count: u32, frames: u32) -> (r: Vec<ScheduledLoad>)
        ensures
            r@.len() == count,
            forall|i: int|
                0 <= i < count ==> #[trigger] r@[i] == (ScheduledLoad {
                    spawn_frame: (frames * (if self.delay {
                        i
                    } else {
                        0
                    } + 1)) as u64,
                    source: if self.same {
                        0u32
                    } else {
                        i as u32
                    },
                }),
    {
        let mut out: Vec<ScheduledLoad> = Vec::new();
        let mut i: u32 = 0;
        while i < count
            invariant
                i <= count,
                out@.len() == i,
                forall|k: int|
                    0 <= k < i ==> #[trigger] out@[k] == (ScheduledLoad {
                        spawn_frame: (frames * (if self.delay {
                            k
                        } else {
                            0
                        } + 1)) as u64,
                        source: if self.same {
                            0u32
                        } else {
                            k as u32
                        },
                    }),
            decreases count - i,
        {
            let step: u64 = if self.delay {
                i as u64
            } else {
                0
            };
            proof {
                assert(frames * (step + 1) <= 0xffff_ffffu64 * 0x1_0000_0000u64) by (nonlinear_arith)
                    requires
                        frames <= 0xffff_ffffu64,
                        step + 1 <= 0x1_0000_0000u64,
                ;
            }
            let spawn_frame = (frames as u64) * (step + 1);
            let source: u32 = if self.same {
                0
            } else {
                i
            };
            out.push(ScheduledLoad { spawn_frame, source });
            i = i + 1;
        }
        out
    }
}

} // verus!
