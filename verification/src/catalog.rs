//! The animation catalog: a fixed set of named directional clips, built once
//! at startup and looked up by the player controller every frame.
//!
//! Mirrored directions may deliberately share one frame range: left-facing art
//! is produced at render time by giving the sprite a negative horizontal
//! scale, so the catalog never needs duplicated frames for it.

use vstd::prelude::*;
use vstd::string::StringExecFns;

use crate::motion::Direction;
use crate::motion::MotionMode;

verus! {

/// Identifies one registered animation: the motion mode combined with the
/// facing direction, the pair behind a name such as "run_left".
#[derive(Clone, Copy, Debug, PartialEq, Eq, Structural)]
pub struct AnimationKey {
    pub mode: MotionMode,
    pub direction: Direction,
}

/// Whether an animation loops or plays once.
#[derive(Clone, Copy, Debug, PartialEq, Eq, Structural)]
pub enum Repeat {
    Loop,
    Once,
}

/// An ordered run of sprite-sheet frames: the inclusive index range
/// `[first_frame, last_frame]`, each frame shown for `frame_duration_ms`.
#[derive(Clone, Copy, Debug, PartialEq, Eq, Structural)]
pub struct Clip {
    pub first_frame: usize,
    pub last_frame: usize,
    pub frame_duration_ms: u32,
}

/// A clip together with its repeat policy: everything the renderer needs to
/// play one registered animation.
#[derive(Clone, Copy, Debug, PartialEq, Eq, Structural)]
pub struct AnimationDef {
    pub clip: Clip,
    pub repeat: Repeat,
}

impl AnimationKey {
    /// The display name of this key, "mode_direction", as a character sequence.
    pub open spec fn text_view(self) -> Seq<char> {
        match (self.mode, self.direction) {
            (MotionMode::Idle, Direction::Up) => "idle_up"@,
            (MotionMode::Idle, Direction::Down) => "idle_down"@,
            (MotionMode::Idle, Direction::Left) => "idle_left"@,
            (MotionMode::Idle, Direction::Right) => "idle_right"@,
            (MotionMode::Running, Direction::Up) => "run_up"@,
            (MotionMode::Running, Direction::Down) => "run_down"@,
            (MotionMode::Running, Direction::Left) => "run_left"@,
            (MotionMode::Running, Direction::Right) => "run_right"@,
        }
    }

    /// The display name of this key, such as "run_left".
    pub fn text(&self) -> (r: String)
        ensures
            r@ == self.text_view(),
    {
        match (self.mode, self.direction) {
            (MotionMode::Idle, Direction::Up) => String::from_str("idle_up"),
            (MotionMode::Idle, Direction::Down) => String::from_str("idle_down"),
            (MotionMode::Idle, Direction::Left) => String::from_str("idle_left"),
            (MotionMode::Idle, Direction::Right) => String::from_str("idle_right"),
            (MotionMode::Running, Direction::Up) => String::from_str("run_up"),
            (MotionMode::Running, Direction::Down) => String::from_str("run_down"),
            (MotionMode::Running, Direction::Left) => String::from_str("run_left"),
            (MotionMode::Running, Direction::Right) => String::from_str("run_right"),
        }
    }
}

/// The mapping that a list of registered entries denotes: later entries win,
/// as repeated registration of one key replaces its definition.
pub open spec fn entries_map(s: Seq<(AnimationKey, AnimationDef)>) -> Map<AnimationKey, AnimationDef>
    decreases s.len(),
{
    if s.len() == 0 {
        Map::empty()
    } else {
        entries_map(s.drop_last()).insert(s.last().0, s.last().1)
    }
}

/// The catalog of registered animations, viewed as a map from key to
/// definition. Built once at startup; the game loop only reads it.
pub struct AnimationCatalog {
    entries: Vec<(AnimationKey, AnimationDef)>,
}

impl View for AnimationCatalog {
    type V = Map<AnimationKey, AnimationDef>;

    closed spec fn view(&self) -> Map<AnimationKey, AnimationDef> {
        entries_map(self.entries@)
    }
}

/// Entries at or past position `i` never mention `k`, so the denoted map
/// treats `k` exactly as the map of the first `i` entries does.
proof fn lemma_entries_map_skip_absent(s: Seq<(AnimationKey, AnimationDef)>, i: int, k: AnimationKey)
    requires
        0 <= i <= s.len(),
        forall|j: int| i <= j < s.len() ==> (#[trigger] s[j]).0 != k,
    ensures
        entries_map(s).contains_key(k) == entries_map(s.take(i)).contains_key(k),
        entries_map(s).contains_key(k) ==> entries_map(s)[k] == entries_map(s.take(i))[k],
    decreases s.len() - i,
{
    if i == s.len() {
        assert(s.take(i) =~= s);
    } else {
        assert(s[s.len() - 1].0 != k);
        lemma_entries_map_skip_absent(s.drop_last(), i, k);
        assert(s.drop_last().take(i) =~= s.take(i));
    }
}

impl AnimationCatalog {
    /// An empty catalog with nothing registered.
    pub fn new() -> (c: AnimationCatalog)
        ensures
            c@ == Map::<AnimationKey, AnimationDef>::empty(),
    {
        AnimationCatalog { entries: Vec::new() }
    }

    /// Registers `def` under `key`, replacing any earlier definition.
    pub fn register(&mut self, key: AnimationKey, def: AnimationDef)
        ensures
            final(self)@ == old(self)@.insert(key, def),
    {
        self.entries.push((key, def));
        proof {
            assert(self.entries@.drop_last() =~= old(self).entries@);
            assert(self.entries@.last() == (key, def));
        }
    }

    /// Looks the key up: its definition if it was ever registered, and nothing
    /// otherwise. A missing key is a configuration error that callers must
    /// tolerate, never a crash.
    pub fn lookup(&self, key: AnimationKey) -> (r: Option<AnimationDef>)
        ensures
            r == if self@.contains_key(key) {
                Some(self@[key])
            } else {
                None::<AnimationDef>
            },
    {
        let mut i: usize = self.entries.len();
        while i > 0
            invariant
                i <= self.entries.len(),
                forall|j: int| i <= j < self.entries@.len() ==> (#[trigger] self.entries@[j]).0 != key,
            decreases i,
        {
            i = i - 1;
            if self.entries[i].0 == key {
                proof {
                    lemma_entries_map_skip_absent(self.entries@, i + 1, key);
                    assert(self.entries@.take(i + 1).drop_last() =~= self.entries@.take(i as int));
                    assert(self.entries@.take(i + 1).last() == self.entries@[i as int]);
                }
                return Some(self.entries[i].1);
            }
        }
        proof {
            lemma_entries_map_skip_absent(self.entries@, 0, key);
            assert(self.entries@.take(0) =~= Seq::<(AnimationKey, AnimationDef)>::empty());
        }
        None
    }
}

/// The map that registering a whole directional group leaves behind: starting
/// from `m`, each listed direction's range becomes a clip with the shared
/// frame duration, wrapped with the shared repeat policy, and is bound under
/// the key made of `mode` and that direction. A direction listed twice keeps
/// its later range.
pub open spec fn registered_group(
    m: Map<AnimationKey, AnimationDef>,
    mode: MotionMode,
    ranges: Seq<(Direction, (usize, usize))>,
    frame_duration_ms: u32,
    repeat: Repeat,
) -> Map<AnimationKey, AnimationDef>
    decreases ranges.len(),
{
    if ranges.len() == 0 {
        m
    } else {
        registered_group(
            m.insert(
                AnimationKey { mode: mode, direction: ranges[0].0 },
                AnimationDef {
                    clip: Clip {
                        first_frame: ranges[0].1.0,
                        last_frame: ranges[0].1.1,
                        frame_duration_ms: frame_duration_ms,
                    },
                    repeat: repeat,
                },
            ),
            mode,
            ranges.drop_first(),
            frame_duration_ms,
            repeat,
        )
    }
}

/// Registers one named group of directional animations: for each listed
/// direction, a clip spanning that inclusive frame range, with the given
/// per-frame duration and repeat policy, bound under the key of `mode` and
/// that direction. Distinct directions may share one frame range on purpose:
/// left/right mirroring is done by the renderer with a signed horizontal
/// scale, not by duplicated frames.
pub fn create_directional_animations(
    catalog: &mut AnimationCatalog,
    mode: MotionMode,
    frame_ranges: &Vec<(Direction, (usize, usize))>,
    frame_duration_ms: u32,
    repeat: Repeat,
)
    ensures
        final(catalog)@ == registered_group(
            old(catalog)@,
            mode,
            frame_ranges@,
            frame_duration_ms,
            repeat,
        ),
{
    let ghost goal = registered_group(old(catalog)@, mode, frame_ranges@, frame_duration_ms, repeat);
    proof {
        assert(frame_ranges@.skip(0) =~= frame_ranges@);
    }
    let mut i: usize = 0;
    while i < frame_ranges.len()
        invariant
            i <= frame_ranges.len(),
            goal == registered_group(
                catalog@,
                mode,
                frame_ranges@.skip(i as int),
                frame_duration_ms,
                repeat,
            ),
        decreases frame_ranges.len() - i,
    {
        let (direction, range) = frame_ranges[i];
        let key = AnimationKey { mode: mode, direction: direction };
        let def = AnimationDef {
            clip: Clip {
                first_frame: range.0,
                last_frame: range.1,
                frame_duration_ms: frame_duration_ms,
            },
            repeat: repeat,
        };
        proof {
            assert(frame_ranges@.skip(i as int)[0] == frame_ranges@[i as int]);
            assert(frame_ranges@.skip(i as int).drop_first() =~= frame_ranges@.skip(i as int + 1));
        }
        catalog.register(key, def);
        i = i + 1;
    }
    proof {
        assert(frame_ranges@.skip(frame_ranges.len() as int)
            =~= Seq::<(Direction, (usize, usize))>::empty());
    }
}

/// Registering a group leaves every unrelated key exactly as it was: a key
/// whose mode or direction the group never mentions is neither added, removed
/// nor redefined.
pub proof fn lemma_registered_group_frame(
    m: Map<AnimationKey, AnimationDef>,
    mode: MotionMode,
    ranges: Seq<(Direction, (usize, usize))>,
    frame_duration_ms: u32,
    repeat: Repeat,
    k: AnimationKey,
)
    requires
        forall|j: int|
            0 <= j < ranges.len() ==> (AnimationKey {
                mode: mode,
                direction: (#[trigger] ranges[j]).0,
            }) != k,
    ensures
        registered_group(m, mode, ranges, frame_duration_ms, repeat).contains_key(k)
            == m.contains_key(k),
        m.contains_key(k) ==> registered_group(m, mode, ranges, frame_duration_ms, repeat)[k]
            == m[k],
    decreases ranges.len(),
{
    if ranges.len() != 0 {
        let m1 = m.insert(
            AnimationKey { mode: mode, direction: ranges[0].0 },
            AnimationDef {
                clip: Clip {
                    first_frame: ranges[0].1.0,
                    last_frame: ranges[0].1.1,
                    frame_duration_ms: frame_duration_ms,
                },
                repeat: repeat,
            },
        );
        assert forall|j: int| 0 <= j < ranges.drop_first().len() implies (AnimationKey {
            mode: mode,
            direction: (#[trigger] ranges.drop_first()[j]).0,
        }) != k by {
            assert(ranges.drop_first()[j] == ranges[j + 1]);
        }
        lemma_registered_group_frame(m1, mode, ranges.drop_first(), frame_duration_ms, repeat, k);
    }
}

/// Whatever a map already contains survives registering a group: keys are only
/// added or redefined, never dropped.
proof fn lemma_registered_group_monotone(
    m: Map<AnimationKey, AnimationDef>,
    mode: MotionMode,
    ranges: Seq<(Direction, (usize, usize))>,
    frame_duration_ms: u32,
    repeat: Repeat,
    k: AnimationKey,
)
    requires
        m.contains_key(k),
    ensures
        registered_group(m, mode, ranges, frame_duration_ms, repeat).contains_key(k),
    decreases ranges.len(),
{
    if ranges.len() != 0 {
        let m1 = m.insert(
            AnimationKey { mode: mode, direction: ranges[0].0 },
            AnimationDef {
                clip: Clip {
                    first_frame: ranges[0].1.0,
                    last_frame: ranges[0].1.1,
                    frame_duration_ms: frame_duration_ms,
                },
                repeat: repeat,
            },
        );
        lemma_registered_group_monotone(m1, mode, ranges.drop_first(), frame_duration_ms, repeat, k);
    }
}

/// Every direction listed in a group is registered afterwards: looking up the
/// key of `mode` and that direction cannot fail once the group is in.
pub proof fn lemma_registered_group_covers(
    m: Map<AnimationKey, AnimationDef>,
    mode: MotionMode,
    ranges: Seq<(Direction, (usize, usize))>,
    frame_duration_ms: u32,
    repeat: Repeat,
    j: int,
)
    requires
        0 <= j < ranges.len(),
    ensures
        registered_group(m, mode, ranges, frame_duration_ms, repeat).contains_key(
            AnimationKey { mode: mode, direction: ranges[j].0 },
        ),
    decreases ranges.len(),
{
    let m1 = m.insert(
        AnimationKey { mode: mode, direction: ranges[0].0 },
        AnimationDef {
            clip: Clip {
                first_frame: ranges[0].1.0,
                last_frame: ranges[0].1.1,
                frame_duration_ms: frame_duration_ms,
            },
            repeat: repeat,
        },
    );
    if j == 0 {
        lemma_registered_group_monotone(
            m1,
            mode,
            ranges.drop_first(),
            frame_duration_ms,
            repeat,
            AnimationKey { mode: mode, direction: ranges[0].0 },
        );
    } else {
        lemma_registered_group_covers(m1, mode, ranges.drop_first(), frame_duration_ms, repeat, j - 1);
        assert(ranges.drop_first()[j - 1] == ranges[j]);
    }
}

} // verus!
