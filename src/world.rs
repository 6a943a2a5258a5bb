use vstd::prelude::*;

use crate::grid::Direction;
use crate::level_state::LevelState;
use crate::level_text::{parse_onto, ParseError};
use crate::rules::{LevelView, MoveEffect};

verus! {

/// Why a burrow could not be entered, left or loaded.
#[derive(Debug, Hash, PartialEq, Eq, Clone, Copy)]
pub enum WorldError {
    /// No burrow with a surface entry holds a first level.
    NoSurfaceEntry,
    /// The burrow has no link in this direction.
    NoLink { burrow: usize, dir: Direction },
    /// A link names no burrow of the world.
    DanglingLink { burrow: usize, dir: Direction },
    /// The burrow declares no level at this depth.
    LevelMissing { burrow: usize, depth: usize },
    /// The level at this depth of the burrow does not parse.
    Parse { burrow: usize, depth: usize, error: ParseError },
    /// Two burrows share the name of this one.
    DuplicateBurrow { burrow: usize },
    /// A link of this burrow names no burrow of the world.
    UnknownLink { burrow: usize, dir: Direction },
    /// Only one of the two files of this level exists.
    PartialLevel { burrow: usize, depth: usize },
}

/// A level as authored: its name, its text and how many of each tool it hands out.
#[derive(Debug, Clone)]
pub struct LevelTemplate {
    pub name: String,
    pub data: String,
    pub tools: [u8; 4],
}

/// A stack of levels, reached from the surface or from neighbouring burrows.
/// `links` holds, per direction (see `Direction::as_index`), the index of the
/// neighbouring burrow in its world; `levels[d]` is the level at depth `d`
/// (slot 0 is unused).
#[derive(Debug, Clone)]
pub struct Burrow {
    pub has_surface_entry: bool,
    pub links: [Option<usize>; 4],
    pub levels: Vec<Option<LevelTemplate>>,
}

/// Every link of `b` names one of `n` burrows.
pub open spec fn links_within(b: Burrow, n: int) -> bool {
    forall|k: int| 0 <= k < 4 ==> (#[trigger] b.links@[k] matches Some(t) ==> 0 <= t < n)
}

/// A burrow that one may enter from the surface: it has a surface entry and
/// a level at depth one.
pub open spec fn enterable(b: Burrow) -> bool {
    b.has_surface_entry && b.levels@.len() > 1 && b.levels@[1] is Some
}

/// The first burrow from index `k` on that one may enter from the surface.
pub open spec fn entry_from(bs: Seq<Burrow>, k: int) -> Option<int>
    decreases bs.len() - k,
{
    if k < 0 || k >= bs.len() {
        None
    } else if enterable(bs[k]) {
        Some(k)
    } else {
        entry_from(bs, k + 1)
    }
}

/// The level template of `b` at depth `depth`, if it declares one.
pub open spec fn template_at(b: Burrow, depth: int) -> Option<LevelTemplate> {
    if 0 <= depth < b.levels@.len() {
        b.levels@[depth]
    } else {
        None
    }
}

/// The fresh level that template `t` describes.
pub open spec fn fresh_level(t: LevelTemplate) -> Result<LevelView, ParseError> {
    parse_onto(LevelView::empty(), t.data@)
}

impl Burrow {
    /// The burrow linked in direction `dir`.
    pub fn get_link(&self, dir: Direction) -> (r: Option<usize>)
        ensures
            r == self.links@[dir.spec_index()],
    {
        self.links[dir.as_index()]
    }
}

/// A title and its burrows, which link to each other by index.
#[derive(Debug)]
pub struct World {
    title: String,
    burrows: Vec<Burrow>,
}

impl World {
    pub closed spec fn spec_title(&self) -> Seq<char> {
        self.title@
    }

    pub closed spec fn spec_burrows(&self) -> Seq<Burrow> {
        self.burrows@
    }

    /// Every link names a burrow of this world.
    pub open spec fn wf(&self) -> bool {
        let bs = self.spec_burrows();
        forall|k: int| 0 <= k < bs.len() ==> links_within(#[trigger] bs[k], bs.len() as int)
    }

    /// A world of these burrows. Refused where a link names none of them: the
    /// error names the first such burrow and, in cycle order, its first such link.
    pub fn new(title: String, burrows: Vec<Burrow>) -> (r: Result<World, WorldError>)
        ensures
            r is Ok <==> forall|k: int|
                0 <= k < burrows@.len() ==> links_within(#[trigger] burrows@[k], burrows@.len() as int),
            match r {
                Ok(w) => w.wf() && w.spec_title() == title@ && w.spec_burrows() == burrows@,
                Err(e) => e matches WorldError::DanglingLink { burrow, dir } && {
                    let n = burrows@.len() as int;
                    let links = burrows@[burrow as int].links@;
                    &&& burrow < n
                    &&& forall|k: int| 0 <= k < burrow ==> links_within(#[trigger] burrows@[k], n)
                    &&& forall|m: int|
                        0 <= m < dir.spec_index() ==> (#[trigger] links[m] matches Some(t) ==> t < n)
                    &&& links[dir.spec_index()] matches Some(t) && t >= n
                },
            },
    {
        let n = burrows.len();
        let mut k: usize = 0;
        while k < n
            invariant
                n == burrows@.len(),
                k <= n,
                forall|j: int| 0 <= j < k ==> links_within(#[trigger] burrows@[j], n as int),
            decreases n - k,
        {
            let dirs = Direction::all();
            let mut m: usize = 0;
            while m < 4
                invariant
                    n == burrows@.len(),
                    k < n,
                    m <= 4,
                    forall|j: int| 0 <= j < k ==> links_within(#[trigger] burrows@[j], n as int),
                    dirs@ == seq![Direction::Up, Direction::Left, Direction::Down, Direction::Right],
                    forall|j: int|
                        0 <= j < m ==> (#[trigger] burrows@[k as int].links@[j] matches Some(t) ==> 0
                            <= t < n),
                decreases 4 - m,
            {
                if let Some(t) = burrows[k].links[m] {
                    if t >= n {
                        assert(dirs@[m as int].spec_index() == m);
                        return Err(WorldError::DanglingLink { burrow: k, dir: dirs[m] });
                    }
                }
                m = m + 1;
            }
            k = k + 1;
        }
        Ok(World { title, burrows })
    }

    pub fn title(&self) -> (r: &String)
        ensures
            r@ == self.spec_title(),
    {
        &self.title
    }

    pub fn burrows(&self) -> (r: &Vec<Burrow>)
        ensures
            r@ == self.spec_burrows(),
    {
        &self.burrows
    }

    /// Enters the first burrow that has a surface entry and a first level,
    /// on a fresh copy of that level.
    pub fn enter(&self) -> (r: Result<WorldState<'_>, WorldError>)
        requires
            self.wf(),
        ensures
            match entry_from(self.spec_burrows(), 0) {
                None => r == Err::<WorldState<'_>, WorldError>(WorldError::NoSurfaceEntry),
                Some(k) => match fresh_level(self.spec_burrows()[k].levels@[1]->Some_0) {
                    Ok(v) => r matches Ok(s) && s.wf() && s.world == self && s.burrow == k && s.depth
                        == 1 && s.level_state@ == v,
                    Err(e) => r == Err::<WorldState<'_>, WorldError>(
                        WorldError::Parse { burrow: k as usize, depth: 1, error: e },
                    ),
                },
            },
            r matches Ok(s) ==> self.spec_burrows()[s.burrow as int].has_surface_entry,
    {
        let mut k: usize = 0;
        while k < self.burrows.len()
            invariant
                self.wf(),
                k <= self.burrows@.len(),
                entry_from(self.burrows@, 0) == entry_from(self.burrows@, k as int),
            decreases self.burrows.len() - k,
        {
            let b = &self.burrows[k];
            if b.levels.len() > 1 && b.has_surface_entry {
                if let Some(t) = &b.levels[1] {
                    assert(enterable(self.burrows@[k as int]));
                    assert(entry_from(self.burrows@, k as int) == Some(k as int));
                    assert(self.burrows@[k as int].levels@[1] == Some(*t));
                    let mut state = LevelState::new();
                    return match state.parse_level(t.data.as_str()) {
                        Ok(()) => Ok(WorldState { world: self, burrow: k, depth: 1, level_state: state }),
                        Err(e) => Err(WorldError::Parse { burrow: k, depth: 1, error: e }),
                    };
                }
            }
            k = k + 1;
        }
        Err(WorldError::NoSurfaceEntry)
    }
}

/// Where Paquerette is in a world: the burrow, the depth, and the level she plays.
#[derive(Debug)]
pub struct WorldState<'a> {
    pub world: &'a World,
    pub burrow: usize,
    pub depth: usize,
    pub level_state: LevelState,
}

impl<'a> WorldState<'a> {
    pub open spec fn wf(&self) -> bool {
        &&& self.world.wf()
        &&& self.burrow < self.world.spec_burrows().len()
        &&& self.level_state.wf()
    }

    /// Where effect `e` leads: the burrow and depth of the next level.
    pub open spec fn destination(&self, e: MoveEffect) -> Result<(int, int), WorldError> {
        let bs = self.world.spec_burrows();
        match e {
            MoveEffect::MoveAdjacent(dir) => match bs[self.burrow as int].links@[dir.spec_index()] {
                None => Err(WorldError::NoLink { burrow: self.burrow, dir }),
                Some(t) => Ok((t as int, self.depth as int)),
            },
            MoveEffect::DropHole => Ok((self.burrow as int, self.depth + 1)),
        }
    }

    /// Follows a move's effect. Walking off the grid in a direction leads to
    /// the linked burrow, at the same depth; dropping into a hole leads one
    /// level deeper in the same burrow. Either way Paquerette starts afresh on
    /// that level. On any fault nothing changes.
    pub fn apply_move_effect(&mut self, e: MoveEffect) -> (r: Result<(), WorldError>)
        requires
            old(self).wf(),
            old(self).depth < usize::MAX,
        ensures
            final(self).wf(),
            final(self).world == old(self).world,
            match old(self).destination(e) {
                Err(err) => r == Err::<(), WorldError>(err) && *final(self) == *old(self),
                Ok((b, d)) => match template_at(old(self).world.spec_burrows()[b], d) {
                    None => r == Err::<(), WorldError>(
                        WorldError::LevelMissing { burrow: b as usize, depth: d as usize },
                    ) && *final(self) == *old(self),
                    Some(t) => match fresh_level(t) {
                        Err(pe) => r == Err::<(), WorldError>(
                            WorldError::Parse { burrow: b as usize, depth: d as usize, error: pe },
                        ) && *final(self) == *old(self),
                        Ok(v) => r is Ok && final(self).burrow == b && final(self).depth == d
                            && final(self).level_state@ == v,
                    },
                },
            },
    {
        let (b, d) = match e {
            MoveEffect::MoveAdjacent(dir) => {
                match self.world.burrows[self.burrow].get_link(dir) {
                    None => return Err(WorldError::NoLink { burrow: self.burrow, dir }),
                    Some(t) => {
                        let ghost bs = self.world.spec_burrows();
                        assert(links_within(bs[self.burrow as int], bs.len() as int));
                        (t, self.depth)
                    },
                }
            },
            MoveEffect::DropHole => (self.burrow, self.depth + 1),
        };
        let target = &self.world.burrows[b];
        if d >= target.levels.len() {
            return Err(WorldError::LevelMissing { burrow: b, depth: d });
        }
        let t = match &target.levels[d] {
            Some(t) => t,
            None => return Err(WorldError::LevelMissing { burrow: b, depth: d }),
        };
        let mut state = LevelState::new();
        match state.parse_level(t.data.as_str()) {
            Ok(()) => {},
            Err(pe) => return Err(WorldError::Parse { burrow: b, depth: d, error: pe }),
        }
        self.burrow = b;
        self.depth = d;
        self.level_state = state;
        Ok(())
    }
}

} // verus!
