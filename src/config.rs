use vstd::prelude::*;

use crate::grid::Direction;
use crate::item::Item;
use crate::world::{links_within, Burrow, LevelTemplate, World, WorldError};

verus! {

/// The names of the neighbouring burrows, per direction, as a world's
/// configuration gives them; empty or `__UNLINKED__` for none.
pub struct BurrowLinks {
    pub left: String,
    pub up: String,
    pub right: String,
    pub down: String,
}

/// How many of each tool a level hands out, as its description gives them.
pub struct BurrowTools {
    pub traps: u8,
    pub pickaxes: u8,
    pub carrots: u8,
    pub shovels: u8,
}

/// One burrow as a world's configuration describes it, with its levels
/// already read (`levels[d]` for depth `d`, slot 0 unused).
pub struct BurrowConfig {
    pub name: String,
    pub has_surface_entry: bool,
    pub links: BurrowLinks,
    pub levels: Vec<Option<LevelTemplate>>,
}

/// The tool counts, indexed by `Item::as_index`.
pub fn tools_to_array(tools: &BurrowTools) -> (r: [u8; 4])
    ensures
        r@[Item::Trap.spec_index()] == tools.traps,
        r@[Item::Pickaxe.spec_index()] == tools.pickaxes,
        r@[Item::Carrot.spec_index()] == tools.carrots,
        r@[Item::Shovel.spec_index()] == tools.shovels,
{
    let mut r: [u8; 4] = [0, 0, 0, 0];
    r[Item::Trap.as_index()] = tools.traps;
    r[Item::Pickaxe.as_index()] = tools.pickaxes;
    r[Item::Carrot.as_index()] = tools.carrots;
    r[Item::Shovel.as_index()] = tools.shovels;
    r
}

/// Whether both files of a level slot exist (`Ok(true)`), neither does
/// (`Ok(false)`, an empty slot), or only one (a fault).
pub fn level_files_present(description: bool, text: bool) -> (r: Result<bool, ()>)
    ensures
        r == (if description == text {
            Ok::<bool, ()>(description)
        } else {
            Err::<bool, ()>(())
        }),
{
    if description && text {
        Ok(true)
    } else if !description && !text {
        Ok(false)
    } else {
        Err(())
    }
}

/// A link name that stands for no link.
pub open spec fn is_unlinked(s: Seq<char>) -> bool {
    s.len() == 0 || s == "__UNLINKED__"@
}

/// The first index from `k` on whose name is `s`.
pub open spec fn name_index(names: Seq<Seq<char>>, s: Seq<char>, k: int) -> Option<int>
    decreases names.len() - k,
{
    if k < 0 || k >= names.len() {
        None
    } else if names[k] == s {
        Some(k)
    } else {
        name_index(names, s, k + 1)
    }
}

/// What link name `s` resolves to among `names`: `Some(None)` for no link,
/// `Some(Some(k))` for the burrow of index `k`, `None` for an unknown name.
pub open spec fn resolve(names: Seq<Seq<char>>, s: Seq<char>) -> Option<Option<usize>> {
    match name_index(names, s, 0) {
        Some(k) => Some(Some(k as usize)),
        None => if is_unlinked(s) {
            Some(None)
        } else {
            None
        },
    }
}

/// The name of a direction's link.
pub open spec fn link_name(links: BurrowLinks, d: Direction) -> Seq<char> {
    match d {
        Direction::Up => links.up@,
        Direction::Left => links.left@,
        Direction::Down => links.down@,
        Direction::Right => links.right@,
    }
}

/// The first direction, in the order left, right, up, down, whose link name is unknown.
pub open spec fn link_fault(names: Seq<Seq<char>>, links: BurrowLinks) -> Option<Direction> {
    if resolve(names, links.left@) is None {
        Some(Direction::Left)
    } else if resolve(names, links.right@) is None {
        Some(Direction::Right)
    } else if resolve(names, links.up@) is None {
        Some(Direction::Up)
    } else if resolve(names, links.down@) is None {
        Some(Direction::Down)
    } else {
        None
    }
}

/// The names of the burrows.
pub open spec fn names_of(cs: Seq<BurrowConfig>) -> Seq<Seq<char>> {
    cs.map_values(|c: BurrowConfig| c.name@)
}

/// The views of some strings.
pub open spec fn string_views(v: Seq<String>) -> Seq<Seq<char>> {
    v.map_values(|s: String| s@)
}

/// The first index from `k` on whose name an earlier burrow already has.
pub open spec fn first_duplicate(names: Seq<Seq<char>>, k: int) -> Option<int>
    decreases names.len() - k,
{
    if k < 0 || k >= names.len() {
        None
    } else if name_index(names, names[k], 0) != Some(k) {
        Some(k)
    } else {
        first_duplicate(names, k + 1)
    }
}

/// The first burrow from `k` on with an unknown link, and that link's direction.
pub open spec fn first_link_fault(names: Seq<Seq<char>>, cs: Seq<BurrowConfig>, k: int) -> Option<(int, Direction)>
    decreases cs.len() - k,
{
    if k < 0 || k >= cs.len() {
        None
    } else {
        match link_fault(names, cs[k].links) {
            Some(d) => Some((k, d)),
            None => first_link_fault(names, cs, k + 1),
        }
    }
}

/// Why configuration `cs` makes no world: a repeated name first, then an unknown link.
pub open spec fn config_error(cs: Seq<BurrowConfig>) -> Option<WorldError> {
    let names = names_of(cs);
    match first_duplicate(names, 0) {
        Some(k) => Some(WorldError::DuplicateBurrow { burrow: k as usize }),
        None => match first_link_fault(names, cs, 0) {
            Some((k, d)) => Some(WorldError::UnknownLink { burrow: k as usize, dir: d }),
            None => None,
        },
    }
}

/// Finds the burrow named `s`.
fn find_name(names: &Vec<String>, s: &String) -> (r: Option<usize>)
    ensures
        r == (match name_index(string_views(names@), s@, 0) {
            Some(k) => Some(k as usize),
            None => None::<usize>,
        }),
{
    let ghost nv = string_views(names@);
    let mut k: usize = 0;
    while k < names.len()
        invariant
            nv == string_views(names@),
            k <= names@.len(),
            name_index(nv, s@, 0) == name_index(nv, s@, k as int),
        decreases names.len() - k,
    {
        if names[k] == *s {
            return Some(k);
        }
        k = k + 1;
    }
    None
}

/// Resolves one link name among `names`.
fn resolve_link(names: &Vec<String>, s: &String) -> (r: Option<Option<usize>>)
    ensures
        r == resolve(string_views(names@), s@),
{
    match find_name(names, s) {
        Some(k) => Some(Some(k)),
        None => {
            let unlinked = "__UNLINKED__".to_owned();
            if s.as_str().is_empty() || *s == unlinked {
                Some(None)
            } else {
                None
            }
        },
    }
}

/// The links of a burrow as indices of `names`, per direction (see
/// `Direction::as_index`); or the first direction, in the order left, right,
/// up, down, whose name is unknown.
pub fn links_to_array(links: &BurrowLinks, names: &Vec<String>) -> (r: Result<[Option<usize>; 4], Direction>)
    ensures
        match link_fault(string_views(names@), *links) {
            Some(d) => r == Err::<[Option<usize>; 4], Direction>(d),
            None => r matches Ok(a) && forall|k: int| 0 <= k < 4 ==> #[trigger] a@[k] == resolve(
                string_views(names@),
                link_name(*links, Direction::all_spec()[k]),
            )->Some_0,
        },
{
    let l = match resolve_link(names, &links.left) {
        Some(x) => x,
        None => return Err(Direction::Left),
    };
    let r = match resolve_link(names, &links.right) {
        Some(x) => x,
        None => return Err(Direction::Right),
    };
    let u = match resolve_link(names, &links.up) {
        Some(x) => x,
        None => return Err(Direction::Up),
    };
    let d = match resolve_link(names, &links.down) {
        Some(x) => x,
        None => return Err(Direction::Down),
    };
    let mut a: [Option<usize>; 4] = [None, None, None, None];
    a[Direction::Up.as_index()] = u;
    a[Direction::Left.as_index()] = l;
    a[Direction::Down.as_index()] = d;
    a[Direction::Right.as_index()] = r;
    Ok(a)
}

/// Burrow `b` was built from configuration `c`, with links resolved among `names`.
pub open spec fn built_from(b: Burrow, c: BurrowConfig, names: Seq<Seq<char>>) -> bool {
    &&& b.has_surface_entry == c.has_surface_entry
    &&& b.levels == c.levels
    &&& forall|j: int|
        0 <= j < 4 ==> #[trigger] b.links@[j] == resolve(names, link_name(c.links, Direction::all_spec()[j]))->Some_0
}

/// A name found from `k` on lies among the names.
proof fn lemma_name_index_bound(names: Seq<Seq<char>>, s: Seq<char>, k: int)
    requires
        0 <= k,
    ensures
        name_index(names, s, k) matches Some(i) ==> k <= i < names.len(),
    decreases names.len() - k,
{
    if k < names.len() {
        lemma_name_index_bound(names, s, k + 1);
    }
}

/// Links without fault resolve to burrows among the names.
proof fn lemma_resolved_within(names: Seq<Seq<char>>, links: BurrowLinks, j: int)
    requires
        link_fault(names, links) is None,
        0 <= j < 4,
    ensures
        resolve(names, link_name(links, Direction::all_spec()[j])) matches Some(x) && (x matches Some(
            t,
        ) ==> t < names.len()),
{
    lemma_name_index_bound(names, link_name(links, Direction::all_spec()[j]), 0);
}

/// Builds a world from its configuration. Every burrow name must be unique,
/// and every link name must be the name of a burrow or stand for no link;
/// else nothing is built.
pub fn world_from_config(title: String, configs: Vec<BurrowConfig>) -> (r: Result<World, WorldError>)
    ensures
        match config_error(configs@) {
            Some(e) => r == Err::<World, WorldError>(e),
            None => r matches Ok(w) && w.wf() && w.spec_title() == title@ && w.spec_burrows().len()
                == configs@.len() && forall|k: int|
                0 <= k < configs@.len() ==> built_from(
                    #[trigger] w.spec_burrows()[k],
                    configs@[k],
                    names_of(configs@),
                ),
        },
{
    let ghost cs = configs@;
    let ghost nv = names_of(cs);
    let n = configs.len();
    let mut names: Vec<String> = Vec::new();
    let mut k: usize = 0;
    while k < n
        invariant
            n == cs.len(),
            configs@ == cs,
            nv == names_of(cs),
            k <= n,
            string_views(names@) == nv.take(k as int),
        decreases n - k,
    {
        let ghost before = names@;
        names.push(configs[k].name.clone());
        assert(string_views(names@) =~= string_views(before).push(cs[k as int].name@));
        assert(nv.take(k as int + 1) =~= nv.take(k as int).push(nv[k as int]));
        k = k + 1;
    }
    assert(string_views(names@) =~= nv);
    k = 0;
    while k < n
        invariant
            n == cs.len(),
            n == names@.len(),
            configs@ == cs,
            nv == names_of(cs),
            string_views(names@) == nv,
            k <= n,
            first_duplicate(nv, 0) == first_duplicate(nv, k as int),
        decreases n - k,
    {
        assert(nv[k as int] == names@[k as int]@);
        proof {
            lemma_name_index_bound(nv, nv[k as int], 0);
        }
        let same = match find_name(&names, &names[k]) {
            Some(i) => i == k,
            None => false,
        };
        if !same {
            return Err(WorldError::DuplicateBurrow { burrow: k });
        }
        k = k + 1;
    }
    let mut arrays: Vec<[Option<usize>; 4]> = Vec::new();
    k = 0;
    while k < n
        invariant
            n == cs.len(),
            configs@ == cs,
            string_views(names@) == nv,
            nv == names_of(cs),
            first_duplicate(nv, 0) is None,
            k <= n,
            first_link_fault(nv, cs, 0) == first_link_fault(nv, cs, k as int),
            arrays@.len() == k,
            forall|i: int, j: int|
                0 <= i < k && 0 <= j < 4 ==> (#[trigger] arrays@[i]@[j] matches Some(t) ==> t < n),
            forall|i: int, j: int|
                0 <= i < k && 0 <= j < 4 ==> #[trigger] arrays@[i]@[j] == resolve(
                        nv,
                        link_name(cs[i].links, Direction::all_spec()[j]),
                    )->Some_0,
        decreases n - k,
    {
        match links_to_array(&configs[k].links, &names) {
            Err(d) => {
                return Err(WorldError::UnknownLink { burrow: k, dir: d });
            },
            Ok(a) => {
                proof {
                    assert forall|j: int| 0 <= j < 4 implies (#[trigger] a@[j] matches Some(t) ==> t < n) by {
                        lemma_resolved_within(nv, cs[k as int].links, j);
                    }
                }
                arrays.push(a);
            },
        }
        k = k + 1;
    }
    let mut burrows: Vec<Burrow> = Vec::new();
    let mut configs = configs;
    k = 0;
    while k < n
        invariant
            n == cs.len(),
            n == arrays@.len(),
            nv == names_of(cs),
            k <= n,
            configs@ == cs.skip(k as int),
            burrows@.len() == k,
            forall|i: int, j: int|
                0 <= i < n && 0 <= j < 4 ==> (#[trigger] arrays@[i]@[j] matches Some(t) ==> t < n),
            forall|i: int, j: int|
                0 <= i < n && 0 <= j < 4 ==> #[trigger] arrays@[i]@[j] == resolve(
                        nv,
                        link_name(cs[i].links, Direction::all_spec()[j]),
                    )->Some_0,
            forall|i: int| 0 <= i < k ==> built_from(#[trigger] burrows@[i], cs[i], nv),
        decreases n - k,
    {
        assert(configs@[0] == cs[k as int]);
        let c = configs.remove(0);
        assert(configs@ =~= cs.skip(k as int + 1));
        burrows.push(
            Burrow { has_surface_entry: c.has_surface_entry, links: arrays[k], levels: c.levels },
        );
        k = k + 1;
    }
    proof {
        assert forall|i: int| 0 <= i < n implies links_within(#[trigger] burrows@[i], n as int) by {
            assert forall|j: int| 0 <= j < 4 implies (#[trigger] burrows@[i].links@[j] matches Some(
                t,
            ) ==> 0 <= t < n) by {
                assert(burrows@[i].links@[j] == arrays@[i]@[j]);
            }
        }
    }
    match World::new(title, burrows) {
        Ok(w) => Ok(w),
        Err(e) => Err(e),
    }
}

} // verus!
