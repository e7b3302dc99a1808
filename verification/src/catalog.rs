//! The constellation catalogue.

use vstd::prelude::*;

verus! {

/// A member star of a constellation: its number within the constellation
/// and its Bayer or Flamsteed designation.
#[derive(Debug, Clone)]
pub struct StarPos {
    pub id: usize,
    pub bfid: String,
}

/// One constellation of the catalogue: its name, its member stars, and the
/// line segments of its figure. A segment names its two end stars by their
/// position in the member list.
#[derive(Debug, Clone)]
pub struct Constellation {
    pub name: String,
    pub stars: Vec<StarPos>,
    pub lines: Vec<[u32; 2]>,
}

/// The ends of the segments in drawing order: both ends of the first
/// segment, then both ends of the second, and so on.
pub open spec fn segment_ends(lines: Seq<[u32; 2]>) -> Seq<int> {
    Seq::new(2 * lines.len(), |k: int| lines[k / 2][k % 2] as int)
}

impl Constellation {
    /// Every segment ends at a listed star.
    pub open spec fn wf(&self) -> bool {
        forall|i: int, e: int|
            0 <= i < self.lines@.len() && 0 <= e < 2 ==> (#[trigger] self.lines@[i][e])
                < self.stars@.len()
    }

    /// Whether every segment ends at a listed star.
    pub fn is_well_formed(&self) -> (ok: bool)
        ensures
            ok == self.wf(),
    {
        let mut i: usize = 0;
        while i < self.lines.len()
            invariant
                i <= self.lines@.len(),
                forall|j: int, e: int|
                    0 <= j < i && 0 <= e < 2 ==> (#[trigger] self.lines@[j][e])
                        < self.stars@.len(),
            decreases self.lines@.len() - i,
        {
            let line = &self.lines[i];
            if line[0] as usize >= self.stars.len() || line[1] as usize >= self.stars.len() {
                assert(!(self.lines@[i as int][0] < self.stars@.len()) || !(self.lines@[i as int][1]
                    < self.stars@.len()));
                return false;
            }
            i += 1;
        }
        true
    }

    /// The member stars to join, two per segment, in drawing order: each is
    /// a place in the member list. `None` when some segment ends at a star
    /// that the list does not hold.
    pub fn line_vertices(&self) -> (ends: Option<Vec<usize>>)
        ensures
            ends is Some <==> self.wf(),
            ends matches Some(v) ==> {
                &&& v@.map_values(|e: usize| e as int) == segment_ends(self.lines@)
                &&& forall|k: int| 0 <= k < v@.len() ==> (#[trigger] v@[k]) < self.stars@.len()
            },
    {
        let mut ends: Vec<usize> = Vec::new();
        let mut i: usize = 0;
        while i < self.lines.len()
            invariant
                i <= self.lines@.len(),
                ends@.len() == 2 * i,
                forall|j: int, e: int|
                    0 <= j < i && 0 <= e < 2 ==> (#[trigger] self.lines@[j][e])
                        < self.stars@.len(),
                forall|k: int|
                    0 <= k < ends@.len() ==> (#[trigger] ends@[k]) == self.lines@[k / 2][k % 2],
            decreases self.lines@.len() - i,
        {
            let line = &self.lines[i];
            if line[0] as usize >= self.stars.len() || line[1] as usize >= self.stars.len() {
                assert(!(self.lines@[i as int][0] < self.stars@.len()) || !(self.lines@[i as int][1]
                    < self.stars@.len()));
                return None;
            }
            ends.push(line[0] as usize);
            ends.push(line[1] as usize);
            i += 1;
        }
        assert(ends@.map_values(|e: usize| e as int) =~= segment_ends(self.lines@));
        Some(ends)
    }
}

/// The whole catalogue, in file order.
#[derive(Debug, Clone)]
pub struct Sky {
    pub content: Vec<Constellation>,
}

impl Default for Sky {
    fn default() -> (sky: Sky)
        ensures
            sky.content@.len() == 0,
    {
        Sky { content: Vec::new() }
    }
}

/// `i` is the first place in `names` that holds `name`.
pub open spec fn is_first_named(names: Seq<Seq<char>>, name: Seq<char>, i: int) -> bool {
    &&& 0 <= i < names.len()
    &&& names[i] == name
    &&& forall|k: int| 0 <= k < i ==> names[k] != name
}

/// `i` is the last place in `names` that holds `name`.
pub open spec fn is_last_named(names: Seq<Seq<char>>, name: Seq<char>, i: int) -> bool {
    &&& 0 <= i < names.len()
    &&& names[i] == name
    &&& forall|k: int| i < k < names.len() ==> names[k] != name
}

impl Sky {
    /// The constellation names, in catalogue order.
    pub open spec fn names(&self) -> Seq<Seq<char>> {
        self.content@.map_values(|c: Constellation| c.name@)
    }

    /// Every constellation of the catalogue is well formed.
    pub open spec fn wf(&self) -> bool {
        forall|i: int| 0 <= i < self.content@.len() ==> (#[trigger] self.content@[i]).wf()
    }

    /// Whether every constellation of the catalogue is well formed.
    pub fn is_well_formed(&self) -> (ok: bool)
        ensures
            ok == self.wf(),
    {
        let mut i: usize = 0;
        while i < self.content.len()
            invariant
                i <= self.content@.len(),
                forall|j: int| 0 <= j < i ==> (#[trigger] self.content@[j]).wf(),
            decreases self.content@.len() - i,
        {
            if !self.content[i].is_well_formed() {
                return false;
            }
            i += 1;
        }
        true
    }

    /// The constellation names, in catalogue order.
    pub fn as_string(&self) -> (cons_names: Vec<String>)
        ensures
            cons_names@.map_values(|s: String| s@) == self.names(),
    {
        let mut cons_names: Vec<String> = Vec::new();
        let mut i: usize = 0;
        while i < self.content.len()
            invariant
                i <= self.content@.len(),
                cons_names@.len() == i,
                forall|k: int|
                    0 <= k < i ==> (#[trigger] cons_names@[k])@ == self.content@[k].name@,
            decreases self.content@.len() - i,
        {
            cons_names.push(self.content[i].name.clone());
            i += 1;
        }
        assert(cons_names@.map_values(|s: String| s@) =~= self.names());
        cons_names
    }

    /// Where the first constellation called `name` stands, if any is called so.
    pub fn position(&self, name: &String) -> (found: Option<usize>)
        ensures
            match found {
                Some(i) => is_first_named(self.names(), name@, i as int),
                None => !self.names().contains(name@),
            },
    {
        let mut i: usize = 0;
        while i < self.content.len()
            invariant
                i <= self.content@.len(),
                forall|k: int| 0 <= k < i ==> self.names()[k] != name@,
            decreases self.content@.len() - i,
        {
            if self.content[i].name == *name {
                return Some(i);
            }
            i += 1;
        }
        None
    }

    /// Where the constellation to show for `name` stands: the first one
    /// called so, or the head of the catalogue when none is called so.
    /// `None` only when the catalogue is empty.
    pub fn place(&self, name: &String) -> (found: Option<usize>)
        ensures
            found is None <==> self.content@.len() == 0,
            found matches Some(i) ==> {
                &&& i < self.content@.len()
                &&& self.names().contains(name@) ==> is_first_named(self.names(), name@, i as int)
                &&& !self.names().contains(name@) ==> i == 0
            },
    {
        if self.content.len() == 0 {
            return None;
        }
        match self.position(name) {
            Some(i) => Some(i),
            None => Some(0),
        }
    }

    /// The constellation to show for `name`: the first one called so, or the
    /// head of the catalogue when none is called so. `None` only when the
    /// catalogue is empty.
    pub fn get_constellation(&self, name: &String) -> (found: Option<&Constellation>)
        ensures
            found is None <==> self.content@.len() == 0,
            found matches Some(c) ==> {
                &&& self.names().contains(name@) ==> exists|i: int|
                    is_first_named(self.names(), name@, i) && *c == self.content@[i]
                &&& !self.names().contains(name@) ==> *c == self.content@[0]
            },
    {
        match self.place(name) {
            Some(i) => Some(&self.content[i]),
            None => None,
        }
    }
}

} // verus!
