use vstd::prelude::*;
use std::collections::HashMap;

verus! {

/// One face of a model as the model file gives it: for each of its corners
/// the index of a position, and where the file has them, of a texture
/// coordinate and of a normal.
#[derive(Debug, PartialEq, Eq)]
pub enum Face {
    /// Corners with a position only.
    P(Vec<usize>),
    /// Corners with a position and a texture coordinate.
    PT(Vec<(usize, usize)>),
    /// Corners with a position and a normal.
    PN(Vec<(usize, usize)>),
    /// Corners with a position, a texture coordinate and a normal, in that order.
    PTN(Vec<(usize, usize, usize)>),
}

/// Why a model's faces cannot be turned into a vertex and an index list.
#[derive(Clone, Copy, Debug, PartialEq, Eq, Structural)]
pub enum FaceError {
    /// A face has neither normals nor texture coordinates.
    MissingNormalAndTexture,
    /// A face has no normals.
    MissingNormal,
    /// A face has no texture coordinates.
    MissingTexture,
    /// A face is not a triangle.
    NotTriangulated,
}

/// The sentence that reports error `e`.
pub open spec fn face_error_message(e: FaceError) -> Seq<char> {
    match e {
        FaceError::MissingNormalAndTexture => "Tried to extract normal and texture data which are not contained in the model"@,
        FaceError::MissingNormal => "Tried to extract normal data which are not contained in the model"@,
        FaceError::MissingTexture => "Tried to extract texture data which are not contained in the model"@,
        FaceError::NotTriangulated => "Model should be triangulated first to be loaded properly"@,
    }
}

impl FaceError {
    /// The sentence that reports this error.
    pub fn message(&self) -> (r: &'static str)
        ensures
            r@ == face_error_message(*self),
    {
        match self {
            FaceError::MissingNormalAndTexture => "Tried to extract normal and texture data which are not contained in the model",
            FaceError::MissingNormal => "Tried to extract normal data which are not contained in the model",
            FaceError::MissingTexture => "Tried to extract texture data which are not contained in the model",
            FaceError::NotTriangulated => "Model should be triangulated first to be loaded properly",
        }
    }
}

/// A model's distinct corners, each a (position, texture coordinate, normal)
/// index triple, and for every corner of every face, in order, the place of
/// its triple in that list.
#[derive(Debug, PartialEq, Eq)]
pub struct IndexedMesh {
    pub corners: Vec<(usize, usize, usize)>,
    pub indices: Vec<usize>,
}

/// What keeps a face out of a mesh, if anything.
pub open spec fn face_error(f: Face) -> Option<FaceError> {
    match f {
        Face::P(_) => Some(FaceError::MissingNormalAndTexture),
        Face::PT(_) => Some(FaceError::MissingNormal),
        Face::PN(_) => Some(FaceError::MissingTexture),
        Face::PTN(v) => if v@.len() == 3 {
            None
        } else {
            Some(FaceError::NotTriangulated)
        },
    }
}

/// The index triples of a face's corners.
pub open spec fn face_corners(f: Face) -> Seq<(usize, usize, usize)> {
    match f {
        Face::PTN(v) => v@,
        _ => Seq::empty(),
    }
}

/// The index triples of all corners of all faces, face after face.
pub open spec fn all_corners(faces: Seq<Face>) -> Seq<(usize, usize, usize)>
    decreases faces.len(),
{
    if faces.len() == 0 {
        Seq::empty()
    } else {
        all_corners(faces.drop_last()) + face_corners(faces.last())
    }
}

/// The distinct elements of `s` in the order of their first appearance.
pub open spec fn first_seen<T>(s: Seq<T>) -> Seq<T>
    decreases s.len(),
{
    if s.len() == 0 {
        Seq::empty()
    } else {
        let prefix = first_seen(s.drop_last());
        if prefix.contains(s.last()) {
            prefix
        } else {
            prefix.push(s.last())
        }
    }
}

proof fn lemma_all_corners_step(faces: Seq<Face>, i: int)
    requires
        0 <= i < faces.len(),
    ensures
        all_corners(faces.take(i + 1)) == all_corners(faces.take(i)) + face_corners(faces[i]),
{
    assert(faces.take(i + 1).drop_last() =~= faces.take(i));
}

proof fn lemma_first_seen_step<T>(s: Seq<T>, c: T)
    ensures
        first_seen(s.push(c)) == (if first_seen(s).contains(c) {
            first_seen(s)
        } else {
            first_seen(s).push(c)
        }),
{
    assert(s.push(c).drop_last() =~= s);
}

/// The distinct elements listed by `first_seen` are exactly those of the
/// sequence, each once.
pub proof fn lemma_first_seen_distinct<T>(s: Seq<T>)
    ensures
        first_seen(s).no_duplicates(),
        forall|c: T| s.contains(c) <==> #[trigger] first_seen(s).contains(c),
    decreases s.len(),
{
    if s.len() > 0 {
        let p = s.drop_last();
        let l = s.last();
        let fp = first_seen(p);
        lemma_first_seen_distinct(p);
        assert(s =~= p.push(l));
        lemma_first_seen_step(p, l);
        assert forall|c: T| s.contains(c) implies #[trigger] first_seen(s).contains(c) by {
            let k = choose|k: int| 0 <= k < s.len() && s[k] == c;
            if k < p.len() {
                assert(p[k] == c);
                assert(fp.contains(c));
                let m = choose|m: int| 0 <= m < fp.len() && fp[m] == c;
                assert(first_seen(s)[m] == c);
            } else if !fp.contains(l) {
                assert(first_seen(s)[first_seen(s).len() - 1] == c);
            }
        }
        assert forall|c: T| #[trigger] first_seen(s).contains(c) implies s.contains(c) by {
            let m = choose|m: int| 0 <= m < first_seen(s).len() && first_seen(s)[m] == c;
            if m < fp.len() {
                assert(fp[m] == c);
                assert(fp.contains(c));
                assert(p.contains(c));
                let k = choose|k: int| 0 <= k < p.len() && p[k] == c;
                assert(s[k] == c);
            } else {
                assert(s[s.len() - 1] == c);
            }
        }
        if !fp.contains(l) {
            assert forall|a: int, b: int| 0 <= a < b < first_seen(s).len() implies
                first_seen(s)[a] != first_seen(s)[b] by {
                if b == fp.len() {
                    assert(fp[a] == first_seen(s)[a]);
                }
            }
        }
    }
}

/// Every corner of `corners` is listed under its position index in
/// `by_position`, and every listed place holds a corner with that position.
spec fn indexed_by_position(
    corners: Seq<(usize, usize, usize)>,
    by_position: Map<usize, Vec<usize>>,
) -> bool {
    &&& forall|p: usize, t: int| #![trigger by_position[p]@[t]]
        by_position.contains_key(p) && 0 <= t < by_position[p]@.len() ==> {
            &&& (by_position[p]@[t] as int) < corners.len()
            &&& corners[by_position[p]@[t] as int].0 == p
        }
    &&& forall|j: int| 0 <= j < corners.len() ==> {
        &&& by_position.contains_key((#[trigger] corners[j]).0)
        &&& by_position[corners[j].0]@.contains(j as usize)
    }
}

/// Distinct corners, with a map from each position index to the places of
/// the corners that have it, so that a lookup reads only those places.
struct CornerSet {
    corners: Vec<(usize, usize, usize)>,
    by_position: HashMap<usize, Vec<usize>>,
}

impl CornerSet {
    spec fn wf(&self) -> bool {
        indexed_by_position(self.corners@, self.by_position@)
    }

    fn new() -> (r: CornerSet)
        ensures
            r.wf(),
            r.corners@ == Seq::<(usize, usize, usize)>::empty(),
    {
        CornerSet { corners: Vec::new(), by_position: HashMap::new() }
    }

    /// Place of `c` among the corners, if it is there.
    fn find(&self, c: (usize, usize, usize)) -> (r: Option<usize>)
        requires
            self.wf(),
        ensures
            match r {
                Some(p) => p < self.corners.len() && self.corners[p as int] == c,
                None => !self.corners@.contains(c),
            },
    {
        match self.by_position.get(&c.0) {
            None => {
                proof {
                    if self.corners@.contains(c) {
                        let j = choose|j: int| 0 <= j < self.corners.len() && self.corners[j] == c;
                        assert(self.by_position@.contains_key(self.corners[j].0));
                    }
                }
                None
            },
            Some(places) => {
                let mut t: usize = 0;
                while t < places.len()
                    invariant
                        self.wf(),
                        self.by_position@.contains_key(c.0),
                        *places == self.by_position@[c.0],
                        t <= places.len(),
                        forall|u: int| 0 <= u < t ==> self.corners[places@[u] as int] != c,
                    decreases places.len() - t,
                {
                    let p = places[t];
                    assert(self.corners[p as int].0 == c.0);
                    let d = self.corners[p];
                    if d.1 == c.1 && d.2 == c.2 {
                        return Some(p);
                    }
                    t = t + 1;
                }
                proof {
                    if self.corners@.contains(c) {
                        let j = choose|j: int| 0 <= j < self.corners.len() && self.corners[j] == c;
                        assert(places@.contains(j as usize));
                        let u = choose|u: int| 0 <= u < places@.len() && places@[u] == j as usize;
                        assert(self.corners[places@[u] as int] == c);
                    }
                }
                None
            },
        }
    }

    /// Adds `c` at the end of the corners and returns its place.
    fn add(&mut self, c: (usize, usize, usize)) -> (r: usize)
        requires
            old(self).wf(),
        ensures
            final(self).wf(),
            final(self).corners@ == old(self).corners@.push(c),
            r == old(self).corners.len(),
    {
        let place = self.corners.len();
        let ghost old_corners = self.corners@;
        let ghost old_map = self.by_position@;
        self.corners.push(c);
        let mut places = match self.by_position.remove(&c.0) {
            Some(places) => places,
            None => Vec::new(),
        };
        let ghost old_places = places@;
        places.push(place);
        self.by_position.insert(c.0, places);
        proof {
            let m = self.by_position@;
            let cs = self.corners@;
            assert forall|p: usize, t: int| #![trigger m[p]@[t]]
                m.contains_key(p) && 0 <= t < m[p]@.len() implies {
                &&& (m[p]@[t] as int) < cs.len()
                &&& cs[m[p]@[t] as int].0 == p
            } by {
                if p == c.0 {
                    if t < old_places.len() {
                        assert(old_map.contains_key(p));
                        assert(old_map[p]@[t] == m[p]@[t]);
                    }
                } else {
                    assert(old_map.contains_key(p));
                    assert(old_map[p]@[t] == m[p]@[t]);
                }
            }
            assert forall|j: int| 0 <= j < cs.len() implies {
                &&& m.contains_key((#[trigger] cs[j]).0)
                &&& m[cs[j].0]@.contains(j as usize)
            } by {
                if j < old_corners.len() {
                    assert(cs[j] == old_corners[j]);
                    assert(old_map[old_corners[j].0]@.contains(j as usize));
                    if old_corners[j].0 == c.0 {
                        let u = choose|u: int| 0 <= u < old_places.len() && old_places[u] == j as usize;
                        assert(m[c.0]@[u] == j as usize);
                    }
                } else {
                    assert(m[c.0]@[old_places.len() as int] == place);
                }
            }
        }
        place
    }
}

/// Builds the distinct corners of a model and the index of every face
/// corner into them, keeping each corner's first place. Fails on the first
/// face that is not a triangle with positions, texture coordinates and normals.
pub fn index_faces(faces: &Vec<Face>) -> (r: Result<IndexedMesh, FaceError>)
    ensures
        match r {
            Ok(m) => {
                &&& forall|i: int| 0 <= i < faces.len() ==> (#[trigger] face_error(faces[i])).is_none()
                &&& m.corners@ == first_seen(all_corners(faces@))
                &&& m.corners@.no_duplicates()
                &&& m.indices.len() == all_corners(faces@).len()
                &&& forall|k: int| 0 <= k < m.indices.len() ==>
                    (#[trigger] m.indices[k]) < m.corners.len()
                    && m.corners[m.indices[k] as int] == all_corners(faces@)[k]
            },
            Err(e) => exists|i: int| {
                &&& 0 <= i < faces.len()
                &&& #[trigger] face_error(faces[i]) == Some(e)
                &&& forall|j: int| 0 <= j < i ==> (#[trigger] face_error(faces[j])).is_none()
            },
        },
{
    let mut set = CornerSet::new();
    let mut indices: Vec<usize> = Vec::new();
    let mut i: usize = 0;
    while i < faces.len()
        invariant
            i <= faces.len(),
            forall|j: int| 0 <= j < i ==> (#[trigger] face_error(faces[j])).is_none(),
            set.corners@ == first_seen(all_corners(faces@.take(i as int))),
            set.wf(),
            set.corners@.no_duplicates(),
            indices.len() == all_corners(faces@.take(i as int)).len(),
            forall|k: int| 0 <= k < indices.len() ==>
                (#[trigger] indices[k]) < set.corners.len()
                && set.corners[indices[k] as int] == all_corners(faces@.take(i as int))[k],
        decreases faces.len() - i,
    {
        proof {
            lemma_all_corners_step(faces@, i as int);
            lemma_first_seen_distinct(all_corners(faces@.take(i as int)));
        }
        let triangle = match &faces[i] {
            Face::P(_) => {
                assert(face_error(faces[i as int]) == Some(FaceError::MissingNormalAndTexture));
                return Err(FaceError::MissingNormalAndTexture);
            },
            Face::PT(_) => {
                assert(face_error(faces[i as int]) == Some(FaceError::MissingNormal));
                return Err(FaceError::MissingNormal);
            },
            Face::PN(_) => {
                assert(face_error(faces[i as int]) == Some(FaceError::MissingTexture));
                return Err(FaceError::MissingTexture);
            },
            Face::PTN(v) => v,
        };
        if triangle.len() != 3 {
            assert(face_error(faces[i as int]) == Some(FaceError::NotTriangulated));
            return Err(FaceError::NotTriangulated);
        }
        let ghost before = all_corners(faces@.take(i as int));
        let mut j: usize = 0;
        while j < triangle.len()
            invariant
                i < faces.len(),
                faces[i as int] == Face::PTN(*triangle),
                j <= triangle.len(),
                before == all_corners(faces@.take(i as int)),
                set.corners@ == first_seen(before + triangle@.take(j as int)),
                set.wf(),
                set.corners@.no_duplicates(),
                indices.len() == before.len() + j,
                forall|k: int| 0 <= k < indices.len() ==>
                    (#[trigger] indices[k]) < set.corners.len()
                    && set.corners[indices[k] as int] == (before + triangle@.take(j as int))[k],
            decreases triangle.len() - j,
        {
            let c = triangle[j];
            let ghost seen = before + triangle@.take(j as int);
            proof {
                assert(before + triangle@.take(j + 1) =~= seen.push(c));
                lemma_first_seen_step(seen, c);
            }
            let place = match set.find(c) {
                Some(p) => p,
                None => {
                    let ghost old_corners = set.corners@;
                    let p = set.add(c);
                    let ghost corners = set.corners@;
                    proof {
                        assert forall|a: int, b: int| 0 <= a < b < set.corners.len() implies set.corners[a] != set.corners[b] by {
                            if b == set.corners.len() - 1 {
                                assert(set.corners@.drop_last().contains(set.corners[a]) || a >= set.corners.len() - 1) by {
                                    assert(set.corners@.drop_last()[a] == set.corners[a]);
                                }
                            }
                        }
                    }
                    p
                },
            };
            indices.push(place);
            j = j + 1;
            proof {
                let now = before + triangle@.take(j as int);
                assert(now =~= seen.push(c));
                assert forall|k: int| 0 <= k < indices.len() implies
                    (#[trigger] indices[k]) < set.corners.len()
                    && set.corners[indices[k] as int] == now[k] by {
                    if k < indices.len() - 1 {
                        assert(now[k] == seen[k]);
                    }
                }
            }
        }
        proof {
            assert(triangle@.take(3) =~= triangle@);
            assert(face_corners(faces[i as int]) == triangle@);
        }
        i = i + 1;
    }
    proof {
        assert(faces@.take(faces.len() as int) =~= faces@);
    }
    Ok(IndexedMesh { corners: set.corners, indices })
}

} // verus!
