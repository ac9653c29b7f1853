use vstd::prelude::*;

use crate::drawing::{
    Cuboid, Dimensions2D, Dimensions3D, Plane, Primitive, PrimitiveShape, TextureOffsets,
};
use crate::transform::{Transform, TransformStep};

verus! {

/// A model: a list of primitives to draw.
pub trait Model {
    /// The primitives of the model, in drawing order.
    spec fn shapes(&self) -> Seq<PrimitiveShape>;

    fn parts(&self) -> (r: Vec<Primitive>)
        ensures
            r@.map_values(|p: Primitive| p.shape()) == self.shapes(),
    ;
}

/// Texture rectangle corners of a cuboid part's faces.
#[derive(Clone, Copy, Debug)]
pub struct Offsets {
    pub top: [u32; 2],
    pub bottom: [u32; 2],
    pub right: [u32; 2],
    pub left: [u32; 2],
    pub front: [u32; 2],
    pub back: [u32; 2],
}

/// A named replacement for a part's placement steps.
#[derive(Debug)]
pub struct Alternate {
    pub name: String,
    pub position: Vec<TransformStep>,
}

/// A box part of a described model.
#[derive(Debug)]
pub struct CuboidPart {
    pub name: String,
    pub dimensions: [u32; 3],
    pub offsets: Offsets,
    pub position: Vec<TransformStep>,
    pub alternates: Vec<Alternate>,
}

/// A flat part of a described model.
#[derive(Debug)]
pub struct FlatPart {
    pub name: String,
    pub dimensions: [u32; 2],
    pub offset: [u32; 2],
    pub position: Vec<TransformStep>,
    pub alternates: Vec<Alternate>,
}

/// A part of a described model.
#[derive(Debug)]
pub enum Part {
    Cuboid(CuboidPart),
    Flat(FlatPart),
}

/// A model described as data: named parts, each with optional alternate
/// placements, and the alternates chosen so far, keyed by part name.
#[derive(Debug)]
pub struct JsonModel {
    pub name: String,
    pub texture: String,
    pub parts: Vec<Part>,
    pub alternates: Vec<(String, String)>,
}

/// Two strings with the same characters.
pub fn str_eq(a: &str, b: &str) -> (r: bool)
    ensures
        r == (a@ == b@),
{
    a.to_owned() == b.to_owned()
}

pub open spec fn part_name(p: Part) -> Seq<char> {
    match p {
        Part::Cuboid(c) => c.name@,
        Part::Flat(f) => f.name@,
    }
}

pub open spec fn part_alternates(p: Part) -> Seq<Alternate> {
    match p {
        Part::Cuboid(c) => c.alternates@,
        Part::Flat(f) => f.alternates@,
    }
}

/// The index of the first part named `name`.
pub open spec fn part_index(parts: Seq<Part>, name: Seq<char>) -> Option<int>
    decreases parts.len(),
{
    if parts.len() == 0 {
        None
    } else {
        match part_index(parts.drop_last(), name) {
            Some(i) => Some(i),
            None => if part_name(parts.last()) == name {
                Some(parts.len() - 1)
            } else {
                None
            },
        }
    }
}

/// The index of the first alternate named `name`.
pub open spec fn alternate_index(alts: Seq<Alternate>, name: Seq<char>) -> Option<int>
    decreases alts.len(),
{
    if alts.len() == 0 {
        None
    } else {
        match alternate_index(alts.drop_last(), name) {
            Some(i) => Some(i),
            None => if alts.last().name@ == name {
                Some(alts.len() - 1)
            } else {
                None
            },
        }
    }
}

/// The index of the first chosen alternate recorded for part `key`.
pub open spec fn choice_index(chosen: Seq<(String, String)>, key: Seq<char>) -> Option<int>
    decreases chosen.len(),
{
    if chosen.len() == 0 {
        None
    } else {
        match choice_index(chosen.drop_last(), key) {
            Some(i) => Some(i),
            None => if chosen.last().0@ == key {
                Some(chosen.len() - 1)
            } else {
                None
            },
        }
    }
}

pub open spec fn choices_view(chosen: Seq<(String, String)>) -> Seq<(Seq<char>, Seq<char>)> {
    chosen.map_values(|c: (String, String)| (c.0@, c.1@))
}

/// Records `value` for `key`: replaces the first entry for `key`, or adds one at the end.
pub open spec fn choose_spec(chosen: Seq<(Seq<char>, Seq<char>)>, key: Seq<char>, value: Seq<char>) -> Seq<(Seq<char>, Seq<char>)>
    decreases chosen.len(),
{
    if chosen.len() == 0 {
        seq![(key, value)]
    } else if chosen[0].0 == key {
        chosen.update(0, (key, value))
    } else {
        seq![chosen[0]] + choose_spec(chosen.drop_first(), key, value)
    }
}

/// The placement steps of a part under the chosen alternates: those of the
/// chosen alternate when one is recorded for the part's name, `None` when no
/// alternate of the part has the recorded name, else the part's own.
pub open spec fn position_steps(
    name: Seq<char>,
    own: Seq<TransformStep>,
    alts: Seq<Alternate>,
    chosen: Seq<(String, String)>,
) -> Option<Seq<TransformStep>> {
    match choice_index(chosen, name) {
        None => Some(own),
        Some(c) => match alternate_index(alts, chosen[c].1@) {
            None => None,
            Some(a) => Some(alts[a].position@),
        },
    }
}

pub open spec fn offsets_of(o: Offsets) -> TextureOffsets {
    TextureOffsets {
        top: (o.top@[0], o.top@[1]),
        bottom: (o.bottom@[0], o.bottom@[1]),
        right: (o.right@[0], o.right@[1]),
        left: (o.left@[0], o.left@[1]),
        front: (o.front@[0], o.front@[1]),
        back: (o.back@[0], o.back@[1]),
    }
}

/// The primitive a part becomes under the chosen alternates.
pub open spec fn part_shape(p: Part, chosen: Seq<(String, String)>) -> Option<PrimitiveShape> {
    match p {
        Part::Cuboid(c) => match position_steps(c.name@, c.position@, c.alternates@, chosen) {
            None => None,
            Some(steps) => Some(
                PrimitiveShape::Cuboid(
                    Dimensions3D { x: c.dimensions@[0], y: c.dimensions@[1], z: c.dimensions@[2] },
                    offsets_of(c.offsets),
                    steps,
                ),
            ),
        },
        Part::Flat(f) => match position_steps(f.name@, f.position@, f.alternates@, chosen) {
            None => None,
            Some(steps) => Some(
                PrimitiveShape::Plane(
                    Dimensions2D { x: f.dimensions@[0], y: f.dimensions@[1] },
                    (f.offset@[0], f.offset@[1]),
                    steps,
                ),
            ),
        },
    }
}

/// The primitives of the parts, in order, leaving out each part whose chosen
/// alternate does not exist.
pub open spec fn parts_shapes(parts: Seq<Part>, chosen: Seq<(String, String)>) -> Seq<
    PrimitiveShape,
>
    decreases parts.len(),
{
    if parts.len() == 0 {
        Seq::empty()
    } else {
        let prev = parts_shapes(parts.drop_last(), chosen);
        match part_shape(parts.last(), chosen) {
            Some(s) => prev.push(s),
            None => prev,
        }
    }
}

fn transform_of(steps: &Vec<TransformStep>) -> (r: Transform)
    ensures
        r.step_seq() == steps@,
        r.scaling == 1,
{
    let mut t = Transform::new();
    let mut i: usize = 0;
    while i < steps.len()
        invariant
            i <= steps@.len(),
            t.step_seq() == steps@.take(i as int),
            t.scaling == 1,
        decreases steps@.len() - i,
    {
        t = t.step(steps[i]);
        i = i + 1;
        proof {
            assert(steps@.take(i as int) =~= steps@.take(i - 1).push(steps@[i - 1]));
        }
    }
    proof {
        assert(steps@.take(i as int) =~= steps@);
    }
    t
}

fn find_choice(chosen: &Vec<(String, String)>, key: &String) -> (r: Option<usize>)
    ensures
        r matches Some(i) ==> choice_index(chosen@, key@) == Some(i as int) && i < chosen@.len(),
        r is None ==> choice_index(chosen@, key@) is None,
{
    let mut i: usize = 0;
    while i < chosen.len()
        invariant
            i <= chosen@.len(),
            choice_index(chosen@.take(i as int), key@) is None,
        decreases chosen@.len() - i,
    {
        proof {
            assert(chosen@.take(i + 1).drop_last() =~= chosen@.take(i as int));
        }
        if chosen[i].0 == *key {
            proof {
                lemma_choice_index_at(chosen@, key@, i as int);
            }
            return Some(i);
        }
        i = i + 1;
    }
    proof {
        assert(chosen@.take(i as int) =~= chosen@);
    }
    None
}

proof fn lemma_choice_index_at(chosen: Seq<(String, String)>, key: Seq<char>, i: int)
    requires
        0 <= i < chosen.len(),
        choice_index(chosen.take(i), key) is None,
        chosen[i].0@ == key,
    ensures
        choice_index(chosen, key) == Some(i),
    decreases chosen.len(),
{
    if i == chosen.len() - 1 {
        assert(chosen.drop_last() =~= chosen.take(i));
    } else {
        assert(chosen.drop_last().take(i) =~= chosen.take(i));
        lemma_choice_index_at(chosen.drop_last(), key, i);
    }
}

fn find_alternate(alts: &Vec<Alternate>, name: &String) -> (r: Option<usize>)
    ensures
        r matches Some(i) ==> alternate_index(alts@, name@) == Some(i as int) && i < alts@.len(),
        r is None ==> alternate_index(alts@, name@) is None,
{
    let mut i: usize = 0;
    while i < alts.len()
        invariant
            i <= alts@.len(),
            alternate_index(alts@.take(i as int), name@) is None,
        decreases alts@.len() - i,
    {
        proof {
            assert(alts@.take(i + 1).drop_last() =~= alts@.take(i as int));
        }
        if alts[i].name == *name {
            proof {
                lemma_alternate_index_at(alts@, name@, i as int);
            }
            return Some(i);
        }
        i = i + 1;
    }
    proof {
        assert(alts@.take(i as int) =~= alts@);
    }
    None
}

proof fn lemma_alternate_index_at(alts: Seq<Alternate>, name: Seq<char>, i: int)
    requires
        0 <= i < alts.len(),
        alternate_index(alts.take(i), name) is None,
        alts[i].name@ == name,
    ensures
        alternate_index(alts, name) == Some(i),
    decreases alts.len(),
{
    if i == alts.len() - 1 {
        assert(alts.drop_last() =~= alts.take(i));
    } else {
        assert(alts.drop_last().take(i) =~= alts.take(i));
        lemma_alternate_index_at(alts.drop_last(), name, i);
    }
}

/// The placement of a part under the chosen alternates.
fn resolve_position(
    name: &String,
    own: &Vec<TransformStep>,
    alts: &Vec<Alternate>,
    chosen: &Vec<(String, String)>,
) -> (r: Option<Transform>)
    ensures
        match position_steps(name@, own@, alts@, chosen@) {
            None => r is None,
            Some(steps) => r matches Some(t) && t.step_seq() == steps && t.scaling == 1,
        },
{
    match find_choice(chosen, name) {
        None => Some(transform_of(own)),
        Some(c) => match find_alternate(alts, &chosen[c].1) {
            None => None,
            Some(a) => Some(transform_of(&alts[a].position)),
        },
    }
}

impl CuboidPart {
    /// The placement under the chosen alternates; `None` when the alternate
    /// chosen for this part does not exist.
    pub fn get_position(&self, applied_alternates: &Vec<(String, String)>) -> (r: Option<Transform>)
        ensures
            match position_steps(self.name@, self.position@, self.alternates@, applied_alternates@) {
                None => r is None,
                Some(steps) => r matches Some(t) && t.step_seq() == steps && t.scaling == 1,
            },
    {
        resolve_position(&self.name, &self.position, &self.alternates, applied_alternates)
    }

    /// The cuboid this part becomes under the chosen alternates.
    pub fn parts(&self, applied_alternates: &Vec<(String, String)>) -> (r: Option<Primitive>)
        ensures
            match part_shape(Part::Cuboid(*self), applied_alternates@) {
                None => r is None,
                Some(s) => r matches Some(p) && p.shape() == s,
            },
    {
        let position = match self.get_position(applied_alternates) {
            Some(t) => t,
            None => return None,
        };
        let o = &self.offsets;
        Some(
            Primitive::Cuboid(
                Cuboid {
                    dimensions: Dimensions3D {
                        x: self.dimensions[0],
                        y: self.dimensions[1],
                        z: self.dimensions[2],
                    },
                    offsets: TextureOffsets {
                        top: (o.top[0], o.top[1]),
                        bottom: (o.bottom[0], o.bottom[1]),
                        right: (o.right[0], o.right[1]),
                        left: (o.left[0], o.left[1]),
                        front: (o.front[0], o.front[1]),
                        back: (o.back[0], o.back[1]),
                    },
                    position,
                },
            ),
        )
    }
}

impl FlatPart {
    /// The placement under the chosen alternates; `None` when the alternate
    /// chosen for this part does not exist.
    pub fn get_position(&self, applied_alternates: &Vec<(String, String)>) -> (r: Option<Transform>)
        ensures
            match position_steps(self.name@, self.position@, self.alternates@, applied_alternates@) {
                None => r is None,
                Some(steps) => r matches Some(t) && t.step_seq() == steps && t.scaling == 1,
            },
    {
        resolve_position(&self.name, &self.position, &self.alternates, applied_alternates)
    }

    /// The plane this part becomes under the chosen alternates.
    pub fn parts(&self, applied_alternates: &Vec<(String, String)>) -> (r: Option<Primitive>)
        ensures
            match part_shape(Part::Flat(*self), applied_alternates@) {
                None => r is None,
                Some(s) => r matches Some(p) && p.shape() == s,
            },
    {
        let position = match self.get_position(applied_alternates) {
            Some(t) => t,
            None => return None,
        };
        Some(
            Primitive::Plane(
                Plane {
                    dimensions: Dimensions2D { x: self.dimensions[0], y: self.dimensions[1] },
                    offset: (self.offset[0], self.offset[1]),
                    position,
                },
            ),
        )
    }
}

impl Part {
    pub fn name(&self) -> (r: &str)
        ensures
            r@ == part_name(*self),
    {
        match self {
            Part::Cuboid(cuboid) => cuboid.name.as_str(),
            Part::Flat(flat) => flat.name.as_str(),
        }
    }

    fn alternates(&self) -> (r: &Vec<Alternate>)
        ensures
            r@ == part_alternates(*self),
    {
        match self {
            Part::Cuboid(cuboid) => &cuboid.alternates,
            Part::Flat(flat) => &flat.alternates,
        }
    }

    fn primitive(&self, applied_alternates: &Vec<(String, String)>) -> (r: Option<Primitive>)
        ensures
            match part_shape(*self, applied_alternates@) {
                None => r is None,
                Some(s) => r matches Some(p) && p.shape() == s,
            },
    {
        match self {
            Part::Cuboid(cuboid) => cuboid.parts(applied_alternates),
            Part::Flat(flat) => flat.parts(applied_alternates),
        }
    }
}

impl JsonModel {
    /// A model with the given parts and no alternate chosen yet.
    pub fn new(name: String, texture: String, parts: Vec<Part>) -> (r: Self)
        ensures
            r.name == name,
            r.texture == texture,
            r.parts@ == parts@,
            r.alternates@.len() == 0,
    {
        JsonModel { name, texture, parts, alternates: Vec::new() }
    }

    /// Chooses alternate `alt_name` for the first part named `part_name`.
    /// Nothing changes when there is no such part or the part has no
    /// alternate of that name.
    pub fn use_alternate(&mut self, part_name: &str, alt_name: &str)
        ensures
            final(self).name == old(self).name,
            final(self).texture == old(self).texture,
            final(self).parts@ == old(self).parts@,
            choices_view(final(self).alternates@) == match part_index(old(self).parts@, part_name@) {
                None => choices_view(old(self).alternates@),
                Some(p) => if alternate_index(part_alternates(old(self).parts@[p]), alt_name@) is Some {
                    choose_spec(choices_view(old(self).alternates@), part_name@, alt_name@)
                } else {
                    choices_view(old(self).alternates@)
                },
            },
    {
        let key = part_name.to_owned();
        let mut i: usize = 0;
        while i < self.parts.len()
            invariant
                i <= self.parts@.len(),
                part_index(self.parts@.take(i as int), key@) is None,
                key@ == part_name@,
                *self == *old(self),
            decreases self.parts@.len() - i,
        {
            proof {
                assert(self.parts@.take(i + 1).drop_last() =~= self.parts@.take(i as int));
            }
            let found = self.parts[i].name().to_owned() == key;
            if found {
                proof {
                    lemma_part_index_at(self.parts@, key@, i as int);
                }
                let alt = alt_name.to_owned();
                match find_alternate(self.parts[i].alternates(), &alt) {
                    Some(_) => {
                        record_choice(&mut self.alternates, key, alt);
                    },
                    None => {},
                }
                return;
            }
            i = i + 1;
        }
        proof {
            assert(self.parts@.take(i as int) =~= self.parts@);
        }
    }
}

proof fn lemma_part_index_at(parts: Seq<Part>, name: Seq<char>, i: int)
    requires
        0 <= i < parts.len(),
        part_index(parts.take(i), name) is None,
        part_name(parts[i]) == name,
    ensures
        part_index(parts, name) == Some(i),
    decreases parts.len(),
{
    if i == parts.len() - 1 {
        assert(parts.drop_last() =~= parts.take(i));
    } else {
        assert(parts.drop_last().take(i) =~= parts.take(i));
        lemma_part_index_at(parts.drop_last(), name, i);
    }
}

/// Records `value` for `key` in the chosen alternates.
fn record_choice(chosen: &mut Vec<(String, String)>, key: String, value: String)
    ensures
        choices_view(final(chosen)@) == choose_spec(choices_view(old(chosen)@), key@, value@),
{
    let ghost v0 = choices_view(chosen@);
    let mut i: usize = 0;
    while i < chosen.len()
        invariant
            i <= chosen@.len(),
            chosen@ == old(chosen)@,
            v0 == choices_view(old(chosen)@),
            forall|k: int| 0 <= k < i ==> #[trigger] chosen@[k].0@ != key@,
        decreases chosen@.len() - i,
    {
        if chosen[i].0 == key {
            let ghost before = chosen@;
            chosen.set(i, (key, value));
            proof {
                lemma_choose_spec_at(v0, key@, value@, i as int);
                assert(choices_view(chosen@) =~= v0.update(i as int, (key@, value@)));
            }
            return;
        }
        i = i + 1;
    }
    proof {
        lemma_choose_spec_absent(v0, key@, value@);
    }
    let ghost key_v = key@;
    let ghost value_v = value@;
    chosen.push((key, value));
    proof {
        assert(choices_view(chosen@) =~= v0.push((key_v, value_v)));
    }
}

proof fn lemma_choose_spec_at(v: Seq<(Seq<char>, Seq<char>)>, key: Seq<char>, value: Seq<char>, i: int)
    requires
        0 <= i < v.len(),
        v[i].0 == key,
        forall|k: int| 0 <= k < i ==> #[trigger] v[k].0 != key,
    ensures
        choose_spec(v, key, value) == v.update(i, (key, value)),
    decreases v.len(),
{
    if i > 0 {
        let rest = v.drop_first();
        assert forall|k: int| 0 <= k < i - 1 implies #[trigger] rest[k].0 != key by {
            assert(rest[k] == v[k + 1]);
        }
        lemma_choose_spec_at(rest, key, value, i - 1);
        assert(seq![v[0]] + rest.update(i - 1, (key, value)) =~= v.update(i, (key, value)));
    }
}

proof fn lemma_choose_spec_absent(v: Seq<(Seq<char>, Seq<char>)>, key: Seq<char>, value: Seq<char>)
    requires
        forall|k: int| 0 <= k < v.len() ==> #[trigger] v[k].0 != key,
    ensures
        choose_spec(v, key, value) == v.push((key, value)),
    decreases v.len(),
{
    if v.len() > 0 {
        let rest = v.drop_first();
        assert forall|k: int| 0 <= k < rest.len() implies #[trigger] rest[k].0 != key by {
            assert(rest[k] == v[k + 1]);
        }
        lemma_choose_spec_absent(rest, key, value);
        assert(seq![v[0]] + rest.push((key, value)) =~= v.push((key, value)));
    }
}

impl Model for JsonModel {
    open spec fn shapes(&self) -> Seq<PrimitiveShape> {
        parts_shapes(self.parts@, self.alternates@)
    }

    /// The primitives of the parts under the chosen alternates; a part whose
    /// chosen alternate does not exist is left out.
    fn parts(&self) -> (r: Vec<Primitive>) {
        let mut drawables: Vec<Primitive> = Vec::new();
        let mut i: usize = 0;
        while i < self.parts.len()
            invariant
                i <= self.parts@.len(),
                drawables@.map_values(|p: Primitive| p.shape()) == parts_shapes(
                    self.parts@.take(i as int),
                    self.alternates@,
                ),
            decreases self.parts@.len() - i,
        {
            proof {
                assert(self.parts@.take(i + 1).drop_last() =~= self.parts@.take(i as int));
            }
            let ghost before = drawables@;
            if let Some(primitive) = self.parts[i].primitive(&self.alternates) {
                drawables.push(primitive);
                proof {
                    assert(drawables@.map_values(|p: Primitive| p.shape()) =~= before.map_values(
                        |p: Primitive| p.shape(),
                    ).push(primitive.shape()));
                }
            }
            i = i + 1;
        }
        proof {
            assert(self.parts@.take(i as int) =~= self.parts@);
        }
        drawables
    }
}

} // verus!
