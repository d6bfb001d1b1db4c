use vstd::prelude::*;

use crate::color::Color;
use crate::figure::Figure;
use crate::reflection::Reflection;

verus! {

/// A figure with its surface: the light it emits, its diffuse colour and the
/// way it scatters light.
#[derive(Debug)]
pub struct Object {
    pub figure: Figure,
    pub emission: Color,
    pub color: Color,
    pub reflection: Reflection,
}

impl Object {
    pub open spec fn well_formed(&self) -> bool {
        self.figure.well_formed() && self.reflection.well_formed()
    }

    pub fn is_well_formed(&self) -> (r: bool)
        ensures
            r == self.well_formed(),
    {
        self.reflection.is_well_formed() && Figure::check_well_formed(&self.figure)
    }

    pub open spec fn spec_is_light(&self) -> bool {
        !self.emission.spec_is_black()
    }

    /// Whether the object emits light.
    pub fn is_light(&self) -> (r: bool)
        ensures
            r == self.spec_is_light(),
    {
        !self.emission.is_black()
    }
}

/// The indices, in increasing order, of the objects among the first `n` that
/// emit light.
pub open spec fn light_indices(objects: Seq<Object>, n: int) -> Seq<usize>
    decreases n,
{
    if n <= 0 {
        Seq::empty()
    } else if objects[n - 1].spec_is_light() {
        light_indices(objects, n - 1).push((n - 1) as usize)
    } else {
        light_indices(objects, n - 1)
    }
}

/// The objects of a scene, with the index of those that emit light.
pub struct Scene {
    objects: Vec<Object>,
    lights: Vec<usize>,
}

impl Scene {
    pub closed spec fn spec_objects(&self) -> Seq<Object> {
        self.objects@
    }

    pub closed spec fn spec_lights(&self) -> Seq<usize> {
        self.lights@
    }

    /// The light index is that of the objects, and every object is
    /// well formed.
    pub open spec fn well_formed(&self) -> bool {
        &&& self.spec_lights() == light_indices(self.spec_objects(), self.spec_objects().len() as int)
        &&& forall|i: int|
            0 <= i < self.spec_objects().len() ==> (#[trigger] self.spec_objects()[i]).well_formed()
    }

    pub fn new(objects: Vec<Object>) -> (r: Scene)
        requires
            forall|i: int| 0 <= i < objects.len() ==> (#[trigger] objects[i]).well_formed(),
        ensures
            r.well_formed(),
            r.spec_objects() == objects@,
    {
        let mut lights: Vec<usize> = Vec::new();
        let mut i: usize = 0;
        while i < objects.len()
            invariant
                i <= objects.len(),
                lights@ == light_indices(objects@, i as int),
            decreases objects.len() - i,
        {
            if objects[i].is_light() {
                lights.push(i);
            }
            i = i + 1;
        }
        Scene { objects, lights }
    }

    pub fn objects(&self) -> (r: &Vec<Object>)
        ensures
            r@ == self.spec_objects(),
    {
        &self.objects
    }

    pub fn lights(&self) -> (r: &Vec<usize>)
        ensures
            r@ == self.spec_lights(),
    {
        &self.lights
    }

    /// The light that the draw `draw` selects, each light for an equal share
    /// of all draws (up to one); `None` when nothing emits.
    pub fn light_for_draw(&self, draw: usize) -> (r: Option<usize>)
        ensures
            self.spec_lights().len() == 0 ==> r is None,
            self.spec_lights().len() > 0 ==> r == Some(
                self.spec_lights()[(draw as int % self.spec_lights().len() as int)],
            ),
    {
        if self.lights.len() == 0 {
            None
        } else {
            Some(self.lights[draw % self.lights.len()])
        }
    }

    /// Draws one of the lights, each equally likely; `None` when nothing
    /// emits.
    pub fn choose_light(&self) -> (r: Option<usize>)
        requires
            self.well_formed(),
        ensures
            r is None <==> self.spec_lights().len() == 0,
            r matches Some(i) ==> i < self.spec_objects().len()
                && self.spec_objects()[i as int].spec_is_light(),
    {
        let draw: usize = rand::random::<usize>();
        let r = self.light_for_draw(draw);
        proof {
            if self.spec_lights().len() > 0 {
                assert(self.objects@.len() == self.objects.len());
                let k = (draw as int % self.spec_lights().len() as int);
                lemma_light_indices_sound(self.spec_objects(), self.spec_objects().len() as int, k);
            }
        }
        r
    }
}

/// Every entry of the light index names an object that emits light.
pub proof fn lemma_light_indices_sound(objects: Seq<Object>, n: int, k: int)
    requires
        0 <= n <= objects.len() <= usize::MAX,
        0 <= k < light_indices(objects, n).len(),
    ensures
        light_indices(objects, n)[k] < n,
        objects[light_indices(objects, n)[k] as int].spec_is_light(),
    decreases n,
{
    if n > 0 {
        if objects[n - 1].spec_is_light() && k == light_indices(objects, n - 1).len() {
        } else {
            lemma_light_indices_sound(objects, n - 1, k);
        }
    }
}

/// Every object that emits light has an entry in the light index.
pub proof fn lemma_light_indices_complete(objects: Seq<Object>, n: int, i: int)
    requires
        0 <= i < n <= objects.len() <= usize::MAX,
        objects[i].spec_is_light(),
    ensures
        light_indices(objects, n).contains(i as usize),
    decreases n,
{
    if i == n - 1 {
        assert(light_indices(objects, n).last() == i as usize);
    } else {
        lemma_light_indices_complete(objects, n - 1, i);
        let k = choose|k: int|
            0 <= k < light_indices(objects, n - 1).len() && #[trigger] light_indices(objects, n - 1)[k]
                == i as usize;
        assert(light_indices(objects, n)[k] == i as usize);
    }
}

} // verus!
