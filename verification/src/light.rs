//! The scene's light list.
//!
//! Lights are stored as given; the manager is generic over the light record
//! (the renderer's point light holds floating-point data that only the
//! shaders interpret).

use vstd::prelude::*;

verus! {

/// The list after `set_light(index, light)`: slot `index` replaced when it
/// exists, the list unchanged otherwise.
pub open spec fn with_light<L>(lights: Seq<L>, index: int, light: L) -> Seq<L> {
    if 0 <= index < lights.len() {
        lights.update(index, light)
    } else {
        lights
    }
}

/// The light at `index`, if there is one.
pub open spec fn light_at<L>(lights: Seq<L>, index: int) -> Option<L> {
    if 0 <= index < lights.len() {
        Some(lights[index])
    } else {
        None
    }
}

/// An ordered list of lights; a light is addressed by its index.
pub struct LightManager<L> {
    lights: Vec<L>,
}

impl<L> View for LightManager<L> {
    type V = Seq<L>;

    closed spec fn view(&self) -> Seq<L> {
        self.lights@
    }
}

impl<L: Copy> LightManager<L> {
    /// An empty light list.
    pub fn new() -> (manager: Self)
        ensures
            manager@ == Seq::<L>::empty(),
    {
        LightManager { lights: Vec::new() }
    }

    /// Appends `light` to the list.
    pub fn add_light(&mut self, light: L)
        ensures
            final(self)@ == old(self)@.push(light),
    {
        self.lights.push(light);
    }

    /// Replaces the light at `index`; an index past the end is ignored.
    pub fn set_light(&mut self, index: usize, light: L)
        ensures
            final(self)@ == with_light(old(self)@, index as int, light),
    {
        if index < self.lights.len() {
            self.lights.set(index, light);
        }
    }

    /// A copy of all lights, in order.
    pub fn get_lights(&self) -> (lights: Vec<L>)
        ensures
            lights@ == self@,
    {
        let n = self.lights.len();
        let mut lights: Vec<L> = Vec::with_capacity(n);
        let mut i: usize = 0;
        while i < n
            invariant
                n == self@.len(),
                i <= n,
                lights@ == self@.take(i as int),
            decreases n - i,
        {
            lights.push(self.lights[i]);
            i = i + 1;
            assert(lights@ =~= self@.take(i as int));
        }
        assert(self@.take(n as int) =~= self@);
        lights
    }

    /// The light at `index`, or `None` past the end.
    pub fn get_light(&self, index: usize) -> (light: Option<L>)
        ensures
            light == light_at(self@, index as int),
    {
        if index < self.lights.len() {
            Some(self.lights[index])
        } else {
            None
        }
    }
}

/// Reading a slot after writing it gives back the light written.
pub proof fn law_get_after_set<L>(lights: Seq<L>, index: int, light: L)
    requires
        0 <= index < lights.len(),
    ensures
        light_at(with_light(lights, index, light), index) == Some(light),
{
}

/// Writing a slot leaves every other slot, and the length, as they were.
pub proof fn law_set_keeps_others<L>(lights: Seq<L>, index: int, light: L, other: int)
    requires
        other != index,
    ensures
        with_light(lights, index, light).len() == lights.len(),
        light_at(with_light(lights, index, light), other) == light_at(lights, other),
{
}

/// Writing past the end changes nothing.
pub proof fn law_set_past_end_is_ignored<L>(lights: Seq<L>, index: int, light: L)
    requires
        index >= lights.len(),
    ensures
        with_light(lights, index, light) == lights,
{
}

/// An added light is found at the old length of the list.
pub proof fn law_get_after_add<L>(lights: Seq<L>, light: L)
    ensures
        light_at(lights.push(light), lights.len() as int) == Some(light),
        forall|i: int| 0 <= i < lights.len() ==> light_at(lights.push(light), i) == light_at(lights, i),
{
}

} // verus!
