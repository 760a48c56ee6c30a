use vstd::prelude::*;

verus! {

/// A single array element of the sorting medium: a logical sort key
/// (`position`) plus the hue fraction `hue_num / hue_den` that was assigned
/// to it once, at construction, from its initial rank. The host turns the
/// hue fraction into a display color; the medium itself never reads it.
#[derive(Clone, Copy, Debug, PartialEq, Eq, Structural)]
pub struct Bar {
    pub position: usize,
    pub hue_num: usize,
    pub hue_den: usize,
}

impl Bar {
    pub fn new(position: usize, hue_num: usize, hue_den: usize) -> (r: Bar)
        ensures
            r.position == position,
            r.hue_num == hue_num,
            r.hue_den == hue_den,
    {
        Bar { position, hue_num, hue_den }
    }
}

} // verus!
