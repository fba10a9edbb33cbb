//! Sprites: the render-relevant snapshot the simulation publishes for the
//! presentation side, which never touches simulation memory.

use vstd::prelude::*;

verus! {

#[allow(non_camel_case_types)]
#[derive(Debug, PartialEq, Eq, Structural, Copy, Clone)]
pub enum Layer {
    BACKGROUND,
    MOVABLES,
    UI,
    PARTICLE,
}

/// A texture to draw at a cell, on a layer.
#[derive(Debug, PartialEq, Eq, Structural, Copy, Clone)]
pub struct Sprite {
    pub texture_id: u8,
    pub pos_x: i32,
    pub pos_y: i32,
    pub layer: Layer,
}

impl Sprite {
    pub fn new(texture_id: u8, pos_x: i32, pos_y: i32, layer: Layer) -> (r: Self)
        ensures
            r == (Sprite { texture_id, pos_x, pos_y, layer }),
    {
        Sprite { texture_id, pos_x, pos_y, layer }
    }
}

/// Everything that can place sprites into the world: the trait names the
/// sprite list it promises through `spec_world_origin`, and each
/// implementation says what that list is.
pub trait ObjectToSprite {
    spec fn spec_world_origin(&self) -> Seq<Sprite>;

    fn get_world_origin(&self) -> (r: Vec<Sprite>)
        ensures
            r@ == self.spec_world_origin(),
    ;
}

} // verus!
