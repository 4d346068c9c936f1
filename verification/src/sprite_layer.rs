//! Sprite layers and the depth at which each is drawn.

use vstd::prelude::*;

verus! {

/// The layers a sprite can be drawn on.
#[derive(Debug, Clone, Copy, Hash, PartialEq, Eq, Structural)]
pub enum SpriteLayer {
    Memory,
    VFX,
    SelectSquad,
    Item,
    Pawn,
    Dark,
    Building,
    Grid,
    Shadow,
    Corpse,
    PortalVFX,
}

/// The depth (z coordinate) of a layer: a greater depth is drawn on top.
pub open spec fn layer_depth(layer: SpriteLayer) -> int {
    match layer {
        SpriteLayer::VFX => 900,
        SpriteLayer::SelectSquad => 850,
        SpriteLayer::Item => 800,
        SpriteLayer::Memory => 600,
        SpriteLayer::Pawn => 500,
        SpriteLayer::Dark => 200,
        SpriteLayer::Building => 100,
        SpriteLayer::Grid => 75,
        SpriteLayer::PortalVFX => 50,
        SpriteLayer::Shadow => -45,
        SpriteLayer::Corpse => -55,
    }
}

/// The layers from the top of the picture to the bottom.
pub open spec fn drawing_order() -> Seq<SpriteLayer> {
    seq![
        SpriteLayer::VFX,
        SpriteLayer::SelectSquad,
        SpriteLayer::Item,
        SpriteLayer::Memory,
        SpriteLayer::Pawn,
        SpriteLayer::Dark,
        SpriteLayer::Building,
        SpriteLayer::Grid,
        SpriteLayer::PortalVFX,
        SpriteLayer::Shadow,
        SpriteLayer::Corpse,
    ]
}

impl SpriteLayer {
    /// The z coordinate at which sprites of this layer are drawn.
    pub fn as_z_coordinate(&self) -> (z: i32)
        ensures
            z == layer_depth(*self),
    {
        match *self {
            Self::VFX => 900,
            Self::SelectSquad => 850,
            Self::Item => 800,
            Self::Memory => 600,
            Self::Pawn => 500,
            Self::Dark => 200,
            Self::Building => 100,
            Self::Grid => 75,
            Self::Shadow => -45,
            Self::Corpse => -55,
            Self::PortalVFX => 50,
        }
    }
}

/// The layers stack in one strict order: each layer of the drawing order is
/// drawn above every layer after it, and every layer appears in that order.
/// In particular no two layers share a depth, so the rendering order of any
/// two sprites on different layers is fixed.
pub proof fn layers_strictly_ordered(i: int, j: int, layer: SpriteLayer)
    requires
        0 <= i < j < drawing_order().len(),
    ensures
        layer_depth(drawing_order()[i]) > layer_depth(drawing_order()[j]),
        drawing_order().contains(layer),
{
    let o = drawing_order();
    assert(o[0] == SpriteLayer::VFX);
    assert(o[1] == SpriteLayer::SelectSquad);
    assert(o[2] == SpriteLayer::Item);
    assert(o[3] == SpriteLayer::Memory);
    assert(o[4] == SpriteLayer::Pawn);
    assert(o[5] == SpriteLayer::Dark);
    assert(o[6] == SpriteLayer::Building);
    assert(o[7] == SpriteLayer::Grid);
    assert(o[8] == SpriteLayer::PortalVFX);
    assert(o[9] == SpriteLayer::Shadow);
    assert(o[10] == SpriteLayer::Corpse);
    let k: int = match layer {
        SpriteLayer::VFX => 0,
        SpriteLayer::SelectSquad => 1,
        SpriteLayer::Item => 2,
        SpriteLayer::Memory => 3,
        SpriteLayer::Pawn => 4,
        SpriteLayer::Dark => 5,
        SpriteLayer::Building => 6,
        SpriteLayer::Grid => 7,
        SpriteLayer::PortalVFX => 8,
        SpriteLayer::Shadow => 9,
        SpriteLayer::Corpse => 10,
    };
    assert(o[k] == layer);
}

/// Two different layers never share a depth.
pub proof fn layer_depth_injective(a: SpriteLayer, b: SpriteLayer)
    requires
        a != b,
    ensures
        layer_depth(a) != layer_depth(b),
{
}

} // verus!
