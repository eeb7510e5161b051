use vstd::prelude::*;

verus! {

/// Width of the sprite sheet in pixels.
pub const SHEET_WIDTH: u32 = 1233;

/// Height of the sprite sheet in pixels.
pub const SHEET_HEIGHT: u32 = 68;

/// A rectangle of the sprite sheet, given by two opposite corners in sheet
/// pixels.
#[derive(Clone, Copy, Debug, PartialEq, Eq, Structural)]
pub struct Region {
    /// Horizontal position of the first corner.
    pub from_x: u32,
    /// Vertical position of the first corner.
    pub from_y: u32,
    /// Horizontal position of the second corner.
    pub to_x: u32,
    /// Vertical position of the second corner.
    pub to_y: u32,
}

impl Region {
    /// Whether both corners lie on the sheet.
    pub open spec fn on_sheet(&self) -> bool {
        &&& self.from_x <= SHEET_WIDTH
        &&& self.to_x <= SHEET_WIDTH
        &&& self.from_y <= SHEET_HEIGHT
        &&& self.to_y <= SHEET_HEIGHT
    }
}

/// The player's sprites in the order of their atlas indices: standing, then
/// the two frames of the run cycle.
pub open spec fn dino_regions_spec() -> Seq<Region> {
    seq![
        Region { from_x: 850, from_y: 46, to_x: 889, to_y: 4 },
        Region { from_x: 938, from_y: 46, to_x: 977, to_y: 4 },
        Region { from_x: 982, from_y: 46, to_x: 1021, to_y: 4 },
    ]
}

/// The scenery's sprites in the order of their atlas indices: the ground
/// tile, the cloud, then the bird with its wings up and down.
pub open spec fn desert_regions_spec() -> Seq<Region> {
    seq![
        Region { from_x: 2, from_y: 66, to_x: 1201, to_y: 53 },
        Region { from_x: 85, from_y: 15, to_x: 132, to_y: 1 },
        Region { from_x: 135, from_y: 3, to_x: 178, to_y: 40 },
        Region { from_x: 181, from_y: 3, to_x: 224, to_y: 40 },
    ]
}

/// Lists the player's sprites by atlas index.
pub fn dino_regions() -> (regions: Vec<Region>)
    ensures
        regions@ == dino_regions_spec(),
        forall|i: int| 0 <= i < regions@.len() ==> (#[trigger] regions@[i]).on_sheet(),
{
    let mut regions: Vec<Region> = Vec::new();
    regions.push(Region { from_x: 850, from_y: 46, to_x: 889, to_y: 4 });
    regions.push(Region { from_x: 938, from_y: 46, to_x: 977, to_y: 4 });
    regions.push(Region { from_x: 982, from_y: 46, to_x: 1021, to_y: 4 });
    proof {
        assert(regions@ =~= dino_regions_spec());
    }
    regions
}

/// Lists the scenery's sprites by atlas index.
pub fn desert_regions() -> (regions: Vec<Region>)
    ensures
        regions@ == desert_regions_spec(),
        forall|i: int| 0 <= i < regions@.len() ==> (#[trigger] regions@[i]).on_sheet(),
{
    let mut regions: Vec<Region> = Vec::new();
    regions.push(Region { from_x: 2, from_y: 66, to_x: 1201, to_y: 53 });
    regions.push(Region { from_x: 85, from_y: 15, to_x: 132, to_y: 1 });
    regions.push(Region { from_x: 135, from_y: 3, to_x: 178, to_y: 40 });
    regions.push(Region { from_x: 181, from_y: 3, to_x: 224, to_y: 40 });
    proof {
        assert(regions@ =~= desert_regions_spec());
    }
    regions
}

} // verus!
