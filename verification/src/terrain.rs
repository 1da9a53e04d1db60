//! Terrain as a closed set of variant kinds behind two capability
//! contracts. Dispatch is a sum type with exhaustive match arms, so every
//! variant is forced to answer every capability query.

use vstd::prelude::*;
use crate::items::Item;

verus! {

/// How a tile can be crossed: freely (with a movement-cost factor in percent
/// of the base step cost), not at all, or only by spending an action.
#[derive(Clone, Copy, Debug, PartialEq, Eq, Structural)]
pub enum Passage {
    Passable(u32),
    Unpassable,
    RequiresAction,
}

/// What a tile looks like to the player and the field-of-view collaborator.
pub trait TerrainView {
    spec fn spec_name(&self) -> Seq<char>;

    spec fn spec_looks_like(&self) -> Seq<char>;

    spec fn spec_is_transparent(&self) -> bool;

    /// Display label; may depend on the variant's sub-state.
    fn name(&self) -> (r: &str)
        ensures
            r@ == self.spec_name(),
    ;

    /// Opaque render key consumed by the rendering collaborator; this core
    /// does not validate it.
    fn looks_like(&self) -> (r: &'static str)
        ensures
            r@ == self.spec_looks_like(),
    ;

    /// Whether line of sight passes through the tile.
    fn is_transparent(&self) -> (r: bool)
        ensures
            r == self.spec_is_transparent(),
    ;
}

/// What can be done with a tile. Capability-conditioned queries (`dig_result`,
/// `read`) demand that the capability holds: calling them on a tile that
/// lacks it is a contract violation, not a silent no-op.
pub trait TerrainInteract {
    spec fn spec_passage(&self) -> Passage;

    spec fn spec_is_diggable(&self) -> bool;

    spec fn spec_dig_terrain(&self) -> Terrain;

    spec fn spec_dig_items(&self) -> Seq<Item>;

    spec fn spec_is_readable(&self) -> bool;

    spec fn spec_read(&self) -> Seq<char>;

    spec fn spec_can_stock_items(&self) -> bool;

    fn passage(&self) -> (p: Passage)
        ensures
            p == self.spec_passage(),
    ;

    /// True exactly when the passage descriptor is the passable variant.
    fn is_passable(&self) -> (r: bool)
        ensures
            r == (self.spec_passage() is Passable),
    ;

    fn is_diggable(&self) -> (r: bool)
        ensures
            r == self.spec_is_diggable(),
    ;

    /// The replacement terrain and the items produced by digging; only
    /// diggable tiles answer this.
    fn dig_result(&self) -> (r: (Terrain, Vec<Item>))
        requires
            self.spec_is_diggable(),
        ensures
            r.0 == self.spec_dig_terrain(),
            r.1@ == self.spec_dig_items(),
    ;

    fn is_readable(&self) -> (r: bool)
        ensures
            r == self.spec_is_readable(),
    ;

    /// The display text of a readable tile; only readable tiles answer this.
    fn read(&self) -> (r: String)
        requires
            self.spec_is_readable(),
        ensures
            r@ == self.spec_read(),
    ;

    /// Whether items may rest on this tile. Every variant decides this
    /// explicitly: it gates drop and item-placement actions.
    fn can_stock_items(&self) -> (r: bool)
        ensures
            r == self.spec_can_stock_items(),
    ;
}

#[derive(Clone, Copy, Debug, PartialEq, Eq, Structural)]
pub enum DirtVariant {
    Flat,
    Loose,
    Rocky,
}

/// Bare earth; the archetypal diggable tile.
#[derive(Clone, Copy, Debug, PartialEq, Eq, Structural)]
pub struct Dirt {
    pub variant: DirtVariant,
}

impl Dirt {
    pub fn new(variant: DirtVariant) -> (r: Dirt)
        ensures
            r.variant == variant,
    {
        Dirt { variant }
    }
}

#[derive(Clone, Copy, Debug, PartialEq, Eq, Structural)]
pub enum GrassVariant {
    Grass1,
    Grass2,
    Grass3,
    Grass4,
    Grass5,
    Grass6,
    Grass7,
    Grass8,
    Grass9,
}

/// A grass tile: an appearance variant plus an alive/dead flag that changes
/// its display name.
#[derive(Clone, Copy, Debug, PartialEq, Eq, Structural)]
pub struct Grass {
    pub variant: GrassVariant,
    pub dead: bool,
}

impl Grass {
    pub fn new(variant: GrassVariant) -> (r: Grass)
        ensures
            r.variant == variant,
            !r.dead,
    {
        Grass { variant, dead: false }
    }

    /// Kills the grass; only its name and render key change.
    pub fn die(&mut self)
        ensures
            final(self).dead,
            final(self).variant == old(self).variant,
    {
        self.dead = true;
    }
}

/// A rock too large to pass.
#[derive(Clone, Copy, Debug, PartialEq, Eq, Structural)]
pub struct Boulder {}

/// A hole in the ground; crossing it takes an action.
#[derive(Clone, Copy, Debug, PartialEq, Eq, Structural)]
pub struct Pit {}

/// A tree: blocks passage and line of sight.
#[derive(Clone, Copy, Debug, PartialEq, Eq, Structural)]
pub struct Tree {}

/// The closed set of terrain kinds.
#[derive(Clone, Copy, Debug, PartialEq, Eq, Structural)]
pub enum Terrain {
    Dirt(Dirt),
    Grass(Grass),
    Boulder(Boulder),
    Pit(Pit),
    Tree(Tree),
}

impl TerrainView for Dirt {
    open spec fn spec_name(&self) -> Seq<char> {
        match self.variant {
            DirtVariant::Flat => "flat dirt"@,
            DirtVariant::Loose => "loose dirt"@,
            DirtVariant::Rocky => "rocky dirt"@,
        }
    }

    open spec fn spec_looks_like(&self) -> Seq<char> {
        match self.variant {
            DirtVariant::Flat => "flat_dirt"@,
            DirtVariant::Loose => "loose_dirt"@,
            DirtVariant::Rocky => "rocky_dirt"@,
        }
    }

    open spec fn spec_is_transparent(&self) -> bool {
        true
    }

    fn name(&self) -> (r: &str) {
        match self.variant {
            DirtVariant::Flat => "flat dirt",
            DirtVariant::Loose => "loose dirt",
            DirtVariant::Rocky => "rocky dirt",
        }
    }

    fn looks_like(&self) -> (r: &'static str) {
        match self.variant {
            DirtVariant::Flat => "flat_dirt",
            DirtVariant::Loose => "loose_dirt",
            DirtVariant::Rocky => "rocky_dirt",
        }
    }

    fn is_transparent(&self) -> (r: bool) {
        true
    }
}

impl TerrainInteract for Dirt {
    open spec fn spec_passage(&self) -> Passage {
        Passage::Passable(100u32)
    }

    open spec fn spec_is_diggable(&self) -> bool {
        true
    }

    open spec fn spec_dig_terrain(&self) -> Terrain {
        Terrain::Pit(Pit {})
    }

    open spec fn spec_dig_items(&self) -> Seq<Item> {
        Seq::empty()
    }

    open spec fn spec_is_readable(&self) -> bool {
        false
    }

    open spec fn spec_read(&self) -> Seq<char> {
        Seq::empty()
    }

    open spec fn spec_can_stock_items(&self) -> bool {
        true
    }

    fn passage(&self) -> (p: Passage) {
        Passage::Passable(100)
    }

    fn is_passable(&self) -> (r: bool) {
        true
    }

    fn is_diggable(&self) -> (r: bool) {
        true
    }

    /// Digging dirt out leaves a pit; nothing of value is produced.
    fn dig_result(&self) -> (r: (Terrain, Vec<Item>)) {
        (Terrain::Pit(Pit {}), Vec::new())
    }

    fn is_readable(&self) -> (r: bool) {
        false
    }

    fn read(&self) -> (r: String) {
        unreached()
    }

    fn can_stock_items(&self) -> (r: bool) {
        true
    }
}

impl TerrainView for Grass {
    open spec fn spec_name(&self) -> Seq<char> {
        if self.dead {
            "dead grass"@
        } else {
            "grass"@
        }
    }

    open spec fn spec_looks_like(&self) -> Seq<char> {
        if self.dead {
            "dead_grass"@
        } else {
            match self.variant {
                GrassVariant::Grass1 => "grass1"@,
                GrassVariant::Grass2 => "grass2"@,
                GrassVariant::Grass3 => "grass3"@,
                GrassVariant::Grass4 => "grass4"@,
                GrassVariant::Grass5 => "grass5"@,
                GrassVariant::Grass6 => "grass6"@,
                GrassVariant::Grass7 => "grass7"@,
                GrassVariant::Grass8 => "grass8"@,
                GrassVariant::Grass9 => "grass9"@,
            }
        }
    }

    open spec fn spec_is_transparent(&self) -> bool {
        true
    }

    fn name(&self) -> (r: &str) {
        if self.dead {
            "dead grass"
        } else {
            "grass"
        }
    }

    fn looks_like(&self) -> (r: &'static str) {
        if self.dead {
            "dead_grass"
        } else {
            match self.variant {
                GrassVariant::Grass1 => "grass1",
                GrassVariant::Grass2 => "grass2",
                GrassVariant::Grass3 => "grass3",
                GrassVariant::Grass4 => "grass4",
                GrassVariant::Grass5 => "grass5",
                GrassVariant::Grass6 => "grass6",
                GrassVariant::Grass7 => "grass7",
                GrassVariant::Grass8 => "grass8",
                GrassVariant::Grass9 => "grass9",
            }
        }
    }

    fn is_transparent(&self) -> (r: bool) {
        true
    }
}

impl TerrainInteract for Grass {
    open spec fn spec_passage(&self) -> Passage {
        Passage::Passable(100u32)
    }

    open spec fn spec_is_diggable(&self) -> bool {
        true
    }

    open spec fn spec_dig_terrain(&self) -> Terrain {
        Terrain::Dirt(Dirt { variant: DirtVariant::Flat })
    }

    open spec fn spec_dig_items(&self) -> Seq<Item> {
        Seq::empty()
    }

    open spec fn spec_is_readable(&self) -> bool {
        false
    }

    open spec fn spec_read(&self) -> Seq<char> {
        Seq::empty()
    }

    open spec fn spec_can_stock_items(&self) -> bool {
        true
    }

    fn passage(&self) -> (p: Passage) {
        Passage::Passable(100)
    }

    fn is_passable(&self) -> (r: bool) {
        true
    }

    fn is_diggable(&self) -> (r: bool) {
        true
    }

    /// Cutting the turf away leaves flat dirt; nothing of value is produced.
    fn dig_result(&self) -> (r: (Terrain, Vec<Item>)) {
        (Terrain::Dirt(Dirt { variant: DirtVariant::Flat }), Vec::new())
    }

    fn is_readable(&self) -> (r: bool) {
        false
    }

    fn read(&self) -> (r: String) {
        unreached()
    }

    fn can_stock_items(&self) -> (r: bool) {
        true
    }
}

impl TerrainView for Boulder {
    open spec fn spec_name(&self) -> Seq<char> {
        "boulder"@
    }

    open spec fn spec_looks_like(&self) -> Seq<char> {
        "boulder"@
    }

    open spec fn spec_is_transparent(&self) -> bool {
        true
    }

    fn name(&self) -> (r: &str) {
        "boulder"
    }

    fn looks_like(&self) -> (r: &'static str) {
        "boulder"
    }

    fn is_transparent(&self) -> (r: bool) {
        true
    }
}

impl TerrainInteract for Boulder {
    open spec fn spec_passage(&self) -> Passage {
        Passage::Unpassable
    }

    open spec fn spec_is_diggable(&self) -> bool {
        false
    }

    open spec fn spec_dig_terrain(&self) -> Terrain {
        Terrain::Boulder(Boulder {})
    }

    open spec fn spec_dig_items(&self) -> Seq<Item> {
        Seq::empty()
    }

    open spec fn spec_is_readable(&self) -> bool {
        false
    }

    open spec fn spec_read(&self) -> Seq<char> {
        Seq::empty()
    }

    open spec fn spec_can_stock_items(&self) -> bool {
        false
    }

    fn passage(&self) -> (p: Passage) {
        Passage::Unpassable
    }

    fn is_passable(&self) -> (r: bool) {
        false
    }

    fn is_diggable(&self) -> (r: bool) {
        false
    }

    fn dig_result(&self) -> (r: (Terrain, Vec<Item>)) {
        unreached()
    }

    fn is_readable(&self) -> (r: bool) {
        false
    }

    fn read(&self) -> (r: String) {
        unreached()
    }

    fn can_stock_items(&self) -> (r: bool) {
        false
    }
}

impl TerrainView for Pit {
    open spec fn spec_name(&self) -> Seq<char> {
        "pit"@
    }

    open spec fn spec_looks_like(&self) -> Seq<char> {
        "pit"@
    }

    open spec fn spec_is_transparent(&self) -> bool {
        true
    }

    fn name(&self) -> (r: &str) {
        "pit"
    }

    fn looks_like(&self) -> (r: &'static str) {
        "pit"
    }

    fn is_transparent(&self) -> (r: bool) {
        true
    }
}

impl TerrainInteract for Pit {
    open spec fn spec_passage(&self) -> Passage {
        Passage::RequiresAction
    }

    open spec fn spec_is_diggable(&self) -> bool {
        false
    }

    open spec fn spec_dig_terrain(&self) -> Terrain {
        Terrain::Pit(Pit {})
    }

    open spec fn spec_dig_items(&self) -> Seq<Item> {
        Seq::empty()
    }

    open spec fn spec_is_readable(&self) -> bool {
        false
    }

    open spec fn spec_read(&self) -> Seq<char> {
        Seq::empty()
    }

    open spec fn spec_can_stock_items(&self) -> bool {
        true
    }

    fn passage(&self) -> (p: Passage) {
        Passage::RequiresAction
    }

    fn is_passable(&self) -> (r: bool) {
        false
    }

    fn is_diggable(&self) -> (r: bool) {
        false
    }

    fn dig_result(&self) -> (r: (Terrain, Vec<Item>)) {
        unreached()
    }

    fn is_readable(&self) -> (r: bool) {
        false
    }

    fn read(&self) -> (r: String) {
        unreached()
    }

    fn can_stock_items(&self) -> (r: bool) {
        true
    }
}

impl TerrainView for Tree {
    open spec fn spec_name(&self) -> Seq<char> {
        "tree"@
    }

    open spec fn spec_looks_like(&self) -> Seq<char> {
        "tree"@
    }

    open spec fn spec_is_transparent(&self) -> bool {
        false
    }

    fn name(&self) -> (r: &str) {
        "tree"
    }

    fn looks_like(&self) -> (r: &'static str) {
        "tree"
    }

    fn is_transparent(&self) -> (r: bool) {
        false
    }
}

impl TerrainInteract for Tree {
    open spec fn spec_passage(&self) -> Passage {
        Passage::Unpassable
    }

    open spec fn spec_is_diggable(&self) -> bool {
        false
    }

    open spec fn spec_dig_terrain(&self) -> Terrain {
        Terrain::Tree(Tree {})
    }

    open spec fn spec_dig_items(&self) -> Seq<Item> {
        Seq::empty()
    }

    open spec fn spec_is_readable(&self) -> bool {
        false
    }

    open spec fn spec_read(&self) -> Seq<char> {
        Seq::empty()
    }

    open spec fn spec_can_stock_items(&self) -> bool {
        false
    }

    fn passage(&self) -> (p: Passage) {
        Passage::Unpassable
    }

    fn is_passable(&self) -> (r: bool) {
        false
    }

    fn is_diggable(&self) -> (r: bool) {
        false
    }

    fn dig_result(&self) -> (r: (Terrain, Vec<Item>)) {
        unreached()
    }

    fn is_readable(&self) -> (r: bool) {
        false
    }

    fn read(&self) -> (r: String) {
        unreached()
    }

    fn can_stock_items(&self) -> (r: bool) {
        false
    }
}

impl TerrainView for Terrain {
    open spec fn spec_name(&self) -> Seq<char> {
        match self {
            Terrain::Dirt(t) => t.spec_name(),
            Terrain::Grass(t) => t.spec_name(),
            Terrain::Boulder(t) => t.spec_name(),
            Terrain::Pit(t) => t.spec_name(),
            Terrain::Tree(t) => t.spec_name(),
        }
    }

    open spec fn spec_looks_like(&self) -> Seq<char> {
        match self {
            Terrain::Dirt(t) => t.spec_looks_like(),
            Terrain::Grass(t) => t.spec_looks_like(),
            Terrain::Boulder(t) => t.spec_looks_like(),
            Terrain::Pit(t) => t.spec_looks_like(),
            Terrain::Tree(t) => t.spec_looks_like(),
        }
    }

    open spec fn spec_is_transparent(&self) -> bool {
        match self {
            Terrain::Dirt(t) => t.spec_is_transparent(),
            Terrain::Grass(t) => t.spec_is_transparent(),
            Terrain::Boulder(t) => t.spec_is_transparent(),
            Terrain::Pit(t) => t.spec_is_transparent(),
            Terrain::Tree(t) => t.spec_is_transparent(),
        }
    }

    fn name(&self) -> (r: &str) {
        match self {
            Terrain::Dirt(t) => t.name(),
            Terrain::Grass(t) => t.name(),
            Terrain::Boulder(t) => t.name(),
            Terrain::Pit(t) => t.name(),
            Terrain::Tree(t) => t.name(),
        }
    }

    fn looks_like(&self) -> (r: &'static str) {
        match self {
            Terrain::Dirt(t) => t.looks_like(),
            Terrain::Grass(t) => t.looks_like(),
            Terrain::Boulder(t) => t.looks_like(),
            Terrain::Pit(t) => t.looks_like(),
            Terrain::Tree(t) => t.looks_like(),
        }
    }

    fn is_transparent(&self) -> (r: bool) {
        match self {
            Terrain::Dirt(t) => t.is_transparent(),
            Terrain::Grass(t) => t.is_transparent(),
            Terrain::Boulder(t) => t.is_transparent(),
            Terrain::Pit(t) => t.is_transparent(),
            Terrain::Tree(t) => t.is_transparent(),
        }
    }
}

impl TerrainInteract for Terrain {
    open spec fn spec_passage(&self) -> Passage {
        match self {
            Terrain::Dirt(t) => t.spec_passage(),
            Terrain::Grass(t) => t.spec_passage(),
            Terrain::Boulder(t) => t.spec_passage(),
            Terrain::Pit(t) => t.spec_passage(),
            Terrain::Tree(t) => t.spec_passage(),
        }
    }

    open spec fn spec_is_diggable(&self) -> bool {
        match self {
            Terrain::Dirt(t) => t.spec_is_diggable(),
            Terrain::Grass(t) => t.spec_is_diggable(),
            Terrain::Boulder(t) => t.spec_is_diggable(),
            Terrain::Pit(t) => t.spec_is_diggable(),
            Terrain::Tree(t) => t.spec_is_diggable(),
        }
    }

    open spec fn spec_dig_terrain(&self) -> Terrain {
        match self {
            Terrain::Dirt(t) => t.spec_dig_terrain(),
            Terrain::Grass(t) => t.spec_dig_terrain(),
            Terrain::Boulder(t) => t.spec_dig_terrain(),
            Terrain::Pit(t) => t.spec_dig_terrain(),
            Terrain::Tree(t) => t.spec_dig_terrain(),
        }
    }

    open spec fn spec_dig_items(&self) -> Seq<Item> {
        match self {
            Terrain::Dirt(t) => t.spec_dig_items(),
            Terrain::Grass(t) => t.spec_dig_items(),
            Terrain::Boulder(t) => t.spec_dig_items(),
            Terrain::Pit(t) => t.spec_dig_items(),
            Terrain::Tree(t) => t.spec_dig_items(),
        }
    }

    open spec fn spec_is_readable(&self) -> bool {
        match self {
            Terrain::Dirt(t) => t.spec_is_readable(),
            Terrain::Grass(t) => t.spec_is_readable(),
            Terrain::Boulder(t) => t.spec_is_readable(),
            Terrain::Pit(t) => t.spec_is_readable(),
            Terrain::Tree(t) => t.spec_is_readable(),
        }
    }

    open spec fn spec_read(&self) -> Seq<char> {
        match self {
            Terrain::Dirt(t) => t.spec_read(),
            Terrain::Grass(t) => t.spec_read(),
            Terrain::Boulder(t) => t.spec_read(),
            Terrain::Pit(t) => t.spec_read(),
            Terrain::Tree(t) => t.spec_read(),
        }
    }

    open spec fn spec_can_stock_items(&self) -> bool {
        match self {
            Terrain::Dirt(t) => t.spec_can_stock_items(),
            Terrain::Grass(t) => t.spec_can_stock_items(),
            Terrain::Boulder(t) => t.spec_can_stock_items(),
            Terrain::Pit(t) => t.spec_can_stock_items(),
            Terrain::Tree(t) => t.spec_can_stock_items(),
        }
    }

    fn passage(&self) -> (p: Passage) {
        match self {
            Terrain::Dirt(t) => t.passage(),
            Terrain::Grass(t) => t.passage(),
            Terrain::Boulder(t) => t.passage(),
            Terrain::Pit(t) => t.passage(),
            Terrain::Tree(t) => t.passage(),
        }
    }

    fn is_passable(&self) -> (r: bool) {
        match self {
            Terrain::Dirt(t) => t.is_passable(),
            Terrain::Grass(t) => t.is_passable(),
            Terrain::Boulder(t) => t.is_passable(),
            Terrain::Pit(t) => t.is_passable(),
            Terrain::Tree(t) => t.is_passable(),
        }
    }

    fn is_diggable(&self) -> (r: bool) {
        match self {
            Terrain::Dirt(t) => t.is_diggable(),
            Terrain::Grass(t) => t.is_diggable(),
            Terrain::Boulder(t) => t.is_diggable(),
            Terrain::Pit(t) => t.is_diggable(),
            Terrain::Tree(t) => t.is_diggable(),
        }
    }

    fn dig_result(&self) -> (r: (Terrain, Vec<Item>)) {
        match self {
            Terrain::Dirt(t) => t.dig_result(),
            Terrain::Grass(t) => t.dig_result(),
            Terrain::Boulder(t) => t.dig_result(),
            Terrain::Pit(t) => t.dig_result(),
            Terrain::Tree(t) => t.dig_result(),
        }
    }

    fn is_readable(&self) -> (r: bool) {
        match self {
            Terrain::Dirt(t) => t.is_readable(),
            Terrain::Grass(t) => t.is_readable(),
            Terrain::Boulder(t) => t.is_readable(),
            Terrain::Pit(t) => t.is_readable(),
            Terrain::Tree(t) => t.is_readable(),
        }
    }

    fn read(&self) -> (r: String) {
        match self {
            Terrain::Dirt(t) => t.read(),
            Terrain::Grass(t) => t.read(),
            Terrain::Boulder(t) => t.read(),
            Terrain::Pit(t) => t.read(),
            Terrain::Tree(t) => t.read(),
        }
    }

    fn can_stock_items(&self) -> (r: bool) {
        match self {
            Terrain::Dirt(t) => t.can_stock_items(),
            Terrain::Grass(t) => t.can_stock_items(),
            Terrain::Boulder(t) => t.can_stock_items(),
            Terrain::Pit(t) => t.can_stock_items(),
            Terrain::Tree(t) => t.can_stock_items(),
        }
    }
}

impl From<Dirt> for Terrain {
    fn from(t: Dirt) -> (r: Terrain) {
        Terrain::Dirt(t)
    }
}

impl vstd::std_specs::convert::FromSpecImpl<Dirt> for Terrain {
    open spec fn obeys_from_spec() -> bool {
        true
    }

    open spec fn from_spec(t: Dirt) -> Terrain {
        Terrain::Dirt(t)
    }
}

impl From<Grass> for Terrain {
    fn from(t: Grass) -> (r: Terrain) {
        Terrain::Grass(t)
    }
}

impl vstd::std_specs::convert::FromSpecImpl<Grass> for Terrain {
    open spec fn obeys_from_spec() -> bool {
        true
    }

    open spec fn from_spec(t: Grass) -> Terrain {
        Terrain::Grass(t)
    }
}

impl From<Boulder> for Terrain {
    fn from(t: Boulder) -> (r: Terrain) {
        Terrain::Boulder(t)
    }
}

impl vstd::std_specs::convert::FromSpecImpl<Boulder> for Terrain {
    open spec fn obeys_from_spec() -> bool {
        true
    }

    open spec fn from_spec(t: Boulder) -> Terrain {
        Terrain::Boulder(t)
    }
}

impl From<Pit> for Terrain {
    fn from(t: Pit) -> (r: Terrain) {
        Terrain::Pit(t)
    }
}

impl vstd::std_specs::convert::FromSpecImpl<Pit> for Terrain {
    open spec fn obeys_from_spec() -> bool {
        true
    }

    open spec fn from_spec(t: Pit) -> Terrain {
        Terrain::Pit(t)
    }
}

impl From<Tree> for Terrain {
    fn from(t: Tree) -> (r: Terrain) {
        Terrain::Tree(t)
    }
}

impl vstd::std_specs::convert::FromSpecImpl<Tree> for Terrain {
    open spec fn obeys_from_spec() -> bool {
        true
    }

    open spec fn from_spec(t: Tree) -> Terrain {
        Terrain::Tree(t)
    }
}

} // verus!
