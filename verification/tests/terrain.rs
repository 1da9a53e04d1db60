use savage_core::terrain::{
    Boulder, Dirt, DirtVariant, Grass, GrassVariant, Passage, Pit, Terrain, TerrainInteract,
    TerrainView, Tree,
};

#[test]
fn test_dirt() {
    let terrain: Terrain = Dirt::new(DirtVariant::Flat).into();
    assert_eq!("flat dirt", terrain.name());
    assert!(terrain.is_diggable());
}

#[test]
fn test_dead_grass() {
    let mut terrain: Terrain = Grass::new(GrassVariant::Grass9).into();
    assert_eq!("grass", terrain.name());
    if let Terrain::Grass(grass) = &mut terrain {
        grass.die();
    } else {
        unreachable!()
    }
    assert_eq!("dead grass", terrain.name());
}

#[test]
fn every_variant_answers_every_capability() {
    let all: Vec<Terrain> = vec![
        Dirt::new(DirtVariant::Flat).into(),
        Dirt::new(DirtVariant::Loose).into(),
        Dirt::new(DirtVariant::Rocky).into(),
        Grass::new(GrassVariant::Grass1).into(),
        Grass::new(GrassVariant::Grass9).into(),
        Boulder {}.into(),
        Pit {}.into(),
        Tree {}.into(),
    ];
    for t in &all {
        // Every variant answers every query; none is allowed a missing case.
        let _ = t.name();
        let _ = t.looks_like();
        let _ = t.is_transparent();
        let _ = t.passage();
        let _ = t.is_passable();
        let _ = t.is_diggable();
        let _ = t.is_readable();
        let _ = t.can_stock_items();
    }
}

#[test]
fn capability_answers_match_the_catalog() {
    let dirt: Terrain = Dirt::new(DirtVariant::Flat).into();
    assert_eq!(dirt.passage(), Passage::Passable(100));
    assert!(dirt.is_passable());
    assert!(dirt.is_diggable());
    assert!(!dirt.is_readable());
    assert!(dirt.can_stock_items());
    assert!(dirt.is_transparent());

    let grass: Terrain = Grass::new(GrassVariant::Grass3).into();
    assert!(grass.is_passable());
    assert!(grass.is_diggable());
    assert!(grass.can_stock_items());

    let boulder: Terrain = Boulder {}.into();
    assert_eq!(boulder.passage(), Passage::Unpassable);
    assert!(!boulder.is_passable());
    assert!(!boulder.is_diggable());
    assert!(!boulder.can_stock_items());
    assert!(boulder.is_transparent());

    let pit: Terrain = Pit {}.into();
    assert_eq!(pit.passage(), Passage::RequiresAction);
    assert!(!pit.is_passable());
    assert!(pit.can_stock_items());

    let tree: Terrain = Tree {}.into();
    assert_eq!(tree.passage(), Passage::Unpassable);
    assert!(!tree.is_transparent());
    assert!(!tree.can_stock_items());
}

#[test]
fn digging_dirt_leaves_a_pit() {
    let dirt: Terrain = Dirt::new(DirtVariant::Rocky).into();
    let (replacement, items) = dirt.dig_result();
    assert_eq!(replacement, Terrain::Pit(Pit {}));
    assert!(items.is_empty());

    let grass: Terrain = Grass::new(GrassVariant::Grass5).into();
    let (replacement, items) = grass.dig_result();
    assert_eq!(replacement, Terrain::Dirt(Dirt::new(DirtVariant::Flat)));
    assert!(items.is_empty());
}

#[test]
fn dead_grass_changes_its_render_key() {
    let mut grass = Grass::new(GrassVariant::Grass2);
    assert_eq!(grass.looks_like(), "grass2");
    grass.die();
    assert_eq!(grass.looks_like(), "dead_grass");
    assert_eq!(grass.name(), "dead grass");
}
