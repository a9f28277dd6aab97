use chunk_mesher::assets::{asset_key, BlockModel, Cube, FaceDesc, LoadedAssets, TextureIdMap};
use chunk_mesher::block_state::{
    predicate_matches, select_variant, BlockRenderState, Variant, VariantDesc, Variants,
};
use chunk_mesher::geom::{BlockPos, Direction};
use chunk_mesher::text::strip_namespace;

fn desc(model: &str, y: i32) -> VariantDesc {
    VariantDesc { model: model.to_string(), y, x: 0, uvlock: false }
}

fn props(list: &[(&str, &str)]) -> Vec<(String, String)> {
    list.iter().map(|(k, v)| (k.to_string(), v.to_string())).collect()
}

fn keyed(entries: Vec<(&str, Variant)>) -> BlockRenderState {
    BlockRenderState::Variants(Variants::Keyed(
        entries.into_iter().map(|(k, v)| (k.to_string(), v)).collect(),
    ))
}

fn face(texture: &str) -> Option<FaceDesc> {
    Some(FaceDesc { uv: None, texture: texture.to_string(), cullface: None })
}

fn cube(from: i32, to: i32, texture: &str) -> Cube {
    Cube {
        from: BlockPos { x: from, y: from, z: from },
        to: BlockPos { x: to, y: to, z: to },
        down: face(texture),
        up: face(texture),
        north: face(texture),
        south: face(texture),
        west: face(texture),
        east: face(texture),
    }
}

fn model(parent: Option<&str>, textures: &[(&str, &str)], elements: Option<Vec<Cube>>) -> BlockModel {
    BlockModel {
        parent: parent.map(|p| p.to_string()),
        textures: props(textures),
        ambient_occlusion: true,
        elements,
    }
}

#[test]
fn empty_predicate_only_entry_is_selected() {
    let state = keyed(vec![("", Variant::Single(desc("block/v0", 0)))]);
    for p in [props(&[]), props(&[("snowy", "true")]), props(&[("facing", "north")])] {
        let v = select_variant(&state, &p).unwrap();
        assert_eq!(v.model, "block/v0");
    }
}

#[test]
fn empty_predicate_after_unmatched_entry_wins() {
    let state = keyed(vec![
        ("snowy=true", Variant::Single(desc("block/a", 0))),
        ("", Variant::Single(desc("block/b", 0))),
    ]);
    assert_eq!(select_variant(&state, &props(&[("snowy", "false")])).unwrap().model, "block/b");
    assert_eq!(select_variant(&state, &props(&[("snowy", "true")])).unwrap().model, "block/a");
}

#[test]
fn first_variant_is_used_when_nothing_matches() {
    let state = keyed(vec![
        ("snowy=false", Variant::Array(vec![desc("block/grass", 0), desc("block/grass", 90)])),
        ("snowy=true", Variant::Single(desc("block/grass_snow", 0))),
    ]);
    let v = select_variant(&state, &props(&[("axis", "y")])).unwrap();
    assert_eq!(v.model, "block/grass");
    assert_eq!(v.y, 0);
    let v = select_variant(&state, &props(&[("snowy", "true")])).unwrap();
    assert_eq!(v.model, "block/grass_snow");
}

#[test]
fn multi_part_and_empty_tables_select_nothing() {
    assert!(select_variant(&BlockRenderState::MultiPart, &props(&[])).is_none());
    assert!(select_variant(&keyed(vec![]), &props(&[])).is_none());
    let arr = BlockRenderState::Variants(Variants::Array(vec![Variant::Single(desc("block/x", 0))]));
    assert_eq!(select_variant(&arr, &props(&[])).unwrap().model, "block/x");
}

#[test]
fn predicates_are_conjunctions_of_clauses() {
    let p = props(&[("facing", "north"), ("lit", "true")]);
    assert!(predicate_matches("", &p));
    assert!(predicate_matches("facing=north", &p));
    assert!(predicate_matches("facing=north,lit=true", &p));
    assert!(!predicate_matches("facing=north,lit=false", &p));
    assert!(!predicate_matches("facing=south", &p));
    // a property the block lacks does not match
    assert!(!predicate_matches("waterlogged=false", &p));
    // a clause without `=` is skipped
    assert!(predicate_matches("garbage,lit=true", &p));
    assert!(!predicate_matches("garbage,lit=false", &p));
}

#[test]
fn namespace_is_stripped_once() {
    assert_eq!(strip_namespace("minecraft:block/stone"), "block/stone");
    assert_eq!(strip_namespace("block/stone"), "block/stone");
    assert_eq!(strip_namespace("minecraft"), "minecraft");
}

#[test]
fn model_chain_inherits_elements_and_textures() {
    let mut assets = LoadedAssets::new();
    assert!(assets.add_block_model(
        "block/cube_all".to_string(),
        model(None, &[("side", "#all")], Some(vec![cube(0, 256, "#side")])),
    ));
    assert!(assets.add_block_model(
        "block/stone".to_string(),
        model(Some("minecraft:block/cube_all"), &[("all", "minecraft:block/stone")], None),
    ));
    let m = assets.get_block_model("minecraft:block/stone").unwrap();
    assert_eq!(m.chain.len(), 2);
    let es = m.elements().unwrap();
    assert_eq!(es.len(), 1);
    assert_eq!(es[0].to.x, 256);
    // `#side` is found in the parent and points at `#all`, which the
    // originating model defines
    assert_eq!(m.get_texture("#side"), Some("block/stone".to_string()));
    assert_eq!(m.get_texture("block/dirt"), Some("block/dirt".to_string()));
    assert_eq!(m.get_texture("#missing"), None);
}

#[test]
fn missing_and_cyclic_models_do_not_resolve() {
    let mut assets = LoadedAssets::new();
    assert!(assets.add_block_model("block/a".to_string(), model(Some("block/b"), &[], None)));
    assert!(assets.add_block_model("block/b".to_string(), model(Some("block/a"), &[], None)));
    assert!(assets.add_block_model("block/c".to_string(), model(Some("block/none"), &[], None)));
    assert!(assets.get_block_model("block/a").is_none());
    assert!(assets.get_block_model("block/c").is_none());
    assert!(assets.get_block_model("block/zzz").is_none());
}

#[test]
fn cyclic_texture_references_fail() {
    let mut assets = LoadedAssets::new();
    assert!(assets.add_block_model(
        "block/loop".to_string(),
        model(None, &[("a", "#b"), ("b", "#a")], Some(vec![])),
    ));
    let m = assets.get_block_model("block/loop").unwrap();
    assert_eq!(m.get_texture("#a"), None);
}

#[test]
fn out_of_bounds_model_is_refused() {
    let mut assets = LoadedAssets::new();
    assert!(!assets.add_block_model("block/big".to_string(), model(None, &[], Some(vec![cube(0, 257, "#x")]))));
    assert!(assets.get_block_model("block/big").is_none());
}

#[test]
fn adding_a_model_again_replaces_it() {
    let mut assets = LoadedAssets::new();
    assert!(assets.add_block_model("block/m".to_string(), model(None, &[], None)));
    assert!(assets.add_block_model("block/m".to_string(), model(None, &[], Some(vec![cube(0, 128, "#x")]))));
    assert_eq!(assets.block_models.len(), 1);
    let m = assets.get_block_model("block/m").unwrap();
    assert_eq!(m.elements().unwrap()[0].to.y, 128);
}

#[test]
fn block_states_are_found_by_name() {
    let mut assets = LoadedAssets::new();
    assets.add_block_state("block/stone".to_string(), BlockRenderState::MultiPart);
    assert!(assets.get_block_state("block/stone").is_some());
    assert!(assets.get_block_state("block/dirt").is_none());
}

#[test]
fn texture_indices_are_allocated_in_order() {
    let mut t = TextureIdMap::new();
    assert_eq!(t.add("block/dirt".to_string()), 0);
    assert_eq!(t.add("block/stone".to_string()), 1);
    assert_eq!(t.add("block/dirt".to_string()), 0);
    assert_eq!(t.texture_id("block/stone"), Some(1));
    assert_eq!(t.texture_id("block/sand"), None);
}

#[test]
fn asset_keys_come_from_json_paths() {
    assert_eq!(asset_key("block/", "stone.json", ".json"), Some("block/stone".to_string()));
    assert_eq!(asset_key("block/", "sub/oak.json", ".json"), Some("block/sub/oak".to_string()));
    assert_eq!(asset_key("block/", "stone.png", ".json"), None);
    assert_eq!(asset_key("", "block/stone.png", ".png"), Some("block/stone".to_string()));
    assert_eq!(asset_key("block/", ".json", ".json"), None);
    assert_eq!(asset_key("block/", "dir/.json", ".json"), None);
}

#[test]
fn cube_faces_by_direction() {
    let mut c = cube(0, 256, "#all");
    c.north = None;
    assert!(c.face(Direction::North).is_none());
    assert_eq!(c.face(Direction::Up).unwrap().texture, "#all");
}

#[test]
fn new_textures_take_the_next_index_and_keep_the_others() {
    let mut assets = LoadedAssets::new();
    assert_eq!(assets.add_texture("block/a".to_string()), 0);
    assert_eq!(assets.add_texture("item/b".to_string()), 1);
    assert_eq!(assets.add_texture("block/a".to_string()), 0);
    assert_eq!(assets.add_texture("block/c".to_string()), 2);
    assert_eq!(assets.texture_id("block/a"), Some(0));
    assert_eq!(assets.texture_id("item/b"), Some(1));
    assert_eq!(assets.textures.names.len(), 3);
}
