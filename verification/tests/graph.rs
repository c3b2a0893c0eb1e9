use wiki_tools::csv_io::{find_record, load_record, load_records, ParamTables};
use wiki_tools::error::CsvError;
use wiki_tools::graph::{BulletEdge, BulletNode, BulletRelation};
use wiki_tools::graph_output::{write_bullet_text, write_dot_edge};
use wiki_tools::models::{AtkParamPc, Bullet, Magic};
use wiki_tools::records::{Param, Record, SearchField};
use wiki_tools::{build_magic_graph, find_atk_param_pc, find_bullet, find_magic, AppError, MagicGraph};

fn bullet(id: i64, name: &str, atk: i64, interval: i64, hit: i64) -> Bullet {
    Bullet {
        id,
        name: name.to_string(),
        atk_id_bullet: atk,
        dmg_hit_record_life_time: "0.5".to_string(),
        interval_create_bullet_id: interval,
        interval_create_time_min: "0.2".to_string(),
        interval_create_time_max: "0.4".to_string(),
        hit_bullet_id: hit,
        launch_condition_type: 0,
    }
}

fn atk(id: i64, name: &str) -> AtkParamPc {
    AtkParamPc {
        id,
        name: name.to_string(),
        atk_phys: 0,
        atk_mag: 120,
        atk_fire: 0,
        atk_thun: 0,
        atk_dark: 0,
        atk_stam: 5,
        atk_super_armor: 10,
    }
}

fn magic(id: i64, name: &str, refs: &[(i64, i64, i64)]) -> Magic {
    let slot = |i: usize| refs.get(i).copied().unwrap_or((0, 0, 0));
    Magic {
        id,
        name: name.to_string(),
        mp: 7,
        stamina: 10,
        mp_charge: 8,
        stamina_charge: 12,
        requirement_luck: 0,
        requirement_intellect: 10,
        requirement_faith: 0,
        consume_loop_mp_for_menu: -1,
        ref_category1: slot(0).0,
        ref_category2: slot(1).0,
        ref_category3: slot(2).0,
        ref_category4: slot(3).0,
        ref_category5: slot(4).0,
        ref_category6: slot(5).0,
        ref_category7: slot(6).0,
        ref_category8: slot(7).0,
        ref_category9: slot(8).0,
        ref_category10: slot(9).0,
        ref_id1: slot(0).1,
        ref_id2: slot(1).1,
        ref_id3: slot(2).1,
        ref_id4: slot(3).1,
        ref_id5: slot(4).1,
        ref_id6: slot(5).1,
        ref_id7: slot(6).1,
        ref_id8: slot(7).1,
        ref_id9: slot(8).1,
        ref_id10: slot(9).1,
        consume_type1: slot(0).2,
        consume_type2: slot(1).2,
        consume_type3: slot(2).2,
        consume_type4: slot(3).2,
        consume_type5: slot(4).2,
        consume_type6: slot(5).2,
        consume_type7: slot(6).2,
        consume_type8: slot(7).2,
        consume_type9: slot(8).2,
        consume_type10: slot(9).2,
    }
}

fn csv_error(message: &str) -> CsvError {
    CsvError { message: message.to_string() }
}

/// A spell whose first slot names bullet 200; 200 hits into 201, which emits 200 again.
fn pebble_tables() -> ParamTables {
    let mut burst = bullet(201, "Burst", 0, 200, -1);
    burst.dmg_hit_record_life_time = "1".to_string();
    burst.launch_condition_type = 2;
    ParamTables {
        atk_params: vec![Ok(atk(300, "Pebble Atk"))],
        bullets: vec![Ok(bullet(200, "Pebble", 300, -1, 201)), Ok(burst)],
        magic: vec![Ok(magic(100, "Glintstone Pebble", &[(1, 200, 0), (0, 999, 0)]))],
    }
}

fn check_branch(node: &BulletNode, ancestors: &mut Vec<i64>) {
    if node.is_cycle {
        assert!(ancestors.contains(&node.id));
        assert!(node.value.is_none() && node.children.is_empty());
    } else {
        assert!(!ancestors.contains(&node.id));
        assert_eq!(node.value.as_ref().unwrap().id, node.id);
        ancestors.push(node.id);
        for edge in &node.children {
            check_branch(&edge.child, ancestors);
        }
        ancestors.pop();
    }
}

#[test]
fn find_bullet_returns_first_match() {
    let tables = ParamTables {
        atk_params: vec![],
        bullets: vec![Ok(bullet(1, "a", 0, -1, -1)), Ok(bullet(2, "b", 0, -1, -1)), Ok(bullet(2, "c", 0, -1, -1))],
        magic: vec![],
    };
    let found = find_bullet(&tables, &SearchField::ID(2)).unwrap();
    assert_eq!(found.name, "b");
    let by_name = find_bullet(&tables, &SearchField::Name("c".to_string())).unwrap();
    assert_eq!(by_name.id, 2);
}

#[test]
fn find_bullet_not_found_names_table_and_search() {
    let tables = ParamTables { atk_params: vec![], bullets: vec![Ok(bullet(1, "a", 0, -1, -1))], magic: vec![] };
    match find_bullet(&tables, &SearchField::ID(99)) {
        Err(AppError::NotFound { record_type, field }) => {
            assert_eq!(record_type, "Bullet");
            assert_eq!(field, "id = 99");
        }
        other => panic!("unexpected {:?}", other),
    }
    match find_magic(&tables, &SearchField::Name("Nothing".to_string())) {
        Err(AppError::NotFound { record_type, field }) => {
            assert_eq!(record_type, "Magic");
            assert_eq!(field, "name = Nothing");
        }
        other => panic!("unexpected {:?}", other),
    }
    match find_atk_param_pc(&tables, &SearchField::ID(3)) {
        Err(AppError::NotFound { record_type, field }) => {
            assert_eq!(record_type, "AtkParam_Pc");
            assert_eq!(field, "id = 3");
        }
        other => panic!("unexpected {:?}", other),
    }
}

#[test]
fn unreadable_row_before_match_is_reported() {
    let tables = ParamTables {
        atk_params: vec![],
        bullets: vec![Ok(bullet(1, "a", 0, -1, -1)), Err(csv_error("bad row 2")), Ok(bullet(2, "b", 0, -1, -1))],
        magic: vec![],
    };
    match find_bullet(&tables, &SearchField::ID(2)) {
        Err(AppError::Csv(e)) => assert_eq!(e.message, "bad row 2"),
        other => panic!("unexpected {:?}", other),
    }
    assert_eq!(find_bullet(&tables, &SearchField::ID(1)).unwrap().name, "a");
}

#[test]
fn load_record_and_records() {
    let rows = vec![Ok(bullet(1, "a", 0, -1, -1)), Ok(bullet(2, "b", 0, -1, -1)), Ok(bullet(1, "c", 0, -1, -1))];
    let first = load_record(&rows, &SearchField::ID(1)).unwrap().unwrap();
    assert_eq!(first.name, "a");
    assert!(load_record(&rows, &SearchField::ID(5)).unwrap().is_none());
    let all = load_records(&rows, &SearchField::ID(1)).unwrap();
    let names: Vec<&str> = all.iter().map(|b| b.name.as_str()).collect();
    assert_eq!(names, vec!["a", "c"]);
    let with_error = vec![Ok(bullet(1, "a", 0, -1, -1)), Err(csv_error("late"))];
    match load_records(&with_error, &SearchField::ID(1)) {
        Err(e) => assert_eq!(e.message, "late"),
        Ok(_) => panic!("expected the row error"),
    }
}

#[test]
fn find_record_wraps_each_kind() {
    let tables = pebble_tables();
    match find_record(&tables, Param::Magic, &SearchField::ID(100)).unwrap() {
        Some(Record::Magic(m)) => assert_eq!(m.name, "Glintstone Pebble"),
        other => panic!("unexpected {:?}", other),
    }
    match find_record(&tables, Param::Bullet, &SearchField::Name("Burst".to_string())).unwrap() {
        Some(Record::Bullet(b)) => assert_eq!(b.id, 201),
        other => panic!("unexpected {:?}", other),
    }
    match find_record(&tables, Param::AtkParamPC, &SearchField::ID(300)).unwrap() {
        Some(Record::AtkParamPC(a)) => assert_eq!(a.name, "Pebble Atk"),
        other => panic!("unexpected {:?}", other),
    }
    assert!(find_record(&tables, Param::Bullet, &SearchField::ID(7)).unwrap().is_none());
}

#[test]
fn build_follows_references_and_marks_cycles() {
    let tables = pebble_tables();
    let graph = MagicGraph::build(&tables, 100).unwrap();
    assert_eq!(graph.magic.id, 100);
    assert_eq!(graph.bullets.len(), 1);
    let edge = &graph.bullets[0];
    assert_eq!(edge.relation, BulletRelation::MagicReference { reference_index: 1 });
    let pebble = &edge.child;
    assert_eq!(pebble.id, 200);
    assert_eq!(pebble.cons_type, Some(0));
    assert_eq!(pebble.atk_param.as_ref().unwrap().id, 300);
    assert_eq!(pebble.children.len(), 1);
    assert_eq!(pebble.children[0].relation, BulletRelation::HitBullet);
    let burst = &pebble.children[0].child;
    assert_eq!(burst.id, 201);
    assert_eq!(burst.cons_type, None);
    assert!(burst.atk_param.is_none());
    assert_eq!(burst.children.len(), 1);
    assert_eq!(burst.children[0].relation, BulletRelation::IntervalEmitter);
    let back = &burst.children[0].child;
    assert!(back.is_cycle);
    assert_eq!(back.id, 200);
    check_branch(pebble, &mut Vec::new());
}

#[test]
fn build_keeps_reference_slot_order() {
    let tables = ParamTables {
        atk_params: vec![],
        bullets: vec![Ok(bullet(1, "a", 0, -1, -1)), Ok(bullet(2, "b", 1, -1, -1))],
        magic: vec![Ok(magic(9, "Two", &[(0, 1, 0), (1, 2, 4), (2, 1, 0), (1, 1, 6)]))],
    };
    let graph = MagicGraph::build(&tables, 9).unwrap();
    let refs: Vec<(BulletRelation, i64, Option<i64>)> =
        graph.bullets.iter().map(|e| (e.relation, e.child.id, e.child.cons_type)).collect();
    assert_eq!(
        refs,
        vec![
            (BulletRelation::MagicReference { reference_index: 2 }, 2, Some(4)),
            (BulletRelation::MagicReference { reference_index: 4 }, 1, Some(6)),
        ]
    );
    assert!(graph.bullets[0].child.atk_param.is_none());
}

#[test]
fn bullet_that_creates_itself_is_a_cycle() {
    let tables = ParamTables {
        atk_params: vec![],
        bullets: vec![Ok(bullet(5, "loop", 0, 5, 5))],
        magic: vec![Ok(magic(1, "Loop", &[(1, 5, 0)]))],
    };
    let graph = MagicGraph::build(&tables, 1).unwrap();
    let node = &graph.bullets[0].child;
    assert_eq!(node.children.len(), 2);
    assert!(node.children.iter().all(|e| e.child.is_cycle && e.child.id == 5));
}

#[test]
fn build_reports_missing_bullet() {
    let tables = ParamTables {
        atk_params: vec![],
        bullets: vec![Ok(bullet(5, "a", 0, -1, 77))],
        magic: vec![Ok(magic(1, "Broken", &[(1, 5, 0)]))],
    };
    match MagicGraph::build(&tables, 1) {
        Err(AppError::NotFound { record_type, field }) => {
            assert_eq!(record_type, "Bullet");
            assert_eq!(field, "id = 77");
        }
        other => panic!("unexpected {:?}", other),
    }
}

#[test]
fn build_reports_missing_attack_params() {
    let tables = ParamTables {
        atk_params: vec![],
        bullets: vec![Ok(bullet(5, "a", 42, -1, -1))],
        magic: vec![Ok(magic(1, "Broken", &[(1, 5, 0)]))],
    };
    match MagicGraph::build(&tables, 1) {
        Err(AppError::NotFound { record_type, field }) => {
            assert_eq!(record_type, "AtkParam_Pc");
            assert_eq!(field, "id = 42");
        }
        other => panic!("unexpected {:?}", other),
    }
}

#[test]
fn build_magic_graph_by_name() {
    let tables = pebble_tables();
    let graph = build_magic_graph(&tables, SearchField::Name("Glintstone Pebble".to_string())).unwrap();
    assert_eq!(graph.magic.id, 100);
    match build_magic_graph(&tables, SearchField::Name("Rock Sling".to_string())) {
        Err(AppError::NotFound { record_type, field }) => {
            assert_eq!(record_type, "Magic");
            assert_eq!(field, "name = Rock Sling");
        }
        other => panic!("unexpected {:?}", other),
    }
}

#[test]
fn to_dot_of_pebble_graph() {
    let graph = MagicGraph::build(&pebble_tables(), 100).unwrap();
    let expected = r#"digraph magic_graph {
    rankdir=LR;
    node [shape=box, fontname="monospace"];
    magic_100 [label="Magic 100\nGlintstone Pebble\nFP Default: 7\nStamina Default: 10\nFP Charged: 8\nStamina Charged: 12\nARC: 0\nINT: 10\nFTH: 0", shape=oval];
    bullet_200_0 [label="Bullet 200\nPebble\natkId_Bullet: 300\nConsumption Type: Some(0)", shape=box];
    magic_100 -> bullet_200_0 [label="magic ref_id1"];
    bullet_200_0_atk [label="AtkParamPc 300\nPebble Atk", shape=component];
    bullet_200_0 -> bullet_200_0_atk [label="attack params"];
    bullet_200_0_atk_damage [label="Physical: 0\nMagic: 120\nFire: 0\nLightning: 0\nHoly: 0\nStamina: 5\nPoise: 10", shape=note];
    bullet_200_0_atk -> bullet_200_0_atk_damage [label="damage"];
    bullet_201_1 [label="Bullet 201\nBurst\natkId_Bullet: 0\nConsumption Type: None \nInterval Min: 0.2 \nInterval Max: 0.4", shape=box];
    bullet_200_0 -> bullet_201_1 [label="on hit creates"];
    bullet_200_2 [label="Bullet 200\ncycle", shape=box];
    bullet_201_1 -> bullet_200_2 [label="emits"];
}
"#;
    assert_eq!(graph.to_dot(), expected);
}

#[test]
fn to_dot_shows_menu_fp_and_escapes_names() {
    let mut spell = magic(3, "Say \"Hi\"", &[]);
    spell.consume_loop_mp_for_menu = 4;
    let graph = MagicGraph { magic: spell, bullets: vec![] };
    let expected = "digraph magic_graph {\n    rankdir=LR;\n    node [shape=box, fontname=\"monospace\"];\n    magic_3 [label=\"Magic 3\\nSay \\\"Hi\\\"\\nFP Default: 7\\nStamina Default: 10\\nFP Charged: 8\\nStamina Charged: 12\\nARC: 0\\nINT: 10\\nFTH: 0\\nFP Loop Menu: 4\", shape=oval];\n}\n";
    assert_eq!(graph.to_dot(), expected);
}

#[test]
fn to_text_of_pebble_graph() {
    let graph = MagicGraph::build(&pebble_tables(), 100).unwrap();
    let expected = "Magic 100 (Glintstone Pebble)
  FP Consumption - Default: 7
  Stamina Consumption - Default: 10
  FP Consumption - Charged: 8
  Stamina Consumption - Charged: 12
  Requirement: ARC (0)
  Requirement: INT (10)
  Requirement: FTH (0)
  └─ magic ref_id1 → Bullet 200
    Name: Pebble
    atkId_Bullet: 300
    Consumption Type: Some(0)
    Damage Hit Durationb: 0.5
    └─ AtkParamPc 300 (Pebble Atk)
      Damage: Physical (0)
      Damage: Magic (120)
      Damage: Fire (0)
      Damage: Lightning (0)
      Damage: Holy (0)
      Damage: Stamina (5)
      Damage: Poise (10)
    launchConditionType: 0
    └─ on hit creates → Bullet 201
      Name: Burst
      atkId_Bullet: 0
      Consumption Type: None
      Damage Hit Durationb: 1
      Interval Min: 0.2
      Interval Max: 0.4
      launchConditionType: 2
      └─ emits → Bullet 200
         [cycle detected]
";
    assert_eq!(graph.to_text(), expected);
}

#[test]
fn to_text_shows_menu_fp() {
    let mut spell = magic(3, "Loop", &[]);
    spell.consume_loop_mp_for_menu = 0;
    let graph = MagicGraph { magic: spell, bullets: vec![] };
    let text = graph.to_text();
    assert!(text.contains("  Stamina Consumption - Charged: 12\n  FP Consumption Loop - For Menu Display: 0\n  Requirement: ARC (0)\n"));
}

#[test]
fn write_dot_edge_numbers_nodes_in_order() {
    let leaf = |id: i64| BulletNode {
        id,
        value: Some(bullet(id, "x", 0, -1, -1)),
        atk_param: None,
        cons_type: None,
        children: vec![],
        is_cycle: false,
    };
    let edge = BulletEdge {
        relation: BulletRelation::IntervalEmitter,
        child: BulletNode {
            children: vec![
                BulletEdge { relation: BulletRelation::IntervalEmitter, child: leaf(2) },
                BulletEdge { relation: BulletRelation::HitBullet, child: leaf(3) },
            ],
            ..leaf(1)
        },
    };
    let mut output = String::from("start\n");
    let mut counter = 7usize;
    write_dot_edge(&mut output, "root", &edge, &mut counter);
    assert_eq!(counter, 10);
    assert!(output.starts_with("start\n    bullet_1_7 [label=\"Bullet 1\\nx\\natkId_Bullet: 0\\nConsumption Type: None\", shape=box];\n    root -> bullet_1_7 [label=\"emits\"];\n"));
    assert!(output.contains("    bullet_1_7 -> bullet_2_8 [label=\"emits\"];\n"));
    assert!(output.ends_with("    bullet_1_7 -> bullet_3_9 [label=\"on hit creates\"];\n"));
}

#[test]
fn write_bullet_text_of_cycle_node() {
    let edge = BulletEdge {
        relation: BulletRelation::HitBullet,
        child: BulletNode { id: 4, value: None, atk_param: None, cons_type: None, children: vec![], is_cycle: true },
    };
    let mut output = String::new();
    write_bullet_text(&mut output, &edge, 2);
    assert_eq!(output, "    └─ on hit creates → Bullet 4\n       [cycle detected]\n");
}

#[test]
fn clone_copies_the_whole_graph() {
    let graph = MagicGraph::build(&pebble_tables(), 100).unwrap();
    let copy = graph.clone();
    assert_eq!(copy.to_dot(), graph.to_dot());
    assert_eq!(copy.to_text(), graph.to_text());
    let node_copy = graph.bullets[0].child.clone();
    assert_eq!(node_copy.children.len(), 1);
    assert_eq!(node_copy.children[0].child.children[0].child.id, 200);
}

#[test]
fn built_graph_branches_have_no_repeats() {
    let tables = ParamTables {
        atk_params: vec![],
        bullets: vec![
            Ok(bullet(1, "a", 0, 2, 3)),
            Ok(bullet(2, "b", 0, 3, 1)),
            Ok(bullet(3, "c", 0, 2, 1)),
        ],
        magic: vec![Ok(magic(1, "Web", &[(1, 1, 0), (1, 3, 1)]))],
    };
    let graph = MagicGraph::build(&tables, 1).unwrap();
    for edge in &graph.bullets {
        assert!(!edge.child.is_cycle);
        check_branch(&edge.child, &mut Vec::new());
    }
}
