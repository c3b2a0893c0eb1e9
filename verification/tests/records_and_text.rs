use wiki_tools::graph_output::escape_dot;
use wiki_tools::records::{Param, Record, RecordKind, SearchField};
use wiki_tools::error::RecordConversionError;
use wiki_tools::graph::BulletRelation;
use wiki_tools::models::{AtkParamPc, Bullet, Magic};
use wiki_tools::text::int_string;
use wiki_tools::setup::clean_exported_csv;
use wiki_tools::{spell_name_from_args, AppError};

fn bullet(id: i64, name: &str) -> Bullet {
    Bullet {
        id,
        name: name.to_string(),
        atk_id_bullet: 0,
        dmg_hit_record_life_time: "0".to_string(),
        interval_create_bullet_id: -1,
        interval_create_time_min: "0".to_string(),
        interval_create_time_max: "0".to_string(),
        hit_bullet_id: -1,
        launch_condition_type: 0,
    }
}

fn atk(id: i64, name: &str) -> AtkParamPc {
    AtkParamPc {
        id,
        name: name.to_string(),
        atk_phys: 1,
        atk_mag: 2,
        atk_fire: 3,
        atk_thun: 4,
        atk_dark: 5,
        atk_stam: 6,
        atk_super_armor: 7,
    }
}

fn magic(id: i64, name: &str) -> Magic {
    Magic {
        id,
        name: name.to_string(),
        mp: 0,
        stamina: 0,
        mp_charge: 0,
        stamina_charge: 0,
        requirement_luck: 0,
        requirement_intellect: 0,
        requirement_faith: 0,
        consume_loop_mp_for_menu: -1,
        ref_category1: 0,
        ref_category2: 0,
        ref_category3: 0,
        ref_category4: 0,
        ref_category5: 0,
        ref_category6: 0,
        ref_category7: 0,
        ref_category8: 0,
        ref_category9: 0,
        ref_category10: 0,
        ref_id1: 0,
        ref_id2: 0,
        ref_id3: 0,
        ref_id4: 0,
        ref_id5: 0,
        ref_id6: 0,
        ref_id7: 0,
        ref_id8: 0,
        ref_id9: 0,
        ref_id10: 0,
        consume_type1: 0,
        consume_type2: 0,
        consume_type3: 0,
        consume_type4: 0,
        consume_type5: 0,
        consume_type6: 0,
        consume_type7: 0,
        consume_type8: 0,
        consume_type9: 0,
        consume_type10: 0,
    }
}

#[test]
fn description_of_name_search() {
    let field = SearchField::Name("Glintstone Pebble".to_string());
    assert_eq!(field.description(), "name = Glintstone Pebble");
}

#[test]
fn description_of_id_search() {
    assert_eq!(SearchField::ID(4000).description(), "id = 4000");
    assert_eq!(SearchField::ID(0).description(), "id = 0");
    assert_eq!(SearchField::ID(-17).description(), "id = -17");
    assert_eq!(SearchField::ID(i64::MIN).description(), "id = -9223372036854775808");
    assert_eq!(SearchField::ID(i64::MAX).description(), "id = 9223372036854775807");
}

#[test]
fn integer_text_matches_display() {
    for n in [0i64, 1, 9, 10, 99, 100, 123456789, -1, -10, -987654321, i64::MIN, i64::MAX] {
        assert_eq!(int_string(n), n.to_string());
    }
}

#[test]
fn relation_labels() {
    assert_eq!(BulletRelation::MagicReference { reference_index: 3 }.label(), "magic ref_id3");
    assert_eq!(BulletRelation::MagicReference { reference_index: 10 }.label(), "magic ref_id10");
    assert_eq!(BulletRelation::IntervalEmitter.label(), "emits");
    assert_eq!(BulletRelation::HitBullet.label(), "on hit creates");
}

#[test]
fn escape_dot_escapes_backslash_quote_newline() {
    assert_eq!(escape_dot("plain"), "plain");
    assert_eq!(escape_dot("a\\b"), "a\\\\b");
    assert_eq!(escape_dot("say \"hi\""), "say \\\"hi\\\"");
    assert_eq!(escape_dot("two\nlines"), "two\\nlines");
    assert_eq!(escape_dot(""), "");
    assert_eq!(escape_dot("\\\"\n"), "\\\\\\\"\\n");
    assert_eq!(escape_dot("Löwe ☆"), "Löwe ☆");
}

#[test]
fn escape_dot_matches_sequential_replacements() {
    for s in ["", "x", "\\", "\"", "\n", "a\\\"b\nc", "\\n", "\"\"\\\\"] {
        let expected = s.replace('\\', "\\\\").replace('"', "\\\"").replace('\n', "\\n");
        assert_eq!(escape_dot(s), expected);
    }
}

#[test]
fn escaped_text_has_no_newline_and_quotes_are_escaped() {
    for s in ["a\nb\n", "\"\n\"", "\\\"x\"\n\\"] {
        let e = escape_dot(s);
        assert!(!e.contains('\n'));
        let chars: Vec<char> = e.chars().collect();
        for (i, c) in chars.iter().enumerate() {
            if *c == '"' {
                assert!(i > 0 && chars[i - 1] == '\\');
            }
        }
    }
}

#[test]
fn record_kind_of_each_record() {
    assert_eq!(Record::Magic(magic(1, "m")).kind(), RecordKind::Magic);
    assert_eq!(Record::Bullet(bullet(1, "b")).kind(), RecordKind::Bullet);
    assert_eq!(Record::AtkParamPC(atk(1, "a")).kind(), RecordKind::AtkParamPc);
}

#[test]
fn try_from_record_gives_back_the_row() {
    let m = Magic::try_from(Record::Magic(magic(5, "Spell"))).unwrap();
    assert_eq!(m.id, 5);
    assert_eq!(m.name, "Spell");
    let b = Bullet::try_from(Record::Bullet(bullet(6, "Shot"))).unwrap();
    assert_eq!(b.id, 6);
    let a = AtkParamPc::try_from(Record::AtkParamPC(atk(7, "Hit"))).unwrap();
    assert_eq!(a.id, 7);
}

#[test]
fn try_from_record_of_another_kind_fails() {
    match Magic::try_from(Record::Bullet(bullet(6, "Shot"))) {
        Err(RecordConversionError::ExpectedMagic(RecordKind::Bullet)) => {}
        other => panic!("unexpected {:?}", other),
    }
    match Bullet::try_from(Record::AtkParamPC(atk(7, "Hit"))) {
        Err(RecordConversionError::ExpectedBullet(RecordKind::AtkParamPc)) => {}
        other => panic!("unexpected {:?}", other),
    }
    match AtkParamPc::try_from(Record::Magic(magic(5, "Spell"))) {
        Err(RecordConversionError::ExpectedAtkParamPc(RecordKind::Magic)) => {}
        other => panic!("unexpected {:?}", other),
    }
}

#[test]
fn params_compare() {
    assert_eq!(Param::Bullet, Param::Bullet);
    assert_ne!(Param::Bullet, Param::Magic);
}

#[test]
fn clean_csv_drops_header_comma() {
    assert_eq!(clean_exported_csv("ID,Name,\n1,a\n2,b\n"), "ID,Name\n1,a\n2,b");
}

#[test]
fn clean_csv_keeps_header_without_comma() {
    assert_eq!(clean_exported_csv("ID,Name\n1,a,"), "ID,Name\n1,a,");
}

#[test]
fn clean_csv_handles_crlf_and_empty_lines() {
    assert_eq!(clean_exported_csv("ID,\r\n1\r\n\r\n2"), "ID\n1\n\n2");
    assert_eq!(clean_exported_csv("a\r"), "a\r");
    assert_eq!(clean_exported_csv("a,\r"), "a,\r");
}

#[test]
fn clean_csv_of_empty_text() {
    assert_eq!(clean_exported_csv(""), "");
    assert_eq!(clean_exported_csv("\n"), "");
    assert_eq!(clean_exported_csv(","), "");
    assert_eq!(clean_exported_csv("\n\n"), "\n");
}

#[test]
fn clean_csv_matches_lines_join() {
    for s in ["h,\nx\ny", "h,,\r\nx\r\n", "\nh", "h\n\nx\n", "a,\rb\r\n"] {
        let mut lines = s.lines();
        let header = lines.next().unwrap_or("");
        let header = header.strip_suffix(',').unwrap_or(header);
        let expected = std::iter::once(header).chain(lines).collect::<Vec<_>>().join("\n");
        assert_eq!(clean_exported_csv(s), expected);
    }
}

#[test]
fn args_with_one_spell_name() {
    let args = vec!["wiki-tools".to_string(), "Glintstone Pebble".to_string()];
    assert_eq!(spell_name_from_args(args).unwrap(), "Glintstone Pebble");
}

#[test]
fn args_without_spell_name() {
    match spell_name_from_args(vec!["wiki-tools".to_string()]) {
        Err(AppError::NoArgs) => {}
        other => panic!("unexpected {:?}", other),
    }
    match spell_name_from_args(vec![]) {
        Err(AppError::NoArgs) => {}
        other => panic!("unexpected {:?}", other),
    }
}

#[test]
fn args_with_too_many_arguments() {
    let args = vec!["wiki-tools".to_string(), "a".to_string(), "b".to_string()];
    match spell_name_from_args(args.clone()) {
        Err(AppError::UnexpectedArgs { args: given }) => assert_eq!(given, args),
        other => panic!("unexpected {:?}", other),
    }
}

#[test]
fn escape_dot_keeps_distinct_texts_distinct() {
    let texts = ["\\n", "\n", "\\\"", "\"", "\\\\", "\\", "n", ""];
    for (i, a) in texts.iter().enumerate() {
        for (j, b) in texts.iter().enumerate() {
            assert_eq!(escape_dot(a) == escape_dot(b), i == j);
        }
    }
}

#[test]
fn clean_csv_leaves_clean_text_unchanged() {
    for s in ["ID,Name\n1,a\n2,b", "", "only", "h\n\nx", "a\rb\nc,"] {
        assert_eq!(clean_exported_csv(s), s);
    }
}
