//! The three parameter rows that the graph is built from.
use vstd::prelude::*;

use crate::records::SearchField;
use crate::traits::Searchable;

verus! {

/// A row of the player attack parameter table.
#[derive(Debug)]
pub struct AtkParamPc {
    /// Row identifier.
    pub id: i64,
    /// Attack parameter name.
    pub name: String,
    /// Physical damage.
    pub atk_phys: i64,
    /// Magic damage.
    pub atk_mag: i64,
    /// Fire damage.
    pub atk_fire: i64,
    /// Lightning damage.
    pub atk_thun: i64,
    /// Holy damage.
    pub atk_dark: i64,
    /// Stamina damage.
    pub atk_stam: i64,
    /// Poise damage.
    pub atk_super_armor: i64,
}

impl Clone for AtkParamPc {
    fn clone(&self) -> (r: Self)
        ensures
            r == *self,
    {
        AtkParamPc {
            id: self.id,
            name: self.name.clone(),
            atk_phys: self.atk_phys,
            atk_mag: self.atk_mag,
            atk_fire: self.atk_fire,
            atk_thun: self.atk_thun,
            atk_dark: self.atk_dark,
            atk_stam: self.atk_stam,
            atk_super_armor: self.atk_super_armor,
        }
    }
}

impl Searchable for AtkParamPc {
    open spec fn matches_spec(&self, search_field: SearchField) -> bool {
        match search_field {
            SearchField::Name(name) => self.name@ == name@,
            SearchField::ID(id) => self.id == id,
        }
    }

    fn matches(&self, search_field: &SearchField) -> (r: bool) {
        match search_field {
            SearchField::Name(name) => self.name == *name,
            SearchField::ID(id) => self.id == *id,
        }
    }
}

/// A row of the bullet parameter table.
#[derive(Debug)]
pub struct Bullet {
    /// Row identifier.
    pub id: i64,
    /// Bullet name.
    pub name: String,
    /// Attack parameter row; values up to `1` mean none.
    pub atk_id_bullet: i64,
    /// Damage hit duration, as its value reads in the table.
    pub dmg_hit_record_life_time: String,
    /// Bullet emitted at intervals; negative when none, `-1` in the table's convention.
    pub interval_create_bullet_id: i64,
    /// Shortest emission interval, as its value reads in the table.
    pub interval_create_time_min: String,
    /// Longest emission interval, as its value reads in the table.
    pub interval_create_time_max: String,
    /// Bullet created on hit; negative when none.
    pub hit_bullet_id: i64,
    /// Launch condition type.
    pub launch_condition_type: i64,
}

impl Clone for Bullet {
    fn clone(&self) -> (r: Self)
        ensures
            r == *self,
    {
        Bullet {
            id: self.id,
            name: self.name.clone(),
            atk_id_bullet: self.atk_id_bullet,
            dmg_hit_record_life_time: self.dmg_hit_record_life_time.clone(),
            interval_create_bullet_id: self.interval_create_bullet_id,
            interval_create_time_min: self.interval_create_time_min.clone(),
            interval_create_time_max: self.interval_create_time_max.clone(),
            hit_bullet_id: self.hit_bullet_id,
            launch_condition_type: self.launch_condition_type,
        }
    }
}

impl Searchable for Bullet {
    open spec fn matches_spec(&self, search_field: SearchField) -> bool {
        match search_field {
            SearchField::Name(name) => self.name@ == name@,
            SearchField::ID(id) => self.id == id,
        }
    }

    fn matches(&self, search_field: &SearchField) -> (r: bool) {
        match search_field {
            SearchField::Name(name) => self.name == *name,
            SearchField::ID(id) => self.id == *id,
        }
    }
}

/// A row of the spell table.
#[derive(Debug)]
pub struct Magic {
    /// Row identifier.
    pub id: i64,
    /// Spell name.
    pub name: String,
    /// FP cost of a default cast.
    pub mp: i64,
    /// Stamina cost of a default cast.
    pub stamina: i64,
    /// FP cost of a charged cast.
    pub mp_charge: i64,
    /// Stamina cost of a charged cast.
    pub stamina_charge: i64,
    /// Arcane requirement.
    pub requirement_luck: i64,
    /// Intelligence requirement.
    pub requirement_intellect: i64,
    /// Faith requirement.
    pub requirement_faith: i64,
    /// FP per tick shown in the menu; `-1` when the spell has none.
    pub consume_loop_mp_for_menu: i64,
    /// Kind of the first reference (`1` names a bullet).
    pub ref_category1: i64,
    pub ref_category2: i64,
    pub ref_category3: i64,
    pub ref_category4: i64,
    pub ref_category5: i64,
    pub ref_category6: i64,
    pub ref_category7: i64,
    pub ref_category8: i64,
    pub ref_category9: i64,
    pub ref_category10: i64,
    /// Identifier of the first referenced row.
    pub ref_id1: i64,
    pub ref_id2: i64,
    pub ref_id3: i64,
    pub ref_id4: i64,
    pub ref_id5: i64,
    pub ref_id6: i64,
    pub ref_id7: i64,
    pub ref_id8: i64,
    pub ref_id9: i64,
    pub ref_id10: i64,
    /// Consumption type of the first reference.
    pub consume_type1: i64,
    pub consume_type2: i64,
    pub consume_type3: i64,
    pub consume_type4: i64,
    pub consume_type5: i64,
    pub consume_type6: i64,
    pub consume_type7: i64,
    pub consume_type8: i64,
    pub consume_type9: i64,
    pub consume_type10: i64,
}

impl Clone for Magic {
    fn clone(&self) -> (r: Self)
        ensures
            r == *self,
    {
        Magic {
            id: self.id,
            name: self.name.clone(),
            mp: self.mp,
            stamina: self.stamina,
            mp_charge: self.mp_charge,
            stamina_charge: self.stamina_charge,
            requirement_luck: self.requirement_luck,
            requirement_intellect: self.requirement_intellect,
            requirement_faith: self.requirement_faith,
            consume_loop_mp_for_menu: self.consume_loop_mp_for_menu,
            ref_category1: self.ref_category1,
            ref_category2: self.ref_category2,
            ref_category3: self.ref_category3,
            ref_category4: self.ref_category4,
            ref_category5: self.ref_category5,
            ref_category6: self.ref_category6,
            ref_category7: self.ref_category7,
            ref_category8: self.ref_category8,
            ref_category9: self.ref_category9,
            ref_category10: self.ref_category10,
            ref_id1: self.ref_id1,
            ref_id2: self.ref_id2,
            ref_id3: self.ref_id3,
            ref_id4: self.ref_id4,
            ref_id5: self.ref_id5,
            ref_id6: self.ref_id6,
            ref_id7: self.ref_id7,
            ref_id8: self.ref_id8,
            ref_id9: self.ref_id9,
            ref_id10: self.ref_id10,
            consume_type1: self.consume_type1,
            consume_type2: self.consume_type2,
            consume_type3: self.consume_type3,
            consume_type4: self.consume_type4,
            consume_type5: self.consume_type5,
            consume_type6: self.consume_type6,
            consume_type7: self.consume_type7,
            consume_type8: self.consume_type8,
            consume_type9: self.consume_type9,
            consume_type10: self.consume_type10,
        }
    }
}

impl Searchable for Magic {
    open spec fn matches_spec(&self, search_field: SearchField) -> bool {
        match search_field {
            SearchField::Name(name) => self.name@ == name@,
            SearchField::ID(id) => self.id == id,
        }
    }

    fn matches(&self, search_field: &SearchField) -> (r: bool) {
        match search_field {
            SearchField::Name(name) => self.name == *name,
            SearchField::ID(id) => self.id == *id,
        }
    }
}

}
