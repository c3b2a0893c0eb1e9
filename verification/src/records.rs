//! Records of the three tables, and how they are searched.
use vstd::prelude::*;

use crate::error::RecordConversionError;
use crate::models::{AtkParamPc, Bullet, Magic};
use crate::text::{int_text, push_int};

verus! {

/// The kind of a [`Record`].
#[derive(Debug, Clone, Copy, PartialEq, Eq, Structural)]
pub enum RecordKind {
    AtkParamPc,
    Bullet,
    Magic,
}

/// The parameter tables that can be searched.
#[derive(Debug, Clone, Copy, PartialEq, Eq, Structural)]
pub enum Param {
    AtkParamPC,
    Bullet,
    Magic,
}

/// A row of any of the three tables.
#[derive(Debug)]
pub enum Record {
    AtkParamPC(AtkParamPc),
    Bullet(Bullet),
    Magic(Magic),
}

/// What a search looks for: a row's name or its identifier.
#[derive(Debug)]
pub enum SearchField {
    Name(String),
    ID(i64),
}

impl Clone for SearchField {
    fn clone(&self) -> (r: Self)
        ensures
            r == *self,
    {
        match self {
            SearchField::Name(name) => SearchField::Name(name.clone()),
            SearchField::ID(id) => SearchField::ID(*id),
        }
    }
}

/// The kind of a record.
pub open spec fn kind_of(record: Record) -> RecordKind {
    match record {
        Record::AtkParamPC(_) => RecordKind::AtkParamPc,
        Record::Bullet(_) => RecordKind::Bullet,
        Record::Magic(_) => RecordKind::Magic,
    }
}

/// The text that describes a search in an error message.
pub open spec fn description_text(search_field: SearchField) -> Seq<char> {
    match search_field {
        SearchField::Name(name) => "name = "@ + name@,
        SearchField::ID(id) => "id = "@ + int_text(id as int),
    }
}

/// The spell in a record, or the error that names the record's kind.
pub open spec fn magic_from_record(record: Record) -> Result<Magic, RecordConversionError> {
    match record {
        Record::Magic(magic) => Ok(magic),
        other => Err(RecordConversionError::ExpectedMagic(kind_of(other))),
    }
}

/// The bullet in a record, or the error that names the record's kind.
pub open spec fn bullet_from_record(record: Record) -> Result<Bullet, RecordConversionError> {
    match record {
        Record::Bullet(bullet) => Ok(bullet),
        other => Err(RecordConversionError::ExpectedBullet(kind_of(other))),
    }
}

/// The attack parameters in a record, or the error that names the record's kind.
pub open spec fn atk_param_from_record(record: Record) -> Result<AtkParamPc, RecordConversionError> {
    match record {
        Record::AtkParamPC(atk_param_pc) => Ok(atk_param_pc),
        other => Err(RecordConversionError::ExpectedAtkParamPc(kind_of(other))),
    }
}

impl Record {
    pub fn kind(&self) -> (k: RecordKind)
        ensures
            k == kind_of(*self),
    {
        match self {
            Record::AtkParamPC(_) => RecordKind::AtkParamPc,
            Record::Bullet(_) => RecordKind::Bullet,
            Record::Magic(_) => RecordKind::Magic,
        }
    }
}

impl SearchField {
    /// `name = <name>` or `id = <id>`.
    pub fn description(&self) -> (s: String)
        ensures
            s@ == description_text(*self),
    {
        match self {
            SearchField::Name(name) => {
                let mut s = String::new();
                s.append("name = ");
                s.append(name.as_str());
                s
            },
            SearchField::ID(id) => {
                let mut s = String::new();
                s.append("id = ");
                push_int(&mut s, *id);
                s
            },
        }
    }
}

impl TryFrom<Record> for Magic {
    type Error = RecordConversionError;

    fn try_from(record: Record) -> (r: Result<Self, Self::Error>)
        ensures
            r == magic_from_record(record),
    {
        match record {
            Record::Magic(magic) => Ok(magic),
            other => Err(RecordConversionError::ExpectedMagic(other.kind())),
        }
    }
}

impl vstd::std_specs::convert::TryFromSpecImpl<Record> for Magic {
    open spec fn obeys_try_from_spec() -> bool {
        true
    }

    open spec fn try_from_spec(record: Record) -> Result<Self, RecordConversionError> {
        magic_from_record(record)
    }
}

impl TryFrom<Record> for Bullet {
    type Error = RecordConversionError;

    fn try_from(record: Record) -> (r: Result<Self, Self::Error>)
        ensures
            r == bullet_from_record(record),
    {
        match record {
            Record::Bullet(bullet) => Ok(bullet),
            other => Err(RecordConversionError::ExpectedBullet(other.kind())),
        }
    }
}

impl vstd::std_specs::convert::TryFromSpecImpl<Record> for Bullet {
    open spec fn obeys_try_from_spec() -> bool {
        true
    }

    open spec fn try_from_spec(record: Record) -> Result<Self, RecordConversionError> {
        bullet_from_record(record)
    }
}

impl TryFrom<Record> for AtkParamPc {
    type Error = RecordConversionError;

    fn try_from(record: Record) -> (r: Result<Self, Self::Error>)
        ensures
            r == atk_param_from_record(record),
    {
        match record {
            Record::AtkParamPC(atk_param_pc) => Ok(atk_param_pc),
            other => Err(RecordConversionError::ExpectedAtkParamPc(other.kind())),
        }
    }
}

impl vstd::std_specs::convert::TryFromSpecImpl<Record> for AtkParamPc {
    open spec fn obeys_try_from_spec() -> bool {
        true
    }

    open spec fn try_from_spec(record: Record) -> Result<Self, RecordConversionError> {
        atk_param_from_record(record)
    }
}

}
