//! Looking records up in the parameter tables.
use vstd::prelude::*;

use crate::error::{AppError, CsvError};
use crate::models::{AtkParamPc, Bullet, Magic};
use crate::records::{description_text, Param, Record, SearchField};
use crate::traits::Searchable;

verus! {

/// The rows of the three parameter tables, in file order. A row that could not
/// be read stands as the error it gave; a table that could not be opened is a
/// table whose first row is that error.
pub struct ParamTables {
    pub atk_params: Vec<Result<AtkParamPc, CsvError>>,
    pub bullets: Vec<Result<Bullet, CsvError>>,
    pub magic: Vec<Result<Magic, CsvError>>,
}

/// Reading rows in order: the first row that matches `search_field`, `None` when
/// no row does, or the error of the first unreadable row met before a match.
pub open spec fn first_match<T: Searchable>(rows: Seq<Result<T, CsvError>>, search_field: SearchField) -> Result<Option<T>, CsvError>
    decreases rows.len(),
{
    if rows.len() == 0 {
        Ok(None)
    } else {
        match rows[0] {
            Err(e) => Err(e),
            Ok(row) => if row.matches_spec(search_field) {
                Ok(Some(row))
            } else {
                first_match(rows.drop_first(), search_field)
            },
        }
    }
}

/// Reading rows in order: every row that matches `search_field`, or the error
/// of the first unreadable row.
pub open spec fn all_matches<T: Searchable>(rows: Seq<Result<T, CsvError>>, search_field: SearchField) -> Result<Seq<T>, CsvError>
    decreases rows.len(),
{
    if rows.len() == 0 {
        Ok(Seq::empty())
    } else {
        match rows.last() {
            Err(e) => match all_matches(rows.drop_last(), search_field) {
                Ok(_) => Err(e),
                Err(first) => Err(first),
            },
            Ok(row) => match all_matches(rows.drop_last(), search_field) {
                Ok(found) => if row.matches_spec(search_field) {
                    Ok(found.push(row))
                } else {
                    Ok(found)
                },
                Err(first) => Err(first),
            },
        }
    }
}

/// Why a lookup that names a record type can fail.
pub enum LookupFailure {
    /// A row before the match could not be read.
    Csv(CsvError),
    /// No row of the table named `record_type` matched the search described by `field`.
    NotFound { record_type: Seq<char>, field: Seq<char> },
}

/// `e` is the error that `f` describes.
pub open spec fn error_is(e: AppError, f: LookupFailure) -> bool {
    match f {
        LookupFailure::Csv(c) => e == AppError::Csv(c),
        LookupFailure::NotFound { record_type, field } => match e {
            AppError::NotFound { record_type: r, field: d } => r@ == record_type && d@ == field,
            _ => false,
        },
    }
}

/// `r` is the outcome that `s` describes.
pub open spec fn outcome_is<T>(r: Result<T, AppError>, s: Result<T, LookupFailure>) -> bool {
    match s {
        Ok(x) => r == Ok::<T, AppError>(x),
        Err(f) => match r {
            Err(e) => error_is(e, f),
            Ok(_) => false,
        },
    }
}

/// The outcome of looking a record up in the table called `record_type`.
pub open spec fn lookup<T: Searchable>(rows: Seq<Result<T, CsvError>>, search_field: SearchField, record_type: Seq<char>) -> Result<T, LookupFailure> {
    match first_match(rows, search_field) {
        Ok(Some(row)) => Ok(row),
        Ok(None) => Err(LookupFailure::NotFound { record_type, field: description_text(search_field) }),
        Err(e) => Err(LookupFailure::Csv(e)),
    }
}

/// Name of the attack parameter table in error messages.
pub open spec fn atk_param_table() -> Seq<char> {
    "AtkParam_Pc"@
}

/// Name of the bullet table in error messages.
pub open spec fn bullet_table() -> Seq<char> {
    "Bullet"@
}

/// Name of the spell table in error messages.
pub open spec fn magic_table() -> Seq<char> {
    "Magic"@
}

/// The first row of `rows` that matches `search_field`, reading in order and
/// stopping at the first unreadable row.
pub fn load_record<'a, T: Searchable>(rows: &'a Vec<Result<T, CsvError>>, search_field: &SearchField) -> (r: Result<Option<&'a T>, CsvError>)
    ensures
        match first_match(rows@, *search_field) {
            Ok(Some(row)) => match r {
                Ok(Some(found)) => *found == row,
                _ => false,
            },
            Ok(None) => r is Ok && r->Ok_0 is None,
            Err(e) => r == Err::<Option<&T>, CsvError>(e),
        },
{
    let mut i: usize = 0;
    assert(rows@.skip(0) =~= rows@);
    while i < rows.len()
        invariant
            i <= rows@.len(),
            first_match(rows@, *search_field) == first_match(rows@.skip(i as int), *search_field),
        decreases rows@.len() - i,
    {
        assert(rows@.skip(i as int).drop_first() =~= rows@.skip(i + 1));
        match &rows[i] {
            Err(e) => {
                return Err(e.clone());
            },
            Ok(row) => {
                if row.matches(search_field) {
                    return Ok(Some(row));
                }
            },
        }
        i = i + 1;
    }
    Ok(None)
}

/// Every row of `rows` that matches `search_field`, in order, or the error of
/// the first unreadable row.
pub fn load_records<'a, T: Searchable>(rows: &'a Vec<Result<T, CsvError>>, search_field: &SearchField) -> (r: Result<Vec<&'a T>, CsvError>)
    ensures
        match all_matches(rows@, *search_field) {
            Ok(found) => match r {
                Ok(v) => v@.len() == found.len() && forall|k: int| 0 <= k < found.len() ==> *v@[k] == found[k],
                Err(_) => false,
            },
            Err(e) => r == Err::<Vec<&T>, CsvError>(e),
        },
{
    let mut records: Vec<&'a T> = Vec::new();
    let mut i: usize = 0;
    while i < rows.len()
        invariant
            i <= rows@.len(),
            all_matches(rows@.take(i as int), *search_field) is Ok,
            records@.len() == all_matches(rows@.take(i as int), *search_field)->Ok_0.len(),
            forall|k: int| 0 <= k < records@.len() ==> *records@[k] == all_matches(rows@.take(i as int), *search_field)->Ok_0[k],
        decreases rows@.len() - i,
    {
        assert(rows@.take(i + 1).drop_last() =~= rows@.take(i as int));
        proof {
            lemma_all_matches_error_stays(rows@, i + 1, *search_field);
        }
        match &rows[i] {
            Err(e) => {
                return Err(e.clone());
            },
            Ok(row) => {
                if row.matches(search_field) {
                    records.push(row);
                }
            },
        }
        i = i + 1;
    }
    assert(rows@.take(rows@.len() as int) =~= rows@);
    Ok(records)
}

/// Once reading a prefix of the rows fails, reading all of them fails with the same error.
proof fn lemma_all_matches_error_stays<T: Searchable>(rows: Seq<Result<T, CsvError>>, n: int, search_field: SearchField)
    requires
        0 <= n <= rows.len(),
    ensures
        all_matches(rows.take(n), search_field) is Err ==> all_matches(rows, search_field) == all_matches(rows.take(n), search_field),
    decreases rows.len() - n,
{
    if n < rows.len() {
        lemma_all_matches_error_stays(rows, n + 1, search_field);
        assert(rows.take(n + 1).drop_last() =~= rows.take(n));
    } else {
        assert(rows.take(n) =~= rows);
    }
}

/// The first matching row of the table that `param` names, as a [`Record`].
pub fn find_record(tables: &ParamTables, param: Param, search_field: &SearchField) -> (r: Result<Option<Record>, CsvError>)
    ensures
        match param {
            Param::AtkParamPC => r == match first_match(tables.atk_params@, *search_field) {
                Ok(Some(row)) => Ok::<Option<Record>, CsvError>(Some(Record::AtkParamPC(row))),
                Ok(None) => Ok(None),
                Err(e) => Err(e),
            },
            Param::Bullet => r == match first_match(tables.bullets@, *search_field) {
                Ok(Some(row)) => Ok::<Option<Record>, CsvError>(Some(Record::Bullet(row))),
                Ok(None) => Ok(None),
                Err(e) => Err(e),
            },
            Param::Magic => r == match first_match(tables.magic@, *search_field) {
                Ok(Some(row)) => Ok::<Option<Record>, CsvError>(Some(Record::Magic(row))),
                Ok(None) => Ok(None),
                Err(e) => Err(e),
            },
        },
{
    match param {
        Param::AtkParamPC => match load_record(&tables.atk_params, search_field) {
            Ok(Some(row)) => Ok(Some(Record::AtkParamPC(row.clone()))),
            Ok(None) => Ok(None),
            Err(e) => Err(e),
        },
        Param::Bullet => match load_record(&tables.bullets, search_field) {
            Ok(Some(row)) => Ok(Some(Record::Bullet(row.clone()))),
            Ok(None) => Ok(None),
            Err(e) => Err(e),
        },
        Param::Magic => match load_record(&tables.magic, search_field) {
            Ok(Some(row)) => Ok(Some(Record::Magic(row.clone()))),
            Ok(None) => Ok(None),
            Err(e) => Err(e),
        },
    }
}

/// The first attack parameter row that matches, or the error that says why there is none.
pub fn find_atk_param_pc(tables: &ParamTables, search_field: &SearchField) -> (r: Result<AtkParamPc, AppError>)
    ensures
        outcome_is(r, lookup(tables.atk_params@, *search_field, atk_param_table())),
{
    match load_record(&tables.atk_params, search_field) {
        Ok(Some(row)) => Ok(row.clone()),
        Ok(None) => Err(AppError::NotFound { record_type: "AtkParam_Pc", field: search_field.description() }),
        Err(e) => Err(AppError::Csv(e)),
    }
}

/// The first bullet row that matches, or the error that says why there is none.
pub fn find_bullet(tables: &ParamTables, search_field: &SearchField) -> (r: Result<Bullet, AppError>)
    ensures
        outcome_is(r, lookup(tables.bullets@, *search_field, bullet_table())),
{
    match load_record(&tables.bullets, search_field) {
        Ok(Some(row)) => Ok(row.clone()),
        Ok(None) => Err(AppError::NotFound { record_type: "Bullet", field: search_field.description() }),
        Err(e) => Err(AppError::Csv(e)),
    }
}

/// The first spell row that matches, or the error that says why there is none.
pub fn find_magic(tables: &ParamTables, search_field: &SearchField) -> (r: Result<Magic, AppError>)
    ensures
        outcome_is(r, lookup(tables.magic@, *search_field, magic_table())),
{
    match load_record(&tables.magic, search_field) {
        Ok(Some(row)) => Ok(row.clone()),
        Ok(None) => Err(AppError::NotFound { record_type: "Magic", field: search_field.description() }),
        Err(e) => Err(AppError::Csv(e)),
    }
}

}
