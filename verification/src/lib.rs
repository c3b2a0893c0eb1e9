use vstd::prelude::*;

pub mod csv_io;
pub mod error;
pub mod graph;
pub mod graph_output;
pub mod laws;
pub mod models;
pub mod records;
pub mod setup;
pub mod text;
pub mod traits;

pub use csv_io::{find_atk_param_pc, find_bullet, find_magic};
pub use error::AppError;
pub use graph::MagicGraph;
pub use records::SearchField;

use csv_io::ParamTables;
use graph::{graph_outcome_is, magic_graph_spec};

verus! {

/// Finds the spell that `search_field` names and builds its graph.
pub fn build_magic_graph(tables: &ParamTables, search_field: SearchField) -> (r: Result<MagicGraph, AppError>)
    ensures
        graph_outcome_is(r, magic_graph_spec(*tables, search_field)),
{
    let magic = match find_magic(tables, &search_field) {
        Ok(magic) => magic,
        Err(e) => return Err(e),
    };
    MagicGraph::build(tables, magic.id)
}


/// The spell name given on the command line: `args` is the whole command line,
/// program name first, and exactly one argument must follow it.
pub fn spell_name_from_args(args: Vec<String>) -> (r: Result<String, AppError>)
    ensures
        args@.len() > 2 ==> r == Err::<String, AppError>(AppError::UnexpectedArgs { args }),
        args@.len() < 2 ==> r == Err::<String, AppError>(AppError::NoArgs),
        args@.len() == 2 ==> r == Ok::<String, AppError>(args@[1]),
{
    if args.len() > 2 {
        return Err(AppError::UnexpectedArgs { args });
    }
    if args.len() < 2 {
        return Err(AppError::NoArgs);
    }
    Ok(args[1].clone())
}

}
