//! Properties that hold across the library's functions.
use vstd::prelude::*;

use crate::csv_io::{first_match, lookup, magic_table, LookupFailure, ParamTables};
use crate::error::{CsvError, RecordConversionError};
use crate::graph::{cycle_consistent, graph_spec, law_graph_branches_are_acyclic, magic_graph_spec, NodeView};
use crate::graph_output::{
    dot_arrow, dot_attack, dot_attack_node, dot_bullet_label, dot_damage_lines, dot_damage_node, dot_magic_costs,
    dot_magic_label, dot_magic_requirements, dot_magic_title, escape_char, escape_text, graph_renderable, renderable,
    text_attack_lines, text_damage_line, text_damage_lines, text_interval_lines, text_line, text_magic_head,
    text_magic_lines, text_magic_menu, text_magic_requirements, text_node_body, text_value_lines,
};
use crate::models::{AtkParamPc, Bullet, Magic};
use crate::records::{atk_param_from_record, bullet_from_record, description_text, kind_of, magic_from_record, Record, SearchField};
use crate::text::{digit_char, indent_text, int_text, lemma_assoc, nat_text, option_text};
use crate::traits::Searchable;

verus! {

/// A node whose branches are acyclic in the sense of [`cycle_consistent`] can be rendered.
pub proof fn lemma_consistent_renderable(node: NodeView, ancestors: Seq<i64>)
    requires
        cycle_consistent(node, ancestors),
    ensures
        renderable(node),
    decreases node,
{
    if !node.is_cycle {
        assert forall|i: int| 0 <= i < node.children.len() implies renderable(#[trigger] node.children[i].child) by {
            lemma_consistent_renderable(node.children[i].child, ancestors.push(node.id));
        }
    }
}

/// Law: every graph that [`crate::MagicGraph::build`] returns can be rendered,
/// as DOT and as text.
pub proof fn law_built_graph_renders(tables: ParamTables, magic_id: i64)
    ensures
        graph_spec(tables, magic_id) is Ok ==> graph_renderable(graph_spec(tables, magic_id)->Ok_0),
{
    law_graph_branches_are_acyclic(tables, magic_id);
    if graph_spec(tables, magic_id) is Ok {
        let graph = graph_spec(tables, magic_id)->Ok_0;
        assert forall|i: int| 0 <= i < graph.bullets.len() implies renderable(#[trigger] graph.bullets[i].child) by {
            lemma_consistent_renderable(graph.bullets[i].child, Seq::empty());
        }
    }
}

/// Law: the graph that [`crate::build_magic_graph`] returns for a search is the
/// graph of the spell id that the first matching spell row has.
pub proof fn law_graph_of_searched_spell(tables: ParamTables, search_field: SearchField)
    ensures
        lookup(tables.magic@, search_field, magic_table()) is Ok ==> magic_graph_spec(tables, search_field) == graph_spec(
            tables,
            lookup(tables.magic@, search_field, magic_table())->Ok_0.id,
        ),
        lookup(tables.magic@, search_field, magic_table()) is Err ==> magic_graph_spec(tables, search_field) == Err::<crate::graph::GraphView, LookupFailure>(
            lookup(tables.magic@, search_field, magic_table())->Err_0,
        ),
{
}

/// Law: a lookup reads the rows in order and stops at the first row that
/// matches or cannot be read. It finds the first matching row when every row
/// before it is readable; it reports the first unreadable row when no row
/// before it matches; and it finds nothing only when every row is readable
/// and none matches.
pub proof fn law_lookup_is_first_match<T: Searchable>(rows: Seq<Result<T, CsvError>>, search_field: SearchField)
    ensures
        first_match(rows, search_field) matches Ok(Some(row)) ==> exists|k: int| {
            &&& 0 <= k < rows.len()
            &&& #[trigger] rows[k] == Ok::<T, CsvError>(row)
            &&& row.matches_spec(search_field)
            &&& forall|j: int| 0 <= j < k ==> rows[j] is Ok && !rows[j]->Ok_0.matches_spec(search_field)
        },
        first_match(rows, search_field) matches Ok(None) ==> forall|j: int| 0 <= j < rows.len() ==> rows[j] is Ok && !rows[j]->Ok_0.matches_spec(search_field),
        first_match(rows, search_field) matches Err(e) ==> exists|k: int| {
            &&& 0 <= k < rows.len()
            &&& #[trigger] rows[k] == Err::<T, CsvError>(e)
            &&& forall|j: int| 0 <= j < k ==> rows[j] is Ok && !rows[j]->Ok_0.matches_spec(search_field)
        },
    decreases rows.len(),
{
    if rows.len() > 0 {
        let rest = rows.drop_first();
        law_lookup_is_first_match(rest, search_field);
        match rows[0] {
            Err(e) => {
                assert(rows[0] == Err::<T, CsvError>(e));
            },
            Ok(row) => {
                if row.matches_spec(search_field) {
                    assert(rows[0] == Ok::<T, CsvError>(row));
                } else {
                    match first_match(rest, search_field) {
                        Ok(Some(found)) => {
                            let k = choose|k: int| {
                                &&& 0 <= k < rest.len()
                                &&& #[trigger] rest[k] == Ok::<T, CsvError>(found)
                                &&& found.matches_spec(search_field)
                                &&& forall|j: int| 0 <= j < k ==> rest[j] is Ok && !rest[j]->Ok_0.matches_spec(search_field)
                            };
                            assert(rows[k + 1] == rest[k]);
                            assert forall|j: int| 0 <= j < k + 1 implies rows[j] is Ok && !rows[j]->Ok_0.matches_spec(search_field) by {
                                if j > 0 {
                                    assert(rows[j] == rest[j - 1]);
                                }
                            }
                        },
                        Ok(None) => {
                            assert forall|j: int| 0 <= j < rows.len() implies rows[j] is Ok && !rows[j]->Ok_0.matches_spec(search_field) by {
                                if j > 0 {
                                    assert(rows[j] == rest[j - 1]);
                                }
                            }
                        },
                        Err(e) => {
                            let k = choose|k: int| {
                                &&& 0 <= k < rest.len()
                                &&& #[trigger] rest[k] == Err::<T, CsvError>(e)
                                &&& forall|j: int| 0 <= j < k ==> rest[j] is Ok && !rest[j]->Ok_0.matches_spec(search_field)
                            };
                            assert(rows[k + 1] == rest[k]);
                            assert forall|j: int| 0 <= j < k + 1 implies rows[j] is Ok && !rows[j]->Ok_0.matches_spec(search_field) by {
                                if j > 0 {
                                    assert(rows[j] == rest[j - 1]);
                                }
                            }
                        },
                    }
                }
            },
        }
    }
}

/// The row with this name and id is the one that `search_field` asks for: its
/// name equals the search text, or its id equals the search id.
pub open spec fn names_row(name: Seq<char>, id: i64, search_field: SearchField) -> bool {
    match search_field {
        SearchField::Name(text) => name == text@,
        SearchField::ID(wanted) => id == wanted,
    }
}

/// Law: looking up a spell reads the rows in order and stops at the first row
/// that the search asks for exactly: by name, a row whose name equals the search
/// text (not merely starts with it); by id, a row with that id. Every row before
/// it is readable and is not asked for; nothing is found only when every row is
/// readable and none is asked for.
pub proof fn law_magic_lookup_is_exact(rows: Seq<Result<Magic, CsvError>>, search_field: SearchField)
    ensures
        forall|row: Magic| #[trigger] row.matches_spec(search_field) == names_row(row.name@, row.id, search_field),
        first_match(rows, search_field) matches Ok(Some(row)) ==> {
            &&& names_row(row.name@, row.id, search_field)
            &&& exists|k: int| {
                &&& 0 <= k < rows.len()
                &&& #[trigger] rows[k] == Ok::<Magic, CsvError>(row)
                &&& forall|j: int| 0 <= j < k ==> rows[j] is Ok && !names_row(rows[j]->Ok_0.name@, rows[j]->Ok_0.id, search_field)
            }
        },
        first_match(rows, search_field) matches Ok(None) ==> forall|j: int|
            0 <= j < rows.len() ==> rows[j] is Ok && !names_row(rows[j]->Ok_0.name@, rows[j]->Ok_0.id, search_field),
{
    law_lookup_is_first_match(rows, search_field);
}

/// Law: looking up a bullet reads the rows in order and stops at the first row
/// that the search asks for exactly: by name, a row whose name equals the search
/// text (not merely starts with it); by id, a row with that id. Every row before
/// it is readable and is not asked for; nothing is found only when every row is
/// readable and none is asked for.
pub proof fn law_bullet_lookup_is_exact(rows: Seq<Result<Bullet, CsvError>>, search_field: SearchField)
    ensures
        forall|row: Bullet| #[trigger] row.matches_spec(search_field) == names_row(row.name@, row.id, search_field),
        first_match(rows, search_field) matches Ok(Some(row)) ==> {
            &&& names_row(row.name@, row.id, search_field)
            &&& exists|k: int| {
                &&& 0 <= k < rows.len()
                &&& #[trigger] rows[k] == Ok::<Bullet, CsvError>(row)
                &&& forall|j: int| 0 <= j < k ==> rows[j] is Ok && !names_row(rows[j]->Ok_0.name@, rows[j]->Ok_0.id, search_field)
            }
        },
        first_match(rows, search_field) matches Ok(None) ==> forall|j: int|
            0 <= j < rows.len() ==> rows[j] is Ok && !names_row(rows[j]->Ok_0.name@, rows[j]->Ok_0.id, search_field),
{
    law_lookup_is_first_match(rows, search_field);
}

/// Law: looking up an attack parameter row reads the rows in order and stops at the first row
/// that the search asks for exactly: by name, a row whose name equals the search
/// text (not merely starts with it); by id, a row with that id. Every row before
/// it is readable and is not asked for; nothing is found only when every row is
/// readable and none is asked for.
pub proof fn law_atk_param_lookup_is_exact(rows: Seq<Result<AtkParamPc, CsvError>>, search_field: SearchField)
    ensures
        forall|row: AtkParamPc| #[trigger] row.matches_spec(search_field) == names_row(row.name@, row.id, search_field),
        first_match(rows, search_field) matches Ok(Some(row)) ==> {
            &&& names_row(row.name@, row.id, search_field)
            &&& exists|k: int| {
                &&& 0 <= k < rows.len()
                &&& #[trigger] rows[k] == Ok::<AtkParamPc, CsvError>(row)
                &&& forall|j: int| 0 <= j < k ==> rows[j] is Ok && !names_row(rows[j]->Ok_0.name@, rows[j]->Ok_0.id, search_field)
            }
        },
        first_match(rows, search_field) matches Ok(None) ==> forall|j: int|
            0 <= j < rows.len() ==> rows[j] is Ok && !names_row(rows[j]->Ok_0.name@, rows[j]->Ok_0.id, search_field),
{
    law_lookup_is_first_match(rows, search_field);
}

/// Law: a lookup that finds nothing names the table and describes the search.
pub proof fn law_not_found_describes_search<T: Searchable>(rows: Seq<Result<T, CsvError>>, search_field: SearchField, record_type: Seq<char>)
    ensures
        first_match(rows, search_field) == Ok::<Option<T>, CsvError>(None) ==> lookup(rows, search_field, record_type)
            == Err::<T, LookupFailure>(LookupFailure::NotFound { record_type, field: description_text(search_field) }),
{
}

/// Escaping a text for a quoted DOT string concatenates the escapes of its parts.
pub proof fn lemma_escape_concat(a: Seq<char>, b: Seq<char>)
    ensures
        escape_text(a + b) == escape_text(a) + escape_text(b),
    decreases b.len(),
{
    if b.len() == 0 {
        assert(a + b =~= a);
        assert(escape_text(a) + escape_text(b) =~= escape_text(a));
    } else {
        lemma_escape_concat(a, b.drop_last());
        assert((a + b).drop_last() =~= a + b.drop_last());
        assert((a + b).last() == b.last());
        assert(escape_text(a + b) =~= escape_text(a) + escape_text(b));
    }
}

/// Law: an escaped text holds no newline, so a label never breaks a DOT line.
pub proof fn law_escaped_has_no_newline(s: Seq<char>)
    ensures
        !escape_text(s).contains('\n'),
    decreases s.len(),
{
    if s.len() > 0 {
        law_escaped_has_no_newline(s.drop_last());
        let e = escape_text(s);
        assert forall|i: int| 0 <= i < e.len() implies e[i] != '\n' by {
            let front = escape_text(s.drop_last());
            if i >= front.len() {
                assert(e[i] == escape_char(s.last())[i - front.len()]);
            } else {
                assert(e[i] == front[i]);
            }
        }
    }
}

/// Law: every quote in an escaped text is preceded by a backslash, so a label
/// never ends a quoted DOT string early.
pub proof fn law_escaped_quotes_are_escaped(s: Seq<char>)
    ensures
        forall|i: int| 0 <= i < escape_text(s).len() && #[trigger] escape_text(s)[i] == '"' ==> i > 0 && escape_text(s)[i - 1] == '\\',
    decreases s.len(),
{
    if s.len() > 0 {
        law_escaped_quotes_are_escaped(s.drop_last());
        let e = escape_text(s);
        let front = escape_text(s.drop_last());
        assert forall|i: int| 0 <= i < e.len() && #[trigger] e[i] == '"' implies i > 0 && e[i - 1] == '\\' by {
            if i >= front.len() {
                let tail = escape_char(s.last());
                assert(e[i] == tail[i - front.len()]);
                if i - front.len() == 1 {
                    assert(e[i - 1] == tail[0]);
                }
            } else {
                assert(e[i] == front[i]);
                assert(e[i - 1] == front[i - 1]);
            }
        }
    }
}

proof fn lemma_escape_len(s: Seq<char>)
    ensures
        escape_text(s).len() >= s.len(),
    decreases s.len(),
{
    if s.len() > 0 {
        lemma_escape_len(s.drop_last());
    }
}

proof fn lemma_escape_front(c: char, rest: Seq<char>)
    ensures
        escape_text(seq![c] + rest) == escape_char(c) + escape_text(rest),
{
    lemma_escape_concat(seq![c], rest);
    assert(seq![c].drop_last() =~= Seq::<char>::empty());
    assert(escape_text(Seq::<char>::empty()) == Seq::<char>::empty());
    assert(escape_text(seq![c]) == escape_text(seq![c].drop_last()) + escape_char(seq![c].last()));
    assert(escape_text(seq![c]) =~= escape_char(c));
}

/// Law: different texts never escape to the same text, so distinct names give
/// distinct DOT labels.
pub proof fn law_escape_is_injective(a: Seq<char>, b: Seq<char>)
    ensures
        escape_text(a) == escape_text(b) ==> a == b,
    decreases a.len() + b.len(),
{
    if escape_text(a) == escape_text(b) {
        let e = escape_text(a);
        if a.len() == 0 || b.len() == 0 {
            lemma_escape_len(a);
            lemma_escape_len(b);
            assert(a.len() == 0 && b.len() == 0);
            assert(a =~= b);
        } else {
            let x = a[0];
            let y = b[0];
            let ra = a.drop_first();
            let rb = b.drop_first();
            assert(a =~= seq![x] + ra);
            assert(b =~= seq![y] + rb);
            lemma_escape_front(x, ra);
            lemma_escape_front(y, rb);
            let ex = escape_char(x);
            let ey = escape_char(y);
            assert(e[0] == ex[0]);
            assert(e[0] == ey[0]);
            if ex.len() == 2 {
                assert(e[1] == ex[1]);
                assert(ey.len() == 2);
                assert(e[1] == ey[1]);
            }
            assert(x == y);
            assert(escape_text(ra) =~= e.skip(ex.len() as int));
            assert(escape_text(rb) =~= e.skip(ey.len() as int));
            law_escape_is_injective(ra, rb);
            assert(a =~= b);
        }
    }
}

/// `text` shows `value` right after `key`, with `next` right after it.
pub open spec fn shows(text: Seq<char>, key: Seq<char>, value: Seq<char>, next: Seq<char>) -> bool {
    exists|before: Seq<char>, after: Seq<char>| #[trigger] (before + key + value + next + after) == text
}

/// `text` ends with `value` right after `key`.
pub open spec fn ends_showing(text: Seq<char>, key: Seq<char>, value: Seq<char>) -> bool {
    exists|before: Seq<char>| #[trigger] (before + key + value) == text
}

/// A text made of a key, its value and the next key, with anything around them, shows the value.
proof fn lemma_shows(text: Seq<char>, before: Seq<char>, key: Seq<char>, value: Seq<char>, next: Seq<char>, after: Seq<char>)
    requires
        text =~= before + key + value + next + after,
    ensures
        shows(text, key, value, next),
{
    assert((before + key + value + next + after) == text);
}

/// A text that ends with a key and its value ends showing the value.
proof fn lemma_ends_showing(text: Seq<char>, before: Seq<char>, key: Seq<char>, value: Seq<char>)
    requires
        text =~= before + key + value,
    ensures
        ends_showing(text, key, value),
{
    assert((before + key + value) == text);
}

/// The decimal text of a natural number is made of the digits `0` to `9`.
proof fn lemma_nat_text_digits(n: nat)
    ensures
        forall|i: int| 0 <= i < nat_text(n).len() ==> '0' <= #[trigger] nat_text(n)[i] <= '9',
    decreases n,
{
    if n >= 10 {
        lemma_nat_text_digits(n / 10);
        let d = (n % 10) as int;
        assert('0' <= digit_char(d) <= '9');
        let t = nat_text(n);
        assert forall|i: int| 0 <= i < t.len() implies '0' <= #[trigger] t[i] <= '9' by {
            if i < t.len() - 1 {
                assert(t[i] == nat_text(n / 10)[i]);
            }
        }
    } else {
        assert('0' <= digit_char(n as int) <= '9');
    }
}

/// Escaping leaves a text without backslashes, quotes and newlines unchanged.
proof fn lemma_escape_plain(s: Seq<char>)
    requires
        forall|i: int| 0 <= i < s.len() ==> #[trigger] s[i] != '\\' && s[i] != '"' && s[i] != '\n',
    ensures
        escape_text(s) == s,
    decreases s.len(),
{
    if s.len() > 0 {
        lemma_escape_plain(s.drop_last());
        assert(s.drop_last().push(s.last()) =~= s);
        assert(escape_char(s.last()) =~= seq![s.last()]);
        assert(s.drop_last() + seq![s.last()] =~= s);
    }
}

/// Escaping the decimal text of an integer leaves it unchanged.
pub proof fn lemma_escape_int_text(n: int)
    ensures
        escape_text(int_text(n)) == int_text(n),
{
    let t = int_text(n);
    if n < 0 {
        lemma_nat_text_digits((-n) as nat);
        assert forall|i: int| 0 <= i < t.len() implies #[trigger] t[i] != '\\' && t[i] != '"' && t[i] != '\n' by {
            if i > 0 {
                assert(t[i] == nat_text((-n) as nat)[i - 1]);
            }
        }
    } else {
        lemma_nat_text_digits(n as nat);
    }
    lemma_escape_plain(t);
}

/// Law: the DOT damage label of an attack parameter row shows each kind of
/// damage with its own field of the row in decimal, in this order: physical,
/// magic, fire, lightning, holy, stamina and poise.
#[verifier::spinoff_prover]
pub proof fn law_dot_damage_label_shows_fields(atk: AtkParamPc)
    ensures
        shows(dot_damage_lines(atk), "Physical: "@, int_text(atk.atk_phys as int), "\\nMagic: "@),
        shows(dot_damage_lines(atk), "\\nMagic: "@, int_text(atk.atk_mag as int), "\\nFire: "@),
        shows(dot_damage_lines(atk), "\\nFire: "@, int_text(atk.atk_fire as int), "\\nLightning: "@),
        shows(dot_damage_lines(atk), "\\nLightning: "@, int_text(atk.atk_thun as int), "\\nHoly: "@),
        shows(dot_damage_lines(atk), "\\nHoly: "@, int_text(atk.atk_dark as int), "\\nStamina: "@),
        shows(dot_damage_lines(atk), "\\nStamina: "@, int_text(atk.atk_stam as int), "\\nPoise: "@),
        ends_showing(dot_damage_lines(atk), "\\nPoise: "@, int_text(atk.atk_super_armor as int)),
{
    lemma_escape_int_text(atk.atk_phys as int);
    lemma_escape_int_text(atk.atk_mag as int);
    lemma_escape_int_text(atk.atk_fire as int);
    lemma_escape_int_text(atk.atk_thun as int);
    lemma_escape_int_text(atk.atk_dark as int);
    lemma_escape_int_text(atk.atk_stam as int);
    lemma_escape_int_text(atk.atk_super_armor as int);
    let phys = int_text(atk.atk_phys as int);
    let mag = int_text(atk.atk_mag as int);
    let fire = int_text(atk.atk_fire as int);
    let thun = int_text(atk.atk_thun as int);
    let dark = int_text(atk.atk_dark as int);
    let stam = int_text(atk.atk_stam as int);
    let poise = int_text(atk.atk_super_armor as int);
    let text = dot_damage_lines(atk);
    assert(text =~= "Physical: "@ + phys + "\\nMagic: "@ + mag + "\\nFire: "@ + fire + "\\nLightning: "@ + thun + "\\nHoly: "@ + dark + "\\nStamina: "@ + stam + "\\nPoise: "@ + poise);
    lemma_shows(text, Seq::<char>::empty(), "Physical: "@, phys, "\\nMagic: "@, mag + "\\nFire: "@ + fire + "\\nLightning: "@ + thun + "\\nHoly: "@ + dark + "\\nStamina: "@ + stam + "\\nPoise: "@ + poise);
    lemma_shows(text, "Physical: "@ + phys, "\\nMagic: "@, mag, "\\nFire: "@, fire + "\\nLightning: "@ + thun + "\\nHoly: "@ + dark + "\\nStamina: "@ + stam + "\\nPoise: "@ + poise);
    lemma_shows(text, "Physical: "@ + phys + "\\nMagic: "@ + mag, "\\nFire: "@, fire, "\\nLightning: "@, thun + "\\nHoly: "@ + dark + "\\nStamina: "@ + stam + "\\nPoise: "@ + poise);
    lemma_shows(text, "Physical: "@ + phys + "\\nMagic: "@ + mag + "\\nFire: "@ + fire, "\\nLightning: "@, thun, "\\nHoly: "@, dark + "\\nStamina: "@ + stam + "\\nPoise: "@ + poise);
    lemma_shows(text, "Physical: "@ + phys + "\\nMagic: "@ + mag + "\\nFire: "@ + fire + "\\nLightning: "@ + thun, "\\nHoly: "@, dark, "\\nStamina: "@, stam + "\\nPoise: "@ + poise);
    lemma_shows(text, "Physical: "@ + phys + "\\nMagic: "@ + mag + "\\nFire: "@ + fire + "\\nLightning: "@ + thun + "\\nHoly: "@ + dark, "\\nStamina: "@, stam, "\\nPoise: "@, poise);
    lemma_ends_showing(text, "Physical: "@ + phys + "\\nMagic: "@ + mag + "\\nFire: "@ + fire + "\\nLightning: "@ + thun + "\\nHoly: "@ + dark + "\\nStamina: "@ + stam, "\\nPoise: "@, poise);
}

/// A text that shows a field shows it wherever it stands inside a longer text.
proof fn lemma_shows_within(text: Seq<char>, left: Seq<char>, part: Seq<char>, right: Seq<char>, key: Seq<char>, value: Seq<char>, next: Seq<char>)
    requires
        text =~= left + part + right,
        shows(part, key, value, next),
    ensures
        shows(text, key, value, next),
{
    let (before, after) = choose|before: Seq<char>, after: Seq<char>| #[trigger] (before + key + value + next + after) == part;
    lemma_shows(text, left + before, key, value, next, after + right);
}

/// A field that ends one text and whose next key starts the text after it is
/// shown by the two together.
proof fn lemma_shows_across(first: Seq<char>, second: Seq<char>, before: Seq<char>, key: Seq<char>, value: Seq<char>, next: Seq<char>, after: Seq<char>)
    requires
        first =~= before + key + value,
        second =~= next + after,
    ensures
        shows(first + second, key, value, next),
{
    lemma_shows(first + second, before, key, value, next, after);
}

/// A damage line of the text tree shows its amount in decimal after its kind.
proof fn lemma_damage_line_shows(count: nat, kind: Seq<char>, amount: i64)
    ensures
        shows(text_damage_line(count, kind, amount), "Damage: "@ + kind + " ("@, int_text(amount as int), ")"@),
{
    lemma_shows(text_damage_line(count, kind, amount), indent_text(count), "Damage: "@ + kind + " ("@, int_text(amount as int), ")"@, "\n"@);
}

/// Law: each damage line of the text tree shows its kind of damage with its own
/// field of the row in decimal, in this order: physical, magic, fire,
/// lightning, holy, stamina and poise.
#[verifier::spinoff_prover]
#[verifier::rlimit(60)]
pub proof fn law_text_damage_lines_show_fields(atk: AtkParamPc, count: nat)
    ensures
        shows(text_damage_lines(atk, count), "Damage: "@ + "Physical"@ + " ("@, int_text(atk.atk_phys as int), ")"@),
        shows(text_damage_lines(atk, count), "Damage: "@ + "Magic"@ + " ("@, int_text(atk.atk_mag as int), ")"@),
        shows(text_damage_lines(atk, count), "Damage: "@ + "Fire"@ + " ("@, int_text(atk.atk_fire as int), ")"@),
        shows(text_damage_lines(atk, count), "Damage: "@ + "Lightning"@ + " ("@, int_text(atk.atk_thun as int), ")"@),
        shows(text_damage_lines(atk, count), "Damage: "@ + "Holy"@ + " ("@, int_text(atk.atk_dark as int), ")"@),
        shows(text_damage_lines(atk, count), "Damage: "@ + "Stamina"@ + " ("@, int_text(atk.atk_stam as int), ")"@),
        shows(text_damage_lines(atk, count), "Damage: "@ + "Poise"@ + " ("@, int_text(atk.atk_super_armor as int), ")"@),
{
    let line_phys = text_damage_line(count, "Physical"@, atk.atk_phys);
    let line_mag = text_damage_line(count, "Magic"@, atk.atk_mag);
    let line_fire = text_damage_line(count, "Fire"@, atk.atk_fire);
    let line_thun = text_damage_line(count, "Lightning"@, atk.atk_thun);
    let line_dark = text_damage_line(count, "Holy"@, atk.atk_dark);
    let line_stam = text_damage_line(count, "Stamina"@, atk.atk_stam);
    let line_poise = text_damage_line(count, "Poise"@, atk.atk_super_armor);
    let text = text_damage_lines(atk, count);
    lemma_damage_line_shows(count, "Physical"@, atk.atk_phys);
    lemma_shows_within(text, Seq::<char>::empty(), line_phys, line_mag + line_fire + line_thun + line_dark + line_stam + line_poise, "Damage: "@ + "Physical"@ + " ("@, int_text(atk.atk_phys as int), ")"@);
    lemma_damage_line_shows(count, "Magic"@, atk.atk_mag);
    lemma_shows_within(text, line_phys, line_mag, line_fire + line_thun + line_dark + line_stam + line_poise, "Damage: "@ + "Magic"@ + " ("@, int_text(atk.atk_mag as int), ")"@);
    lemma_damage_line_shows(count, "Fire"@, atk.atk_fire);
    lemma_shows_within(text, line_phys + line_mag, line_fire, line_thun + line_dark + line_stam + line_poise, "Damage: "@ + "Fire"@ + " ("@, int_text(atk.atk_fire as int), ")"@);
    lemma_damage_line_shows(count, "Lightning"@, atk.atk_thun);
    lemma_shows_within(text, line_phys + line_mag + line_fire, line_thun, line_dark + line_stam + line_poise, "Damage: "@ + "Lightning"@ + " ("@, int_text(atk.atk_thun as int), ")"@);
    lemma_damage_line_shows(count, "Holy"@, atk.atk_dark);
    lemma_shows_within(text, line_phys + line_mag + line_fire + line_thun, line_dark, line_stam + line_poise, "Damage: "@ + "Holy"@ + " ("@, int_text(atk.atk_dark as int), ")"@);
    lemma_damage_line_shows(count, "Stamina"@, atk.atk_stam);
    lemma_shows_within(text, line_phys + line_mag + line_fire + line_thun + line_dark, line_stam, line_poise, "Damage: "@ + "Stamina"@ + " ("@, int_text(atk.atk_stam as int), ")"@);
    lemma_damage_line_shows(count, "Poise"@, atk.atk_super_armor);
    lemma_shows_within(text, line_phys + line_mag + line_fire + line_thun + line_dark + line_stam, line_poise, Seq::<char>::empty(), "Damage: "@ + "Poise"@ + " ("@, int_text(atk.atk_super_armor as int), ")"@);
}

/// The costs part of a spell's DOT label shows each cost after its key.
#[verifier::spinoff_prover]
proof fn lemma_dot_costs_show(magic: Magic)
    ensures
        shows(dot_magic_costs(magic), "\\nFP Default: "@, int_text(magic.mp as int), "\\nStamina Default: "@),
        shows(dot_magic_costs(magic), "\\nStamina Default: "@, int_text(magic.stamina as int), "\\nFP Charged: "@),
        shows(dot_magic_costs(magic), "\\nFP Charged: "@, int_text(magic.mp_charge as int), "\\nStamina Charged: "@),
        dot_magic_costs(magic) == "\\nFP Default: "@ + int_text(magic.mp as int) + "\\nStamina Default: "@ + int_text(magic.stamina as int) + "\\nFP Charged: "@ + int_text(magic.mp_charge as int) + "\\nStamina Charged: "@ + int_text(magic.stamina_charge as int),
{
    lemma_shows(dot_magic_costs(magic), Seq::<char>::empty(), "\\nFP Default: "@, int_text(magic.mp as int), "\\nStamina Default: "@, int_text(magic.stamina as int) + "\\nFP Charged: "@ + int_text(magic.mp_charge as int) + "\\nStamina Charged: "@ + int_text(magic.stamina_charge as int));
    lemma_shows(dot_magic_costs(magic), "\\nFP Default: "@ + int_text(magic.mp as int), "\\nStamina Default: "@, int_text(magic.stamina as int), "\\nFP Charged: "@, int_text(magic.mp_charge as int) + "\\nStamina Charged: "@ + int_text(magic.stamina_charge as int));
    lemma_shows(dot_magic_costs(magic), "\\nFP Default: "@ + int_text(magic.mp as int) + "\\nStamina Default: "@ + int_text(magic.stamina as int), "\\nFP Charged: "@, int_text(magic.mp_charge as int), "\\nStamina Charged: "@, int_text(magic.stamina_charge as int));
}

/// The requirements part of a spell's DOT label shows each requirement after its key.
#[verifier::spinoff_prover]
proof fn lemma_dot_requirements_show(magic: Magic)
    ensures
        shows(dot_magic_requirements(magic), "\\nARC: "@, int_text(magic.requirement_luck as int), "\\nINT: "@),
        shows(dot_magic_requirements(magic), "\\nINT: "@, int_text(magic.requirement_intellect as int), "\\nFTH: "@),
        dot_magic_requirements(magic) =~= "\\nARC: "@ + (int_text(magic.requirement_luck as int) + "\\nINT: "@ + int_text(magic.requirement_intellect as int) + "\\nFTH: "@ + int_text(magic.requirement_faith as int)),
        dot_magic_requirements(magic) =~= ("\\nARC: "@ + int_text(magic.requirement_luck as int) + "\\nINT: "@ + int_text(magic.requirement_intellect as int)) + "\\nFTH: "@ + int_text(magic.requirement_faith as int),
{
    lemma_shows(dot_magic_requirements(magic), Seq::<char>::empty(), "\\nARC: "@, int_text(magic.requirement_luck as int), "\\nINT: "@, int_text(magic.requirement_intellect as int) + "\\nFTH: "@ + int_text(magic.requirement_faith as int));
    lemma_shows(dot_magic_requirements(magic), "\\nARC: "@ + int_text(magic.requirement_luck as int), "\\nINT: "@, int_text(magic.requirement_intellect as int), "\\nFTH: "@, int_text(magic.requirement_faith as int));
}

/// Law: the DOT label of a spell shows its id, each of its costs and each of
/// its requirements with its own field in decimal, in this order: id, FP and
/// stamina by default, FP and stamina charged, then arcane (from
/// `requirement_luck`), intelligence and faith, and last the menu FP when the
/// spell has one.
#[verifier::spinoff_prover]
pub proof fn law_dot_magic_label_shows_fields(magic: Magic)
    ensures
        shows(dot_magic_label(magic), "Magic "@, int_text(magic.id as int), "\\n"@),
        shows(dot_magic_label(magic), "\\nFP Default: "@, int_text(magic.mp as int), "\\nStamina Default: "@),
        shows(dot_magic_label(magic), "\\nStamina Default: "@, int_text(magic.stamina as int), "\\nFP Charged: "@),
        shows(dot_magic_label(magic), "\\nFP Charged: "@, int_text(magic.mp_charge as int), "\\nStamina Charged: "@),
        shows(dot_magic_label(magic), "\\nStamina Charged: "@, int_text(magic.stamina_charge as int), "\\nARC: "@),
        shows(dot_magic_label(magic), "\\nARC: "@, int_text(magic.requirement_luck as int), "\\nINT: "@),
        shows(dot_magic_label(magic), "\\nINT: "@, int_text(magic.requirement_intellect as int), "\\nFTH: "@),
        magic.consume_loop_mp_for_menu != -1 ==> shows(dot_magic_label(magic), "\\nFTH: "@, int_text(magic.requirement_faith as int), "\\nFP Loop Menu: "@) && ends_showing(dot_magic_label(magic), "\\nFP Loop Menu: "@, int_text(magic.consume_loop_mp_for_menu as int)),
        magic.consume_loop_mp_for_menu == -1 ==> ends_showing(dot_magic_label(magic), "\\nFTH: "@, int_text(magic.requirement_faith as int)),
{
    let title = dot_magic_title(magic);
    let costs = dot_magic_costs(magic);
    let reqs = dot_magic_requirements(magic);
    let menu = if magic.consume_loop_mp_for_menu != -1 { "\\nFP Loop Menu: "@ + int_text(magic.consume_loop_mp_for_menu as int) } else { Seq::<char>::empty() };
    let label = dot_magic_label(magic);
    assert(label == title + costs + reqs + menu);
    lemma_dot_costs_show(magic);
    lemma_dot_requirements_show(magic);
    lemma_shows(title, Seq::<char>::empty(), "Magic "@, int_text(magic.id as int), "\\n"@, escape_text(magic.name@));
    lemma_shows_within(label, Seq::<char>::empty(), title, costs + reqs + menu, "Magic "@, int_text(magic.id as int), "\\n"@);
    lemma_shows_within(label, title, costs, reqs + menu, "\\nFP Default: "@, int_text(magic.mp as int), "\\nStamina Default: "@);
    lemma_shows_within(label, title, costs, reqs + menu, "\\nStamina Default: "@, int_text(magic.stamina as int), "\\nFP Charged: "@);
    lemma_shows_within(label, title, costs, reqs + menu, "\\nFP Charged: "@, int_text(magic.mp_charge as int), "\\nStamina Charged: "@);
    lemma_shows_across(costs, reqs, "\\nFP Default: "@ + int_text(magic.mp as int) + "\\nStamina Default: "@ + int_text(magic.stamina as int) + "\\nFP Charged: "@ + int_text(magic.mp_charge as int), "\\nStamina Charged: "@, int_text(magic.stamina_charge as int), "\\nARC: "@, int_text(magic.requirement_luck as int) + "\\nINT: "@ + int_text(magic.requirement_intellect as int) + "\\nFTH: "@ + int_text(magic.requirement_faith as int));
    lemma_shows_within(label, title, costs + reqs, menu, "\\nStamina Charged: "@, int_text(magic.stamina_charge as int), "\\nARC: "@);
    lemma_shows_within(label, title + costs, reqs, menu, "\\nARC: "@, int_text(magic.requirement_luck as int), "\\nINT: "@);
    lemma_shows_within(label, title + costs, reqs, menu, "\\nINT: "@, int_text(magic.requirement_intellect as int), "\\nFTH: "@);
    if magic.consume_loop_mp_for_menu != -1 {
        lemma_shows_across(reqs, menu, "\\nARC: "@ + int_text(magic.requirement_luck as int) + "\\nINT: "@ + int_text(magic.requirement_intellect as int), "\\nFTH: "@, int_text(magic.requirement_faith as int), "\\nFP Loop Menu: "@, int_text(magic.consume_loop_mp_for_menu as int));
        lemma_shows_within(label, title + costs, reqs + menu, Seq::<char>::empty(), "\\nFTH: "@, int_text(magic.requirement_faith as int), "\\nFP Loop Menu: "@);
        lemma_ends_showing(label, title + costs + reqs, "\\nFP Loop Menu: "@, int_text(magic.consume_loop_mp_for_menu as int));
    } else {
        lemma_ends_showing(label, title + costs + ("\\nARC: "@ + int_text(magic.requirement_luck as int) + "\\nINT: "@ + int_text(magic.requirement_intellect as int)), "\\nFTH: "@, int_text(magic.requirement_faith as int));
    }
}

/// The head lines of a spell's text form show its id and each cost after its key.
#[verifier::spinoff_prover]
proof fn lemma_text_head_shows(magic: Magic)
    ensures
        shows(text_magic_head(magic), "Magic "@, int_text(magic.id as int), " ("@),
        shows(text_magic_head(magic), "  FP Consumption - Default: "@, int_text(magic.mp as int), "\n"@),
        shows(text_magic_head(magic), "  Stamina Consumption - Default: "@, int_text(magic.stamina as int), "\n"@),
        shows(text_magic_head(magic), "  FP Consumption - Charged: "@, int_text(magic.mp_charge as int), "\n"@),
        shows(text_magic_head(magic), "  Stamina Consumption - Charged: "@, int_text(magic.stamina_charge as int), "\n"@),
{
    lemma_shows(text_magic_head(magic), Seq::<char>::empty(), "Magic "@, int_text(magic.id as int), " ("@, magic.name@ + ")\n"@ + "  FP Consumption - Default: "@ + int_text(magic.mp as int) + "\n"@ + "  Stamina Consumption - Default: "@ + int_text(magic.stamina as int) + "\n"@ + "  FP Consumption - Charged: "@ + int_text(magic.mp_charge as int) + "\n"@ + "  Stamina Consumption - Charged: "@ + int_text(magic.stamina_charge as int) + "\n"@);
    lemma_shows(text_magic_head(magic), "Magic "@ + int_text(magic.id as int) + " ("@ + magic.name@ + ")\n"@, "  FP Consumption - Default: "@, int_text(magic.mp as int), "\n"@, "  Stamina Consumption - Default: "@ + int_text(magic.stamina as int) + "\n"@ + "  FP Consumption - Charged: "@ + int_text(magic.mp_charge as int) + "\n"@ + "  Stamina Consumption - Charged: "@ + int_text(magic.stamina_charge as int) + "\n"@);
    lemma_shows(text_magic_head(magic), "Magic "@ + int_text(magic.id as int) + " ("@ + magic.name@ + ")\n"@ + "  FP Consumption - Default: "@ + int_text(magic.mp as int) + "\n"@, "  Stamina Consumption - Default: "@, int_text(magic.stamina as int), "\n"@, "  FP Consumption - Charged: "@ + int_text(magic.mp_charge as int) + "\n"@ + "  Stamina Consumption - Charged: "@ + int_text(magic.stamina_charge as int) + "\n"@);
    lemma_shows(text_magic_head(magic), "Magic "@ + int_text(magic.id as int) + " ("@ + magic.name@ + ")\n"@ + "  FP Consumption - Default: "@ + int_text(magic.mp as int) + "\n"@ + "  Stamina Consumption - Default: "@ + int_text(magic.stamina as int) + "\n"@, "  FP Consumption - Charged: "@, int_text(magic.mp_charge as int), "\n"@, "  Stamina Consumption - Charged: "@ + int_text(magic.stamina_charge as int) + "\n"@);
    lemma_shows(text_magic_head(magic), "Magic "@ + int_text(magic.id as int) + " ("@ + magic.name@ + ")\n"@ + "  FP Consumption - Default: "@ + int_text(magic.mp as int) + "\n"@ + "  Stamina Consumption - Default: "@ + int_text(magic.stamina as int) + "\n"@ + "  FP Consumption - Charged: "@ + int_text(magic.mp_charge as int) + "\n"@, "  Stamina Consumption - Charged: "@, int_text(magic.stamina_charge as int), "\n"@, Seq::<char>::empty());
}

/// The requirement lines of a spell's text form show each requirement after its key.
#[verifier::spinoff_prover]
proof fn lemma_text_requirements_show(magic: Magic)
    ensures
        shows(text_magic_requirements(magic), "  Requirement: ARC ("@, int_text(magic.requirement_luck as int), ")\n"@),
        shows(text_magic_requirements(magic), "  Requirement: INT ("@, int_text(magic.requirement_intellect as int), ")\n"@),
        shows(text_magic_requirements(magic), "  Requirement: FTH ("@, int_text(magic.requirement_faith as int), ")\n"@),
{
    lemma_shows(text_magic_requirements(magic), Seq::<char>::empty(), "  Requirement: ARC ("@, int_text(magic.requirement_luck as int), ")\n"@, "  Requirement: INT ("@ + int_text(magic.requirement_intellect as int) + ")\n"@ + "  Requirement: FTH ("@ + int_text(magic.requirement_faith as int) + ")\n"@);
    lemma_shows(text_magic_requirements(magic), "  Requirement: ARC ("@ + int_text(magic.requirement_luck as int) + ")\n"@, "  Requirement: INT ("@, int_text(magic.requirement_intellect as int), ")\n"@, "  Requirement: FTH ("@ + int_text(magic.requirement_faith as int) + ")\n"@);
    lemma_shows(text_magic_requirements(magic), "  Requirement: ARC ("@ + int_text(magic.requirement_luck as int) + ")\n"@ + "  Requirement: INT ("@ + int_text(magic.requirement_intellect as int) + ")\n"@, "  Requirement: FTH ("@, int_text(magic.requirement_faith as int), ")\n"@, Seq::<char>::empty());
}

/// Law: the spell's lines at the top of the text form show its id, each of its
/// costs and each of its requirements with its own field in decimal: the FP
/// and stamina costs by default and charged, the menu FP when the spell has
/// one, and the requirements arcane (from `requirement_luck`), intelligence and
/// faith, each on its own line.
#[verifier::spinoff_prover]
pub proof fn law_text_magic_lines_show_fields(magic: Magic)
    ensures
        shows(text_magic_lines(magic), "Magic "@, int_text(magic.id as int), " ("@),
        shows(text_magic_lines(magic), "  FP Consumption - Default: "@, int_text(magic.mp as int), "\n"@),
        shows(text_magic_lines(magic), "  Stamina Consumption - Default: "@, int_text(magic.stamina as int), "\n"@),
        shows(text_magic_lines(magic), "  FP Consumption - Charged: "@, int_text(magic.mp_charge as int), "\n"@),
        shows(text_magic_lines(magic), "  Stamina Consumption - Charged: "@, int_text(magic.stamina_charge as int), "\n"@),
        magic.consume_loop_mp_for_menu != -1 ==> shows(text_magic_lines(magic), "  FP Consumption Loop - For Menu Display: "@, int_text(magic.consume_loop_mp_for_menu as int), "\n"@),
        shows(text_magic_lines(magic), "  Requirement: ARC ("@, int_text(magic.requirement_luck as int), ")\n"@),
        shows(text_magic_lines(magic), "  Requirement: INT ("@, int_text(magic.requirement_intellect as int), ")\n"@),
        shows(text_magic_lines(magic), "  Requirement: FTH ("@, int_text(magic.requirement_faith as int), ")\n"@),
{
    let head = text_magic_head(magic);
    let menu = text_magic_menu(magic);
    let reqs = text_magic_requirements(magic);
    let text = text_magic_lines(magic);
    assert(text == head + menu + reqs);
    lemma_text_head_shows(magic);
    lemma_text_requirements_show(magic);
    lemma_shows_within(text, Seq::<char>::empty(), head, menu + reqs, "Magic "@, int_text(magic.id as int), " ("@);
    lemma_shows_within(text, Seq::<char>::empty(), head, menu + reqs, "  FP Consumption - Default: "@, int_text(magic.mp as int), "\n"@);
    lemma_shows_within(text, Seq::<char>::empty(), head, menu + reqs, "  Stamina Consumption - Default: "@, int_text(magic.stamina as int), "\n"@);
    lemma_shows_within(text, Seq::<char>::empty(), head, menu + reqs, "  FP Consumption - Charged: "@, int_text(magic.mp_charge as int), "\n"@);
    lemma_shows_within(text, Seq::<char>::empty(), head, menu + reqs, "  Stamina Consumption - Charged: "@, int_text(magic.stamina_charge as int), "\n"@);
    if magic.consume_loop_mp_for_menu != -1 {
        lemma_shows(menu, Seq::<char>::empty(), "  FP Consumption Loop - For Menu Display: "@, int_text(magic.consume_loop_mp_for_menu as int), "\n"@, Seq::<char>::empty());
        lemma_shows_within(text, head, menu, reqs, "  FP Consumption Loop - For Menu Display: "@, int_text(magic.consume_loop_mp_for_menu as int), "\n"@);
    }
    lemma_shows_within(text, head + menu, reqs, Seq::<char>::empty(), "  Requirement: ARC ("@, int_text(magic.requirement_luck as int), ")\n"@);
    lemma_shows_within(text, head + menu, reqs, Seq::<char>::empty(), "  Requirement: INT ("@, int_text(magic.requirement_intellect as int), ")\n"@);
    lemma_shows_within(text, head + menu, reqs, Seq::<char>::empty(), "  Requirement: FTH ("@, int_text(magic.requirement_faith as int), ")\n"@);
}

/// Law: the DOT label of a bullet node that does not close a cycle shows the
/// bullet's id, its attack id in decimal, its consumption type, and, when it
/// emits another bullet at intervals, the minimum and maximum interval, each
/// after its own key and in this order.
#[verifier::spinoff_prover]
pub proof fn law_dot_bullet_label_shows_fields(node: NodeView)
    requires
        !node.is_cycle,
        node.value is Some,
    ensures
        ({
            let value = node.value->Some_0;
            let label = dot_bullet_label(node);
            &&& shows(label, "Bullet "@, int_text(node.id as int), "\\n"@)
            &&& shows(label, "\\natkId_Bullet: "@, int_text(value.atk_id_bullet as int), "\\nConsumption Type: "@)
            &&& value.interval_create_bullet_id != -1 ==> {
                &&& shows(label, "\\nConsumption Type: "@, option_text(node.cons_type), " \\nInterval Min: "@)
                &&& shows(label, " \\nInterval Min: "@, value.interval_create_time_min@, " \\nInterval Max: "@)
                &&& ends_showing(label, " \\nInterval Max: "@, value.interval_create_time_max@)
            }
            &&& value.interval_create_bullet_id == -1 ==> ends_showing(label, "\\nConsumption Type: "@, option_text(node.cons_type))
        }),
{
    let value = node.value->Some_0;
    let label = dot_bullet_label(node);
    let id = int_text(node.id as int);
    let name = escape_text(value.name@);
    let atk = int_text(value.atk_id_bullet as int);
    let cons = option_text(node.cons_type);
    let min = value.interval_create_time_min@;
    let max = value.interval_create_time_max@;
    let head = "Bullet "@ + id + "\\n"@ + name + "\\natkId_Bullet: "@ + atk;
    let base = head + "\\nConsumption Type: "@ + cons;
    lemma_shows(base, Seq::<char>::empty(), "Bullet "@, id, "\\n"@, name + "\\natkId_Bullet: "@ + atk + "\\nConsumption Type: "@ + cons);
    lemma_shows(base, "Bullet "@ + id + "\\n"@ + name, "\\natkId_Bullet: "@, atk, "\\nConsumption Type: "@, cons);
    if value.interval_create_bullet_id != -1 {
        let tail = " \\nInterval Min: "@ + min + " \\nInterval Max: "@ + max;
        assert(label == base + tail);
        lemma_shows_within(label, Seq::<char>::empty(), base, tail, "Bullet "@, id, "\\n"@);
        lemma_shows_within(label, Seq::<char>::empty(), base, tail, "\\natkId_Bullet: "@, atk, "\\nConsumption Type: "@);
        lemma_shows_across(base, tail, head, "\\nConsumption Type: "@, cons, " \\nInterval Min: "@, min + " \\nInterval Max: "@ + max);
        lemma_shows(label, base, " \\nInterval Min: "@, min, " \\nInterval Max: "@, max);
        lemma_ends_showing(label, base + " \\nInterval Min: "@ + min, " \\nInterval Max: "@, max);
    } else {
        assert(label == base);
        lemma_ends_showing(label, head, "\\nConsumption Type: "@, cons);
    }
}

/// A line of the text tree shows its value after its key.
proof fn lemma_line_shows(count: nat, key: Seq<char>, value: Seq<char>)
    ensures
        shows(text_line(count, key + value), key, value, "\n"@),
{
    lemma_shows(text_line(count, key + value), indent_text(count), key, value, "\n"@, Seq::<char>::empty());
}

/// Law: the lines of a bullet in the text tree show its name, its attack id in
/// decimal, its consumption type, its damage hit duration and, when it emits
/// another bullet at intervals, the minimum and maximum interval, each after its
/// own key on a line of its own.
#[verifier::spinoff_prover]
pub proof fn law_text_bullet_lines_show_fields(value: Bullet, cons_type: Option<i64>, depth: nat)
    ensures
        shows(text_value_lines(value, cons_type, depth), "Name: "@, value.name@, "\n"@),
        shows(text_value_lines(value, cons_type, depth), "atkId_Bullet: "@, int_text(value.atk_id_bullet as int), "\n"@),
        shows(text_value_lines(value, cons_type, depth), "Consumption Type: "@, option_text(cons_type), "\n"@),
        shows(text_value_lines(value, cons_type, depth), "Damage Hit Durationb: "@, value.dmg_hit_record_life_time@, "\n"@),
        value.interval_create_bullet_id != -1 ==> {
            &&& shows(text_value_lines(value, cons_type, depth), "Interval Min: "@, value.interval_create_time_min@, "\n"@)
            &&& shows(text_value_lines(value, cons_type, depth), "Interval Max: "@, value.interval_create_time_max@, "\n"@)
        },
{
    let count = depth + 1;
    let name = text_line(count, "Name: "@ + value.name@);
    let atk = text_line(count, "atkId_Bullet: "@ + int_text(value.atk_id_bullet as int));
    let cons = text_line(count, "Consumption Type: "@ + option_text(cons_type));
    let hit = text_line(count, "Damage Hit Durationb: "@ + value.dmg_hit_record_life_time@);
    let interval = text_interval_lines(value, depth);
    let text = text_value_lines(value, cons_type, depth);
    assert(text == name + atk + cons + hit + interval);
    lemma_line_shows(count, "Name: "@, value.name@);
    lemma_line_shows(count, "atkId_Bullet: "@, int_text(value.atk_id_bullet as int));
    lemma_line_shows(count, "Consumption Type: "@, option_text(cons_type));
    lemma_line_shows(count, "Damage Hit Durationb: "@, value.dmg_hit_record_life_time@);
    lemma_shows_within(text, Seq::<char>::empty(), name, atk + cons + hit + interval, "Name: "@, value.name@, "\n"@);
    lemma_shows_within(text, name, atk, cons + hit + interval, "atkId_Bullet: "@, int_text(value.atk_id_bullet as int), "\n"@);
    lemma_shows_within(text, name + atk, cons, hit + interval, "Consumption Type: "@, option_text(cons_type), "\n"@);
    lemma_shows_within(text, name + atk + cons, hit, interval, "Damage Hit Durationb: "@, value.dmg_hit_record_life_time@, "\n"@);
    if value.interval_create_bullet_id != -1 {
        let min = text_line(count, "Interval Min: "@ + value.interval_create_time_min@);
        let max = text_line(count, "Interval Max: "@ + value.interval_create_time_max@);
        assert(interval == min + max);
        lemma_line_shows(count, "Interval Min: "@, value.interval_create_time_min@);
        lemma_line_shows(count, "Interval Max: "@, value.interval_create_time_max@);
        lemma_shows_within(text, name + atk + cons + hit, min, max, "Interval Min: "@, value.interval_create_time_min@, "\n"@);
        lemma_shows_within(text, name + atk + cons + hit + min, max, Seq::<char>::empty(), "Interval Max: "@, value.interval_create_time_max@, "\n"@);
    }
}

/// Law: below the lines of its bullet, a node of the text tree shows its
/// launch condition in decimal on a line of its own, and, when it has attack
/// parameters, a heading with their id in decimal.
#[verifier::spinoff_prover]
pub proof fn law_text_node_body_shows_fields(node: NodeView, depth: nat)
    requires
        node.value is Some,
    ensures
        shows(text_node_body(node, depth), "launchConditionType: "@, int_text(node.value->Some_0.launch_condition_type as int), "\n"@),
        node.atk_param is Some ==> shows(text_node_body(node, depth), "└─ AtkParamPc "@, int_text(node.atk_param->Some_0.value.id as int), " ("@),
{
    let value = node.value->Some_0;
    let count = depth + 1;
    let lines = text_value_lines(value, node.cons_type, depth);
    let atk_lines = match node.atk_param {
        Some(atk) => text_attack_lines(atk.value, depth),
        None => Seq::<char>::empty(),
    };
    let launch = text_line(count, "launchConditionType: "@ + int_text(value.launch_condition_type as int));
    let body = text_node_body(node, depth);
    assert(body == lines + atk_lines + launch);
    lemma_line_shows(count, "launchConditionType: "@, int_text(value.launch_condition_type as int));
    lemma_shows_within(body, lines + atk_lines, launch, Seq::<char>::empty(), "launchConditionType: "@, int_text(value.launch_condition_type as int), "\n"@);
    if let Some(atk) = node.atk_param {
        let id = int_text(atk.value.id as int);
        let heading = text_line(count, "└─ AtkParamPc "@ + id + " ("@ + atk.value.name@ + ")"@);
        let damage = text_damage_lines(atk.value, depth + 2);
        assert(atk_lines == heading + damage);
        lemma_shows(heading, indent_text(count), "└─ AtkParamPc "@, id, " ("@, atk.value.name@ + ")"@ + "\n"@);
        lemma_shows_within(atk_lines, Seq::<char>::empty(), heading, damage, "└─ AtkParamPc "@, id, " ("@);
        lemma_shows_within(body, lines, atk_lines, launch, "└─ AtkParamPc "@, id, " ("@);
    }
}

/// Law: the DOT lines of a bullet's attack parameters label their node with the
/// id of the attack parameter row in decimal.
#[verifier::spinoff_prover]
pub proof fn law_dot_attack_shows_id(current_id: Seq<char>, atk: AtkParamPc)
    ensures
        shows(dot_attack(current_id, atk), "AtkParamPc "@, int_text(atk.id as int), "\\n"@),
{
    let atk_id = current_id + "_atk"@;
    let damage_id = atk_id + "_damage"@;
    let node = dot_attack_node(atk_id, atk);
    let rest = dot_arrow(current_id, atk_id, "attack params"@) + dot_damage_node(damage_id, atk) + dot_arrow(atk_id, damage_id, "damage"@);
    assert(dot_attack(current_id, atk) == node + rest) by {
        lemma_assoc(node, dot_arrow(current_id, atk_id, "attack params"@), dot_damage_node(damage_id, atk));
        lemma_assoc(node, dot_arrow(current_id, atk_id, "attack params"@) + dot_damage_node(damage_id, atk), dot_arrow(atk_id, damage_id, "damage"@));
    }
    lemma_shows(node, "    "@ + atk_id + " [label=\""@, "AtkParamPc "@, int_text(atk.id as int), "\\n"@, escape_text(atk.name@) + "\", shape=component];\n"@);
    lemma_shows_within(dot_attack(current_id, atk), Seq::<char>::empty(), node, rest, "AtkParamPc "@, int_text(atk.id as int), "\\n"@);
}

/// Law: converting a record back to the kind of row it holds gives that row,
/// and converting it to any other kind fails, naming the kind it holds.
pub proof fn law_record_conversion_round_trips(record: Record)
    ensures
        record matches Record::Magic(magic) ==> magic_from_record(record) == Ok::<Magic, RecordConversionError>(magic),
        record matches Record::Bullet(bullet) ==> bullet_from_record(record) == Ok::<Bullet, RecordConversionError>(bullet),
        record matches Record::AtkParamPC(atk) ==> atk_param_from_record(record) == Ok::<AtkParamPc, RecordConversionError>(atk),
        !(record is Magic) ==> magic_from_record(record) == Err::<Magic, RecordConversionError>(RecordConversionError::ExpectedMagic(kind_of(record))),
        !(record is Bullet) ==> bullet_from_record(record) == Err::<Bullet, RecordConversionError>(RecordConversionError::ExpectedBullet(kind_of(record))),
        !(record is AtkParamPC) ==> atk_param_from_record(record) == Err::<AtkParamPc, RecordConversionError>(RecordConversionError::ExpectedAtkParamPc(kind_of(record))),
{
}

}
