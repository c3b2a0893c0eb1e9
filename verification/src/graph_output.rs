//! Rendering a bullet graph as Graphviz DOT and as an indented text tree.
use vstd::prelude::*;

use crate::graph::{relation_label, BulletEdge, EdgeView, GraphView, MagicGraph, NodeView, lemma_edges_view, edges_view};
use crate::models::{AtkParamPc, Bullet, Magic};
use crate::text::{chars_of, lemma_assoc, lemma_empty_left, indent_text, int_text, nat_text, option_text, push_char, push_indent, push_int, push_option, push_usize};

verus! {

/// How one character reads inside a quoted DOT string.
pub open spec fn escape_char(c: char) -> Seq<char> {
    if c == '\\' {
        seq!['\\', '\\']
    } else if c == '"' {
        seq!['\\', '"']
    } else if c == '\n' {
        seq!['\\', 'n']
    } else {
        seq![c]
    }
}

/// A text with backslashes, quotes and newlines escaped for a quoted DOT string.
pub open spec fn escape_text(s: Seq<char>) -> Seq<char>
    decreases s.len(),
{
    if s.len() == 0 {
        Seq::empty()
    } else {
        escape_text(s.drop_last()) + escape_char(s.last())
    }
}

/// Appends `value` escaped for a quoted DOT string.
pub fn push_escaped(out: &mut String, value: &str)
    ensures
        final(out)@ == old(out)@ + escape_text(value@),
{
    let chars = chars_of(value);
    let n = chars.len();
    let mut i: usize = 0;
    assert(value@.take(0) =~= Seq::<char>::empty());
    while i < n
        invariant
            n == value@.len(),
            chars@ == value@,
            i <= n,
            out@ == old(out)@ + escape_text(value@.take(i as int)),
        decreases n - i,
    {
        let c = chars[i];
        if c == '\\' {
            push_char(out, '\\');
            push_char(out, '\\');
        } else if c == '"' {
            push_char(out, '\\');
            push_char(out, '"');
        } else if c == '\n' {
            push_char(out, '\\');
            push_char(out, 'n');
        } else {
            push_char(out, c);
        }
        assert(value@.take(i + 1).drop_last() =~= value@.take(i as int));
        i = i + 1;
        assert(out@ =~= old(out)@ + escape_text(value@.take(i as int)));
    }
    assert(value@.take(n as int) =~= value@);
}

/// `value` with backslashes, quotes and newlines escaped for a quoted DOT string.
pub fn escape_dot(value: &str) -> (s: String)
    ensures
        s@ == escape_text(value@),
{
    let mut s = String::new();
    push_escaped(&mut s, value);
    assert(s@ =~= escape_text(value@));
    s
}


/// A node can be rendered: a node that closes a cycle always can; any other
/// needs its bullet row, and so do its children.
pub open spec fn renderable(node: NodeView) -> bool
    decreases node,
{
    node.is_cycle || (node.value is Some && forall|i: int| 0 <= i < node.children.len() ==> renderable(#[trigger] node.children[i].child))
}

/// The number of edges that rendering `edge` visits: the edge itself and,
/// below a node that does not close a cycle, those of its children.
pub open spec fn edge_count(edge: EdgeView) -> nat
    decreases edge,
{
    1 + if edge.child.is_cycle { 0 } else { edges_count(edge.child.children) }
}

pub open spec fn edges_count(edges: Seq<EdgeView>) -> nat
    decreases edges,
{
    if edges.len() == 0 {
        0
    } else {
        edges_count(edges.drop_last()) + edge_count(edges.last())
    }
}

/// The DOT id of a bullet node numbered `counter`.
pub open spec fn dot_node_id(id: i64, counter: nat) -> Seq<char> {
    "bullet_"@ + int_text(id as int) + "_"@ + nat_text(counter)
}

/// The label of a bullet node in DOT.
pub open spec fn dot_bullet_label(node: NodeView) -> Seq<char> {
    if node.is_cycle {
        "Bullet "@ + int_text(node.id as int) + "\\ncycle"@
    } else {
        let value = node.value->Some_0;
        let base = "Bullet "@ + int_text(node.id as int) + "\\n"@ + escape_text(value.name@) + "\\natkId_Bullet: "@
            + int_text(value.atk_id_bullet as int) + "\\nConsumption Type: "@ + option_text(node.cons_type);
        if value.interval_create_bullet_id != -1 {
            base + " \\nInterval Min: "@ + value.interval_create_time_min@ + " \\nInterval Max: "@ + value.interval_create_time_max@
        } else {
            base
        }
    }
}

/// A DOT arrow line from `from` to `to` with the given label text.
pub open spec fn dot_arrow(from: Seq<char>, to: Seq<char>, label: Seq<char>) -> Seq<char> {
    "    "@ + from + " -> "@ + to + " [label=\""@ + label + "\"];\n"@
}

/// The two DOT lines of an edge: its target node and the arrow from the parent.
pub open spec fn dot_edge_head(parent_id: Seq<char>, edge: EdgeView, current_id: Seq<char>) -> Seq<char> {
    "    "@ + current_id + " [label=\""@ + dot_bullet_label(edge.child) + "\", shape=box];\n"@
    + dot_arrow(parent_id, current_id, escape_text(relation_label(edge.relation)))
}

/// The damage lines of an attack parameter row.
pub open spec fn dot_damage_lines(atk: AtkParamPc) -> Seq<char> {
    "Physical: "@ + escape_text(int_text(atk.atk_phys as int))
    + "\\nMagic: "@ + escape_text(int_text(atk.atk_mag as int))
    + "\\nFire: "@ + escape_text(int_text(atk.atk_fire as int))
    + "\\nLightning: "@ + escape_text(int_text(atk.atk_thun as int))
    + "\\nHoly: "@ + escape_text(int_text(atk.atk_dark as int))
    + "\\nStamina: "@ + escape_text(int_text(atk.atk_stam as int))
    + "\\nPoise: "@ + escape_text(int_text(atk.atk_super_armor as int))
}

/// The DOT node line of a bullet's attack parameters.
pub open spec fn dot_attack_node(atk_id: Seq<char>, atk: AtkParamPc) -> Seq<char> {
    "    "@ + atk_id + " [label=\""@ + "AtkParamPc "@ + int_text(atk.id as int) + "\\n"@ + escape_text(atk.name@) + "\", shape=component];\n"@
}

/// The DOT node line of a bullet's damage.
pub open spec fn dot_damage_node(damage_id: Seq<char>, atk: AtkParamPc) -> Seq<char> {
    "    "@ + damage_id + " [label=\""@ + dot_damage_lines(atk) + "\", shape=note];\n"@
}

/// The four DOT lines of a bullet's attack parameters and their damage.
pub open spec fn dot_attack(current_id: Seq<char>, atk: AtkParamPc) -> Seq<char> {
    let atk_id = current_id + "_atk"@;
    let damage_id = atk_id + "_damage"@;
    dot_attack_node(atk_id, atk) + dot_arrow(current_id, atk_id, "attack params"@) + dot_damage_node(damage_id, atk)
        + dot_arrow(atk_id, damage_id, "damage"@)
}

/// The DOT text of an edge from `parent_id` whose node is numbered `counter`,
/// followed by that of everything below it, numbered on from `counter + 1`.
pub open spec fn dot_edge(parent_id: Seq<char>, edge: EdgeView, counter: nat) -> Seq<char>
    decreases edge,
{
    let current_id = dot_node_id(edge.child.id, counter);
    dot_edge_head(parent_id, edge, current_id) + if edge.child.is_cycle {
        Seq::empty()
    } else {
        (match edge.child.atk_param {
            Some(atk) => dot_attack(current_id, atk.value),
            None => Seq::empty(),
        }) + dot_edges(current_id, edge.child.children, counter + 1)
    }
}

/// The DOT text of edges from `parent_id`, numbered in order from `counter`.
pub open spec fn dot_edges(parent_id: Seq<char>, edges: Seq<EdgeView>, counter: nat) -> Seq<char>
    decreases edges,
{
    if edges.len() == 0 {
        Seq::empty()
    } else {
        dot_edges(parent_id, edges.drop_last(), counter) + dot_edge(parent_id, edges.last(), counter + edges_count(edges.drop_last()))
    }
}

pub proof fn lemma_edges_count_prefix(edges: Seq<EdgeView>, k: int)
    requires
        0 <= k <= edges.len(),
    ensures
        edges_count(edges.take(k)) <= edges_count(edges),
    decreases edges.len() - k,
{
    if k < edges.len() {
        lemma_edges_count_prefix(edges, k + 1);
        assert(edges.take(k + 1).drop_last() =~= edges.take(k));
    } else {
        assert(edges.take(k) =~= edges);
    }
}

fn push_escaped_int(output: &mut String, n: i64)
    ensures
        final(output)@ == old(output)@ + escape_text(int_text(n as int)),
{
    let text = crate::text::int_string(n);
    push_escaped(output, text.as_str());
}


fn dot_label_string(edge: &BulletEdge) -> (label: String)
    requires
        renderable(edge@.child),
    ensures
        label@ == dot_bullet_label(edge@.child),
{
    let child = &edge.child;
    let mut label = String::from_str("Bullet ");
    push_int(&mut label, child.id);
    if child.is_cycle {
        label.append("\\ncycle");
    } else {
        let value = child.value.as_ref().unwrap();
        label.append("\\n");
        push_escaped(&mut label, value.name.as_str());
        label.append("\\natkId_Bullet: ");
        push_int(&mut label, value.atk_id_bullet);
        label.append("\\nConsumption Type: ");
        push_option(&mut label, child.cons_type);
        if value.interval_create_bullet_id != -1 {
            label.append(" \\nInterval Min: ");
            label.append(value.interval_create_time_min.as_str());
            label.append(" \\nInterval Max: ");
            label.append(value.interval_create_time_max.as_str());
        }
    }
    label
}

fn arrow_string(from: &str, to: &str, label: &str) -> (line: String)
    ensures
        line@ == dot_arrow(from@, to@, label@),
{
    let mut line = String::from_str("    ");
    line.append(from);
    line.append(" -> ");
    line.append(to);
    line.append(" [label=\"");
    line.append(label);
    line.append("\"];\n");
    line
}

fn damage_lines_string(atk: &AtkParamPc) -> (lines: String)
    ensures
        lines@ == dot_damage_lines(*atk),
{
    let mut lines = String::from_str("Physical: ");
    push_escaped_int(&mut lines, atk.atk_phys);
    lines.append("\\nMagic: ");
    push_escaped_int(&mut lines, atk.atk_mag);
    lines.append("\\nFire: ");
    push_escaped_int(&mut lines, atk.atk_fire);
    lines.append("\\nLightning: ");
    push_escaped_int(&mut lines, atk.atk_thun);
    lines.append("\\nHoly: ");
    push_escaped_int(&mut lines, atk.atk_dark);
    lines.append("\\nStamina: ");
    push_escaped_int(&mut lines, atk.atk_stam);
    lines.append("\\nPoise: ");
    push_escaped_int(&mut lines, atk.atk_super_armor);
    lines
}

fn dot_attack_string(current_id: &str, atk: &AtkParamPc) -> (piece: String)
    ensures
        piece@ == dot_attack(current_id@, *atk),
{
    let mut atk_node_id = String::from_str(current_id);
    atk_node_id.append("_atk");
    let mut damage_node_id = String::from_str(atk_node_id.as_str());
    damage_node_id.append("_damage");
    let mut piece = String::from_str("    ");
    piece.append(atk_node_id.as_str());
    piece.append(" [label=\"");
    piece.append("AtkParamPc ");
    push_int(&mut piece, atk.id);
    piece.append("\\n");
    push_escaped(&mut piece, atk.name.as_str());
    piece.append("\", shape=component];\n");
    let to_atk = arrow_string(current_id, atk_node_id.as_str(), "attack params");
    piece.append(to_atk.as_str());
    let mut damage_node = String::from_str("    ");
    damage_node.append(damage_node_id.as_str());
    damage_node.append(" [label=\"");
    let damage = damage_lines_string(atk);
    damage_node.append(damage.as_str());
    damage_node.append("\", shape=note];\n");
    piece.append(damage_node.as_str());
    let to_damage = arrow_string(atk_node_id.as_str(), damage_node_id.as_str(), "damage");
    piece.append(to_damage.as_str());
    piece
}

fn dot_head_string(parent_id: &str, edge: &BulletEdge, current_id: &str) -> (head: String)
    requires
        renderable(edge@.child),
    ensures
        head@ == dot_edge_head(parent_id@, edge@, current_id@),
{
    let mut head = String::from_str("    ");
    head.append(current_id);
    head.append(" [label=\"");
    let label = dot_label_string(edge);
    head.append(label.as_str());
    head.append("\", shape=box];\n");
    let relation_text = edge.relation.label();
    let escaped_relation = escape_dot(relation_text.as_str());
    let arrow = arrow_string(parent_id, current_id, escaped_relation.as_str());
    head.append(arrow.as_str());
    head
}

/// Writes the DOT text of `edge` from `parent_id`: the node numbered
/// `*node_counter`, the arrow to it, its attack parameters and, recursively,
/// its children, each node taking the next number.
pub fn write_dot_edge(output: &mut String, parent_id: &str, edge: &BulletEdge, node_counter: &mut usize)
    requires
        renderable(edge@.child),
        *old(node_counter) + edge_count(edge@) <= usize::MAX,
    ensures
        final(output)@ == old(output)@ + dot_edge(parent_id@, edge@, *old(node_counter) as nat),
        *final(node_counter) == *old(node_counter) + edge_count(edge@),
    decreases edge,
{
    let ghost start = output@;
    let ghost e = edge@;
    let mut current_id = String::from_str("bullet_");
    push_int(&mut current_id, edge.child.id);
    current_id.append("_");
    push_usize(&mut current_id, *node_counter);
    *node_counter += 1;
    let head = dot_head_string(parent_id, edge, current_id.as_str());
    output.append(head.as_str());
    if edge.child.is_cycle {
        assert(head@ + Seq::<char>::empty() =~= head@);
        return;
    }
    let mut attack = String::new();
    if let Some(atk_param) = &edge.child.atk_param {
        attack = dot_attack_string(current_id.as_str(), &atk_param.value);
    }
    output.append(attack.as_str());
    let ghost after_attack = output@;
    proof {
        assert(decreases_to!(*edge => edge.child));
        assert(decreases_to!(edge.child => edge.child.children));
        assert(e.child.children == edges_view(edge.child.children@));
    }
    write_dot_edges(output, current_id.as_str(), &edge.child.children, node_counter);
    proof {
        let rest = dot_edges(current_id@, e.child.children, (*old(node_counter) + 1) as nat);
        lemma_assoc(start + head@, attack@, rest);
        lemma_assoc(start, head@, attack@ + rest);
    }
}


/// The DOT id of a spell's node.
pub open spec fn dot_magic_id(magic: Magic) -> Seq<char> {
    "magic_"@ + int_text(magic.id as int)
}

/// The first part of a spell's DOT label: its id and name.
pub open spec fn dot_magic_title(magic: Magic) -> Seq<char> {
    "Magic "@ + int_text(magic.id as int) + "\\n"@ + escape_text(magic.name@)
}

/// The costs part of a spell's DOT label.
pub open spec fn dot_magic_costs(magic: Magic) -> Seq<char> {
    "\\nFP Default: "@ + int_text(magic.mp as int)
    + "\\nStamina Default: "@ + int_text(magic.stamina as int)
    + "\\nFP Charged: "@ + int_text(magic.mp_charge as int)
    + "\\nStamina Charged: "@ + int_text(magic.stamina_charge as int)
}

/// The requirements part of a spell's DOT label.
pub open spec fn dot_magic_requirements(magic: Magic) -> Seq<char> {
    "\\nARC: "@ + int_text(magic.requirement_luck as int)
    + "\\nINT: "@ + int_text(magic.requirement_intellect as int)
    + "\\nFTH: "@ + int_text(magic.requirement_faith as int)
}

/// The label of a spell's node in DOT; the menu FP line only when the spell has one.
pub open spec fn dot_magic_label(magic: Magic) -> Seq<char> {
    dot_magic_title(magic) + dot_magic_costs(magic) + dot_magic_requirements(magic)
    + if magic.consume_loop_mp_for_menu != -1 {
        "\\nFP Loop Menu: "@ + int_text(magic.consume_loop_mp_for_menu as int)
    } else {
        Seq::empty()
    }
}

/// The whole DOT document of a graph: the header, the spell's node, then its
/// edges numbered from 0, and the closing brace.
pub open spec fn dot_graph(graph: GraphView) -> Seq<char> {
    "digraph magic_graph {\n"@ + "    rankdir=LR;\n"@ + "    node [shape=box, fontname=\"monospace\"];\n"@
    + "    "@ + dot_magic_id(graph.magic) + " [label=\""@ + dot_magic_label(graph.magic) + "\", shape=oval];\n"@
    + dot_edges(dot_magic_id(graph.magic), graph.bullets, 0)
    + "}\n"@
}

/// Every bullet of a graph can be rendered.
pub open spec fn graph_renderable(graph: GraphView) -> bool {
    forall|i: int| 0 <= i < graph.bullets.len() ==> renderable(#[trigger] graph.bullets[i].child)
}

fn magic_label_string(magic: &Magic) -> (label: String)
    ensures
        label@ == dot_magic_label(*magic),
{
    let mut label = String::from_str("Magic ");
    push_int(&mut label, magic.id);
    label.append("\\n");
    push_escaped(&mut label, magic.name.as_str());
    let mut costs = String::from_str("\\nFP Default: ");
    push_int(&mut costs, magic.mp);
    costs.append("\\nStamina Default: ");
    push_int(&mut costs, magic.stamina);
    costs.append("\\nFP Charged: ");
    push_int(&mut costs, magic.mp_charge);
    costs.append("\\nStamina Charged: ");
    push_int(&mut costs, magic.stamina_charge);
    label.append(costs.as_str());
    let mut requirements = String::from_str("\\nARC: ");
    push_int(&mut requirements, magic.requirement_luck);
    requirements.append("\\nINT: ");
    push_int(&mut requirements, magic.requirement_intellect);
    requirements.append("\\nFTH: ");
    push_int(&mut requirements, magic.requirement_faith);
    label.append(requirements.as_str());
    if magic.consume_loop_mp_for_menu != -1 {
        let mut menu = String::from_str("\\nFP Loop Menu: ");
        push_int(&mut menu, magic.consume_loop_mp_for_menu);
        label.append(menu.as_str());
    } else {
        assert(label@ + Seq::<char>::empty() =~= label@);
    }
    label
}

/// Writes the edges of `edges` from `parent_id`, numbering their nodes from `*node_counter`.
fn write_dot_edges(output: &mut String, parent_id: &str, edges: &Vec<BulletEdge>, node_counter: &mut usize)
    requires
        forall|k: int| 0 <= k < edges_view(edges@).len() ==> renderable(#[trigger] edges_view(edges@)[k].child),
        *old(node_counter) + edges_count(edges_view(edges@)) <= usize::MAX,
    ensures
        final(output)@ == old(output)@ + dot_edges(parent_id@, edges_view(edges@), *old(node_counter) as nat),
        *final(node_counter) == *old(node_counter) + edges_count(edges_view(edges@)),
    decreases edges,
{
    let ghost views = edges_view(edges@);
    let ghost start = output@;
    let ghost counter_start = *node_counter as nat;
    proof {
        lemma_edges_view(edges@);
        assert(views.take(0) =~= Seq::<EdgeView>::empty());
        assert(start + Seq::<char>::empty() =~= start);
    }
    let mut i: usize = 0;
    while i < edges.len()
        invariant
            i <= edges@.len(),
            views == edges_view(edges@),
            views.len() == edges@.len(),
            forall|k: int| 0 <= k < views.len() ==> #[trigger] views[k] == edges@[k]@,
            forall|k: int| 0 <= k < views.len() ==> renderable(#[trigger] views[k].child),
            counter_start + edges_count(views) <= usize::MAX,
            output@ == start + dot_edges(parent_id@, views.take(i as int), counter_start),
            *node_counter == counter_start + edges_count(views.take(i as int)),
        decreases edges@.len() - i,
    {
        proof {
            assert(views.take(i + 1).drop_last() =~= views.take(i as int));
            lemma_edges_count_prefix(views, i + 1);
            broadcast use vstd::std_specs::vec::axiom_vec_decreases_to_view;
            assert(decreases_to!(*edges => edges@));
            assert(decreases_to!(edges@ => edges@[i as int]));
        }
        write_dot_edge(output, parent_id, &edges[i], node_counter);
        proof {
            lemma_assoc(start, dot_edges(parent_id@, views.take(i as int), counter_start), dot_edge(parent_id@, views[i as int], counter_start + edges_count(views.take(i as int))));
        }
        i = i + 1;
    }
    assert(views.take(views.len() as int) =~= views);
}

impl MagicGraph {
    /// The graph as a Graphviz DOT document.
    pub fn to_dot(&self) -> (output: String)
        requires
            graph_renderable(self@),
            edges_count(self@.bullets) <= usize::MAX,
        ensures
            output@ == dot_graph(self@),
    {
        let mut output = String::from_str("digraph magic_graph {\n");
        output.append("    rankdir=LR;\n");
        output.append("    node [shape=box, fontname=\"monospace\"];\n");
        let mut magic_node_id = String::from_str("magic_");
        push_int(&mut magic_node_id, self.magic.id);
        output.append("    ");
        output.append(magic_node_id.as_str());
        output.append(" [label=\"");
        let label = magic_label_string(&self.magic);
        output.append(label.as_str());
        output.append("\", shape=oval];\n");
        let mut node_counter: usize = 0;
        proof {
            lemma_edges_view(self.bullets@);
        }
        write_dot_edges(&mut output, magic_node_id.as_str(), &self.bullets, &mut node_counter);
        output.append("}\n");
        output
    }
}


/// The first line of an edge in the text tree.
pub open spec fn text_edge_head(edge: EdgeView, depth: nat) -> Seq<char> {
    indent_text(depth) + "└─ "@ + relation_label(edge.relation) + " → Bullet "@ + int_text(edge.child.id as int) + "\n"@
}

/// A line of the text tree: `count` levels of indent, the text, a newline.
pub open spec fn text_line(count: nat, text: Seq<char>) -> Seq<char> {
    indent_text(count) + text + "\n"@
}

/// The lines that describe a bullet row, one level deeper than its edge.
pub open spec fn text_value_lines(value: Bullet, cons_type: Option<i64>, depth: nat) -> Seq<char> {
    text_line(depth + 1, "Name: "@ + value.name@)
    + text_line(depth + 1, "atkId_Bullet: "@ + int_text(value.atk_id_bullet as int))
    + text_line(depth + 1, "Consumption Type: "@ + option_text(cons_type))
    + text_line(depth + 1, "Damage Hit Durationb: "@ + value.dmg_hit_record_life_time@)
    + text_interval_lines(value, depth)
}

/// The interval lines of a bullet that emits another at intervals.
pub open spec fn text_interval_lines(value: Bullet, depth: nat) -> Seq<char> {
    if value.interval_create_bullet_id != -1 {
        text_line(depth + 1, "Interval Min: "@ + value.interval_create_time_min@)
        + text_line(depth + 1, "Interval Max: "@ + value.interval_create_time_max@)
    } else {
        Seq::empty()
    }
}

/// A damage line of the text tree.
pub open spec fn text_damage_line(count: nat, kind: Seq<char>, amount: i64) -> Seq<char> {
    text_line(count, "Damage: "@ + kind + " ("@ + int_text(amount as int) + ")"@)
}

/// The lines of a bullet's attack parameters: a heading one level deeper than
/// the edge and the damage lines two levels deeper.
pub open spec fn text_attack_lines(atk: AtkParamPc, depth: nat) -> Seq<char> {
    text_line(depth + 1, "└─ AtkParamPc "@ + int_text(atk.id as int) + " ("@ + atk.name@ + ")"@)
    + text_damage_lines(atk, depth + 2)
}

/// The damage lines of the text tree, at `count` levels of indent.
pub open spec fn text_damage_lines(atk: AtkParamPc, count: nat) -> Seq<char> {
    text_damage_line(count, "Physical"@, atk.atk_phys)
    + text_damage_line(count, "Magic"@, atk.atk_mag)
    + text_damage_line(count, "Fire"@, atk.atk_fire)
    + text_damage_line(count, "Lightning"@, atk.atk_thun)
    + text_damage_line(count, "Holy"@, atk.atk_dark)
    + text_damage_line(count, "Stamina"@, atk.atk_stam)
    + text_damage_line(count, "Poise"@, atk.atk_super_armor)
}

/// The text tree of an edge at `depth`: its heading line; for a node that closes
/// a cycle, a note; otherwise the bullet's lines, its attack parameters, its
/// launch condition and its children one level deeper.
pub open spec fn text_edge(edge: EdgeView, depth: nat) -> Seq<char>
    decreases edge,
{
    if edge.child.is_cycle {
        text_edge_head(edge, depth) + indent_text(depth) + "   [cycle detected]\n"@
    } else {
        text_edge_head(edge, depth) + text_node_body(edge.child, depth) + text_edges(edge.child.children, depth + 1)
    }
}

/// The lines of a node that does not close a cycle, below its heading line:
/// the bullet's lines, its attack parameters and its launch condition.
pub open spec fn text_node_body(node: NodeView, depth: nat) -> Seq<char> {
    text_value_lines(node.value->Some_0, node.cons_type, depth)
    + (match node.atk_param {
        Some(atk) => text_attack_lines(atk.value, depth),
        None => Seq::empty(),
    })
    + text_line(depth + 1, "launchConditionType: "@ + int_text(node.value->Some_0.launch_condition_type as int))
}

/// The text trees of edges at `depth`, in order.
pub open spec fn text_edges(edges: Seq<EdgeView>, depth: nat) -> Seq<char>
    decreases edges,
{
    if edges.len() == 0 {
        Seq::empty()
    } else {
        text_edges(edges.drop_last(), depth) + text_edge(edges.last(), depth)
    }
}

fn line_string(count: usize, text: &str) -> (line: String)
    ensures
        line@ == text_line(count as nat, text@),
{
    let mut line = String::new();
    push_indent(&mut line, count);
    proof {
        lemma_empty_left(indent_text(count as nat));
    }
    line.append(text);
    line.append("\n");
    line
}

fn labelled_line_string(count: usize, label: &str, value: &str) -> (line: String)
    ensures
        line@ == text_line(count as nat, label@ + value@),
{
    let mut text = String::from_str(label);
    text.append(value);
    line_string(count, text.as_str())
}

fn text_head_string(edge: &BulletEdge, depth: usize) -> (head: String)
    ensures
        head@ == text_edge_head(edge@, depth as nat),
{
    let mut head = String::new();
    push_indent(&mut head, depth);
    proof {
        lemma_empty_left(indent_text(depth as nat));
    }
    head.append("└─ ");
    let label = edge.relation.label();
    head.append(label.as_str());
    head.append(" → Bullet ");
    push_int(&mut head, edge.child.id);
    head.append("\n");
    head
}

fn text_value_lines_string(value: &Bullet, cons_type: Option<i64>, depth: usize) -> (lines: String)
    requires
        depth + 1 <= usize::MAX,
    ensures
        lines@ == text_value_lines(*value, cons_type, depth as nat),
{
    let p = depth + 1;
    let mut lines = labelled_line_string(p, "Name: ", value.name.as_str());
    let atk_text = crate::text::int_string(value.atk_id_bullet);
    let atk_line = labelled_line_string(p, "atkId_Bullet: ", atk_text.as_str());
    lines.append(atk_line.as_str());
    let mut cons_text = String::new();
    push_option(&mut cons_text, cons_type);
    proof {
        lemma_empty_left(option_text(cons_type));
    }
    let cons_line = labelled_line_string(p, "Consumption Type: ", cons_text.as_str());
    lines.append(cons_line.as_str());
    let duration_line = labelled_line_string(p, "Damage Hit Durationb: ", value.dmg_hit_record_life_time.as_str());
    lines.append(duration_line.as_str());
    if value.interval_create_bullet_id != -1 {
        let mut interval = labelled_line_string(p, "Interval Min: ", value.interval_create_time_min.as_str());
        let max_line = labelled_line_string(p, "Interval Max: ", value.interval_create_time_max.as_str());
        interval.append(max_line.as_str());
        lines.append(interval.as_str());
    } else {
        assert(lines@ + Seq::<char>::empty() =~= lines@);
    }
    lines
}

fn damage_line_string(count: usize, kind: &str, amount: i64) -> (line: String)
    ensures
        line@ == text_damage_line(count as nat, kind@, amount),
{
    let mut text = String::from_str("Damage: ");
    text.append(kind);
    text.append(" (");
    push_int(&mut text, amount);
    text.append(")");
    line_string(count, text.as_str())
}

fn text_attack_lines_string(atk: &AtkParamPc, depth: usize) -> (lines: String)
    requires
        depth + 2 <= usize::MAX,
    ensures
        lines@ == text_attack_lines(*atk, depth as nat),
{
    let d = depth + 2;
    let mut heading = String::from_str("└─ AtkParamPc ");
    push_int(&mut heading, atk.id);
    heading.append(" (");
    heading.append(atk.name.as_str());
    heading.append(")");
    let mut lines = line_string(depth + 1, heading.as_str());
    let mut damage = damage_line_string(d, "Physical", atk.atk_phys);
    let line = damage_line_string(d, "Magic", atk.atk_mag);
    damage.append(line.as_str());
    let line = damage_line_string(d, "Fire", atk.atk_fire);
    damage.append(line.as_str());
    let line = damage_line_string(d, "Lightning", atk.atk_thun);
    damage.append(line.as_str());
    let line = damage_line_string(d, "Holy", atk.atk_dark);
    damage.append(line.as_str());
    let line = damage_line_string(d, "Stamina", atk.atk_stam);
    damage.append(line.as_str());
    let line = damage_line_string(d, "Poise", atk.atk_super_armor);
    damage.append(line.as_str());
    lines.append(damage.as_str());
    lines
}

fn text_node_body_string(edge: &BulletEdge, depth: usize) -> (body: String)
    requires
        edge@.child.value is Some,
        depth + 2 <= usize::MAX,
    ensures
        body@ == text_node_body(edge@.child, depth as nat),
{
    let value = edge.child.value.as_ref().unwrap();
    let mut body = text_value_lines_string(value, edge.child.cons_type, depth);
    if let Some(atk_param) = &edge.child.atk_param {
        let attack = text_attack_lines_string(&atk_param.value, depth);
        body.append(attack.as_str());
    } else {
        assert(body@ + Seq::<char>::empty() =~= body@);
    }
    let launch = crate::text::int_string(value.launch_condition_type);
    let launch_line = labelled_line_string(depth + 1, "launchConditionType: ", launch.as_str());
    body.append(launch_line.as_str());
    body
}

/// Writes the text tree of `edge` at `depth`.
pub fn write_bullet_text(output: &mut String, edge: &BulletEdge, depth: usize)
    requires
        renderable(edge@.child),
        depth + edge_count(edge@) + 1 <= usize::MAX,
    ensures
        final(output)@ == old(output)@ + text_edge(edge@, depth as nat),
    decreases edge,
{
    let ghost start = output@;
    let ghost e = edge@;
    let head = text_head_string(edge, depth);
    output.append(head.as_str());
    if edge.child.is_cycle {
        let mut note = String::new();
        push_indent(&mut note, depth);
        proof {
            lemma_empty_left(indent_text(depth as nat));
        }
        note.append("   [cycle detected]\n");
        output.append(note.as_str());
        proof {
            lemma_assoc(head@, indent_text(depth as nat), "   [cycle detected]\n"@);
            lemma_assoc(start, head@, note@);
        }
        return;
    }
    let body = text_node_body_string(edge, depth);
    output.append(body.as_str());
    proof {
        assert(decreases_to!(*edge => edge.child));
        assert(decreases_to!(edge.child => edge.child.children));
        assert(e.child.children == edges_view(edge.child.children@));
    }
    write_text_edges(output, &edge.child.children, depth + 1);
    proof {
        let rest = text_edges(e.child.children, (depth + 1) as nat);
        lemma_assoc(start, head@, body@);
        lemma_assoc(start, head@ + body@, rest);
    }
}

/// Writes the text trees of `edges` at `depth`, in order.
fn write_text_edges(output: &mut String, edges: &Vec<BulletEdge>, depth: usize)
    requires
        forall|k: int| 0 <= k < edges_view(edges@).len() ==> renderable(#[trigger] edges_view(edges@)[k].child),
        depth + edges_count(edges_view(edges@)) + 1 <= usize::MAX,
    ensures
        final(output)@ == old(output)@ + text_edges(edges_view(edges@), depth as nat),
    decreases edges,
{
    let ghost views = edges_view(edges@);
    let ghost start = output@;
    proof {
        lemma_edges_view(edges@);
        assert(views.take(0) =~= Seq::<EdgeView>::empty());
        assert(start + Seq::<char>::empty() =~= start);
    }
    let mut i: usize = 0;
    while i < edges.len()
        invariant
            i <= edges@.len(),
            views == edges_view(edges@),
            views.len() == edges@.len(),
            forall|k: int| 0 <= k < views.len() ==> #[trigger] views[k] == edges@[k]@,
            forall|k: int| 0 <= k < views.len() ==> renderable(#[trigger] views[k].child),
            depth + edges_count(views) + 1 <= usize::MAX,
            output@ == start + text_edges(views.take(i as int), depth as nat),
        decreases edges@.len() - i,
    {
        proof {
            assert(views.take(i + 1).drop_last() =~= views.take(i as int));
            lemma_edges_count_prefix(views, i + 1);
            broadcast use vstd::std_specs::vec::axiom_vec_decreases_to_view;
            assert(decreases_to!(*edges => edges@));
            assert(decreases_to!(edges@ => edges@[i as int]));
        }
        write_bullet_text(output, &edges[i], depth);
        proof {
            lemma_assoc(start, text_edges(views.take(i as int), depth as nat), text_edge(views[i as int], depth as nat));
        }
        i = i + 1;
    }
    assert(views.take(views.len() as int) =~= views);
}

fn text_magic_lines_string(magic: &Magic) -> (lines: String)
    ensures
        lines@ == text_magic_lines(*magic),
{
    let mut lines = String::from_str("Magic ");
    push_int(&mut lines, magic.id);
    lines.append(" (");
    lines.append(magic.name.as_str());
    lines.append(")\n");
    lines.append("  FP Consumption - Default: ");
    push_int(&mut lines, magic.mp);
    lines.append("\n");
    lines.append("  Stamina Consumption - Default: ");
    push_int(&mut lines, magic.stamina);
    lines.append("\n");
    lines.append("  FP Consumption - Charged: ");
    push_int(&mut lines, magic.mp_charge);
    lines.append("\n");
    lines.append("  Stamina Consumption - Charged: ");
    push_int(&mut lines, magic.stamina_charge);
    lines.append("\n");
    if magic.consume_loop_mp_for_menu != -1 {
        let mut menu = String::from_str("  FP Consumption Loop - For Menu Display: ");
        push_int(&mut menu, magic.consume_loop_mp_for_menu);
        menu.append("\n");
        lines.append(menu.as_str());
    } else {
        assert(lines@ + Seq::<char>::empty() =~= lines@);
    }
    let mut requirements = String::from_str("  Requirement: ARC (");
    push_int(&mut requirements, magic.requirement_luck);
    requirements.append(")\n");
    requirements.append("  Requirement: INT (");
    push_int(&mut requirements, magic.requirement_intellect);
    requirements.append(")\n");
    requirements.append("  Requirement: FTH (");
    push_int(&mut requirements, magic.requirement_faith);
    requirements.append(")\n");
    lines.append(requirements.as_str());
    lines
}

/// The spell's name and cost lines at the top of the text form.
pub open spec fn text_magic_head(magic: Magic) -> Seq<char> {
    "Magic "@ + int_text(magic.id as int) + " ("@ + magic.name@ + ")\n"@
    + "  FP Consumption - Default: "@ + int_text(magic.mp as int) + "\n"@
    + "  Stamina Consumption - Default: "@ + int_text(magic.stamina as int) + "\n"@
    + "  FP Consumption - Charged: "@ + int_text(magic.mp_charge as int) + "\n"@
    + "  Stamina Consumption - Charged: "@ + int_text(magic.stamina_charge as int) + "\n"@
}

/// The menu FP line of the text form, when the spell has one.
pub open spec fn text_magic_menu(magic: Magic) -> Seq<char> {
    if magic.consume_loop_mp_for_menu != -1 {
        "  FP Consumption Loop - For Menu Display: "@ + int_text(magic.consume_loop_mp_for_menu as int) + "\n"@
    } else {
        Seq::empty()
    }
}

/// The requirement lines of the text form.
pub open spec fn text_magic_requirements(magic: Magic) -> Seq<char> {
    "  Requirement: ARC ("@ + int_text(magic.requirement_luck as int) + ")\n"@
    + "  Requirement: INT ("@ + int_text(magic.requirement_intellect as int) + ")\n"@
    + "  Requirement: FTH ("@ + int_text(magic.requirement_faith as int) + ")\n"@
}

/// The spell's lines at the top of the text form.
pub open spec fn text_magic_lines(magic: Magic) -> Seq<char> {
    text_magic_head(magic) + text_magic_menu(magic) + text_magic_requirements(magic)
}

impl MagicGraph {
    /// The graph as an indented text tree, the spell first.
    pub fn to_text(&self) -> (output: String)
        requires
            graph_renderable(self@),
            edges_count(self@.bullets) + 2 <= usize::MAX,
        ensures
            output@ == text_magic_lines(self@.magic) + text_edges(self@.bullets, 1),
    {
        let mut output = text_magic_lines_string(&self.magic);
        write_text_edges(&mut output, &self.bullets, 1);
        output
    }
}

}
