# wiki_tools

Builds the graph of bullets that an Elden Ring spell creates, from the exported
parameter tables (`Magic`, `Bullet`, `AtkParam_Pc`), and renders it as a
Graphviz DOT document or as an indented text tree.

- `src/` is the verified library (Verus):
  - `models.rs`, `records.rs`, `traits.rs`: table rows, records and searches;
  - `csv_io.rs`: looking rows up in the tables, first match in file order;
  - `graph.rs`: building the graph, with cycle detection along each branch;
  - `graph_output.rs`: DOT and text rendering, DOT string escaping;
  - `setup.rs`: cleaning an exported table before it is read;
  - `text.rs`: decimal and indentation text;
  - `laws.rs`: properties that span several functions.
- `app/` is the command-line tool: argument handling, file and process I/O,
  CSV reading, and the error messages.
- `tests/` runs the library on concrete tables.
