# codex_report

Reports on token usage of Codex sessions, as JSON and as tables.

`src/` is the library. It is written in Verus: what each function returns is stated in
its contract and proved. The eight functions in `json.rs` that call `serde_json` are the
exception: their contracts are believed, and say what those calls do to JSON values.

- `usage`, `pricing`: what was used, and what models cost.
- `billing`: which tokens are charged at which rate. Rates are of any type; the library
  chooses among them and never computes with them.
- `totals`, `report`, `json`: the JSON report, built from `serde_json` values.
- `table`: the layout of the table.
- `names`: text in ascending order, and maps keyed by it.
- `costs`, `consistency`: what holds across all of these, as proof functions.

`app/` is ordinary Rust around it: costs in floating point, and drawing on a terminal.
