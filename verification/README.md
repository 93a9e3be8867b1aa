# iqrah-core

The core of Iqrah, a Quran learning tool: node identifiers of the knowledge
graph, the exercises a learner is given (memorization, multiple choice,
translation, grammar, verse order, ayah chains, ...), how answers are graded
and normalized, how exercises are chosen for a node and an axis, and the
import of translators.

## Layout

- `src/` is the library, written and proved with Verus. Each public function
  states what it returns in its contract; the laws that relate several
  functions (round trips of node identifiers, the ayah chain's progress, the
  exercise plan staying inside its guardrail, ...) are public proof
  functions. Calls into `rand`, `chrono`, `serde_json` and a few std string
  functions go through small trusted wrappers whose doc comments say what is
  assumed of them.
- `app/` is ordinary Rust around the library: the asynchronous content
  repository, the construction of exercises from repository lookups, the
  JSON import of translators, the serde copies of the library's types, and
  the initial placement and statistics that compute in floating point.
- `tests/` runs the library on concrete values.
