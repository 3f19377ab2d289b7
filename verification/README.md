# sarun_ui

The interactive client of the sarun engine: lists of boxes, of what they changed, ran, printed and
built, with what is known of the row at the cursor beside them; a launcher; terminals that the
engine holds; and the dialogs around them.

`src/` is the client itself, proved with Verus. It holds no socket, no file and no clock. The state
is one value, `App`. Keys, events and answers change it, and what is to be done outside of it (ask
the engine, write the rules, open a terminal) is put on a plan that `App::next` hands out step by
step. What is on the screen is computed by `screen::draw` from the state, as styled text in parts of
the screen.

- `app`, `types`, `json`, `text`, `style`: the state and the values in it
- `plan`, `control`, `keys`, `modals`, `menus`: what is done next, and what a key does
- `lists`, `windows`, `loads`, `answers`, `filters`, `nav`, `moves`: the lists, which the engine
  holds and the client sees a window of
- `boxes`, `diff`, `verbs`, `jobs`, `events`, `images`, `launch`, `shell`, `start`, `terms`, `vars`:
  what can be done with a box
- `rules`, `tree`, `num`, `fmt`, `rows`, `render`: clauses, trees, numbers and how values are
  written
- `boxpane`, `changepane`, `procpane`, `outpane`, `callpane`, `pipepane`, `rulepane`, `modalview`,
  `bars`, `canvas`, `areas`, `screen`: the picture
- `outside`: what other crates compute, and what is believed of it

The proof functions named `law_*` state what holds of several functions together.

`app/` connects the client to the socket of the engine, to the terminal and to the files; what it
needs of the engine's own settings it takes through a trait. `tests/` run the client against an
engine that answers from memory.
