# wrac_plugin

The verified core of an audio plugin and of the tool that builds it. `src/` is a library in
Verus: every item of it is proved against its contract. `app/` is ordinary Rust around it: the
C interface to the host, the web view, the logger, and the commands that run compilers,
validators and installers.

## Modules

- `clap_abi`: the constants of the CLAP interface that the library uses.
- `text`: strings as sequences of characters: splitting, joining, trimming, decimal numbers.
- `run_loop_timer`: a timer that is due exactly while it runs.
- `wrac_clap_adapter`: what lies between a host and a plugin: events, audio buffers, parameters,
  ports, state streams, the lifecycle of an instance, and the answer to each callback.
- `wrac_gain_plugin`: the gain plugin: its parameters, its state, its audio, its commands.
- `wrac_wxp_gui`: the sessions, runtimes, sizes and pages of a GUI in a web view.
- `wrac_xtask`: the product tool: metadata and its rules, build, packaging, installation,
  validation.
- `xtask`: the smaller tool of the repository itself.

## Conventions

A floating-point number appears in the library as its bits. Contracts compare bits, or say of
them what order and range they stand for; the arithmetic itself is handed in as a function.

What a function decides is in its `ensures`; what holds across functions is a public proof
function whose name is a sentence, such as `every_frame_is_played_once`.

What the library takes from other crates it calls behind small functions marked
`#[verifier::external_body]`, each with a comment that says what is claimed of the call.

`tests/` runs the library on concrete values.
