# synth_control

The control core of a performance synthesizer: the canonical reducer that
every input event passes through, the structural engine-selection lifecycle,
the bounded event journal, controller bindings and the default session.
Everything in `src/` is verified with Verus against contracts stated over
mathematical views of the data.

## Layout

- `src/domain.rs` – bounded identities (Patch, MIDI channel, mixer track,
  effect slot, bus, capability and parameter names, graph revision).
- `src/patch.rs`, `src/registry.rs` – Patch content, instrument and effect
  configurations, voice limits, and the installed capability registries.
- `src/engine_selection.rs` – the structural lifecycle (Ready, Preparing,
  Activating, Failed), its correlation and effects.
- `src/interaction.rs`, `src/focus.rs` – contexts, surfaces, focus rows,
  enabled Overview origins and choice lists.
- `src/app_event.rs`, `src/payloads.rs` – the complete event surface.
- `src/rejection.rs` – the closed set of refusals and their descriptor.
- `src/app_state.rs` – the reducer (`AppState::apply`) and its state view.
- `src/transitions.rs` – the specification of every reducer step, with the
  laws the reducer keeps.
- `src/structural_events.rs` – the control loop's decisions around the
  reducer: admission, structural request plans, worker and activation
  answers.
- `src/dispatch.rs` – one dispatch through admission, the reducer and the
  journal (each record keeps its source, event and rejection), the fan-out
  of one MIDI message to its subscribers, and one structural advance
  (deferred failure, worker report, activation acknowledgement).
- `src/default_session.rs` – creation candidates and the default session.
- `src/event_log.rs`, `src/text_order.rs` – the bounded journal and its
  sorted coverage lists.
- `src/controller.rs` – controller buttons, roles and bindings.
- `app/` – serde and `std::error::Error` adapters for the library's types,
  including JSON reading of controller bindings and lifecycle state that
  rebuilds them only through the library's validating constructors.
- `tests/` – executable tests against the compiled library.
