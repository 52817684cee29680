//! The mathematical model of every reducer step: for each event, the state it
//! leads to and the effect it publishes, or the rejection it is answered with.
use vstd::prelude::*;
use crate::app_state::{
    overview_origin, patch_index_of, slots_accepted_before, AudioCommand, FocusRepairStatus, OverviewOrigin, StateView,
};
use crate::domain::{BusId, EffectSlotIndex, GraphRevision, MidiChannel, MixerTrackId, PatchId, MAX_ACTIVE_PATCHES, MIDI_CHANNEL_COUNT};
use crate::engine_selection::{
    intent_is_occupancy, preparing_outcome, CorrelationView, EffectView, EngineSelectionEffectKind,
    EngineSelectionFailure, EngineSelectionRequestId, EngineSelectionStatusKind, IntentView, StatusView,
    StructuralEditIntent,
};
use crate::focus::{
    ChoiceSession, ChoiceSubject, context_selected, installed_interaction, landed, mixer_navigated, patch_control_of, patch_navigated, patch_selected,
    returned, utility_entered, utility_row_control, InteractionView,
};
use crate::app_event::AppEvent;
use crate::payloads::MidiMessage;
use crate::domain::entry_view;
use crate::patch::patch_views;
use crate::interaction::{Direction, InteractionMode, PatchControlId, PatchOutputParameter, SurfaceId, TopLevelContext};
use crate::patch::{
    seeded_limit, ChoiceView, ConfigView, EffectConfigView, PatchOutput, PatchView, ENGINE_MANAGED_VOICE_LIMIT,
    VOICE_LIMIT_COARSE_STEP, VOICE_LIMIT_FINE_STEP, VOICE_LIMIT_MINIMUM,
};
use crate::registry::{config_valid, descriptor_index, first_effect_index, DescriptorView};
use crate::rejection::EventRejection;

verus! {

/// A step that publishes at most one structural effect.
pub type Step = Result<(StateView, Option<EffectView>), EventRejection>;

/// A step that publishes nothing.
pub open spec fn quiet(r: Result<StateView, EventRejection>) -> Step {
    match r {
        Ok(s) => Ok((s, None)),
        Err(e) => Err(e),
    }
}

/// Whether a structural request is preparing or activating.
pub open spec fn in_flight(s: StatusView) -> bool {
    s.kind == EngineSelectionStatusKind::Preparing || s.kind == EngineSelectionStatusKind::Activating
}

/// Every installed Patch with its voice limit seeded from its own engine's
/// declared ceiling.
pub open spec fn seeded_patches(caps: Seq<DescriptorView>, ps: Seq<PatchView>) -> Seq<PatchView> {
    ps.map_values(
        |p: PatchView|
            PatchView {
                voice_limit: seeded_limit(caps[descriptor_index(caps, p.instrument_config.capability_id)->0].voice_policy),
                ..p
            },
    )
}

/// Installing the startup Patch set.
pub open spec fn installed(s: StateView, ps: Seq<PatchView>) -> Result<StateView, EventRejection> {
    if s.generation != 0 || s.patches.len() != 0 {
        Err(EventRejection::InstallationClosed)
    } else if ps.len() > MAX_ACTIVE_PATCHES {
        Err(EventRejection::TooManyPatches)
    } else if exists|i: int| 0 <= i < ps.len() && !config_valid(s.capabilities, #[trigger] ps[i].instrument_config) {
        Err(EventRejection::InvalidInstrumentConfig)
    } else if exists|i: int|
        0 <= i < ps.len() && !slots_accepted_before(s.effects, #[trigger] ps[i].effects, ps[i].effects.len() as int) {
        Err(EventRejection::InvalidEffectConfig)
    } else {
        Ok(
            StateView {
                patches: seeded_patches(s.capabilities, ps),
                interaction: installed_interaction(
                    if ps.len() > 0 {
                        Some(ps[0].id)
                    } else {
                        None
                    },
                ),
                ..s
            },
        )
    }
}

/// Whether the remembered PATCH focus names an installed Patch.
pub open spec fn patch_focus_installed(s: StateView) -> bool {
    s.interaction.patch_focus is Some && patch_index_of(s.patches, s.interaction.patch_focus->0) is Some
}

/// Selecting a top-level context directly.
pub open spec fn context_chosen(s: StateView, c: TopLevelContext) -> Result<StateView, EventRejection> {
    if c == TopLevelContext::Patch && !patch_focus_installed(s) {
        Err(EventRejection::NoPatchesInstalled)
    } else {
        Ok(StateView { interaction: context_selected(s.interaction, c), ..s })
    }
}

/// The Overview origin a main row shows.
pub open spec fn row_origin(row: u8) -> OverviewOrigin {
    if row == 0 {
        OverviewOrigin::Engine
    } else {
        OverviewOrigin::EffectSlot(EffectSlotIndex::spec_from((row - 1) as u8))
    }
}

/// Which main rows of Patch `p` are disabled, row by row.
pub open spec fn disabled_flags(d: Set<(PatchId, OverviewOrigin)>, p: PatchId) -> Seq<bool> {
    Seq::new(crate::focus::PATCH_MAIN_ROW_COUNT as nat, |r: int| d.contains((p, row_origin(r as u8))))
}

/// Moving the focused Patch one position along the installed order; the
/// destination shows the remembered row, or its repair where that row is
/// disabled on the destination.
pub open spec fn patch_switched(s: StateView, d: Direction) -> Result<StateView, EventRejection> {
    if s.interaction.context != TopLevelContext::Patch || s.interaction.mode != InteractionMode::Navigate {
        Err(EventRejection::ActionUnavailableInContext)
    } else if d == Direction::Up || d == Direction::Down {
        Err(EventRejection::ActionUnavailableInContext)
    } else if s.interaction.patch_focus is None {
        Err(EventRejection::NoPatchesInstalled)
    } else {
        match patch_index_of(s.patches, s.interaction.patch_focus->0) {
            None => Err(EventRejection::UnknownPatch),
            Some(i) => {
                let t = if d == Direction::Left {
                    i - 1
                } else {
                    i + 1
                };
                if t < 0 || t >= s.patches.len() {
                    Err(EventRejection::ParameterAtBoundary)
                } else {
                    Ok(
                        StateView {
                            interaction: landed(
                                patch_selected(s.interaction, s.patches[t].id),
                                disabled_flags(s.disabled_origins, s.patches[t].id),
                            ),
                            ..s
                        },
                    )
                }
            },
        }
    }
}

/// Selecting the interpretation of subsequent directions; Modal belongs to
/// modal surfaces only.
pub open spec fn mode_chosen(s: StateView, m: InteractionMode) -> Result<StateView, EventRejection> {
    if m == InteractionMode::Modal || s.interaction.choice is Some {
        Err(EventRejection::ActionUnavailableInContext)
    } else {
        Ok(StateView { interaction: InteractionView { mode: m, ..s.interaction }, ..s })
    }
}

pub open spec fn with_interaction(s: StateView, r: Result<InteractionView, EventRejection>) -> Result<
    StateView,
    EventRejection,
> {
    match r {
        Ok(i) => Ok(StateView { interaction: i, ..s }),
        Err(e) => Err(e),
    }
}

/// Moving the focus of the active context.
pub open spec fn navigated(s: StateView, d: Direction) -> Result<StateView, EventRejection> {
    match s.interaction.context {
        TopLevelContext::Mixer => with_interaction(s, mixer_navigated(s.interaction, d)),
        TopLevelContext::Patch => if s.interaction.choice is Some {
            choice_navigated(s, d)
        } else {
            with_interaction(
                s,
                patch_navigated(s.interaction, d, disabled_flags(s.disabled_origins, s.interaction.patch_focus->0)),
            )
        },
    }
}

/// Leaving the open choice list or side panel for its exact origin.
pub open spec fn returned_from_panel(s: StateView) -> Result<StateView, EventRejection> {
    if s.interaction.choice is Some {
        Ok(choice_closed(s))
    } else if s.interaction.utility_row is Some {
        Ok(StateView { interaction: returned(s.interaction), ..s })
    } else {
        Err(EventRejection::ActionUnavailableInContext)
    }
}

/// Entering a side panel: the PATCH Utility panel from the PATCH main surface.
pub open spec fn panel_entered(s: StateView, surface: SurfaceId) -> Result<StateView, EventRejection> {
    if surface == SurfaceId::PatchUtility && s.interaction.context == TopLevelContext::Patch
        && s.interaction.utility_row is None && s.interaction.choice is None {
        Ok(StateView { interaction: utility_entered(s.interaction), ..s })
    } else {
        Err(EventRejection::ActionUnavailableInContext)
    }
}

/// The correlation a fresh request records and the effect announcing it.
pub open spec fn requested(s: StateView, status: Result<StatusView, crate::engine_selection::EngineSelectionStatusError>, refusal: EventRejection) -> Step {
    match status {
        Err(_) => Err(refusal),
        Ok(st) => Ok(
            (
                StateView { engine_selection: st, last_request_id: (s.last_request_id + 1) as u64, ..s },
                Some(EffectView { kind: EngineSelectionEffectKind::PrepareRequested, correlation: st.correlation->0 }),
            ),
        ),
    }
}

/// Requesting the adjacent installed engine for the focused Patch.
pub open spec fn engine_requested(s: StateView, d: Direction) -> Step {
    if d == Direction::Up || d == Direction::Down {
        Err(EventRejection::ActionUnavailableInContext)
    } else if in_flight(s.engine_selection) {
        Err(EventRejection::StructuralEditBusy)
    } else if patch_control_of(s.interaction) != Some(PatchControlId::Engine) {
        Err(EventRejection::EngineSelectionUnavailable)
    } else if s.last_request_id == u64::MAX {
        Err(EventRejection::RequestIdOverflow)
    } else if !patch_focus_installed(s) {
        Err(EventRejection::EngineSelectionUnavailable)
    } else {
        let pid = s.interaction.patch_focus->0;
        let source = s.patches[patch_index_of(s.patches, pid)->0].instrument_config.capability_id;
        if s.capabilities.len() < 2 {
            Err(EventRejection::EngineSelectionUnavailable)
        } else {
            match descriptor_index(s.capabilities, source) {
                None => Err(EventRejection::EngineSelectionUnavailable),
                Some(si) => {
                    let ti = if d == Direction::Left {
                        si - 1
                    } else {
                        si + 1
                    };
                    if ti < 0 || ti >= s.capabilities.len() {
                        Err(EventRejection::EngineSelectionUnavailable)
                    } else {
                        let target = s.capabilities[ti].id;
                        requested(
                            s,
                            preparing_outcome(
                                s.engine_selection.active_graph_revision,
                                (s.last_request_id + 1) as u64,
                                Some(pid),
                                IntentView::ReplaceCapability { target_capability_id: target },
                                Some(source),
                                Some(target),
                            ),
                            EventRejection::EngineSelectionUnavailable,
                        )
                    }
                },
            }
        }
    }
}

/// The occupant an effect entry places at chain position `slot`.
pub open spec fn occupant_for(slot: EffectSlotIndex, entry: Seq<char>) -> EffectConfigView {
    EffectConfigView { slot_id: crate::domain::EffectSlotId::spec_from((slot@ + 1) as u16), capability_id: entry }
}

/// Whether placing instance identity of `slot` would repeat an identity
/// occupying another position.
pub open spec fn identity_taken_elsewhere(p: PatchView, slot: EffectSlotIndex) -> bool {
    exists|k: int|
        0 <= k < p.effects.len() && k != slot@ && #[trigger] p.effects[k] is Some && p.effects[k]->0.slot_id
            == crate::domain::EffectSlotId::spec_from((slot@ + 1) as u16)
}

/// Requesting one occupancy change of one Patch effect position.
pub open spec fn slot_occupancy_requested(
    s: StateView,
    patch_id: PatchId,
    slot: EffectSlotIndex,
    entry: Option<Seq<char>>,
) -> Step {
    if in_flight(s.engine_selection) {
        Err(EventRejection::StructuralEditBusy)
    } else {
        match patch_index_of(s.patches, patch_id) {
            None => Err(EventRejection::UnknownPatch),
            Some(i) => {
                if entry is Some && (!s.effects.contains(entry->0) || identity_taken_elsewhere(s.patches[i], slot)) {
                    Err(EventRejection::InvalidEffectConfig)
                } else if s.last_request_id == u64::MAX {
                    Err(EventRejection::RequestIdOverflow)
                } else {
                    requested(
                        s,
                        preparing_outcome(
                            s.engine_selection.active_graph_revision,
                            (s.last_request_id + 1) as u64,
                            Some(patch_id),
                            IntentView::SetSlotOccupancy { patch_id, slot, entry },
                            None,
                            None,
                        ),
                        EventRejection::InvalidSelection,
                    )
                }
            },
        }
    }
}

/// Requesting one occupancy change of one bus return: the entry must be an
/// installed effect, and the change goes through the structural lifecycle.
pub open spec fn return_occupancy_requested(s: StateView, bus: BusId, entry: Option<Seq<char>>) -> Step {
    if in_flight(s.engine_selection) {
        Err(EventRejection::StructuralEditBusy)
    } else if entry is Some && !s.effects.contains(entry->0) {
        Err(EventRejection::InvalidEffectConfig)
    } else if s.last_request_id == u64::MAX {
        Err(EventRejection::RequestIdOverflow)
    } else {
        requested(
            s,
            preparing_outcome(
                s.engine_selection.active_graph_revision,
                (s.last_request_id + 1) as u64,
                None,
                IntentView::SetReturnOccupancy { bus, entry },
                None,
                None,
            ),
            EventRejection::InvalidSelection,
        )
    }
}

/// The registry entry adjacent to `current` in the occupancy choice order,
/// where the empty choice comes first and entry N sits at position N + 1.
pub open spec fn adjacent_entry(effects: Seq<Seq<char>>, current: Option<Seq<char>>, d: Direction) -> Result<
    Option<Seq<char>>,
    EventRejection,
> {
    let index: Option<int> = match current {
        None => Some(0),
        Some(id) => match first_effect_index(effects, id) {
            Some(k) => Some(k + 1),
            None => None,
        },
    };
    match index {
        None => Err(EventRejection::InvalidEffectConfig),
        Some(ci) => {
            let ti = if d == Direction::Left {
                ci - 1
            } else {
                ci + 1
            };
            if ti < 0 || ti > effects.len() {
                Err(EventRejection::ParameterAtBoundary)
            } else if ti == 0 {
                Ok(None)
            } else {
                Ok(Some(effects[ti - 1]))
            }
        },
    }
}

/// The effect entry occupying a chain position, if any.
pub open spec fn entry_at(p: PatchView, slot: EffectSlotIndex) -> Option<Seq<char>> {
    match p.effects[slot@ as int] {
        Some(c) => Some(c.capability_id),
        None => None,
    }
}

/// Stepping the focused Patch's effect position to the adjacent occupancy.
pub open spec fn slot_choice_requested(s: StateView, slot: EffectSlotIndex, d: Direction) -> Step {
    if d == Direction::Up || d == Direction::Down {
        Err(EventRejection::ActionUnavailableInContext)
    } else if in_flight(s.engine_selection) {
        Err(EventRejection::StructuralEditBusy)
    } else if !patch_focus_installed(s) {
        Err(EventRejection::NoPatchesInstalled)
    } else {
        let pid = s.interaction.patch_focus->0;
        let p = s.patches[patch_index_of(s.patches, pid)->0];
        match adjacent_entry(s.effects, entry_at(p, slot), d) {
            Err(e) => Err(e),
            Ok(entry) => slot_occupancy_requested(s, pid, slot, entry),
        }
    }
}

/// Replacing the focused Patch with `p`.
pub open spec fn with_focused_patch(s: StateView, p: PatchView) -> StateView {
    StateView {
        patches: s.patches.update(patch_index_of(s.patches, s.interaction.patch_focus->0)->0, p),
        ..s
    }
}

/// Stepping the focused Patch's MIDI channel.
pub open spec fn midi_input_adjusted(s: StateView, d: Direction) -> Result<StateView, EventRejection> {
    if d == Direction::Up || d == Direction::Down {
        Err(EventRejection::ActionUnavailableInContext)
    } else if !patch_focus_installed(s) {
        Err(EventRejection::NoPatchesInstalled)
    } else {
        let p = s.patches[patch_index_of(s.patches, s.interaction.patch_focus->0)->0];
        let current = p.channel@;
        if d == Direction::Right && current + 1 >= MIDI_CHANNEL_COUNT {
            Err(EventRejection::ParameterAtBoundary)
        } else if d == Direction::Left && current == 0 {
            Err(EventRejection::ParameterAtBoundary)
        } else {
            let next = if d == Direction::Right {
                current + 1
            } else {
                current - 1
            };
            Ok(with_focused_patch(s, PatchView { channel: MidiChannel::spec_from(next as u8), ..p }))
        }
    }
}

/// Stepping the focused Patch's output to the neighbouring track.
pub open spec fn output_track_adjusted(s: StateView, d: Direction) -> Result<StateView, EventRejection> {
    if !patch_focus_installed(s) {
        Err(EventRejection::NoPatchesInstalled)
    } else if d == Direction::Up || d == Direction::Down {
        Err(EventRejection::ActionUnavailableInContext)
    } else {
        let p = s.patches[patch_index_of(s.patches, s.interaction.patch_focus->0)->0];
        let current = p.output@@;
        if d == Direction::Right && current + 1 >= MIDI_CHANNEL_COUNT {
            Err(EventRejection::ParameterAtBoundary)
        } else if d == Direction::Left && current == 0 {
            Err(EventRejection::ParameterAtBoundary)
        } else {
            let next = if d == Direction::Right {
                current + 1
            } else {
                current - 1
            };
            Ok(with_focused_patch(s, PatchView { output: PatchOutput::spec_to(next as u8), ..p }))
        }
    }
}

/// The voice limit after one edit: fine steps horizontally, coarse steps
/// vertically, clamped to the declared bounds.
pub open spec fn stepped_voice_limit(current: u16, d: Direction) -> int {
    let step = if d == Direction::Left || d == Direction::Right {
        VOICE_LIMIT_FINE_STEP
    } else {
        VOICE_LIMIT_COARSE_STEP
    };
    if d == Direction::Right || d == Direction::Up {
        if current + step > ENGINE_MANAGED_VOICE_LIMIT {
            ENGINE_MANAGED_VOICE_LIMIT as int
        } else {
            current + step
        }
    } else {
        if current - step < VOICE_LIMIT_MINIMUM {
            VOICE_LIMIT_MINIMUM as int
        } else {
            current - step
        }
    }
}

/// Editing the focused Patch's voice limit; a clamped no-op is refused.
pub open spec fn voice_limit_adjusted(s: StateView, d: Direction) -> Result<StateView, EventRejection> {
    if !patch_focus_installed(s) {
        Err(EventRejection::NoPatchesInstalled)
    } else {
        let p = s.patches[patch_index_of(s.patches, s.interaction.patch_focus->0)->0];
        let next = stepped_voice_limit(p.voice_limit, d);
        if next == p.voice_limit {
            Err(EventRejection::ParameterAtBoundary)
        } else if next < VOICE_LIMIT_MINIMUM || next > ENGINE_MANAGED_VOICE_LIMIT {
            Err(EventRejection::InvalidParameterValue)
        } else {
            Ok(with_focused_patch(s, PatchView { voice_limit: next as u16, ..p }))
        }
    }
}

/// Editing the focused control: Up on the Engine, an effect-slot or the
/// output-track row opens its choice list; nothing is edited while a choice
/// list is open.
pub open spec fn adjusted(s: StateView, d: Direction) -> Step {
    match s.interaction.context {
        TopLevelContext::Mixer => Err(EventRejection::ActionUnavailableInContext),
        TopLevelContext::Patch => if s.interaction.choice is Some {
            Err(EventRejection::ActionUnavailableInContext)
        } else if d == Direction::Up && (s.interaction.utility_row is None || s.interaction.utility_row
            == Some(3u8)) {
            quiet(choice_opened(s, row_subject(s.interaction)))
        } else {
            match s.interaction.utility_row {
            None => if s.interaction.patch_row == 0 {
                engine_requested(s, d)
            } else {
                slot_choice_requested(s, EffectSlotIndex::spec_from((s.interaction.patch_row - 1) as u8), d)
            },
            Some(u) => if u == 2 {
                quiet(midi_input_adjusted(s, d))
            } else if u == 3 {
                quiet(output_track_adjusted(s, d))
            } else if u == 4 {
                quiet(voice_limit_adjusted(s, d))
            } else {
                Err(EventRejection::ActionUnavailableInContext)
            },
            }
        },
    }
}

/// The choice subject of the focused row: the Engine or effect-slot row on
/// the main surface, the output-track row in Utility.
pub open spec fn row_subject(v: InteractionView) -> ChoiceSubject {
    if v.utility_row is Some {
        ChoiceSubject::OutputTrack
    } else if v.patch_row == 0 {
        ChoiceSubject::Engine
    } else {
        ChoiceSubject::EffectSlot(EffectSlotIndex::spec_from((v.patch_row - 1) as u8))
    }
}

/// The focused Patch.
pub open spec fn focused_patch(s: StateView) -> PatchView {
    s.patches[patch_index_of(s.patches, s.interaction.patch_focus->0)->0]
}

/// The options of a choice list, counted: every installed engine; the empty
/// occupant then every installed effect; every output track.
pub open spec fn option_count(s: StateView, subject: ChoiceSubject) -> int {
    match subject {
        ChoiceSubject::Engine => s.capabilities.len() as int,
        ChoiceSubject::EffectSlot(_) => s.effects.len() as int + 1,
        ChoiceSubject::OutputTrack => MIDI_CHANNEL_COUNT as int,
    }
}

/// The position of the Patch's current option, or the first position where
/// its current value is not among the options.
pub open spec fn current_option(s: StateView, subject: ChoiceSubject, p: PatchView) -> int {
    match subject {
        ChoiceSubject::Engine => match descriptor_index(s.capabilities, p.instrument_config.capability_id) {
            Some(i) => i,
            None => 0,
        },
        ChoiceSubject::EffectSlot(slot) => match entry_at(p, slot) {
            None => 0,
            Some(e) => match first_effect_index(s.effects, e) {
                Some(k) => k + 1,
                None => 0,
            },
        },
        ChoiceSubject::OutputTrack => p.output@@ as int,
    }
}

/// Opening the choice list of `subject` on the focused Patch's current
/// option, in the modal mode.
pub open spec fn choice_opened(s: StateView, subject: ChoiceSubject) -> Result<StateView, EventRejection> {
    if !patch_focus_installed(s) {
        Err(EventRejection::NoPatchesInstalled)
    } else if option_count(s, subject) == 0 {
        Err(EventRejection::ActionUnavailableInContext)
    } else {
        Ok(
            StateView {
                interaction: InteractionView {
                    choice: Some(
                        ChoiceSession { subject, option: current_option(s, subject, focused_patch(s)) as usize },
                    ),
                    mode: InteractionMode::Modal,
                    ..s.interaction
                },
                ..s
            },
        )
    }
}

/// Moving along the open choice list, vertically and without wrapping.
pub open spec fn choice_navigated(s: StateView, d: Direction) -> Result<StateView, EventRejection> {
    let c = s.interaction.choice->0;
    let next: int = if d == Direction::Up {
        c.option - 1
    } else {
        c.option + 1
    };
    if d == Direction::Left || d == Direction::Right || next < 0 || next >= option_count(s, c.subject) {
        Err(EventRejection::ActionUnavailableInContext)
    } else {
        Ok(
            StateView {
                interaction: InteractionView {
                    choice: Some(ChoiceSession { option: next as usize, ..c }),
                    ..s.interaction
                },
                ..s
            },
        )
    }
}

/// Closing the open choice list onto its origin row in Navigate mode.
pub open spec fn choice_closed(s: StateView) -> StateView {
    StateView {
        interaction: InteractionView { choice: None, mode: InteractionMode::Navigate, ..s.interaction },
        ..s
    }
}

/// Requesting engine `target` for the focused Patch.
pub open spec fn engine_requested_to(s: StateView, target: Seq<char>) -> Step {
    if in_flight(s.engine_selection) {
        Err(EventRejection::StructuralEditBusy)
    } else if s.last_request_id == u64::MAX {
        Err(EventRejection::RequestIdOverflow)
    } else {
        let pid = s.interaction.patch_focus->0;
        let source = focused_patch(s).instrument_config.capability_id;
        requested(
            s,
            preparing_outcome(
                s.engine_selection.active_graph_revision,
                (s.last_request_id + 1) as u64,
                Some(pid),
                IntentView::ReplaceCapability { target_capability_id: target },
                Some(source),
                Some(target),
            ),
            EventRejection::EngineSelectionUnavailable,
        )
    }
}

/// A step followed by closing the open choice list.
pub open spec fn closed_after(r: Step) -> Step {
    match r {
        Ok((n, e)) => Ok((choice_closed(n), e)),
        Err(x) => Err(x),
    }
}

/// Activating the focused option of the open choice list: its current
/// option only closes the list; another engine is requested, another
/// occupant is requested for the slot, another output track is set; each
/// accepted activation closes the list onto its origin row.
pub open spec fn choice_activated(s: StateView) -> Step {
    match s.interaction.choice {
        None => Err(EventRejection::ActionUnavailableInContext),
        Some(c) => if !patch_focus_installed(s) {
            Err(EventRejection::NoPatchesInstalled)
        } else if c.option >= option_count(s, c.subject) {
            Err(EventRejection::InvalidSelection)
        } else if c.option == current_option(s, c.subject, focused_patch(s)) {
            Ok((choice_closed(s), None))
        } else {
            match c.subject {
                ChoiceSubject::Engine => closed_after(engine_requested_to(s, s.capabilities[c.option as int].id)),
                ChoiceSubject::EffectSlot(slot) => closed_after(
                    slot_occupancy_requested(
                        s,
                        s.interaction.patch_focus->0,
                        slot,
                        if c.option == 0 {
                            None
                        } else {
                            Some(s.effects[c.option - 1])
                        },
                    ),
                ),
                ChoiceSubject::OutputTrack => Ok(
                    (
                        choice_closed(
                            with_focused_patch(
                                s,
                                PatchView { output: PatchOutput::spec_to(c.option as u8), ..focused_patch(s) },
                            ),
                        ),
                        None,
                    ),
                ),
            }
        },
    }
}

/// The correlation of the request currently preparing under `request_id`.
pub open spec fn pending_correlation(s: StateView, request_id: u64) -> Result<CorrelationView, EventRejection> {
    if s.engine_selection.kind != EngineSelectionStatusKind::Preparing || s.engine_selection.correlation is None
        || s.engine_selection.correlation->0.request_id != request_id {
        Err(EventRejection::StaleEngineSelection)
    } else {
        Ok(s.engine_selection.correlation->0)
    }
}

/// The chosen value of parameter `p` in a configuration, if it sets one.
pub open spec fn chosen_value(c: Seq<ChoiceView>, p: Seq<char>) -> Option<Seq<char>> {
    if exists|i: int| 0 <= i < c.len() && c[i].parameter_id == p {
        Some(c[choose|i: int| 0 <= i < c.len() && c[i].parameter_id == p && forall|j: int| 0 <= j < i ==> c[j].parameter_id != p].choice_id)
    } else {
        None
    }
}

/// Whether a prepared candidate is exactly the configuration change the
/// intent permits on `source`.
pub open spec fn candidate_fits_intent(source: ConfigView, candidate: ConfigView, intent: IntentView) -> bool {
    match intent {
        IntentView::ReplaceCapability { target_capability_id } => {
            source.capability_id != target_capability_id && candidate.capability_id == target_capability_id
        },
        IntentView::ReplaceParameterChoice { capability_id, parameter_id, choice_id } => {
            &&& source.capability_id == capability_id
            &&& candidate.capability_id == capability_id
            &&& source.choices.len() == candidate.choices.len()
            &&& chosen_value(candidate.choices, parameter_id) == Some(choice_id)
            &&& chosen_value(source.choices, parameter_id) != Some(choice_id)
            &&& forall|k: int|
                0 <= k < candidate.choices.len() ==> (#[trigger] candidate.choices[k]).parameter_id
                    == source.choices[k].parameter_id && (candidate.choices[k].parameter_id == parameter_id
                    || candidate.choices[k] == source.choices[k])
        },
        _ => false,
    }
}

/// The status after a correlated preparation moves to Activating.
pub open spec fn activating_status(s: StatusView, target: u64) -> StatusView {
    StatusView {
        kind: EngineSelectionStatusKind::Activating,
        active_graph_revision: s.active_graph_revision,
        correlation: Some(CorrelationView { target_graph_revision: Some(target), ..s.correlation->0 }),
        failure: None,
    }
}

/// Recording one provider-validated instrument candidate.
pub open spec fn engine_prepared(
    s: StateView,
    request_id: u64,
    patch_id: PatchId,
    intent: IntentView,
    source: Seq<char>,
    target: Seq<char>,
    source_revision: u64,
    target_revision: u64,
    candidate: ConfigView,
) -> Step {
    match pending_correlation(s, request_id) {
        Err(e) => Err(e),
        Ok(c) => {
            if c.patch_id != Some(patch_id) || c.intent != intent || c.source_capability_id != Some(source)
                || c.target_capability_id != Some(target) || c.source_graph_revision != source_revision
                || target_revision <= source_revision || candidate.capability_id != target || !config_valid(
                s.capabilities,
                candidate,
            ) {
                Err(EventRejection::MismatchedEngineSelection)
            } else {
                match patch_index_of(s.patches, patch_id) {
                    None => Err(EventRejection::MismatchedEngineSelection),
                    Some(i) => {
                        let current = s.patches[i].instrument_config;
                        if current.capability_id != source || !candidate_fits_intent(current, candidate, intent) {
                            Err(EventRejection::MismatchedEngineSelection)
                        } else {
                            let st = activating_status(s.engine_selection, target_revision);
                            Ok(
                                (
                                    StateView {
                                        pending_instrument_config: Some(candidate),
                                        engine_selection: st,
                                        ..s
                                    },
                                    Some(
                                        EffectView {
                                            kind: EngineSelectionEffectKind::CandidateCommitted,
                                            correlation: st.correlation->0,
                                        },
                                    ),
                                ),
                            )
                        }
                    },
                }
            }
        },
    }
}

/// The status after a correlated preparation failed.
pub open spec fn failed_status(s: StatusView, failure: EngineSelectionFailure) -> StatusView {
    StatusView {
        kind: EngineSelectionStatusKind::Failed,
        active_graph_revision: s.active_graph_revision,
        correlation: s.correlation,
        failure: Some(failure),
    }
}

/// Recording one correlated typed instrument preparation failure.
pub open spec fn engine_failed(
    s: StateView,
    request_id: u64,
    patch_id: PatchId,
    intent: IntentView,
    source: Seq<char>,
    target: Seq<char>,
    source_revision: u64,
    target_revision: u64,
    failure: EngineSelectionFailure,
) -> Result<StateView, EventRejection> {
    match pending_correlation(s, request_id) {
        Err(e) => Err(e),
        Ok(c) => {
            if c.patch_id != Some(patch_id) || c.intent != intent || c.source_capability_id != Some(source)
                || c.target_capability_id != Some(target) || c.source_graph_revision != source_revision
                || target_revision <= source_revision {
                Err(EventRejection::MismatchedEngineSelection)
            } else {
                Ok(
                    StateView {
                        engine_selection: failed_status(s.engine_selection, failure),
                        pending_instrument_config: None,
                        ..s
                    },
                )
            }
        },
    }
}

/// Whether canonical state still agrees with the activating request.
pub open spec fn pending_matches_state(s: StateView, c: CorrelationView) -> bool {
    match c.intent {
        IntentView::SetSlotOccupancy { patch_id, .. } => {
            patch_index_of(s.patches, patch_id) is Some && c.source_graph_revision
                == s.engine_selection.active_graph_revision
        },
        IntentView::SetReturnOccupancy { .. } => c.source_graph_revision == s.engine_selection.active_graph_revision,
        _ => {
            &&& c.patch_id is Some
            &&& patch_index_of(s.patches, c.patch_id->0) is Some
            &&& s.pending_instrument_config is Some
            &&& c.source_capability_id == Some(
                s.patches[patch_index_of(s.patches, c.patch_id->0)->0].instrument_config.capability_id,
            )
            &&& candidate_fits_intent(
                s.patches[patch_index_of(s.patches, c.patch_id->0)->0].instrument_config,
                s.pending_instrument_config->0,
                c.intent,
            )
        },
    }
}

/// The Patch after its instrument is replaced, its voice limit clamped to
/// the new engine's ceiling.
pub open spec fn instrument_replaced(p: PatchView, config: ConfigView, ceiling: u16) -> PatchView {
    PatchView {
        instrument_config: config,
        voice_limit: if p.voice_limit <= seeded_limit(ceiling) {
            p.voice_limit
        } else {
            seeded_limit(ceiling)
        },
        ..p
    }
}

/// The Ready status on the activated revision.
pub open spec fn ready_status(revision: u64) -> StatusView {
    StatusView {
        kind: EngineSelectionStatusKind::Ready,
        active_graph_revision: revision,
        correlation: None,
        failure: None,
    }
}

/// Committing the activated structure once the audio side acknowledged it.
pub open spec fn activation_acknowledged(
    s: StateView,
    request_id: u64,
    intent: IntentView,
    target_revision: u64,
    retired_revision: u64,
    collected: bool,
) -> Step {
    if s.engine_selection.kind != EngineSelectionStatusKind::Activating || s.engine_selection.correlation is None
        || s.engine_selection.correlation->0.request_id != request_id {
        Err(EventRejection::StaleEngineSelection)
    } else {
        let c = s.engine_selection.correlation->0;
        if c.intent != intent || c.target_graph_revision != Some(target_revision) || c.source_graph_revision
            != retired_revision || !collected || !pending_matches_state(s, c) {
            Err(EventRejection::MismatchedEngineSelection)
        } else {
            let effect = EffectView { kind: EngineSelectionEffectKind::ActivationAcknowledged, correlation: c };
            match intent {
                IntentView::SetSlotOccupancy { patch_id, slot, entry } => {
                    let i = patch_index_of(s.patches, patch_id)->0;
                    let p = s.patches[i];
                    if entry is Some && (!s.effects.contains(entry->0) || identity_taken_elsewhere(p, slot)) {
                        Err(EventRejection::MismatchedEngineSelection)
                    } else {
                        let occupant = match entry {
                            Some(e) => Some(occupant_for(slot, e)),
                            None => None,
                        };
                        Ok(
                            (
                                StateView {
                                    patches: s.patches.update(
                                        i,
                                        PatchView { effects: p.effects.update(slot@ as int, occupant), ..p },
                                    ),
                                    engine_selection: ready_status(target_revision),
                                    ..s
                                },
                                Some(effect),
                            ),
                        )
                    }
                },
                IntentView::SetReturnOccupancy { bus, entry } => {
                    if entry is Some && !s.effects.contains(entry->0) {
                        Err(EventRejection::MismatchedEngineSelection)
                    } else {
                        Ok(
                            (
                                StateView {
                                    returns: s.returns.update(bus@ as int, entry),
                                    engine_selection: ready_status(target_revision),
                                    ..s
                                },
                                Some(effect),
                            ),
                        )
                    }
                },
                _ => {
                    let candidate = s.pending_instrument_config->0;
                    match descriptor_index(s.capabilities, candidate.capability_id) {
                        None => Err(EventRejection::MismatchedEngineSelection),
                        Some(di) => {
                            let i = patch_index_of(s.patches, c.patch_id->0)->0;
                            Ok(
                                (
                                    StateView {
                                        patches: s.patches.update(
                                            i,
                                            instrument_replaced(
                                                s.patches[i],
                                                candidate,
                                                s.capabilities[di].voice_policy,
                                            ),
                                        ),
                                        pending_instrument_config: None,
                                        engine_selection: ready_status(target_revision),
                                        ..s
                                    },
                                    Some(effect),
                                ),
                            )
                        },
                    }
                },
            }
        }
    }
}

/// Recording one prepared occupancy candidate.
pub open spec fn topology_prepared(
    s: StateView,
    request_id: u64,
    intent: IntentView,
    source_revision: u64,
    target_revision: u64,
) -> Step {
    match pending_correlation(s, request_id) {
        Err(e) => Err(e),
        Ok(c) => {
            if c.intent != intent || c.source_graph_revision != source_revision || target_revision
                <= source_revision || !intent_is_occupancy(intent) {
                Err(EventRejection::MismatchedEngineSelection)
            } else {
                let st = activating_status(s.engine_selection, target_revision);
                Ok(
                    (
                        StateView { engine_selection: st, ..s },
                        Some(
                            EffectView {
                                kind: EngineSelectionEffectKind::CandidateCommitted,
                                correlation: st.correlation->0,
                            },
                        ),
                    ),
                )
            }
        },
    }
}

/// Recording one correlated occupancy refusal.
pub open spec fn topology_failed(
    s: StateView,
    request_id: u64,
    intent: IntentView,
    source_revision: u64,
    target_revision: u64,
    failure: EngineSelectionFailure,
) -> Result<StateView, EventRejection> {
    match pending_correlation(s, request_id) {
        Err(e) => Err(e),
        Ok(c) => {
            if c.intent != intent || c.source_graph_revision != source_revision || target_revision
                <= source_revision || !intent_is_occupancy(intent) {
                Err(EventRejection::MismatchedEngineSelection)
            } else {
                Ok(StateView { engine_selection: failed_status(s.engine_selection, failure), ..s })
            }
        },
    }
}

/// Advancing an admission phase: this lifecycle has none between Preparing
/// and Activating, so a correlated advance is a mismatch.
pub open spec fn lifecycle_advanced(s: StateView, request_id: u64) -> Result<StateView, EventRejection> {
    if s.engine_selection.correlation is None || s.engine_selection.correlation->0.request_id != request_id {
        Err(EventRejection::StaleEngineSelection)
    } else {
        Err(EventRejection::MismatchedEngineSelection)
    }
}


/// The number of enabled Overview origins of Patch `p`: its Engine row and
/// its effect-slot rows, less those disabled.
pub open spec fn enabled_origin_count(d: Set<(PatchId, OverviewOrigin)>, p: PatchId) -> int {
    (if d.contains((p, OverviewOrigin::Engine)) { 0int } else { 1int }) + (if d.contains(
        (p, OverviewOrigin::EffectSlot(EffectSlotIndex::spec_from(0))),
    ) { 0int } else { 1int }) + (if d.contains((p, OverviewOrigin::EffectSlot(EffectSlotIndex::spec_from(1)))) {
        0int
    } else {
        1int
    }) + (if d.contains((p, OverviewOrigin::EffectSlot(EffectSlotIndex::spec_from(2)))) { 0int } else { 1int })
}

/// Whether an accepted event clears the note of a repaired focus: every
/// event that moves focus or edits structure from the focus.
pub open spec fn clears_focus_repair(e: AppEvent) -> bool {
    e is SelectContext || e is SelectPatch || e is Navigate || e is Adjust || e is SetInteractionMode
        || e is OpenRelated || e is Activate || e is PreviewStart || e is PreviewStop || e is EnterSurface
        || e is Return || e is SetSlotOccupancy || e is SetReturnOccupancy
}

/// Enabling or disabling one Patch Overview origin. Only an installed
/// Patch's Engine or effect-slot row is an origin; the change must be a
/// change; and the last enabled origin of a Patch cannot be disabled. When
/// the focused Patch's remembered main row (the focus itself, or the return
/// origin of its open Utility panel) is disabled, it moves to the nearest
/// enabled row below it, else above it, and the repair is noted; enabling
/// clears the note.
pub open spec fn origin_toggled(s: StateView, patch_id: PatchId, control: PatchControlId, enabled: bool) -> Result<
    StateView,
    EventRejection,
> {
    match overview_origin(control) {
        None => Err(EventRejection::InvalidSelection),
        Some(o) => {
            let key = (patch_id, o);
            if patch_index_of(s.patches, patch_id) is None {
                Err(EventRejection::InvalidSelection)
            } else if !s.disabled_origins.contains(key) == enabled {
                Err(EventRejection::InvalidSelection)
            } else if enabled {
                Ok(StateView { disabled_origins: s.disabled_origins.remove(key), focus_repair: None, ..s })
            } else if enabled_origin_count(s.disabled_origins, patch_id) <= 1 {
                Err(EventRejection::InvalidSelection)
            } else {
                let d = s.disabled_origins.insert(key);
                let interaction = if s.interaction.patch_focus == Some(patch_id) {
                    landed(s.interaction, disabled_flags(d, patch_id))
                } else {
                    s.interaction
                };
                let focus_repair = if interaction.patch_row != s.interaction.patch_row {
                    Some(
                        FocusRepairStatus {
                            patch_id,
                            removed_origin: row_origin(s.interaction.patch_row),
                            replacement_origin: row_origin(interaction.patch_row),
                        },
                    )
                } else {
                    None
                };
                Ok(StateView { disabled_origins: d, interaction, focus_repair, ..s })
            }
        },
    }
}

/// What one event does to the state, apart from the generation: the MIXER
/// and PATCH focus edits, the startup installation, the structural
/// lifecycle. Events whose handling needs state this model does not hold are
/// refused as unavailable.
pub open spec fn reduced(s: StateView, e: AppEvent) -> Step {
    match e {
        AppEvent::SelectContext(c) => quiet(context_chosen(s, c)),
        AppEvent::SelectPatch(d) => quiet(patch_switched(s, d)),
        AppEvent::Navigate(d) => quiet(navigated(s, d)),
        AppEvent::Adjust(d) => adjusted(s, d),
        AppEvent::SetInteractionMode(m) => quiet(mode_chosen(s, m)),
        AppEvent::EnterSurface(surface) => quiet(panel_entered(s, surface)),
        AppEvent::Return => quiet(returned_from_panel(s)),
        AppEvent::Activate => choice_activated(s),
        AppEvent::InstallPatches(ps) => quiet(installed(s, patch_views(ps@))),
        AppEvent::SetSlotOccupancy { patch_id, slot, entry } => slot_occupancy_requested(
            s,
            patch_id,
            slot,
            entry_view(entry),
        ),
        AppEvent::EngineSelectionLifecycleAdvanced { request_id, .. } => quiet(lifecycle_advanced(s, request_id@)),
        AppEvent::SetReturnOccupancy { bus, entry } => return_occupancy_requested(s, bus, entry_view(entry)),
        AppEvent::SetPatchOverviewOriginEnabled { patch_id, control, enabled } => quiet(
            origin_toggled(s, patch_id, control, enabled),
        ),
        AppEvent::EnginePrepared {
            request_id,
            patch_id,
            intent,
            source_capability_id,
            target_capability_id,
            source_graph_revision,
            target_graph_revision,
            candidate_config,
            ..
        } => engine_prepared(
            s,
            request_id@,
            patch_id,
            intent@,
            source_capability_id@,
            target_capability_id@,
            source_graph_revision@,
            target_graph_revision@,
            candidate_config@,
        ),
        AppEvent::EnginePreparationFailed {
            request_id,
            patch_id,
            intent,
            source_capability_id,
            target_capability_id,
            source_graph_revision,
            target_graph_revision,
            failure,
        } => quiet(
            engine_failed(
                s,
                request_id@,
                patch_id,
                intent@,
                source_capability_id@,
                target_capability_id@,
                source_graph_revision@,
                target_graph_revision@,
                failure,
            ),
        ),
        AppEvent::EngineActivationAcknowledged {
            request_id,
            intent,
            target_graph_revision,
            retired_graph_revision,
            collected,
        } => activation_acknowledged(
            s,
            request_id@,
            intent@,
            target_graph_revision@,
            retired_graph_revision@,
            collected,
        ),
        AppEvent::TopologyPrepared { request_id, intent, source_graph_revision, target_graph_revision } =>
            topology_prepared(s, request_id@, intent@, source_graph_revision@, target_graph_revision@),
        AppEvent::TopologyPreparationFailed {
            request_id,
            intent,
            source_graph_revision,
            target_graph_revision,
            failure,
        } => quiet(
            topology_failed(s, request_id@, intent@, source_graph_revision@, target_graph_revision@, failure),
        ),
        _ => Err(EventRejection::ActionUnavailableInContext),
    }
}

/// The complete answer to one event: the next state, the audio command and
/// the structural effect it publishes, or the rejection. An accepted event
/// advances the generation by exactly one; MIDI only checks its target.
pub open spec fn applied(s: StateView, e: AppEvent) -> Result<
    (StateView, Option<AudioCommand>, Option<EffectView>),
    EventRejection,
> {
    if s.generation == u64::MAX {
        Err(EventRejection::GenerationOverflow)
    } else {
        match e {
            AppEvent::Midi { patch_id, message } => {
                if patch_index_of(s.patches, patch_id) is Some {
                    Ok(
                        (
                            StateView { generation: (s.generation + 1) as u64, ..s },
                            Some(AudioCommand::PatchMidi { patch_id, message }),
                            None,
                        ),
                    )
                } else {
                    Err(EventRejection::UnknownPatch)
                }
            },
            _ => match reduced(s, e) {
                Err(x) => Err(x),
                Ok((n, effect)) => Ok(
                    (
                        StateView {
                            generation: (s.generation + 1) as u64,
                            focus_repair: if clears_focus_repair(e) {
                                None
                            } else {
                                n.focus_repair
                            },
                            ..n
                        },
                        None,
                        effect,
                    ),
                ),
            },
        }
    }
}


/// Every accepted event advances the generation by exactly one.
pub proof fn lemma_accepted_event_advances_generation(s: StateView, e: AppEvent)
    requires
        applied(s, e) is Ok,
    ensures
        applied(s, e)->Ok_0.0.generation == s.generation + 1,
{
}

/// An accepted MIDI event changes nothing but the generation and publishes
/// exactly one command for its target.
pub proof fn lemma_midi_touches_only_generation(s: StateView, patch_id: PatchId, message: MidiMessage)
    requires
        applied(s, AppEvent::Midi { patch_id, message }) is Ok,
    ensures
        applied(s, AppEvent::Midi { patch_id, message }) == Ok::<
            (StateView, Option<AudioCommand>, Option<EffectView>),
            EventRejection,
        >((StateView { generation: (s.generation + 1) as u64, ..s }, Some(AudioCommand::PatchMidi { patch_id, message }), None)),
{
}

/// While a structural request is preparing or activating, every further
/// structural request is refused as busy.
pub proof fn lemma_one_structural_request_in_flight(
    s: StateView,
    d: Direction,
    patch_id: PatchId,
    slot: EffectSlotIndex,
    entry: Option<Seq<char>>,
)
    requires
        in_flight(s.engine_selection),
        d == Direction::Left || d == Direction::Right,
    ensures
        engine_requested(s, d) == Err::<(StateView, Option<EffectView>), EventRejection>(
            EventRejection::StructuralEditBusy,
        ),
        slot_occupancy_requested(s, patch_id, slot, entry) == Err::<(StateView, Option<EffectView>), EventRejection>(
            EventRejection::StructuralEditBusy,
        ),
        slot_choice_requested(s, slot, d) == Err::<(StateView, Option<EffectView>), EventRejection>(
            EventRejection::StructuralEditBusy,
        ),
{
}

/// Preparing a candidate never changes a Patch: canonical state keeps the
/// acknowledged configuration until the audio side activates the candidate.
pub proof fn lemma_preparation_never_commits(
    s: StateView,
    request_id: u64,
    patch_id: PatchId,
    intent: IntentView,
    source: Seq<char>,
    target: Seq<char>,
    source_revision: u64,
    target_revision: u64,
    candidate: ConfigView,
)
    requires
        engine_prepared(s, request_id, patch_id, intent, source, target, source_revision, target_revision, candidate) is Ok,
    ensures
        engine_prepared(s, request_id, patch_id, intent, source, target, source_revision, target_revision, candidate)->Ok_0.0.patches
            == s.patches,
        engine_prepared(s, request_id, patch_id, intent, source, target, source_revision, target_revision, candidate)->Ok_0.0.pending_instrument_config
            == Some(candidate),
{
}

proof fn lemma_first_exists(ps: Seq<PatchView>, id: PatchId, k: int)
    requires
        0 <= k < ps.len(),
        ps[k].id == id,
    ensures
        exists|i: int| 0 <= i < ps.len() && ps[i].id == id && forall|j: int| 0 <= j < i ==> ps[j].id != id,
    decreases k,
{
    if exists|j: int| 0 <= j < k && ps[j].id == id {
        let j = choose|j: int| 0 <= j < k && ps[j].id == id;
        lemma_first_exists(ps, id, j);
    } else {
        assert(forall|j: int| 0 <= j < k ==> ps[j].id != id);
    }
}

/// The first installed Patch with an identity is where the search finds it.
pub proof fn lemma_patch_index_of(ps: Seq<PatchView>, id: PatchId)
    ensures
        match patch_index_of(ps, id) {
            Some(i) => 0 <= i < ps.len() && ps[i].id == id && forall|j: int| 0 <= j < i ==> ps[j].id != id,
            None => forall|i: int| 0 <= i < ps.len() ==> ps[i].id != id,
        },
{
    if exists|i: int| 0 <= i < ps.len() && ps[i].id == id {
        let k = choose|i: int| 0 <= i < ps.len() && ps[i].id == id;
        lemma_first_exists(ps, id, k);
    }
}

/// Acknowledging an activated instrument request commits exactly the prepared
/// candidate to the requesting Patch, clears it, and returns to Ready on the
/// activated revision.
pub proof fn lemma_acknowledgement_commits_candidate(
    s: StateView,
    request_id: u64,
    intent: IntentView,
    target_revision: u64,
    retired_revision: u64,
)
    requires
        !intent_is_occupancy(intent),
        activation_acknowledged(s, request_id, intent, target_revision, retired_revision, true) is Ok,
    ensures
        ({
            let n = activation_acknowledged(s, request_id, intent, target_revision, retired_revision, true)->Ok_0.0;
            let i = patch_index_of(s.patches, s.engine_selection.correlation->0.patch_id->0)->0;
            &&& n.patches.len() == s.patches.len()
            &&& n.patches[i].instrument_config == s.pending_instrument_config->0
            &&& forall|k: int| 0 <= k < s.patches.len() && k != i ==> n.patches[k] == s.patches[k]
            &&& n.pending_instrument_config is None
            &&& n.engine_selection == ready_status(target_revision)
        }),
{
    lemma_patch_index_of(s.patches, s.engine_selection.correlation->0.patch_id->0);
}

/// On the PATCH Utility voice-limit row, an edit moves the focused Patch's
/// limit by the fine step horizontally and the coarse step vertically,
/// clamped to the declared bounds; an edit that the clamp leaves unchanged is
/// refused at the boundary with nothing changed, and an accepted one changes
/// that limit and nothing else.
pub proof fn lemma_voice_limit_edit_through_the_reducer(s: StateView, d: Direction)
    requires
        s.generation < u64::MAX,
        s.interaction.context == TopLevelContext::Patch,
        s.interaction.utility_row == Some(4u8),
        s.interaction.choice is None,
        patch_focus_installed(s),
        VOICE_LIMIT_MINIMUM <= s.patches[patch_index_of(s.patches, s.interaction.patch_focus->0)->0].voice_limit
            <= ENGINE_MANAGED_VOICE_LIMIT,
    ensures
        ({
            let i = patch_index_of(s.patches, s.interaction.patch_focus->0)->0;
            let p = s.patches[i];
            let n = stepped_voice_limit(p.voice_limit, d);
            &&& n == p.voice_limit ==> applied(s, AppEvent::Adjust(d)) == Err::<
                (StateView, Option<AudioCommand>, Option<EffectView>),
                EventRejection,
            >(EventRejection::ParameterAtBoundary)
            &&& n != p.voice_limit ==> applied(s, AppEvent::Adjust(d)) == Ok::<
                (StateView, Option<AudioCommand>, Option<EffectView>),
                EventRejection,
            >(
                (
                    StateView {
                        generation: (s.generation + 1) as u64,
                        patches: s.patches.update(i, PatchView { voice_limit: n as u16, ..p }),
                        focus_repair: None,
                        ..s
                    },
                    None,
                    None,
                ),
            )
        }),
{
}

/// On the PATCH Utility MIDI-input row, a vertical edit is unavailable; a
/// horizontal one moves the focused Patch's channel to its neighbour, refused
/// at either end of the channel range with nothing changed, and an accepted
/// one changes that channel and nothing else (sharing another Patch's channel
/// is allowed).
pub proof fn lemma_midi_input_edit_through_the_reducer(s: StateView, d: Direction)
    requires
        s.generation < u64::MAX,
        s.interaction.context == TopLevelContext::Patch,
        s.interaction.utility_row == Some(2u8),
        s.interaction.choice is None,
        patch_focus_installed(s),
    ensures
        ({
            let i = patch_index_of(s.patches, s.interaction.patch_focus->0)->0;
            let p = s.patches[i];
            let c = p.channel@;
            let r = applied(s, AppEvent::Adjust(d));
            &&& (d == Direction::Up || d == Direction::Down) ==> r == Err::<
                (StateView, Option<AudioCommand>, Option<EffectView>),
                EventRejection,
            >(EventRejection::ActionUnavailableInContext)
            &&& ((d == Direction::Right && c + 1 >= MIDI_CHANNEL_COUNT) || (d == Direction::Left && c == 0))
                ==> r == Err::<(StateView, Option<AudioCommand>, Option<EffectView>), EventRejection>(
                EventRejection::ParameterAtBoundary,
            )
            &&& ((d == Direction::Right && c + 1 < MIDI_CHANNEL_COUNT) || (d == Direction::Left && c > 0)) ==> {
                let next = if d == Direction::Right {
                    c + 1
                } else {
                    c - 1
                };
                r == Ok::<(StateView, Option<AudioCommand>, Option<EffectView>), EventRejection>(
                    (
                        StateView {
                            generation: (s.generation + 1) as u64,
                            patches: s.patches.update(
                                i,
                                PatchView { channel: MidiChannel::spec_from(next as u8), ..p },
                            ),
                            focus_repair: None,
                            ..s
                        },
                        None,
                        None,
                    ),
                )
            }
        }),
{
}

/// Acknowledging an activation through the reducer: an acknowledgement that
/// does not answer the activating request is stale; one that answers it with
/// another intent, target, retired revision, or an uncollected graph is
/// mismatched; both leave the state unchanged. An accepted acknowledgement
/// returns to Ready on the target revision, and for an instrument request
/// commits the prepared candidate to the requesting Patch alone.
pub proof fn lemma_acknowledgement_through_the_reducer(
    s: StateView,
    request_id: EngineSelectionRequestId,
    intent: StructuralEditIntent,
    target: GraphRevision,
    retired: GraphRevision,
    collected: bool,
)
    requires
        s.generation < u64::MAX,
    ensures
        ({
            let st = s.engine_selection;
            let c = st.correlation->0;
            let e = AppEvent::EngineActivationAcknowledged {
                request_id,
                intent,
                target_graph_revision: target,
                retired_graph_revision: retired,
                collected,
            };
            let r = applied(s, e);
            &&& (st.kind != EngineSelectionStatusKind::Activating || st.correlation is None || c.request_id
                != request_id@) ==> r == Err::<(StateView, Option<AudioCommand>, Option<EffectView>), EventRejection>(
                EventRejection::StaleEngineSelection,
            )
            &&& (st.kind == EngineSelectionStatusKind::Activating && st.correlation is Some && c.request_id
                == request_id@ && (c.intent != intent@ || c.target_graph_revision != Some(target@)
                || c.source_graph_revision != retired@ || !collected)) ==> r == Err::<
                (StateView, Option<AudioCommand>, Option<EffectView>),
                EventRejection,
            >(EventRejection::MismatchedEngineSelection)
            &&& r is Ok ==> r->Ok_0.0.engine_selection == ready_status(target@) && r->Ok_0.0.generation
                == s.generation + 1 && r->Ok_0.2 == Some(
                EffectView { kind: EngineSelectionEffectKind::ActivationAcknowledged, correlation: c },
            )
            &&& r is Ok && !intent_is_occupancy(intent@) ==> {
                let n = r->Ok_0.0;
                let i = patch_index_of(s.patches, c.patch_id->0)->0;
                &&& n.patches.len() == s.patches.len()
                &&& n.patches[i].instrument_config == s.pending_instrument_config->0
                &&& forall|k: int| 0 <= k < s.patches.len() && k != i ==> n.patches[k] == s.patches[k]
                &&& n.pending_instrument_config is None
            }
        }),
{
    let r = applied(
        s,
        AppEvent::EngineActivationAcknowledged {
            request_id,
            intent,
            target_graph_revision: target,
            retired_graph_revision: retired,
            collected,
        },
    );
    if r is Ok && !intent_is_occupancy(intent@) {
        lemma_acknowledgement_commits_candidate(s, request_id@, intent@, target@, retired@);
    }
}

/// Installing the startup Patch set through the reducer: refused once the
/// startup state has changed or Patches are installed, then above the Patch
/// capacity; an accepted installation holds exactly the given Patches in
/// order, shows MIXER and remembers the first Patch for PATCH.
pub proof fn lemma_installation_through_the_reducer(s: StateView, ps: Vec<crate::patch::Patch>)
    requires
        s.generation < u64::MAX,
    ensures
        ({
            let v = patch_views(ps@);
            let r = applied(s, AppEvent::InstallPatches(ps));
            &&& (s.generation != 0 || s.patches.len() != 0) ==> r == Err::<
                (StateView, Option<AudioCommand>, Option<EffectView>),
                EventRejection,
            >(EventRejection::InstallationClosed)
            &&& (s.generation == 0 && s.patches.len() == 0 && v.len() > MAX_ACTIVE_PATCHES) ==> r == Err::<
                (StateView, Option<AudioCommand>, Option<EffectView>),
                EventRejection,
            >(EventRejection::TooManyPatches)
            &&& r is Ok ==> {
                let n = r->Ok_0.0;
                &&& n.generation == s.generation + 1
                &&& n.patches.len() == v.len()
                &&& forall|k: int| 0 <= k < v.len() ==> (#[trigger] n.patches[k]).id == v[k].id
                    && n.patches[k].instrument_config == v[k].instrument_config
                &&& n.interaction.context == TopLevelContext::Mixer
                &&& n.interaction.patch_focus == (if v.len() > 0 {
                    Some(v[0].id)
                } else {
                    None
                })
                &&& r->Ok_0.1 is None && r->Ok_0.2 is None
            }
        }),
{
}

/// Switching Patch through the reducer: only PATCH in Navigate mode switches,
/// only horizontally, and never past either end; an accepted switch focuses
/// the neighbour in installation order on the PATCH main surface and changes
/// no Patch.
pub proof fn lemma_patch_switch_through_the_reducer(s: StateView, d: Direction)
    requires
        s.generation < u64::MAX,
        patch_focus_installed(s),
    ensures
        ({
            let r = applied(s, AppEvent::SelectPatch(d));
            let i = patch_index_of(s.patches, s.interaction.patch_focus->0)->0;
            let t = if d == Direction::Left {
                i - 1
            } else {
                i + 1
            };
            &&& (s.interaction.context != TopLevelContext::Patch || s.interaction.mode != InteractionMode::Navigate
                || d == Direction::Up || d == Direction::Down) ==> r == Err::<
                (StateView, Option<AudioCommand>, Option<EffectView>),
                EventRejection,
            >(EventRejection::ActionUnavailableInContext)
            &&& (s.interaction.context == TopLevelContext::Patch && s.interaction.mode == InteractionMode::Navigate
                && (d == Direction::Left || d == Direction::Right) && (t < 0 || t >= s.patches.len())) ==> r == Err::<
                (StateView, Option<AudioCommand>, Option<EffectView>),
                EventRejection,
            >(EventRejection::ParameterAtBoundary)
            &&& r is Ok ==> {
                let n = r->Ok_0.0;
                &&& 0 <= t < s.patches.len()
                &&& n.interaction.patch_focus == Some(s.patches[t].id)
                &&& n.interaction.utility_row is None
                &&& n.interaction.context == TopLevelContext::Patch
                &&& n.patches == s.patches
                &&& n.generation == s.generation + 1
            }
        }),
{
}

/// A worker's preparation report through the reducer: a report for a
/// request that is not preparing is stale; one that contradicts the
/// preparing request is mismatched; an accepted one moves the lifecycle to
/// Activating on the reported target, keeps the active revision and every
/// Patch, and holds the candidate until the activation is acknowledged.
pub proof fn lemma_preparation_through_the_reducer(s: StateView, e: AppEvent)
    requires
        s.generation < u64::MAX,
    ensures
        ({
            let r = applied(s, e);
            let st = s.engine_selection;
            let c = st.correlation->0;
            match e {
                AppEvent::EnginePrepared {
                    request_id,
                    patch_id,
                    intent,
                    source_capability_id,
                    target_capability_id,
                    source_graph_revision,
                    target_graph_revision,
                    candidate_config,
                    ..
                } => {
                    let stale = st.kind != EngineSelectionStatusKind::Preparing || st.correlation is None
                        || c.request_id != request_id@;
                    let contradicts = c.patch_id != Some(patch_id) || c.intent != intent@ || c.source_capability_id
                        != Some(source_capability_id@) || c.target_capability_id != Some(target_capability_id@)
                        || c.source_graph_revision != source_graph_revision@ || target_graph_revision@
                        <= source_graph_revision@;
                    &&& stale ==> r == Err::<(StateView, Option<AudioCommand>, Option<EffectView>), EventRejection>(
                        EventRejection::StaleEngineSelection,
                    )
                    &&& !stale && contradicts ==> r == Err::<
                        (StateView, Option<AudioCommand>, Option<EffectView>),
                        EventRejection,
                    >(EventRejection::MismatchedEngineSelection)
                    &&& r is Ok ==> {
                        let n = r->Ok_0.0;
                        &&& n.engine_selection.kind == EngineSelectionStatusKind::Activating
                        &&& n.engine_selection.active_graph_revision == st.active_graph_revision
                        &&& n.engine_selection.correlation == Some(
                            CorrelationView { target_graph_revision: Some(target_graph_revision@), ..c },
                        )
                        &&& n.patches == s.patches
                        &&& n.pending_instrument_config == Some(candidate_config@)
                        &&& n.generation == s.generation + 1
                    }
                },
                _ => true,
            }
        }),
{
}

/// Opening a choice list and returning from it restores the exact state
/// the list was opened from.
pub proof fn lemma_choice_return_restores_origin(s: StateView, subject: ChoiceSubject)
    requires
        s.interaction.choice is None,
        s.interaction.mode == InteractionMode::Navigate,
        choice_opened(s, subject) is Ok,
    ensures
        returned_from_panel(choice_opened(s, subject)->Ok_0) == Ok::<StateView, EventRejection>(s),
{
    assert(choice_closed(choice_opened(s, subject)->Ok_0).interaction =~= s.interaction);
}

/// On the PATCH Utility output-track row, Left routes the focused Patch to
/// the previous track and Right to the next one; an edit past the first or
/// the last track is refused at the boundary. An accepted edit changes that
/// Patch's output alone.
#[verifier::rlimit(40)]
pub proof fn lemma_output_track_edit_steps_to_the_neighbour(s: StateView, d: Direction)
    requires
        s.generation < u64::MAX,
        s.interaction.context == TopLevelContext::Patch,
        s.interaction.utility_row == Some(3u8),
        s.interaction.choice is None,
        patch_focus_installed(s),
        d == Direction::Left || d == Direction::Right,
    ensures
        ({
            let i = patch_index_of(s.patches, s.interaction.patch_focus->0)->0;
            let t = s.patches[i].output@@;
            let r = applied(s, AppEvent::Adjust(d));
            &&& d == Direction::Left && t == 0 ==> r == Err::<
                (StateView, Option<AudioCommand>, Option<EffectView>),
                EventRejection,
            >(EventRejection::ParameterAtBoundary)
            &&& d == Direction::Right && t + 1 >= MIDI_CHANNEL_COUNT ==> r == Err::<
                (StateView, Option<AudioCommand>, Option<EffectView>),
                EventRejection,
            >(EventRejection::ParameterAtBoundary)
            &&& d == Direction::Left && t > 0 ==> r is Ok && r->Ok_0.0.patches[i].output@@ == t - 1
            &&& d == Direction::Right && t + 1 < MIDI_CHANNEL_COUNT ==> r is Ok && r->Ok_0.0.patches[i].output@@
                == t + 1
            &&& r is Ok ==> {
                let n = r->Ok_0.0;
                &&& n.patches.len() == s.patches.len()
                &&& forall|k: int| 0 <= k < s.patches.len() && k != i ==> n.patches[k] == s.patches[k]
                &&& n.patches[i].channel == s.patches[i].channel
                &&& n.patches[i].instrument_config == s.patches[i].instrument_config
                &&& n.patches[i].effects == s.patches[i].effects
                &&& n.patches[i].voice_limit == s.patches[i].voice_limit
            }
        }),
{
    let e = AppEvent::Adjust(d);
    assert(reduced(s, e) == adjusted(s, d));
    assert(adjusted(s, d) == quiet(output_track_adjusted(s, d)));
    assert(clears_focus_repair(e));
    lemma_patch_index_of(s.patches, s.interaction.patch_focus->0);
    let i = patch_index_of(s.patches, s.interaction.patch_focus->0)->0;
    let t = s.patches[i].output@@;
    if t > 0 {
        MixerTrackId::lemma_spec_from((t - 1) as u8);
        PatchOutput::lemma_with_track(MixerTrackId::spec_from((t - 1) as u8));
    }
    if t + 1 < MIDI_CHANNEL_COUNT {
        MixerTrackId::lemma_spec_from((t + 1) as u8);
        PatchOutput::lemma_with_track(MixerTrackId::spec_from((t + 1) as u8));
    }
}

/// In an open choice list, Up focuses the option just before the focused
/// one and Down the option just after it; neither goes past the first or
/// the last option, and moving changes nothing but the focused option.
#[verifier::rlimit(60)]
pub proof fn lemma_choice_navigation_steps_one_option(s: StateView, d: Direction)
    requires
        s.generation < u64::MAX,
        s.interaction.context == TopLevelContext::Patch,
        s.interaction.choice is Some,
        s.interaction.choice->0.option < option_count(s, s.interaction.choice->0.subject),
    ensures
        ({
            let c = s.interaction.choice->0;
            let k = c.option as int;
            let count: int = match c.subject {
                ChoiceSubject::Engine => s.capabilities.len() as int,
                ChoiceSubject::EffectSlot(_) => s.effects.len() as int + 1,
                ChoiceSubject::OutputTrack => MIDI_CHANNEL_COUNT as int,
            };
            let r = applied(s, AppEvent::Navigate(d));
            &&& d == Direction::Up && k > 0 ==> r is Ok && r->Ok_0.0.interaction.choice == Some(
                ChoiceSession { subject: c.subject, option: (k - 1) as usize },
            )
            &&& d == Direction::Down && k + 1 < count ==> r is Ok && r->Ok_0.0.interaction.choice == Some(
                ChoiceSession { subject: c.subject, option: (k + 1) as usize },
            )
            &&& (d == Direction::Up && k == 0) || (d == Direction::Down && k + 1 >= count) || d == Direction::Left
                || d == Direction::Right ==> r == Err::<
                (StateView, Option<AudioCommand>, Option<EffectView>),
                EventRejection,
            >(EventRejection::ActionUnavailableInContext)
            &&& r is Ok ==> r->Ok_0.0.patches == s.patches && r->Ok_0.0.engine_selection == s.engine_selection
                && r->Ok_0.0.interaction.patch_row == s.interaction.patch_row
                && r->Ok_0.0.interaction.utility_row == s.interaction.utility_row
        }),
{
    let e = AppEvent::Navigate(d);
    assert(reduced(s, e) == quiet(navigated(s, d)));
    assert(navigated(s, d) == choice_navigated(s, d));
    assert(clears_focus_repair(e));
}

/// An accepted acknowledgement of an effect-slot occupancy change leaves the
/// named slot of the named Patch holding the requested effect as that slot's
/// occupant, or empty when the request removed it; every other slot and
/// every other Patch are unchanged, and the lifecycle is Ready on the target.
#[verifier::rlimit(60)]
pub proof fn lemma_slot_acknowledgement_commits_the_occupant(
    s: StateView,
    request_id: EngineSelectionRequestId,
    patch_id: PatchId,
    slot: EffectSlotIndex,
    entry: Option<crate::domain::EffectCapabilityId>,
    target: GraphRevision,
    retired: GraphRevision,
)
    requires
        s.generation < u64::MAX,
        slot@ < crate::domain::MAX_EFFECT_SLOTS,
        forall|k: int| 0 <= k < s.patches.len() ==> crate::patch::patch_well_formed(#[trigger] s.patches[k]),
    ensures
        ({
            let r = applied(
                s,
                AppEvent::EngineActivationAcknowledged {
                    request_id,
                    intent: StructuralEditIntent::SetSlotOccupancy { patch_id, slot, entry },
                    target_graph_revision: target,
                    retired_graph_revision: retired,
                    collected: true,
                },
            );
            let i = patch_index_of(s.patches, patch_id)->0;
            r is Ok ==> {
                let n = r->Ok_0.0;
                &&& patch_index_of(s.patches, patch_id) is Some
                &&& n.patches.len() == s.patches.len()
                &&& n.patches[i].effects[slot@ as int] == match entry_view(entry) {
                    None => None,
                    Some(e) => Some(
                        EffectConfigView {
                            slot_id: crate::domain::EffectSlotId::spec_from((slot@ + 1) as u16),
                            capability_id: e,
                        },
                    ),
                }
                &&& n.patches[i].effects.len() == s.patches[i].effects.len()
                &&& forall|j: int| 0 <= j < s.patches[i].effects.len() && j != slot@ ==> n.patches[i].effects[j]
                    == s.patches[i].effects[j]
                &&& forall|k: int| 0 <= k < s.patches.len() && k != i ==> n.patches[k] == s.patches[k]
                &&& n.engine_selection.kind == EngineSelectionStatusKind::Ready
                &&& n.engine_selection.active_graph_revision == target@
            }
        }),
{
    let intent = StructuralEditIntent::SetSlotOccupancy { patch_id, slot, entry };
    let e = AppEvent::EngineActivationAcknowledged {
        request_id,
        intent,
        target_graph_revision: target,
        retired_graph_revision: retired,
        collected: true,
    };
    assert(intent@ == IntentView::SetSlotOccupancy { patch_id, slot, entry: entry_view(entry) });
    assert(reduced(s, e) == activation_acknowledged(s, request_id@, intent@, target@, retired@, true));
    assert(!clears_focus_repair(e));
    if applied(s, e) is Ok {
        lemma_patch_index_of(s.patches, patch_id);
    }
}

/// On the PATCH Engine row, Left requests the installed engine just before
/// the focused Patch's engine in registry order and Right the one just
/// after it; there is none before the first or after the last.
#[verifier::rlimit(40)]
pub proof fn lemma_engine_request_targets_the_adjacent_engine(s: StateView, d: Direction)
    requires
        crate::app_state::state_wf(s),
        s.generation < u64::MAX,
        s.interaction.context == TopLevelContext::Patch,
        s.interaction.utility_row is None,
        s.interaction.choice is None,
        s.interaction.patch_row == 0,
        d == Direction::Left || d == Direction::Right,
        !in_flight(s.engine_selection),
        s.last_request_id < u64::MAX,
        patch_focus_installed(s),
        descriptor_index(
            s.capabilities,
            s.patches[patch_index_of(s.patches, s.interaction.patch_focus->0)->0].instrument_config.capability_id,
        ) is Some,
    ensures
        ({
            let p = s.patches[patch_index_of(s.patches, s.interaction.patch_focus->0)->0];
            let si = descriptor_index(s.capabilities, p.instrument_config.capability_id)->0;
            let r = applied(s, AppEvent::Adjust(d));
            &&& d == Direction::Left && si > 0 ==> r is Ok && r->Ok_0.2 == Some(
                EffectView {
                    kind: EngineSelectionEffectKind::PrepareRequested,
                    correlation: r->Ok_0.0.engine_selection.correlation->0,
                },
            ) && r->Ok_0.0.engine_selection.correlation->0.intent == IntentView::ReplaceCapability {
                target_capability_id: s.capabilities[si - 1].id,
            }
            &&& d == Direction::Right && si + 1 < s.capabilities.len() ==> r is Ok && r->Ok_0.2 == Some(
                EffectView {
                    kind: EngineSelectionEffectKind::PrepareRequested,
                    correlation: r->Ok_0.0.engine_selection.correlation->0,
                },
            ) && r->Ok_0.0.engine_selection.correlation->0.intent == IntentView::ReplaceCapability {
                target_capability_id: s.capabilities[si + 1].id,
            }
            &&& (d == Direction::Left && si == 0) || (d == Direction::Right && si + 1 >= s.capabilities.len()) ==> r
                == Err::<(StateView, Option<AudioCommand>, Option<EffectView>), EventRejection>(
                EventRejection::EngineSelectionUnavailable,
            )
            &&& r is Ok ==> r->Ok_0.0.patches == s.patches
        }),
{
    let e = AppEvent::Adjust(d);
    assert(reduced(s, e) == adjusted(s, d));
    assert(adjusted(s, d) == engine_requested(s, d));
    assert(clears_focus_repair(e));
    let p = s.patches[patch_index_of(s.patches, s.interaction.patch_focus->0)->0];
    let si = descriptor_index(s.capabilities, p.instrument_config.capability_id)->0;
    assert(s.capabilities[si].id == p.instrument_config.capability_id);
    if si > 0 {
        assert(s.capabilities[si - 1].id != s.capabilities[si].id);
    }
    if si + 1 < s.capabilities.len() {
        assert(s.capabilities[si].id != s.capabilities[si + 1].id);
    }
}

/// On an effect-slot row, Left requests the occupant just before the slot's
/// current one in the order "empty, then every installed effect", and Right
/// the one just after it; nothing lies before the empty choice or after the
/// last effect.
#[verifier::rlimit(60)]
pub proof fn lemma_slot_choice_steps_to_the_adjacent_entry(s: StateView, d: Direction)
    requires
        s.generation < u64::MAX,
        s.interaction.context == TopLevelContext::Patch,
        s.interaction.utility_row is None,
        s.interaction.choice is None,
        0 < s.interaction.patch_row < crate::focus::PATCH_MAIN_ROW_COUNT,
        d == Direction::Left || d == Direction::Right,
        !in_flight(s.engine_selection),
        patch_focus_installed(s),
        crate::patch::patch_well_formed(s.patches[patch_index_of(s.patches, s.interaction.patch_focus->0)->0]),
        ({
            let p = s.patches[patch_index_of(s.patches, s.interaction.patch_focus->0)->0];
            let slot = EffectSlotIndex::spec_from((s.interaction.patch_row - 1) as u8);
            p.effects[slot@ as int] matches Some(c) ==> s.effects.contains(c.capability_id)
        }),
    ensures
        ({
            let pid = s.interaction.patch_focus->0;
            let p = s.patches[patch_index_of(s.patches, pid)->0];
            let slot = EffectSlotIndex::spec_from((s.interaction.patch_row - 1) as u8);
            let ci: int = match p.effects[slot@ as int] {
                None => 0,
                Some(c) => first_effect_index(s.effects, c.capability_id)->0 + 1,
            };
            let expected: Option<Seq<char>> = if d == Direction::Left {
                if ci - 1 == 0 {
                    None
                } else {
                    Some(s.effects[ci - 2])
                }
            } else {
                Some(s.effects[ci])
            };
            let r = applied(s, AppEvent::Adjust(d));
            &&& (d == Direction::Left && ci == 0) || (d == Direction::Right && ci == s.effects.len()) ==> r == Err::<
                (StateView, Option<AudioCommand>, Option<EffectView>),
                EventRejection,
            >(EventRejection::ParameterAtBoundary)
            &&& r is Ok ==> r->Ok_0.0.engine_selection.correlation->0.intent == IntentView::SetSlotOccupancy {
                patch_id: pid,
                slot,
                entry: expected,
            } && r->Ok_0.0.patches == s.patches
        }),
{
    let pid = s.interaction.patch_focus->0;
    lemma_patch_index_of(s.patches, pid);
    let p = s.patches[patch_index_of(s.patches, pid)->0];
    let slot = EffectSlotIndex::spec_from((s.interaction.patch_row - 1) as u8);
    EffectSlotIndex::lemma_spec_from((s.interaction.patch_row - 1) as u8);
    match p.effects[slot@ as int] {
        Some(c) => {
            let j = choose|j: int| 0 <= j < s.effects.len() && s.effects[j] == c.capability_id;
            assert(0 <= j < s.effects.len() && s.effects[j] == c.capability_id);
        },
        None => {},
    }
}

/// An accepted acknowledgement of a bus-return occupancy change leaves that
/// bus returning through the requested effect, or through none when the
/// request removed it; every other bus and every Patch are unchanged, and the
/// lifecycle is Ready on the target.
pub proof fn lemma_return_acknowledgement_commits_the_entry(
    s: StateView,
    request_id: EngineSelectionRequestId,
    bus: BusId,
    entry: Option<crate::domain::EffectCapabilityId>,
    target: GraphRevision,
    retired: GraphRevision,
)
    requires
        s.generation < u64::MAX,
        bus@ < s.returns.len(),
    ensures
        ({
            let r = applied(
                s,
                AppEvent::EngineActivationAcknowledged {
                    request_id,
                    intent: StructuralEditIntent::SetReturnOccupancy { bus, entry },
                    target_graph_revision: target,
                    retired_graph_revision: retired,
                    collected: true,
                },
            );
            r is Ok ==> {
                let n = r->Ok_0.0;
                &&& n.returns.len() == s.returns.len()
                &&& n.returns[bus@ as int] == entry_view(entry)
                &&& forall|b: int| 0 <= b < s.returns.len() && b != bus@ ==> n.returns[b] == s.returns[b]
                &&& n.patches == s.patches
                &&& n.engine_selection.kind == EngineSelectionStatusKind::Ready
                &&& n.engine_selection.active_graph_revision == target@
            }
        }),
{
    let intent = StructuralEditIntent::SetReturnOccupancy { bus, entry };
    assert(intent@ == IntentView::SetReturnOccupancy { bus, entry: entry_view(entry) });
}

/// Activating the focused option of an open choice list applies exactly
/// that option: an engine list requests the engine at that position, an
/// effect-slot list requests the empty occupant or the effect at that
/// position, an output-track list routes the Patch to that track; an
/// accepted activation always closes the list.
#[verifier::rlimit(60)]
pub proof fn lemma_choice_activation_applies_the_focused_option(s: StateView)
    requires
        s.generation < u64::MAX,
        s.interaction.choice is Some,
    ensures
        ({
            let c = s.interaction.choice->0;
            let pid = s.interaction.patch_focus->0;
            let i = patch_index_of(s.patches, pid)->0;
            let r = applied(s, AppEvent::Activate);
            &&& r is Ok ==> r->Ok_0.0.interaction.choice is None && r->Ok_0.0.interaction.mode
                == InteractionMode::Navigate
            &&& r is Ok && r->Ok_0.2 is Some ==> r->Ok_0.2->0.correlation == r->Ok_0.0.engine_selection.correlation->0
            &&& c.subject == ChoiceSubject::Engine && r is Ok && r->Ok_0.2 is Some
                ==> r->Ok_0.0.engine_selection.correlation->0.intent == IntentView::ReplaceCapability {
                target_capability_id: s.capabilities[c.option as int].id,
            }
            &&& match c.subject {
                ChoiceSubject::EffectSlot(slot) => r is Ok && r->Ok_0.2 is Some
                    ==> r->Ok_0.0.engine_selection.correlation->0.intent == IntentView::SetSlotOccupancy {
                    patch_id: pid,
                    slot,
                    entry: if c.option == 0 {
                        None
                    } else {
                        Some(s.effects[c.option - 1])
                    },
                },
                _ => true,
            }
            &&& c.subject == ChoiceSubject::OutputTrack && r is Ok ==> r->Ok_0.0.patches[i].output@@ == c.option
            &&& c.option >= (match c.subject {
                ChoiceSubject::Engine => s.capabilities.len() as int,
                ChoiceSubject::EffectSlot(_) => s.effects.len() as int + 1,
                ChoiceSubject::OutputTrack => MIDI_CHANNEL_COUNT as int,
            }) && patch_focus_installed(s) ==> r == Err::<
                (StateView, Option<AudioCommand>, Option<EffectView>),
                EventRejection,
            >(EventRejection::InvalidSelection)
        }),
{
    let c = s.interaction.choice->0;
    let pid = s.interaction.patch_focus->0;
    if patch_focus_installed(s) {
        lemma_patch_index_of(s.patches, pid);
    }
    if c.subject == ChoiceSubject::OutputTrack && c.option < MIDI_CHANNEL_COUNT {
        MixerTrackId::lemma_spec_from(c.option as u8);
        PatchOutput::lemma_with_track(MixerTrackId::spec_from(c.option as u8));
    }
}

/// On the MIXER main surface, Left and Right move to the neighbouring track
/// on the level and pan rows, Up and Down to the neighbouring row; nothing
/// moves past the first or last track or row, and the master-gain row has no
/// track to move along.
pub proof fn lemma_mixer_navigation_steps_one_place(s: StateView, d: Direction)
    requires
        s.generation < u64::MAX,
        s.interaction.context == TopLevelContext::Mixer,
    ensures
        ({
            let v = s.interaction;
            let r = applied(s, AppEvent::Navigate(d));
            &&& (d == Direction::Left || d == Direction::Right) && v.mixer_row == crate::focus::MIXER_GLOBAL_ROW ==> r
                == Err::<(StateView, Option<AudioCommand>, Option<EffectView>), EventRejection>(
                EventRejection::InvalidSelection,
            )
            &&& d == Direction::Left && v.mixer_row != crate::focus::MIXER_GLOBAL_ROW && v.mixer_track > 0 ==> r is Ok
                && r->Ok_0.0.interaction.mixer_track == v.mixer_track - 1 && r->Ok_0.0.interaction.mixer_row
                == v.mixer_row
            &&& d == Direction::Right && v.mixer_row != crate::focus::MIXER_GLOBAL_ROW && v.mixer_track + 1
                < MIDI_CHANNEL_COUNT ==> r is Ok && r->Ok_0.0.interaction.mixer_track == v.mixer_track + 1
                && r->Ok_0.0.interaction.mixer_row == v.mixer_row
            &&& d == Direction::Up && v.mixer_row > 0 ==> r is Ok && r->Ok_0.0.interaction.mixer_row == v.mixer_row
                - 1 && r->Ok_0.0.interaction.mixer_track == v.mixer_track
            &&& d == Direction::Down && v.mixer_row + 1 < crate::focus::MIXER_ROW_COUNT ==> r is Ok
                && r->Ok_0.0.interaction.mixer_row == v.mixer_row + 1 && r->Ok_0.0.interaction.mixer_track
                == v.mixer_track
            &&& (d == Direction::Up && v.mixer_row == 0) || (d == Direction::Down && v.mixer_row + 1
                >= crate::focus::MIXER_ROW_COUNT) ==> r == Err::<
                (StateView, Option<AudioCommand>, Option<EffectView>),
                EventRejection,
            >(EventRejection::ActionUnavailableInContext)
            &&& r is Ok ==> r->Ok_0.0.patches == s.patches
        }),
{
}

/// One step over enabled main rows lands on the nearest enabled row in its
/// direction, passing only disabled rows; it finds none exactly when every
/// row in that direction is disabled.
proof fn lemma_enabled_step_is_nearest(row: u8, down: bool, off: Seq<bool>)
    requires
        row < crate::focus::PATCH_MAIN_ROW_COUNT,
        off.len() == crate::focus::PATCH_MAIN_ROW_COUNT,
    ensures
        match crate::focus::enabled_step(row, down, off) {
            Some(n) => n < crate::focus::PATCH_MAIN_ROW_COUNT && !off[n as int] && (if down {
                n > row
            } else {
                n < row
            }) && forall|j: int| (if down {
                row < j < n
            } else {
                n < j < row
            }) ==> #[trigger] off[j],
            None => forall|j: int| (if down {
                row < j < crate::focus::PATCH_MAIN_ROW_COUNT
            } else {
                0 <= j < row
            }) ==> #[trigger] off[j],
        },
    decreases (if down {
        crate::focus::PATCH_MAIN_ROW_COUNT as int - row as int
    } else {
        row as int
    }),
{
    match crate::focus::stepped(row, crate::focus::PATCH_MAIN_ROW_COUNT, down) {
        None => {},
        Some(n) => {
            if off[n as int] {
                lemma_enabled_step_is_nearest(n, down, off);
            }
        },
    }
}

/// On the PATCH main surface, Up and Down move to the nearest row in their
/// direction whose Overview origin is enabled for the focused Patch, passing
/// only disabled rows; the move is refused exactly when every row in that
/// direction is disabled.
#[verifier::rlimit(60)]
pub proof fn lemma_patch_navigation_moves_to_the_nearest_enabled_row(s: StateView, d: Direction)
    requires
        s.generation < u64::MAX,
        s.interaction.context == TopLevelContext::Patch,
        s.interaction.patch_focus is Some,
        s.interaction.utility_row is None,
        s.interaction.choice is None,
        s.interaction.patch_row < crate::focus::PATCH_MAIN_ROW_COUNT,
        d == Direction::Up || d == Direction::Down,
    ensures
        ({
            let pid = s.interaction.patch_focus->0;
            let row = s.interaction.patch_row as int;
            let down = d == Direction::Down;
            let r = applied(s, AppEvent::Navigate(d));
            &&& r is Ok ==> {
                let n = r->Ok_0.0.interaction.patch_row as int;
                &&& 0 <= n < crate::focus::PATCH_MAIN_ROW_COUNT
                &&& !s.disabled_origins.contains((pid, row_origin(n as u8)))
                &&& (if down {
                    n > row
                } else {
                    n < row
                })
                &&& forall|j: int| (if down {
                    row < j < n
                } else {
                    n < j < row
                }) ==> #[trigger] s.disabled_origins.contains((pid, row_origin(j as u8)))
                &&& r->Ok_0.0.patches == s.patches
                &&& r->Ok_0.0.interaction.patch_focus == s.interaction.patch_focus
            }
            &&& r is Err ==> r == Err::<(StateView, Option<AudioCommand>, Option<EffectView>), EventRejection>(
                EventRejection::ActionUnavailableInContext,
            ) && forall|j: int| (if down {
                row < j < crate::focus::PATCH_MAIN_ROW_COUNT
            } else {
                0 <= j < row
            }) ==> #[trigger] s.disabled_origins.contains((pid, row_origin(j as u8)))
        }),
{
    let pid = s.interaction.patch_focus->0;
    let off = disabled_flags(s.disabled_origins, pid);
    let e = AppEvent::Navigate(d);
    lemma_enabled_step_is_nearest(s.interaction.patch_row, d == Direction::Down, off);
    assert forall|j: int| 0 <= j < crate::focus::PATCH_MAIN_ROW_COUNT implies #[trigger] off[j]
        == s.disabled_origins.contains((pid, row_origin(j as u8))) by {}
    assert(reduced(s, e) == quiet(navigated(s, d)));
    assert(navigated(s, d) == with_interaction(s, patch_navigated(s.interaction, d, off)));
    assert(clears_focus_repair(e));
    let row = s.interaction.patch_row as int;
    let down = d == Direction::Down;
    match crate::focus::enabled_step(s.interaction.patch_row, down, off) {
        Some(n) => {
            assert(!off[n as int]);
            assert forall|j: int| (if down {
                row < j < n
            } else {
                n < j < row
            }) implies #[trigger] s.disabled_origins.contains((pid, row_origin(j as u8))) by {
                assert(off[j]);
            }
        },
        None => {
            assert forall|j: int| (if down {
                row < j < crate::focus::PATCH_MAIN_ROW_COUNT
            } else {
                0 <= j < row
            }) implies #[trigger] s.disabled_origins.contains((pid, row_origin(j as u8))) by {
                assert(off[j]);
            }
        },
    }
}

/// Selecting a context shows it in Navigate mode on its remembered main
/// row, with no panel or choice list open; PATCH needs an installed focused
/// Patch.
pub proof fn lemma_context_selection_lands_on_the_main_surface(s: StateView, c: TopLevelContext)
    requires
        s.generation < u64::MAX,
    ensures
        ({
            let r = applied(s, AppEvent::SelectContext(c));
            &&& c == TopLevelContext::Patch && !patch_focus_installed(s) ==> r == Err::<
                (StateView, Option<AudioCommand>, Option<EffectView>),
                EventRejection,
            >(EventRejection::NoPatchesInstalled)
            &&& (c == TopLevelContext::Mixer || patch_focus_installed(s)) ==> r is Ok && {
                let v = r->Ok_0.0.interaction;
                &&& v.context == c
                &&& v.mode == InteractionMode::Navigate
                &&& v.utility_row is None
                &&& v.choice is None
                &&& v.patch_row == s.interaction.patch_row
                &&& v.mixer_row == s.interaction.mixer_row
                &&& v.mixer_track == s.interaction.mixer_track
                &&& v.patch_focus == s.interaction.patch_focus
                &&& r->Ok_0.0.patches == s.patches
            }
        }),
{
}

/// Choosing Navigate or Adjust sets exactly that mode; the modal mode is
/// never chosen directly, and no mode is chosen while a choice list is open.
pub proof fn lemma_mode_selection_sets_the_mode(s: StateView, m: InteractionMode)
    requires
        s.generation < u64::MAX,
    ensures
        ({
            let r = applied(s, AppEvent::SetInteractionMode(m));
            &&& (m == InteractionMode::Modal || s.interaction.choice is Some) ==> r == Err::<
                (StateView, Option<AudioCommand>, Option<EffectView>),
                EventRejection,
            >(EventRejection::ActionUnavailableInContext)
            &&& m != InteractionMode::Modal && s.interaction.choice is None ==> r is Ok
                && r->Ok_0.0.interaction == InteractionView { mode: m, ..s.interaction }
        }),
{
}

/// Entering the PATCH Utility panel from the PATCH main surface opens it on
/// its trim row in Navigate mode and keeps the main row it returns to;
/// returning from it lands on exactly that main row.
pub proof fn lemma_utility_panel_opens_on_trim_and_returns_to_its_origin(s: StateView)
    requires
        s.generation < u64::MAX - 1,
        s.interaction.context == TopLevelContext::Patch,
        s.interaction.utility_row is None,
        s.interaction.choice is None,
    ensures
        ({
            let r = applied(s, AppEvent::EnterSurface(SurfaceId::PatchUtility));
            &&& r is Ok
            &&& r->Ok_0.0.interaction.utility_row == Some(1u8)
            &&& utility_row_control(1u8) == PatchControlId::Output(PatchOutputParameter::TrimGain)
            &&& r->Ok_0.0.interaction.mode == InteractionMode::Navigate
            &&& r->Ok_0.0.interaction.patch_row == s.interaction.patch_row
            &&& {
                let back = applied(r->Ok_0.0, AppEvent::Return);
                &&& back is Ok
                &&& back->Ok_0.0.interaction.utility_row is None
                &&& back->Ok_0.0.interaction.patch_row == s.interaction.patch_row
                &&& back->Ok_0.0.interaction.patch_focus == s.interaction.patch_focus
                &&& back->Ok_0.0.patches == s.patches
            }
        }),
{
    let n = applied(s, AppEvent::EnterSurface(SurfaceId::PatchUtility))->Ok_0.0;
    assert(reduced(n, AppEvent::Return) == quiet(returned_from_panel(n)));
}

/// A failure report for the preparing request moves the lifecycle to Failed
/// with that failure and the same correlation, keeps every Patch and drops
/// any held candidate; a report for another request is stale.
pub proof fn lemma_failure_report_records_the_failure(s: StateView, e: AppEvent)
    requires
        s.generation < u64::MAX,
    ensures
        ({
            let r = applied(s, e);
            let st = s.engine_selection;
            match e {
                AppEvent::EnginePreparationFailed { request_id, failure, .. } => {
                    &&& (st.kind != EngineSelectionStatusKind::Preparing || st.correlation is None
                        || st.correlation->0.request_id != request_id@) ==> r == Err::<
                        (StateView, Option<AudioCommand>, Option<EffectView>),
                        EventRejection,
                    >(EventRejection::StaleEngineSelection)
                    &&& r is Ok ==> {
                        let n = r->Ok_0.0;
                        &&& n.engine_selection.kind == EngineSelectionStatusKind::Failed
                        &&& n.engine_selection.failure == Some(failure)
                        &&& n.engine_selection.correlation == st.correlation
                        &&& n.engine_selection.active_graph_revision == st.active_graph_revision
                        &&& n.patches == s.patches
                        &&& n.pending_instrument_config is None
                    }
                },
                AppEvent::TopologyPreparationFailed { request_id, failure, .. } => {
                    &&& (st.kind != EngineSelectionStatusKind::Preparing || st.correlation is None
                        || st.correlation->0.request_id != request_id@) ==> r == Err::<
                        (StateView, Option<AudioCommand>, Option<EffectView>),
                        EventRejection,
                    >(EventRejection::StaleEngineSelection)
                    &&& r is Ok ==> {
                        let n = r->Ok_0.0;
                        &&& n.engine_selection.kind == EngineSelectionStatusKind::Failed
                        &&& n.engine_selection.failure == Some(failure)
                        &&& n.engine_selection.correlation == st.correlation
                        &&& n.patches == s.patches
                        &&& n.returns == s.returns
                    }
                },
                _ => true,
            }
        }),
{
}

/// A topology preparation report for the preparing occupancy request moves
/// the lifecycle to Activating on the reported target without changing any
/// Patch or bus return: occupancy changes only at acknowledgement.
pub proof fn lemma_topology_report_changes_no_occupancy(s: StateView, e: AppEvent)
    requires
        s.generation < u64::MAX,
        e is TopologyPrepared,
    ensures
        ({
            let r = applied(s, e);
            r is Ok ==> {
                let n = r->Ok_0.0;
                &&& n.engine_selection.kind == EngineSelectionStatusKind::Activating
                &&& n.engine_selection.correlation->0.target_graph_revision == Some(e->TopologyPrepared_target_graph_revision@)
                &&& n.engine_selection.active_graph_revision == s.engine_selection.active_graph_revision
                &&& n.patches == s.patches
                &&& n.returns == s.returns
            }
        }),
{
}

/// Requesting an occupancy change records a request for exactly the named
/// position and entry and changes no Patch or bus return; it is refused as
/// busy while another request is in flight and refused for an effect that is
/// not installed.
pub proof fn lemma_occupancy_request_names_its_position(s: StateView, e: AppEvent)
    requires
        s.generation < u64::MAX,
    ensures
        ({
            let r = applied(s, e);
            match e {
                AppEvent::SetSlotOccupancy { patch_id, slot, entry } => {
                    &&& in_flight(s.engine_selection) ==> r == Err::<
                        (StateView, Option<AudioCommand>, Option<EffectView>),
                        EventRejection,
                    >(EventRejection::StructuralEditBusy)
                    &&& !in_flight(s.engine_selection) && patch_index_of(s.patches, patch_id) is Some && entry_view(
                        entry,
                    ) is Some && !s.effects.contains(entry_view(entry)->0) ==> r == Err::<
                        (StateView, Option<AudioCommand>, Option<EffectView>),
                        EventRejection,
                    >(EventRejection::InvalidEffectConfig)
                    &&& r is Ok ==> r->Ok_0.0.engine_selection.kind == EngineSelectionStatusKind::Preparing
                        && r->Ok_0.0.engine_selection.correlation->0.intent == IntentView::SetSlotOccupancy {
                        patch_id,
                        slot,
                        entry: entry_view(entry),
                    } && r->Ok_0.0.patches == s.patches && r->Ok_0.0.returns == s.returns
                        && r->Ok_0.0.last_request_id == s.last_request_id + 1
                },
                AppEvent::SetReturnOccupancy { bus, entry } => {
                    &&& in_flight(s.engine_selection) ==> r == Err::<
                        (StateView, Option<AudioCommand>, Option<EffectView>),
                        EventRejection,
                    >(EventRejection::StructuralEditBusy)
                    &&& !in_flight(s.engine_selection) && entry_view(entry) is Some && !s.effects.contains(
                        entry_view(entry)->0,
                    ) ==> r == Err::<(StateView, Option<AudioCommand>, Option<EffectView>), EventRejection>(
                        EventRejection::InvalidEffectConfig,
                    )
                    &&& r is Ok ==> r->Ok_0.0.engine_selection.kind == EngineSelectionStatusKind::Preparing
                        && r->Ok_0.0.engine_selection.correlation->0.intent == IntentView::SetReturnOccupancy {
                        bus,
                        entry: entry_view(entry),
                    } && r->Ok_0.0.patches == s.patches && r->Ok_0.0.returns == s.returns
                        && r->Ok_0.0.last_request_id == s.last_request_id + 1
                },
                _ => true,
            }
        }),
{
}

/// Disabling an Overview origin of an installed Patch makes it disabled and
/// enabling it makes it enabled, leaving every other origin as it was; a
/// request that changes nothing, names no origin or no installed Patch, or
/// would disable a Patch's last enabled origin is refused.
#[verifier::rlimit(60)]
pub proof fn lemma_origin_toggle_sets_one_origin(
    s: StateView,
    patch_id: PatchId,
    control: PatchControlId,
    enabled: bool,
)
    requires
        s.generation < u64::MAX,
    ensures
        ({
            let r = applied(s, AppEvent::SetPatchOverviewOriginEnabled { patch_id, control, enabled });
            &&& r is Ok ==> overview_origin(control) is Some && patch_index_of(s.patches, patch_id) is Some && {
                let key = (patch_id, overview_origin(control)->0);
                &&& r->Ok_0.0.disabled_origins.contains(key) == !enabled
                &&& s.disabled_origins.contains(key) == enabled
                &&& forall|k: (PatchId, OverviewOrigin)| k != key ==> (#[trigger] r->Ok_0.0.disabled_origins.contains(
                    k,
                ) == s.disabled_origins.contains(k))
                &&& r->Ok_0.0.patches == s.patches
            }
            &&& (overview_origin(control) is None || patch_index_of(s.patches, patch_id) is None) ==> r == Err::<
                (StateView, Option<AudioCommand>, Option<EffectView>),
                EventRejection,
            >(EventRejection::InvalidSelection)
            &&& overview_origin(control) is Some && s.disabled_origins.contains(
                (patch_id, overview_origin(control)->0),
            ) == !enabled ==> r == Err::<(StateView, Option<AudioCommand>, Option<EffectView>), EventRejection>(
                EventRejection::InvalidSelection,
            )
            &&& !enabled && overview_origin(control) is Some && !s.disabled_origins.contains(
                (patch_id, overview_origin(control)->0),
            ) && (forall|o: OverviewOrigin| o != overview_origin(control)->0 ==> #[trigger] s.disabled_origins.contains(
                (patch_id, o),
            )) ==> r == Err::<(StateView, Option<AudioCommand>, Option<EffectView>), EventRejection>(
                EventRejection::InvalidSelection,
            )
        }),
{
    let e = AppEvent::SetPatchOverviewOriginEnabled { patch_id, control, enabled };
    assert(reduced(s, e) == quiet(origin_toggled(s, patch_id, control, enabled)));
    assert(!clears_focus_repair(e));
    if overview_origin(control) is Some {
        let o = overview_origin(control)->0;
        if !enabled && !s.disabled_origins.contains((patch_id, o)) && (forall|x: OverviewOrigin| x != o
            ==> #[trigger] s.disabled_origins.contains((patch_id, x))) {
            let a = OverviewOrigin::Engine;
            let b = OverviewOrigin::EffectSlot(EffectSlotIndex::spec_from(0));
            let c = OverviewOrigin::EffectSlot(EffectSlotIndex::spec_from(1));
            let d = OverviewOrigin::EffectSlot(EffectSlotIndex::spec_from(2));
            assert(a == o || s.disabled_origins.contains((patch_id, a)));
            assert(b == o || s.disabled_origins.contains((patch_id, b)));
            assert(c == o || s.disabled_origins.contains((patch_id, c)));
            assert(d == o || s.disabled_origins.contains((patch_id, d)));
            EffectSlotIndex::lemma_spec_from(0);
            EffectSlotIndex::lemma_spec_from(1);
            EffectSlotIndex::lemma_spec_from(2);
            assert(enabled_origin_count(s.disabled_origins, patch_id) <= 1);
        }
    }
}

/// Adjusting up on the Engine, an effect-slot or the output-track row opens
/// that row's choice list in the modal mode, focused on the focused Patch's
/// current option: its engine's registry position, the empty occupant or
/// its effect's position after the empty one, or its output track.
#[verifier::rlimit(60)]
pub proof fn lemma_choice_opens_on_the_current_option(s: StateView)
    requires
        s.generation < u64::MAX,
        s.interaction.context == TopLevelContext::Patch,
        s.interaction.choice is None,
        s.interaction.utility_row is None || s.interaction.utility_row == Some(3u8),
        s.interaction.patch_row < crate::focus::PATCH_MAIN_ROW_COUNT,
        patch_focus_installed(s),
        crate::patch::patch_well_formed(s.patches[patch_index_of(s.patches, s.interaction.patch_focus->0)->0]),
    ensures
        ({
            let p = s.patches[patch_index_of(s.patches, s.interaction.patch_focus->0)->0];
            let r = applied(s, AppEvent::Adjust(Direction::Up));
            let v = s.interaction;
            r is Ok ==> {
                let n = r->Ok_0.0;
                &&& n.interaction.mode == InteractionMode::Modal
                &&& n.patches == s.patches
                &&& n.engine_selection == s.engine_selection
                &&& v.utility_row is Some ==> n.interaction.choice == Some(
                    ChoiceSession { subject: ChoiceSubject::OutputTrack, option: p.output@@ as usize },
                )
                &&& v.utility_row is None && v.patch_row == 0 ==> n.interaction.choice == Some(
                    ChoiceSession {
                        subject: ChoiceSubject::Engine,
                        option: match descriptor_index(s.capabilities, p.instrument_config.capability_id) {
                            Some(k) => k as usize,
                            None => 0,
                        },
                    },
                )
                &&& v.utility_row is None && v.patch_row > 0 ==> {
                    let slot = EffectSlotIndex::spec_from((v.patch_row - 1) as u8);
                    n.interaction.choice == Some(
                        ChoiceSession {
                            subject: ChoiceSubject::EffectSlot(slot),
                            option: match p.effects[slot@ as int] {
                                None => 0,
                                Some(c) => match first_effect_index(s.effects, c.capability_id) {
                                    Some(k) => (k + 1) as usize,
                                    None => 0,
                                },
                            },
                        },
                    )
                }
            }
        }),
{
    let e = AppEvent::Adjust(Direction::Up);
    assert(reduced(s, e) == quiet(choice_opened(s, row_subject(s.interaction))));
    assert(clears_focus_repair(e));
}

/// Committing an activated engine replacement gives the requesting Patch the
/// prepared configuration and clamps its voice limit to the new engine's
/// ceiling: a limit within the ceiling is kept, a higher one becomes the
/// ceiling.
pub proof fn lemma_engine_swap_clamps_the_voice_limit(
    s: StateView,
    request_id: EngineSelectionRequestId,
    intent: StructuralEditIntent,
    target: GraphRevision,
    retired: GraphRevision,
)
    requires
        s.generation < u64::MAX,
        !intent_is_occupancy(intent@),
    ensures
        ({
            let r = applied(
                s,
                AppEvent::EngineActivationAcknowledged {
                    request_id,
                    intent,
                    target_graph_revision: target,
                    retired_graph_revision: retired,
                    collected: true,
                },
            );
            let c = s.engine_selection.correlation->0;
            let i = patch_index_of(s.patches, c.patch_id->0)->0;
            let k = s.pending_instrument_config->0;
            let ceiling = seeded_limit(
                s.capabilities[descriptor_index(s.capabilities, k.capability_id)->0].voice_policy,
            );
            r is Ok ==> {
                let n = r->Ok_0.0.patches[i];
                &&& n.instrument_config == k
                &&& s.patches[i].voice_limit <= ceiling ==> n.voice_limit == s.patches[i].voice_limit
                &&& s.patches[i].voice_limit > ceiling ==> n.voice_limit == ceiling
                &&& n.id == s.patches[i].id
                &&& n.channel == s.patches[i].channel
                &&& n.effects == s.patches[i].effects
                &&& n.output == s.patches[i].output
            }
        }),
{
    let e = AppEvent::EngineActivationAcknowledged {
        request_id,
        intent,
        target_graph_revision: target,
        retired_graph_revision: retired,
        collected: true,
    };
    assert(reduced(s, e) == activation_acknowledged(s, request_id@, intent@, target@, retired@, true));
    assert(!clears_focus_repair(e));
    if applied(s, e) is Ok {
        lemma_patch_index_of(s.patches, s.engine_selection.correlation->0.patch_id->0);
    }
}

/// Installing Patches seeds each Patch's voice limit from its own engine's
/// declared voice policy.
pub proof fn lemma_installation_seeds_each_voice_limit(s: StateView, ps: Vec<crate::patch::Patch>)
    requires
        s.generation < u64::MAX,
    ensures
        ({
            let v = patch_views(ps@);
            let r = applied(s, AppEvent::InstallPatches(ps));
            r is Ok ==> forall|k: int| 0 <= k < v.len() ==> (#[trigger] r->Ok_0.0.patches[k]).voice_limit
                == seeded_limit(
                s.capabilities[descriptor_index(s.capabilities, v[k].instrument_config.capability_id)->0].voice_policy,
            ) && r->Ok_0.0.patches[k].instrument_config == v[k].instrument_config
        }),
{
}

/// Switching Patch moves the focus to a neighbour in installation order and
/// never wraps around either end.
pub proof fn lemma_patch_switch_is_adjacent(s: StateView, d: Direction)
    requires
        patch_switched(s, d) is Ok,
    ensures
        ({
            let n = patch_switched(s, d)->Ok_0;
            let i = patch_index_of(s.patches, s.interaction.patch_focus->0)->0;
            let t = if d == Direction::Left {
                i - 1
            } else {
                i + 1
            };
            &&& 0 <= t < s.patches.len()
            &&& n.interaction.patch_focus == Some(s.patches[t].id)
            &&& n.patches == s.patches
        }),
{
    lemma_patch_index_of(s.patches, s.interaction.patch_focus->0);
}

/// Installation is accepted only in the untouched startup state.
pub proof fn lemma_installation_is_startup_only(s: StateView, ps: Seq<PatchView>)
    requires
        s.generation != 0 || s.patches.len() != 0,
    ensures
        installed(s, ps) == Err::<StateView, EventRejection>(EventRejection::InstallationClosed),
{
}

} // verus!
