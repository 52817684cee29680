//! The single source of mutable control state and its transactional reducer.
//!
//! `AppState::apply` is the only mutation. A rejected event leaves the state
//! exactly as it was; an accepted event advances the generation exactly once.
//! MIDI is checked read-only against the installed Patches and commits only
//! the next generation and one command.
use vstd::prelude::*;
use crate::domain::{
    entry_view, owned_text, text_equal, CapabilityId, MixerTrackId, MAX_EFFECT_SLOTS, EffectCapabilityId, EffectSlotIndex, EffectSlotId, GraphRevision, ParameterId, MidiChannel, PatchId, MAX_ACTIVE_PATCHES, MIDI_CHANNEL_COUNT, BusId, BUS_COUNT,
};
use crate::rejection::EventRejection;
use crate::engine_selection::{
    CorrelationView, EffectView, EngineSelectionCorrelation, EngineSelectionEffect, EngineSelectionEffectKind,
    EngineSelectionFailure, EngineSelectionRequestId, EngineSelectionStatus, EngineSelectionStatusKind, IntentView,
    status_valid, StatusView, StructuralEditIntent,
};
use crate::focus::{ChoiceSubject, enabled_main_controls, enabled_rows_from, initial_interaction, interaction_valid, selection_of, InteractionState, InteractionView, Selection};
use crate::interaction::{Direction, InteractionMode, PatchControlId, SurfaceId, TopLevelContext};
use crate::app_event::{semantic_event, AppEvent};
use crate::interaction::SemanticAction;
use crate::transitions::{
    applied, reduced, lemma_patch_index_of, disabled_flags, enabled_origin_count, origin_toggled, return_occupancy_requested,
    activation_acknowledged, pending_matches_state, adjacent_entry, adjusted, entry_at, engine_failed, engine_prepared, lifecycle_advanced, topology_failed,
    topology_prepared, engine_requested, slot_choice_requested, slot_occupancy_requested, candidate_fits_intent, chosen_value, pending_correlation, requested, context_chosen, installed, midi_input_adjusted, mode_chosen, navigated, output_track_adjusted, panel_entered,
    patch_focus_installed, patch_switched, returned_from_panel, seeded_patches, voice_limit_adjusted, Step,
    choice_activated, choice_navigated, choice_opened, current_option, engine_requested_to, option_count,
    row_subject, row_origin, clears_focus_repair,
};
use crate::patch::{
    choice_views, patch_views, ChoiceValue, slot_view, slot_views, ConfigView, EffectConfigView, InstrumentConfig, Patch, PatchView, PostEffectConfig,
    PatchOutput, seeded_limit, VoiceLimit, ENGINE_MANAGED_VOICE_LIMIT, VOICE_LIMIT_COARSE_STEP, VOICE_LIMIT_FINE_STEP, VOICE_LIMIT_MINIMUM,
};
use crate::payloads::MidiMessage;
use crate::registry::{config_valid, descriptor_index, descriptor_ids_unique, descriptors_coherent, CapabilityRegistry, DescriptorView, EffectCapabilityRegistry};

verus! {

/// The domain event emitted after an event has been accepted.
#[derive(Clone, Copy, Debug, PartialEq, Eq, Structural)]
pub struct StateAccepted {
    generation: u64,
}

impl View for StateAccepted {
    type V = u64;

    closed spec fn view(&self) -> u64 {
        self.generation
    }
}

impl StateAccepted {
    /// The generation the accepted state reached.
    pub fn generation(&self) -> (r: u64)
        ensures
            r == self@,
    {
        self.generation
    }
}

/// One command the accepted state hands to the audio side.
#[derive(Clone, Copy, Debug, PartialEq, Eq, Structural)]
pub enum AudioCommand {
    /// Deliver one MIDI message to one installed Patch.
    PatchMidi { patch_id: PatchId, message: MidiMessage },
}

/// What an accepted event produced: the generation it reached, at most one
/// audio command and at most one structural effect.
#[derive(Clone, Debug, PartialEq, Eq)]
pub struct ApplyOutcome {
    accepted: StateAccepted,
    audio_command: Option<AudioCommand>,
    engine_selection_effect: Option<EngineSelectionEffect>,
}

/// The mathematical content of an outcome.
pub struct OutcomeView {
    pub generation: u64,
    pub audio_command: Option<AudioCommand>,
    pub engine_selection_effect: Option<EffectView>,
}

pub open spec fn effect_option_view(e: Option<EngineSelectionEffect>) -> Option<EffectView> {
    match e {
        Some(x) => Some(x@),
        None => None,
    }
}

impl View for ApplyOutcome {
    type V = OutcomeView;

    closed spec fn view(&self) -> OutcomeView {
        OutcomeView {
            generation: self.accepted@,
            audio_command: self.audio_command,
            engine_selection_effect: effect_option_view(self.engine_selection_effect),
        }
    }
}

impl ApplyOutcome {
    pub fn accepted(&self) -> (r: StateAccepted)
        ensures
            r@ == self@.generation,
    {
        self.accepted
    }

    pub fn audio_command(&self) -> (r: Option<&AudioCommand>)
        ensures
            match r {
                Some(c) => self@.audio_command == Some(*c),
                None => self@.audio_command is None,
            },
    {
        match &self.audio_command {
            Some(c) => Some(c),
            None => None,
        }
    }

    pub fn engine_selection_effect(&self) -> (r: Option<&EngineSelectionEffect>)
        ensures
            match r {
                Some(e) => self@.engine_selection_effect == Some(e@),
                None => self@.engine_selection_effect is None,
            },
    {
        match &self.engine_selection_effect {
            Some(e) => Some(e),
            None => None,
        }
    }

    /// Hands the audio command over.
    pub fn into_audio_command(self) -> (r: Option<AudioCommand>)
        ensures
            r == self@.audio_command,
    {
        self.audio_command
    }
}

/// A failure of one effect chain against the effect registry.
#[derive(Clone, Debug, PartialEq, Eq)]
pub enum EffectCapabilityError {
    /// Two occupied positions share one instance identity.
    DuplicateSlot(EffectSlotId),
    /// An occupant names an effect that is not installed.
    UnknownEffect(EffectCapabilityId),
}

/// The mathematical content of a chain failure.
pub enum EffectErrorView {
    DuplicateSlot(EffectSlotId),
    UnknownEffect(Seq<char>),
}

pub open spec fn effect_error_view(e: EffectCapabilityError) -> EffectErrorView {
    match e {
        EffectCapabilityError::DuplicateSlot(s) => EffectErrorView::DuplicateSlot(s),
        EffectCapabilityError::UnknownEffect(id) => EffectErrorView::UnknownEffect(id@),
    }
}

/// Whether an occupied position before `p` holds instance identity `id`.
pub open spec fn identity_occupied_before(slots: Seq<Option<EffectConfigView>>, p: int, id: EffectSlotId) -> bool {
    exists|j: int| 0 <= j < p && #[trigger] slots[j] is Some && slots[j]->0.slot_id == id
}

/// Every occupied position before `p` names an installed effect and no
/// instance identity repeats among them.
pub open spec fn slots_accepted_before(
    effects: Seq<Seq<char>>,
    slots: Seq<Option<EffectConfigView>>,
    p: int,
) -> bool {
    forall|i: int|
        0 <= i < p && #[trigger] slots[i] is Some ==> effects.contains(slots[i]->0.capability_id)
            && !identity_occupied_before(slots, i, slots[i]->0.slot_id)
}

/// Position `p` is the one a chain walk refuses, with error `e`: a repeated
/// identity is reported before an unknown effect.
pub open spec fn slot_refused(
    effects: Seq<Seq<char>>,
    slots: Seq<Option<EffectConfigView>>,
    p: int,
    e: EffectErrorView,
) -> bool {
    &&& 0 <= p < slots.len()
    &&& slots_accepted_before(effects, slots, p)
    &&& slots[p] is Some
    &&& if identity_occupied_before(slots, p, slots[p]->0.slot_id) {
        e == EffectErrorView::DuplicateSlot(slots[p]->0.slot_id)
    } else {
        !effects.contains(slots[p]->0.capability_id) && e == EffectErrorView::UnknownEffect(
            slots[p]->0.capability_id,
        )
    }
}

/// Validates one chain position by position: every occupant must name an
/// installed effect and no instance identity may occupy two positions.
/// Empty positions are legal anywhere.
pub fn validate_effect_slots(effects: &EffectCapabilityRegistry, slots: &Vec<Option<PostEffectConfig>>) -> (r:
    Result<(), EffectCapabilityError>)
    ensures
        r is Ok <==> slots_accepted_before(effects@, slot_views(slots@), slots@.len() as int),
        r matches Err(e) ==> exists|p: int| slot_refused(effects@, slot_views(slots@), p, effect_error_view(e)),
{
    let ghost v = slot_views(slots@);
    let mut i: usize = 0;
    while i < slots.len()
        invariant
            v == slot_views(slots@),
            i <= slots@.len(),
            slots_accepted_before(effects@, v, i as int),
        decreases slots.len() - i,
    {
        match &slots[i] {
            None => {
                proof {
                    assert(v[i as int] is None);
                    assert forall|k: int| 0 <= k < i + 1 && #[trigger] v[k] is Some implies effects@.contains(
                        v[k]->0.capability_id,
                    ) && !identity_occupied_before(v, k, v[k]->0.slot_id) by {
                        if k < i {
                        }
                    }
                }
            },
            Some(config) => {
                let mut j: usize = 0;
                while j < i
                    invariant
                        v == slot_views(slots@),
                        i < slots@.len(),
                        j <= i,
                        slots_accepted_before(effects@, v, i as int),
                        v[i as int] == Some(config@),
                        forall|k: int| 0 <= k < j && #[trigger] v[k] is Some ==> v[k]->0.slot_id != config@.slot_id,
                    decreases i - j,
                {
                    match &slots[j] {
                        Some(prior) => {
                            if prior.slot_id().same_as(config.slot_id()) {
                                proof {
                                    assert(v[j as int] is Some && v[j as int]->0.slot_id == v[i as int]->0.slot_id);
                                    assert(identity_occupied_before(v, i as int, v[i as int]->0.slot_id));
                                    assert(slot_refused(
                                        effects@,
                                        v,
                                        i as int,
                                        EffectErrorView::DuplicateSlot(config@.slot_id),
                                    ));
                                }
                                return Err(EffectCapabilityError::DuplicateSlot(config.slot_id()));
                            }
                        },
                        None => {},
                    }
                    proof {
                        assert(v[j as int] == slot_view(slots@[j as int]));
                    }
                    j = j + 1;
                }
                proof {
                    assert(!identity_occupied_before(v, i as int, config@.slot_id));
                }
                if !effects.contains(config.capability_id()) {
                    proof {
                        assert(slot_refused(
                            effects@,
                            v,
                            i as int,
                            EffectErrorView::UnknownEffect(config@.capability_id),
                        ));
                    }
                    return Err(EffectCapabilityError::UnknownEffect(config.capability_id().duplicate()));
                }
                proof {
                    assert forall|k: int| 0 <= k < i + 1 && #[trigger] v[k] is Some implies effects@.contains(
                        v[k]->0.capability_id,
                    ) && !identity_occupied_before(v, k, v[k]->0.slot_id) by {
                        if k < i {
                        }
                    }
                }
            },
        }
        i = i + 1;
    }
    Ok(())
}


/// The mathematical content of the control state.
pub struct StateView {
    pub capabilities: Seq<DescriptorView>,
    pub effects: Seq<Seq<char>>,
    pub patches: Seq<PatchView>,
    pub interaction: InteractionView,
    pub engine_selection: StatusView,
    pub pending_instrument_config: Option<ConfigView>,
    pub last_request_id: u64,
    pub generation: u64,
    pub disabled_origins: Set<(PatchId, OverviewOrigin)>,
    pub returns: Seq<Option<Seq<char>>>,
    pub focus_repair: Option<FocusRepairStatus>,
}

/// The visible note of one repaired focus: the Overview origin of a Patch
/// that was disabled under the focus (or under an open panel's return) and
/// the enabled origin that replaced it.
#[derive(Clone, Copy, Debug, PartialEq, Eq, Hash, Structural)]
pub struct FocusRepairStatus {
    pub patch_id: PatchId,
    pub removed_origin: OverviewOrigin,
    pub replacement_origin: OverviewOrigin,
}

/// A Patch Overview origin: the Engine row or one effect-slot row of a
/// Patch's main surface.
#[derive(Clone, Copy, Debug, PartialEq, Eq, Hash, Structural)]
pub enum OverviewOrigin {
    Engine,
    EffectSlot(EffectSlotIndex),
}

/// The Overview origin a control names, if it is one.
pub open spec fn overview_origin(control: PatchControlId) -> Option<OverviewOrigin> {
    match control {
        PatchControlId::Engine => Some(OverviewOrigin::Engine),
        PatchControlId::EffectSlot(slot) => Some(OverviewOrigin::EffectSlot(slot)),
        _ => None,
    }
}

/// The Overview origin a control names, if it is one.
pub fn origin_of_control(control: &PatchControlId) -> (r: Option<OverviewOrigin>)
    ensures
        r == overview_origin(*control),
{
    match control {
        PatchControlId::Engine => Some(OverviewOrigin::Engine),
        PatchControlId::EffectSlot(slot) => Some(OverviewOrigin::EffectSlot(*slot)),
        _ => None,
    }
}

/// The set of disabled origins a list holds.
#[verifier::opaque]
pub open spec fn origin_set(v: Seq<(PatchId, OverviewOrigin)>) -> Set<(PatchId, OverviewOrigin)> {
    Set::new(|x: (PatchId, OverviewOrigin)| v.contains(x))
}

/// Copies a list of disabled origins.
fn copy_origins(v: &Vec<(PatchId, OverviewOrigin)>) -> (r: Vec<(PatchId, OverviewOrigin)>)
    ensures
        r@ == v@,
{
    let mut r: Vec<(PatchId, OverviewOrigin)> = Vec::new();
    let mut i: usize = 0;
    while i < v.len()
        invariant
            i <= v@.len(),
            r@ == v@.subrange(0, i as int),
        decreases v.len() - i,
    {
        let (p, o) = v[i];
        r.push((p, o));
        i = i + 1;
    }
    assert(r@ =~= v@);
    r
}

/// The state's invariant: the interaction rows lie on their surfaces, the
/// structural lifecycle is coherent, and no capability is installed twice.
pub open spec fn state_wf(s: StateView) -> bool {
    &&& interaction_valid(s.interaction)
    &&& status_valid(s.engine_selection)
    &&& descriptor_ids_unique(s.capabilities)
    &&& descriptors_coherent(s.capabilities)
    &&& s.returns.len() == BUS_COUNT
}

/// The position of the first installed Patch with identity `id`.
pub open spec fn patch_index_of(ps: Seq<PatchView>, id: PatchId) -> Option<int> {
    if exists|i: int| 0 <= i < ps.len() && ps[i].id == id {
        Some(choose|i: int| 0 <= i < ps.len() && ps[i].id == id && forall|j: int| 0 <= j < i ==> ps[j].id != id)
    } else {
        None
    }
}

/// The position of the first Patch with identity `id`.
pub fn position_of_patch(patches: &Vec<Patch>, id: PatchId) -> (r: Option<usize>)
    ensures
        match r {
            Some(i) => patch_index_of(patch_views(patches@), id) == Some(i as int) && i < patches@.len(),
            None => patch_index_of(patch_views(patches@), id) is None,
        },
{
    let ghost v = patch_views(patches@);
    let mut i: usize = 0;
    while i < patches.len()
        invariant
            v == patch_views(patches@),
            i <= v.len(),
            forall|k: int| 0 <= k < i ==> #[trigger] v[k].id != id,
        decreases patches.len() - i,
    {
        if patches[i].id().same_as(id) {
            proof {
                assert(v[i as int].id == id);
                let c = choose|c: int| 0 <= c < v.len() && v[c].id == id && forall|j: int| 0 <= j < c ==> v[j].id != id;
                if c < i {
                    assert(v[c].id != id);
                } else if c > i {
                    assert(v[i as int].id != id);
                }
            }
            return Some(i);
        }
        i = i + 1;
    }
    None
}

/// The single source of mutable control state.
#[derive(Debug, PartialEq, Eq)]
pub struct AppState {
    capabilities: CapabilityRegistry,
    effects: EffectCapabilityRegistry,
    patches: Vec<Patch>,
    interaction: InteractionState,
    engine_selection: EngineSelectionStatus,
    pending_instrument_config: Option<InstrumentConfig>,
    last_engine_selection_request_id: EngineSelectionRequestId,
    generation: u64,
    disabled_origins: Vec<(PatchId, OverviewOrigin)>,
    returns: Vec<Option<EffectCapabilityId>>,
    focus_repair: Option<FocusRepairStatus>,
}

/// The entries a bank of bus returns holds.
pub open spec fn return_views(v: Seq<Option<EffectCapabilityId>>) -> Seq<Option<Seq<char>>> {
    v.map_values(|e: Option<EffectCapabilityId>| entry_view(e))
}

/// Copies a bank of bus returns.
fn copy_returns(v: &Vec<Option<EffectCapabilityId>>) -> (r: Vec<Option<EffectCapabilityId>>)
    ensures
        return_views(r@) == return_views(v@),
{
    let mut r: Vec<Option<EffectCapabilityId>> = Vec::new();
    let mut i: usize = 0;
    while i < v.len()
        invariant
            i <= v@.len(),
            r@.len() == i,
            forall|k: int| 0 <= k < i ==> entry_view(#[trigger] r@[k]) == entry_view(v@[k]),
        decreases v.len() - i,
    {
        r.push(crate::domain::duplicate_entry(&v[i]));
        i = i + 1;
    }
    assert(return_views(r@) =~= return_views(v@));
    r
}

pub open spec fn config_option_view(c: Option<InstrumentConfig>) -> Option<ConfigView> {
    match c {
        Some(x) => Some(x@),
        None => None,
    }
}

impl View for AppState {
    type V = StateView;

    closed spec fn view(&self) -> StateView {
        StateView {
            capabilities: self.capabilities@,
            effects: self.effects@,
            patches: patch_views(self.patches@),
            interaction: self.interaction@,
            engine_selection: self.engine_selection@,
            pending_instrument_config: config_option_view(self.pending_instrument_config),
            last_request_id: self.last_engine_selection_request_id@,
            generation: self.generation,
            disabled_origins: origin_set(self.disabled_origins@),
            returns: return_views(self.returns@),
            focus_repair: self.focus_repair,
        }
    }
}

/// The state before any Patch is installed.
pub open spec fn startup_state(capabilities: Seq<DescriptorView>, effects: Seq<Seq<char>>, revision: u64) -> StateView {
    StateView {
        capabilities,
        effects,
        patches: Seq::empty(),
        interaction: initial_interaction(),
        engine_selection: StatusView {
            kind: EngineSelectionStatusKind::Ready,
            active_graph_revision: revision,
            correlation: None,
            failure: None,
        },
        pending_instrument_config: None,
        last_request_id: 0,
        generation: 0,
        disabled_origins: Set::empty(),
        returns: Seq::new(BUS_COUNT as nat, |i: int| None::<Seq<char>>),
        focus_repair: None,
    }
}

fn copy_patches(v: &Vec<Patch>) -> (r: Vec<Patch>)
    ensures
        patch_views(r@) == patch_views(v@),
{
    let mut r: Vec<Patch> = Vec::new();
    let mut i: usize = 0;
    while i < v.len()
        invariant
            i <= v@.len(),
            r@.len() == i,
            forall|k: int| 0 <= k < i ==> (#[trigger] r@[k])@ == v@[k]@,
        decreases v.len() - i,
    {
        r.push(v[i].duplicate());
        i = i + 1;
    }
    assert(patch_views(r@) =~= patch_views(v@));
    r
}

impl Clone for AppState {
    fn clone(&self) -> (r: AppState)
        ensures
            r@ == self@,
    {
        self.duplicate()
    }
}

impl AppState {
    /// Startup state before the Patch set is installed, with no effect
    /// installed, on the initial graph revision.
    pub fn new(capabilities: CapabilityRegistry) -> (r: AppState)
        ensures
            r@ == startup_state(capabilities@, Seq::empty(), 1),
            state_wf(r@),
    {
        AppState::for_graph_with_effects(capabilities, EffectCapabilityRegistry::empty(), GraphRevision::initial())
    }

    /// Startup state with the installed effect registry.
    pub fn new_with_effects(capabilities: CapabilityRegistry, effects: EffectCapabilityRegistry) -> (r: AppState)
        ensures
            r@ == startup_state(capabilities@, effects@, 1),
            state_wf(r@),
    {
        AppState::for_graph_with_effects(capabilities, effects, GraphRevision::initial())
    }

    /// Startup state for the exact graph revision already prepared.
    pub fn for_graph(capabilities: CapabilityRegistry, active_graph_revision: GraphRevision) -> (r: AppState)
        ensures
            r@ == startup_state(capabilities@, Seq::empty(), active_graph_revision@),
            state_wf(r@),
    {
        AppState::for_graph_with_effects(capabilities, EffectCapabilityRegistry::empty(), active_graph_revision)
    }

    /// Startup state for one graph revision and installed effect registry.
    pub fn for_graph_with_effects(
        capabilities: CapabilityRegistry,
        effects: EffectCapabilityRegistry,
        active_graph_revision: GraphRevision,
    ) -> (r: AppState)
        ensures
            r@ == startup_state(capabilities@, effects@, active_graph_revision@),
            state_wf(r@),
    {
        let _ = capabilities.descriptors();
        let r = AppState {
            capabilities,
            effects,
            patches: Vec::new(),
            interaction: InteractionState::new(),
            engine_selection: EngineSelectionStatus::ready(active_graph_revision),
            pending_instrument_config: None,
            last_engine_selection_request_id: EngineSelectionRequestId::none(),
            generation: 0,
            disabled_origins: Vec::new(),
            returns: vec![None, None, None, None, None, None, None, None],
            focus_repair: None,
        };
        assert(return_views(r.returns@) =~= Seq::new(BUS_COUNT as nat, |i: int| None::<Seq<char>>));
        assert(patch_views(r.patches@) =~= Seq::empty());
        assert(origin_set(r.disabled_origins@) =~= Set::empty()) by {
            reveal(origin_set);
        }
        r
    }

    /// Copies the state, keeping its content.
    pub fn duplicate(&self) -> (r: AppState)
        ensures
            r@ == self@,
    {
        AppState {
            capabilities: self.capabilities.duplicate(),
            effects: self.effects.duplicate(),
            patches: copy_patches(&self.patches),
            interaction: self.interaction,
            engine_selection: self.engine_selection.duplicate(),
            pending_instrument_config: match &self.pending_instrument_config {
                Some(c) => Some(c.duplicate()),
                None => None,
            },
            last_engine_selection_request_id: self.last_engine_selection_request_id,
            generation: self.generation,
            disabled_origins: copy_origins(&self.disabled_origins),
            returns: copy_returns(&self.returns),
            focus_repair: self.focus_repair,
        }
    }

    /// The installed Patches, in installation order.
    pub fn patches(&self) -> (r: &Vec<Patch>)
        ensures
            patch_views(r@) == self@.patches,
    {
        &self.patches
    }

    /// The effect entry of each bus return, in bus order.
    pub fn bus_returns(&self) -> (r: &Vec<Option<EffectCapabilityId>>)
        ensures
            return_views(r@) == self@.returns,
    {
        &self.returns
    }

    pub fn capabilities(&self) -> (r: &CapabilityRegistry)
        ensures
            r@ == self@.capabilities,
    {
        &self.capabilities
    }

    pub fn effects(&self) -> (r: &EffectCapabilityRegistry)
        ensures
            r@ == self@.effects,
    {
        &self.effects
    }

    /// The reducer-owned interaction state.
    pub fn interaction(&self) -> (r: InteractionState)
        ensures
            r@ == self@.interaction,
    {
        self.interaction
    }

    /// The selected top-level context.
    pub fn context(&self) -> (r: TopLevelContext)
        ensures
            r == self@.interaction.context,
    {
        self.interaction.context()
    }

    /// The legacy read-only view of the MIXER focus.
    pub fn selection(&self) -> (r: Selection)
        ensures
            r@ == selection_of(self@.interaction),
    {
        self.interaction.selection()
    }

    pub fn generation(&self) -> (r: u64)
        ensures
            r == self@.generation,
    {
        self.generation
    }

    pub fn engine_selection(&self) -> (r: &EngineSelectionStatus)
        ensures
            r@ == self@.engine_selection,
    {
        &self.engine_selection
    }

    /// The prepared candidate configuration awaiting activation, if any.
    pub fn pending_instrument_config(&self) -> (r: Option<&InstrumentConfig>)
        ensures
            match r {
                Some(c) => self@.pending_instrument_config == Some(c@),
                None => self@.pending_instrument_config is None,
            },
    {
        match &self.pending_instrument_config {
            Some(c) => Some(c),
            None => None,
        }
    }

    /// The position of the first installed Patch with identity `id`.
    fn find_patch(&self, id: PatchId) -> (r: Option<usize>)
        ensures
            match r {
                Some(i) => patch_index_of(self@.patches, id) == Some(i as int) && i < self@.patches.len(),
                None => patch_index_of(self@.patches, id) is None,
            },
    {
        position_of_patch(&self.patches, id)
    }
}


/// The view of a step that publishes nothing.
pub open spec fn quiet_view(r: Result<(), EventRejection>, s: StateView) -> Result<StateView, EventRejection> {
    match r {
        Ok(_) => Ok(s),
        Err(e) => Err(e),
    }
}

/// The view of a step that may publish a structural effect.
pub open spec fn step_view(r: Result<Option<EngineSelectionEffect>, EventRejection>, s: StateView) -> Step {
    match r {
        Ok(e) => Ok((s, effect_option_view(e))),
        Err(x) => Err(x),
    }
}

impl AppState {
    fn install_patches(&mut self, patches: Vec<Patch>) -> (r: Result<(), EventRejection>)
        requires
            state_wf(old(self)@),
        ensures
            quiet_view(r, final(self)@) == installed(old(self)@, patch_views(patches@)),
            r is Ok ==> state_wf(final(self)@),
    {
        let ghost pv = patch_views(patches@);
        if self.generation != 0 || self.patches.len() != 0 {
            return Err(EventRejection::InstallationClosed);
        }
        if patches.len() > MAX_ACTIVE_PATCHES {
            return Err(EventRejection::TooManyPatches);
        }
        let mut i: usize = 0;
        while i < patches.len()
            invariant
                pv == patch_views(patches@),
                i <= patches@.len(),
                self.generation == 0,
                self@.patches.len() == 0,
                patches@.len() <= MAX_ACTIVE_PATCHES,
                forall|k: int| 0 <= k < i ==> config_valid(self@.capabilities, #[trigger] pv[k].instrument_config),
            decreases patches.len() - i,
        {
            if self.capabilities.validate_config(patches[i].instrument_config()).is_err() {
                proof {
                    assert(!config_valid(self@.capabilities, pv[i as int].instrument_config));
                }
                return Err(EventRejection::InvalidInstrumentConfig);
            }
            i = i + 1;
        }
        let mut j: usize = 0;
        while j < patches.len()
            invariant
                pv == patch_views(patches@),
                j <= patches@.len(),
                self.generation == 0,
                self@.patches.len() == 0,
                patches@.len() <= MAX_ACTIVE_PATCHES,
                forall|m: int| 0 <= m < pv.len() ==> config_valid(self@.capabilities, #[trigger] pv[m].instrument_config),
                forall|k: int| 0 <= k < j ==> slots_accepted_before(self@.effects, #[trigger] pv[k].effects, pv[k].effects.len() as int),
            decreases patches.len() - j,
        {
            if validate_effect_slots(&self.effects, patches[j].effect_slots()).is_err() {
                proof {
                    assert(!slots_accepted_before(self@.effects, pv[j as int].effects, pv[j as int].effects.len() as int));
                }
                return Err(EventRejection::InvalidEffectConfig);
            }
            j = j + 1;
        }
        let mut seeded: Vec<Patch> = Vec::new();
        let mut k: usize = 0;
        while k < patches.len()
            invariant
                pv == patch_views(patches@),
                k <= patches@.len(),
                self.generation == 0,
                self@.patches.len() == 0,
                patches@.len() <= MAX_ACTIVE_PATCHES,
                forall|m: int| 0 <= m < pv.len() ==> slots_accepted_before(self@.effects, #[trigger] pv[m].effects, pv[m].effects.len() as int),
                forall|m: int| 0 <= m < pv.len() ==> config_valid(self@.capabilities, #[trigger] pv[m].instrument_config),
                patch_views(seeded@) == seeded_patches(self@.capabilities, pv.subrange(0, k as int)),
            decreases patches.len() - k,
        {
            let mut p = patches[k].duplicate();
            let policy = match self.capabilities.descriptor(p.instrument_config().capability_id()) {
                Some(d) => d.voice_policy(),
                None => {
                    proof {
                        assert(config_valid(self@.capabilities, pv[k as int].instrument_config));
                    }
                    return Err(EventRejection::InvalidInstrumentConfig);
                },
            };
            p.seed_voice_limit(policy);
            let ghost before = seeded@;
            seeded.push(p);
            proof {
                assert(patch_views(seeded@) =~= patch_views(before).push(p@));
                assert(pv.subrange(0, k as int + 1) =~= pv.subrange(0, k as int).push(pv[k as int]));
                assert(seeded_patches(self@.capabilities, pv.subrange(0, k as int + 1)) =~= seeded_patches(
                    self@.capabilities,
                    pv.subrange(0, k as int),
                ).push(p@));
            }
            k = k + 1;
        }
        proof {
            assert(pv.subrange(0, patches@.len() as int) =~= pv);
        }
        let first = if seeded.len() > 0 {
            proof {
                assert(patch_views(seeded@)[0] == seeded@[0]@);
                assert(seeded_patches(self@.capabilities, pv)[0].id == pv[0].id);
            }
            Some(seeded[0].id())
        } else {
            None
        };
        proof {
            assert(!(exists|m: int| 0 <= m < pv.len() && !config_valid(self@.capabilities, #[trigger] pv[m].instrument_config)));
            assert(!(exists|m: int|
                0 <= m < pv.len() && !slots_accepted_before(self@.effects, #[trigger] pv[m].effects, pv[m].effects.len() as int)));
        }
        self.patches = seeded;
        self.interaction = InteractionState::installed(first);
        Ok(())
    }

    fn select_context(&mut self, context: TopLevelContext) -> (r: Result<(), EventRejection>)
        requires
            state_wf(old(self)@),
        ensures
            quiet_view(r, final(self)@) == context_chosen(old(self)@, context),
            r is Ok ==> state_wf(final(self)@),
    {
        if context == TopLevelContext::Patch {
            match self.interaction.patch_focus() {
                None => {
                    return Err(EventRejection::NoPatchesInstalled);
                },
                Some(focus) => {
                    if self.find_patch(focus).is_none() {
                        return Err(EventRejection::NoPatchesInstalled);
                    }
                },
            }
        }
        self.interaction = self.interaction.with_context(context);
        Ok(())
    }

    fn select_patch(&mut self, direction: Direction) -> (r: Result<(), EventRejection>)
        requires
            state_wf(old(self)@),
        ensures
            quiet_view(r, final(self)@) == patch_switched(old(self)@, direction),
            r is Ok ==> state_wf(final(self)@),
    {
        if self.interaction.context() != TopLevelContext::Patch || self.interaction.mode()
            != InteractionMode::Navigate {
            return Err(EventRejection::ActionUnavailableInContext);
        }
        if direction == Direction::Up || direction == Direction::Down {
            return Err(EventRejection::ActionUnavailableInContext);
        }
        let focused = match self.interaction.patch_focus() {
            Some(f) => f,
            None => {
                return Err(EventRejection::NoPatchesInstalled);
            },
        };
        let current = match self.find_patch(focused) {
            Some(i) => i,
            None => {
                return Err(EventRejection::UnknownPatch);
            },
        };
        assert(current < self.patches.len());
        let target = if direction == Direction::Left {
            if current == 0 {
                return Err(EventRejection::ParameterAtBoundary);
            }
            current - 1
        } else {
            if current + 1 >= self.patches.len() {
                return Err(EventRejection::ParameterAtBoundary);
            }
            current + 1
        };
        let target_id = self.patches[target].id();
        let off = self.disabled_row_flags(target_id);
        self.interaction = self.interaction.with_patch(target_id).landed_on_enabled(&off);
        Ok(())
    }

    fn set_interaction_mode(&mut self, mode: InteractionMode) -> (r: Result<(), EventRejection>)
        requires
            state_wf(old(self)@),
        ensures
            quiet_view(r, final(self)@) == mode_chosen(old(self)@, mode),
            r is Ok ==> state_wf(final(self)@),
    {
        if mode == InteractionMode::Modal || self.interaction.choice().is_some() {
            return Err(EventRejection::ActionUnavailableInContext);
        }
        self.interaction = self.interaction.with_mode(mode);
        Ok(())
    }

    fn navigate(&mut self, direction: Direction) -> (r: Result<(), EventRejection>)
        requires
            state_wf(old(self)@),
        ensures
            quiet_view(r, final(self)@) == navigated(old(self)@, direction),
            r is Ok ==> state_wf(final(self)@),
    {
        let next = match self.interaction.context() {
            TopLevelContext::Mixer => self.interaction.navigate_mixer(direction),
            TopLevelContext::Patch => {
                if self.interaction.choice().is_some() {
                    return self.navigate_choice(direction);
                }
                let off = self.disabled_row_flags(self.interaction.patch_focus().unwrap());
                self.interaction.navigate_patch(direction, &off)
            },
        };
        match next {
            Ok(n) => {
                self.interaction = n;
                Ok(())
            },
            Err(e) => Err(e),
        }
    }

    fn return_to_origin(&mut self) -> (r: Result<(), EventRejection>)
        requires
            state_wf(old(self)@),
        ensures
            quiet_view(r, final(self)@) == returned_from_panel(old(self)@),
            r is Ok ==> state_wf(final(self)@),
    {
        if self.interaction.choice().is_some() {
            self.interaction = self.interaction.close_choice();
            return Ok(());
        }
        if self.interaction.active_surface() != SurfaceId::PatchUtility {
            return Err(EventRejection::ActionUnavailableInContext);
        }
        self.interaction = self.interaction.return_to_origin();
        Ok(())
    }

    fn enter_surface(&mut self, surface: SurfaceId) -> (r: Result<(), EventRejection>)
        requires
            state_wf(old(self)@),
        ensures
            quiet_view(r, final(self)@) == panel_entered(old(self)@, surface),
            r is Ok ==> state_wf(final(self)@),
    {
        if surface != SurfaceId::PatchUtility || self.interaction.active_surface() != SurfaceId::PatchMain {
            return Err(EventRejection::ActionUnavailableInContext);
        }
        self.interaction = self.interaction.enter_utility();
        Ok(())
    }

    /// The position of the installed focused Patch.
    fn focused_patch_index(&self) -> (r: Option<usize>)
        ensures
            match r {
                Some(i) => patch_focus_installed(self@) && i == patch_index_of(
                    self@.patches,
                    self@.interaction.patch_focus->0,
                )->0 && i < self@.patches.len(),
                None => !patch_focus_installed(self@),
            },
    {
        match self.interaction.patch_focus() {
            None => None,
            Some(f) => self.find_patch(f),
        }
    }

    /// Replaces the Patch at `i`.
    fn replace_patch(&mut self, i: usize, p: Patch)
        requires
            i < old(self)@.patches.len(),
        ensures
            final(self)@ == (StateView { patches: old(self)@.patches.update(i as int, p@), ..old(self)@ }),
    {
        let ghost before = self.patches@;
        self.patches.set(i, p);
        assert(patch_views(self.patches@) =~= patch_views(before).update(i as int, p@));
    }

    fn adjust_patch_midi_input(&mut self, direction: Direction) -> (r: Result<(), EventRejection>)
        requires
            state_wf(old(self)@),
        ensures
            quiet_view(r, final(self)@) == midi_input_adjusted(old(self)@, direction),
            r is Ok ==> state_wf(final(self)@),
    {
        if direction == Direction::Up || direction == Direction::Down {
            return Err(EventRejection::ActionUnavailableInContext);
        }
        let i = match self.focused_patch_index() {
            Some(i) => i,
            None => {
                return Err(EventRejection::NoPatchesInstalled);
            },
        };
        let current = self.patches[i].channel().value();
        let next = if direction == Direction::Right {
            if current + 1 >= MIDI_CHANNEL_COUNT {
                return Err(EventRejection::ParameterAtBoundary);
            }
            current + 1
        } else {
            if current == 0 {
                return Err(EventRejection::ParameterAtBoundary);
            }
            current - 1
        };
        let mut p = self.patches[i].duplicate();
        p.set_channel(MidiChannel::from_index(next));
        self.replace_patch(i, p);
        Ok(())
    }

    fn adjust_patch_output_track(&mut self, direction: Direction) -> (r: Result<(), EventRejection>)
        requires
            state_wf(old(self)@),
        ensures
            quiet_view(r, final(self)@) == output_track_adjusted(old(self)@, direction),
            r is Ok ==> state_wf(final(self)@),
    {
        let i = match self.focused_patch_index() {
            Some(i) => i,
            None => {
                return Err(EventRejection::NoPatchesInstalled);
            },
        };
        if direction == Direction::Up || direction == Direction::Down {
            return Err(EventRejection::ActionUnavailableInContext);
        }
        let updated = match self.patches[i].output().with_adjacent_track(direction == Direction::Right) {
            Some(o) => o,
            None => {
                return Err(EventRejection::ParameterAtBoundary);
            },
        };
        let mut p = self.patches[i].duplicate();
        p.set_output(updated);
        self.replace_patch(i, p);
        Ok(())
    }

    fn adjust_patch_voice_limit(&mut self, direction: Direction) -> (r: Result<(), EventRejection>)
        requires
            state_wf(old(self)@),
        ensures
            quiet_view(r, final(self)@) == voice_limit_adjusted(old(self)@, direction),
            r is Ok ==> state_wf(final(self)@),
    {
        let i = match self.focused_patch_index() {
            Some(i) => i,
            None => {
                return Err(EventRejection::NoPatchesInstalled);
            },
        };
        let current = self.patches[i].voice_limit().value();
        let (step, increasing) = match direction {
            Direction::Right => (VOICE_LIMIT_FINE_STEP, true),
            Direction::Left => (VOICE_LIMIT_FINE_STEP, false),
            Direction::Up => (VOICE_LIMIT_COARSE_STEP, true),
            Direction::Down => (VOICE_LIMIT_COARSE_STEP, false),
        };
        let value = if increasing {
            if current > ENGINE_MANAGED_VOICE_LIMIT - step {
                ENGINE_MANAGED_VOICE_LIMIT
            } else {
                current + step
            }
        } else {
            if current < VOICE_LIMIT_MINIMUM + step {
                VOICE_LIMIT_MINIMUM
            } else {
                current - step
            }
        };
        if value == current {
            return Err(EventRejection::ParameterAtBoundary);
        }
        let mut p = self.patches[i].duplicate();
        if p.set_voice_limit(value).is_err() {
            return Err(EventRejection::InvalidParameterValue);
        }
        self.replace_patch(i, p);
        Ok(())
    }
}


/// The chosen value of `parameter_id` in a configuration, if it sets one.
fn chosen_value_of<'a>(config: &'a InstrumentConfig, parameter_id: &ParameterId) -> (r: Option<&'a String>)
    ensures
        match r {
            Some(x) => chosen_value(config@.choices, parameter_id@) == Some(x@),
            None => chosen_value(config@.choices, parameter_id@) is None,
        },
{
    let choices = config.choices();
    let ghost c = config@.choices;
    let mut i: usize = 0;
    while i < choices.len()
        invariant
            c == choice_views(choices@),
            c == config@.choices,
            i <= c.len(),
            forall|k: int| 0 <= k < i ==> #[trigger] c[k].parameter_id != parameter_id@,
        decreases choices.len() - i,
    {
        if choices[i].parameter_id.same_as(parameter_id) {
            proof {
                assert(c[i as int].parameter_id == parameter_id@);
                assert(c[i as int].choice_id == choices@[i as int].choice_id@);
                let w = choose|w: int|
                    0 <= w < c.len() && c[w].parameter_id == parameter_id@ && forall|j: int|
                        0 <= j < w ==> c[j].parameter_id != parameter_id@;
                if w < i {
                    assert(c[w].parameter_id != parameter_id@);
                } else if w > i {
                    assert(c[i as int].parameter_id != parameter_id@);
                }
                assert(w == i);
                assert(chosen_value(c, parameter_id@) == Some(c[i as int].choice_id));
            }
            let found = &choices[i].choice_id;
            assert(found@ == c[i as int].choice_id);
            assert(chosen_value(config@.choices, parameter_id@) == Some(found@));
            return Some(found);
        }
        i = i + 1;
    }
    None
}

/// Whether `next` and `prior` set the same parameters in the same order and
/// agree on every value but `parameter_id`'s.
fn choices_differ_only_at(next: &Vec<ChoiceValue>, prior: &Vec<ChoiceValue>, parameter_id: &ParameterId) -> (r: bool)
    requires
        next@.len() == prior@.len(),
    ensures
        r == (forall|m: int|
            0 <= m < next@.len() ==> (#[trigger] choice_views(next@)[m]).parameter_id == choice_views(prior@)[m].parameter_id
                && (choice_views(next@)[m].parameter_id == parameter_id@ || choice_views(next@)[m] == choice_views(prior@)[m])),
{
    let ghost cs = choice_views(next@);
    let ghost ss = choice_views(prior@);
    let mut k: usize = 0;
    while k < next.len()
        invariant
            cs == choice_views(next@),
            ss == choice_views(prior@),
            next@.len() == prior@.len(),
            k <= next@.len(),
            forall|m: int|
                0 <= m < k ==> (#[trigger] cs[m]).parameter_id == ss[m].parameter_id && (cs[m].parameter_id
                    == parameter_id@ || cs[m] == ss[m]),
        decreases next.len() - k,
    {
        let a = &next[k];
        let b = &prior[k];
        let same_parameter = a.parameter_id.same_as(&b.parameter_id);
        let unchanged = text_equal(&a.choice_id, &b.choice_id);
        let chosen = a.parameter_id.same_as(parameter_id);
        proof {
            assert(cs[k as int].parameter_id == a.parameter_id@ && cs[k as int].choice_id == a.choice_id@);
            assert(ss[k as int].parameter_id == b.parameter_id@ && ss[k as int].choice_id == b.choice_id@);
        }
        if !(same_parameter && (chosen || unchanged)) {
            return false;
        }
        k = k + 1;
    }
    true
}

/// Whether a prepared candidate is exactly the configuration change the
/// intent permits on `source`.
pub fn candidate_matches_intent(
    source: &InstrumentConfig,
    candidate: &InstrumentConfig,
    intent: &StructuralEditIntent,
) -> (r: bool)
    ensures
        r == candidate_fits_intent(source@, candidate@, intent@),
{
    match intent {
        StructuralEditIntent::ReplaceCapability { target_capability_id } => {
            !source.capability_id().same_as(target_capability_id) && candidate.capability_id().same_as(
                target_capability_id,
            )
        },
        StructuralEditIntent::ReplaceParameterChoice { capability_id, parameter_id, choice_id } => {
            if !source.capability_id().same_as(capability_id) || !candidate.capability_id().same_as(capability_id) {
                return false;
            }
            let sc = source.choices();
            let cc = candidate.choices();
            if sc.len() != cc.len() {
                proof {
                    assert(choice_views(sc@).len() != choice_views(cc@).len());
                }
                return false;
            }
            let selected = match chosen_value_of(candidate, parameter_id) {
                Some(x) => text_equal(x, choice_id),
                None => false,
            };
            if !selected {
                return false;
            }
            let already = match chosen_value_of(source, parameter_id) {
                Some(x) => text_equal(x, choice_id),
                None => false,
            };
            if already {
                return false;
            }
            choices_differ_only_at(cc, sc, parameter_id)
        },
        _ => false,
    }
}

impl AppState {
    /// The correlation of the request currently preparing under `request_id`.
    fn pending_request(&self, request_id: EngineSelectionRequestId) -> (r: Result<
        &EngineSelectionCorrelation,
        EventRejection,
    >)
        ensures
            match r {
                Ok(c) => pending_correlation(self@, request_id@) == Ok::<CorrelationView, EventRejection>(c@),
                Err(e) => pending_correlation(self@, request_id@) == Err::<CorrelationView, EventRejection>(e),
            },
    {
        if self.engine_selection.kind() != EngineSelectionStatusKind::Preparing {
            return Err(EventRejection::StaleEngineSelection);
        }
        match self.engine_selection.correlation() {
            None => Err(EventRejection::StaleEngineSelection),
            Some(c) => {
                if c.request_id().value() != request_id.value() {
                    Err(EventRejection::StaleEngineSelection)
                } else {
                    Ok(c)
                }
            },
        }
    }

    /// Commits a freshly prepared request and announces it.
    fn commit_request(
        &mut self,
        status: EngineSelectionStatus,
        request_id: EngineSelectionRequestId,
        refusal: EventRejection,
    ) -> (r: Result<Option<EngineSelectionEffect>, EventRejection>)
        requires
            status@.kind == EngineSelectionStatusKind::Preparing,
            status_valid(status@),
            request_id@ == old(self)@.last_request_id + 1,
        ensures
            step_view(r, final(self)@) == requested(old(self)@, Ok(status@), refusal),
            r is Ok,
    {
        let effect = match status.correlation() {
            Some(c) => match EngineSelectionEffect::from_correlation(EngineSelectionEffectKind::PrepareRequested, c) {
                Ok(e) => e,
                Err(_) => {
                    return Err(refusal);
                },
            },
            None => {
                return Err(refusal);
            },
        };
        self.engine_selection = status;
        self.last_engine_selection_request_id = request_id;
        Ok(Some(effect))
    }
}


impl AppState {
    fn request_engine_selection(&mut self, direction: Direction) -> (r: Result<
        Option<EngineSelectionEffect>,
        EventRejection,
    >)
        requires
            state_wf(old(self)@),
        ensures
            step_view(r, final(self)@) == engine_requested(old(self)@, direction),
            r is Ok ==> state_wf(final(self)@),
    {
        if direction == Direction::Up || direction == Direction::Down {
            return Err(EventRejection::ActionUnavailableInContext);
        }
        if self.engine_selection.is_in_flight() {
            return Err(EventRejection::StructuralEditBusy);
        }
        match self.interaction.patch_control_focus() {
            Some(PatchControlId::Engine) => {},
            _ => {
                return Err(EventRejection::EngineSelectionUnavailable);
            },
        }
        let request_id = match self.last_engine_selection_request_id.checked_next() {
            Ok(id) => id,
            Err(_) => {
                return Err(EventRejection::RequestIdOverflow);
            },
        };
        let i = match self.focused_patch_index() {
            Some(i) => i,
            None => {
                return Err(EventRejection::EngineSelectionUnavailable);
            },
        };
        let patch_id = match self.interaction.patch_focus() {
            Some(p) => p,
            None => {
                return Err(EventRejection::EngineSelectionUnavailable);
            },
        };
        let source = self.patches[i].instrument_config().capability_id().duplicate();
        proof {
            assert(self@.patches[i as int] == self.patches@[i as int]@);
        }
        let descriptors = self.capabilities.descriptors();
        if descriptors.len() < 2 {
            return Err(EventRejection::EngineSelectionUnavailable);
        }
        let source_index = match self.capabilities.position(&source) {
            Some(si) => si,
            None => {
                return Err(EventRejection::EngineSelectionUnavailable);
            },
        };
        let target_index = if direction == Direction::Left {
            if source_index == 0 {
                return Err(EventRejection::EngineSelectionUnavailable);
            }
            source_index - 1
        } else {
            if source_index + 1 >= descriptors.len() {
                return Err(EventRejection::EngineSelectionUnavailable);
            }
            source_index + 1
        };
        let target = descriptors[target_index].id().duplicate();
        proof {
            assert(target@ == self@.capabilities[target_index as int].id);
        }
        let intent = StructuralEditIntent::ReplaceCapability { target_capability_id: target.duplicate() };
        let status = match EngineSelectionStatus::preparing_with_intent(
            self.engine_selection.active_graph_revision(),
            request_id,
            patch_id,
            intent,
            source,
            target,
        ) {
            Ok(st) => st,
            Err(_) => {
                return Err(EventRejection::EngineSelectionUnavailable);
            },
        };
        self.commit_request(status, request_id, EventRejection::EngineSelectionUnavailable)
    }

    /// The registry entry adjacent to `current` in the occupancy choice
    /// order, where the empty choice comes first.
    fn adjacent_occupancy_entry(&self, current: Option<&EffectCapabilityId>, direction: Direction) -> (r: Result<
        Option<EffectCapabilityId>,
        EventRejection,
    >)
        requires
            direction == Direction::Left || direction == Direction::Right,
        ensures
            match r {
                Ok(e) => adjacent_entry(
                    self@.effects,
                    match current {
                        Some(c) => Some(c@),
                        None => None,
                    },
                    direction,
                ) == Ok::<Option<Seq<char>>, EventRejection>(entry_view(e)),
                Err(x) => adjacent_entry(
                    self@.effects,
                    match current {
                        Some(c) => Some(c@),
                        None => None,
                    },
                    direction,
                ) == Err::<Option<Seq<char>>, EventRejection>(x),
            },
    {
        let count = self.effects.len();
        let current_index: usize = match current {
            None => 0,
            Some(id) => match self.effects.position(id) {
                Some(k) => k + 1,
                None => {
                    return Err(EventRejection::InvalidEffectConfig);
                },
            },
        };
        let target_index = if direction == Direction::Left {
            if current_index == 0 {
                return Err(EventRejection::ParameterAtBoundary);
            }
            current_index - 1
        } else {
            if current_index >= count {
                return Err(EventRejection::ParameterAtBoundary);
            }
            current_index + 1
        };
        if target_index == 0 {
            Ok(None)
        } else {
            Ok(Some(self.effects.id_at(target_index - 1).duplicate()))
        }
    }

    /// Enters the shared correlated lifecycle for one effect-position
    /// occupancy change, validating everything before anything changes.
    fn request_slot_occupancy(
        &mut self,
        patch_id: PatchId,
        slot: EffectSlotIndex,
        entry: Option<EffectCapabilityId>,
    ) -> (r: Result<Option<EngineSelectionEffect>, EventRejection>)
        requires
            state_wf(old(self)@),
        ensures
            step_view(r, final(self)@) == slot_occupancy_requested(old(self)@, patch_id, slot, entry_view(entry)),
            r is Ok ==> state_wf(final(self)@),
    {
        if self.engine_selection.is_in_flight() {
            return Err(EventRejection::StructuralEditBusy);
        }
        let i = match self.find_patch(patch_id) {
            Some(i) => i,
            None => {
                return Err(EventRejection::UnknownPatch);
            },
        };
        match &entry {
            Some(e) => {
                let occupant = match self.effects.default_config(e, slot.instance_identity()) {
                    Some(o) => o,
                    None => {
                        return Err(EventRejection::InvalidEffectConfig);
                    },
                };
                let mut probe = self.patches[i].duplicate();
                if probe.set_slot_occupancy(slot, Some(occupant)).is_err() {
                    return Err(EventRejection::InvalidEffectConfig);
                }
            },
            None => {},
        }
        let request_id = match self.last_engine_selection_request_id.checked_next() {
            Ok(id) => id,
            Err(_) => {
                return Err(EventRejection::RequestIdOverflow);
            },
        };
        let intent = StructuralEditIntent::SetSlotOccupancy { patch_id, slot, entry };
        let status = match EngineSelectionStatus::preparing_for_occupancy(
            self.engine_selection.active_graph_revision(),
            request_id,
            intent,
        ) {
            Ok(st) => st,
            Err(_) => {
                return Err(EventRejection::InvalidSelection);
            },
        };
        self.commit_request(status, request_id, EventRejection::InvalidSelection)
    }

    /// Requests one occupancy change of one bus return.
    fn request_return_occupancy(&mut self, bus: BusId, entry: Option<EffectCapabilityId>) -> (r: Result<
        Option<EngineSelectionEffect>,
        EventRejection,
    >)
        requires
            state_wf(old(self)@),
        ensures
            step_view(r, final(self)@) == return_occupancy_requested(old(self)@, bus, entry_view(entry)),
            r is Ok ==> state_wf(final(self)@),
    {
        if self.engine_selection.is_in_flight() {
            return Err(EventRejection::StructuralEditBusy);
        }
        match &entry {
            Some(e) => {
                if !self.effects.contains(e) {
                    return Err(EventRejection::InvalidEffectConfig);
                }
            },
            None => {},
        }
        let request_id = match self.last_engine_selection_request_id.checked_next() {
            Ok(id) => id,
            Err(_) => {
                return Err(EventRejection::RequestIdOverflow);
            },
        };
        let intent = StructuralEditIntent::SetReturnOccupancy { bus, entry };
        let status = match EngineSelectionStatus::preparing_for_occupancy(
            self.engine_selection.active_graph_revision(),
            request_id,
            intent,
        ) {
            Ok(st) => st,
            Err(_) => {
                return Err(EventRejection::InvalidSelection);
            },
        };
        self.commit_request(status, request_id, EventRejection::InvalidSelection)
    }

    /// The effect entry occupying position `slot` of the Patch at `i`.
    fn entry_at_slot(&self, i: usize, slot: EffectSlotIndex) -> (r: Option<&EffectCapabilityId>)
        requires
            i < self@.patches.len(),
        ensures
            match r {
                Some(c) => entry_at(self@.patches[i as int], slot) == Some(c@),
                None => entry_at(self@.patches[i as int], slot) is None,
            },
    {
        let patch = &self.patches[i];
        let slots = patch.effect_slots();
        let index = slot.index();
        proof {
            assert(self@.patches[i as int] == patch@);
            assert(slot_views(slots@)[index as int] == slot_view(slots@[index as int]));
        }
        match &slots[index] {
            Some(c) => Some(c.capability_id()),
            None => None,
        }
    }

    /// Steps the focused Patch's effect position to the adjacent occupancy.
    #[verifier::rlimit(40)]
    fn request_slot_occupancy_choice(&mut self, slot: EffectSlotIndex, direction: Direction) -> (r: Result<
        Option<EngineSelectionEffect>,
        EventRejection,
    >)
        requires
            state_wf(old(self)@),
        ensures
            step_view(r, final(self)@) == slot_choice_requested(old(self)@, slot, direction),
            r is Ok ==> state_wf(final(self)@),
    {
        if direction == Direction::Up || direction == Direction::Down {
            return Err(EventRejection::ActionUnavailableInContext);
        }
        if self.engine_selection.is_in_flight() {
            return Err(EventRejection::StructuralEditBusy);
        }
        let i = match self.focused_patch_index() {
            Some(i) => i,
            None => {
                return Err(EventRejection::NoPatchesInstalled);
            },
        };
        let patch_id = match self.interaction.patch_focus() {
            Some(p) => p,
            None => {
                return Err(EventRejection::NoPatchesInstalled);
            },
        };
        let entry = self.adjacent_occupancy_entry(self.entry_at_slot(i, slot), direction)?;
        self.request_slot_occupancy(patch_id, slot, entry)
    }

    fn adjust(&mut self, direction: Direction) -> (r: Result<Option<EngineSelectionEffect>, EventRejection>)
        requires
            state_wf(old(self)@),
        ensures
            step_view(r, final(self)@) == adjusted(old(self)@, direction),
            r is Ok ==> state_wf(final(self)@),
    {
        if self.interaction.context() == TopLevelContext::Patch {
            if self.interaction.choice().is_some() {
                return Err(EventRejection::ActionUnavailableInContext);
            }
            let utility = self.interaction.utility_row();
            if direction == Direction::Up && (utility.is_none() || utility == Some(3u8)) {
                let subject = self.focused_row_subject();
                self.open_choice_list(subject)?;
                return Ok(None);
            }
        }
        match self.interaction.context() {
            TopLevelContext::Mixer => Err(EventRejection::ActionUnavailableInContext),
            TopLevelContext::Patch => match self.interaction.utility_row() {
                None => {
                    let row = self.interaction.patch_row();
                    if row == 0 {
                        self.request_engine_selection(direction)
                    } else {
                        self.request_slot_occupancy_choice(EffectSlotIndex::from_position(row - 1), direction)
                    }
                },
                Some(u) => {
                    if u == 2 {
                        self.adjust_patch_midi_input(direction)?;
                        Ok(None)
                    } else if u == 3 {
                        self.adjust_patch_output_track(direction)?;
                        Ok(None)
                    } else if u == 4 {
                        self.adjust_patch_voice_limit(direction)?;
                        Ok(None)
                    } else {
                        Err(EventRejection::ActionUnavailableInContext)
                    }
                },
            },
        }
    }
}


/// Whether an optional capability identity is `Some(expected)`.
fn names(c: Option<&CapabilityId>, expected: &CapabilityId) -> (r: bool)
    ensures
        r == (match c {
            Some(x) => x@ == expected@,
            None => false,
        }),
{
    match c {
        Some(x) => x.same_as(expected),
        None => false,
    }
}

/// Whether an optional Patch identity is `Some(expected)`.
fn is_patch(p: Option<PatchId>, expected: PatchId) -> (r: bool)
    ensures
        r == (p == Some(expected)),
{
    match p {
        Some(x) => x.same_as(expected),
        None => false,
    }
}

impl AppState {
    #[verifier::rlimit(40)]
    fn engine_prepared(
        &mut self,
        request_id: EngineSelectionRequestId,
        patch_id: PatchId,
        intent: &StructuralEditIntent,
        source_capability_id: &CapabilityId,
        target_capability_id: &CapabilityId,
        source_graph_revision: GraphRevision,
        target_graph_revision: GraphRevision,
        candidate_config: InstrumentConfig,
    ) -> (r: Result<Option<EngineSelectionEffect>, EventRejection>)
        requires
            state_wf(old(self)@),
        ensures
            step_view(r, final(self)@) == engine_prepared(
                old(self)@,
                request_id@,
                patch_id,
                intent@,
                source_capability_id@,
                target_capability_id@,
                source_graph_revision@,
                target_graph_revision@,
                candidate_config@,
            ),
            r is Ok ==> state_wf(final(self)@),
    {
        let correlation = self.pending_request(request_id)?;
        if !is_patch(correlation.patch_id(), patch_id) || !correlation.intent().same_as(intent) || !names(
            correlation.source_capability_id(),
            source_capability_id,
        ) || !names(correlation.target_capability_id(), target_capability_id)
            || correlation.source_graph_revision().value() != source_graph_revision.value()
            || target_graph_revision.value() <= source_graph_revision.value()
            || !candidate_config.capability_id().same_as(target_capability_id)
            || self.capabilities.validate_config(&candidate_config).is_err() {
            return Err(EventRejection::MismatchedEngineSelection);
        }
        let i = match self.find_patch(patch_id) {
            Some(i) => i,
            None => {
                return Err(EventRejection::MismatchedEngineSelection);
            },
        };
        let current = self.patches[i].instrument_config();
        proof {
            assert(self@.patches[i as int] == self.patches@[i as int]@);
        }
        if !current.capability_id().same_as(source_capability_id) || !candidate_matches_intent(
            current,
            &candidate_config,
            intent,
        ) {
            return Err(EventRejection::MismatchedEngineSelection);
        }
        let status = match self.engine_selection.activating(target_graph_revision) {
            Ok(st) => st,
            Err(_) => {
                return Err(EventRejection::MismatchedEngineSelection);
            },
        };
        let effect = match status.correlation() {
            Some(c) => match EngineSelectionEffect::from_correlation(EngineSelectionEffectKind::CandidateCommitted, c) {
                Ok(e) => e,
                Err(_) => {
                    return Err(EventRejection::MismatchedEngineSelection);
                },
            },
            None => {
                return Err(EventRejection::MismatchedEngineSelection);
            },
        };
        self.pending_instrument_config = Some(candidate_config);
        self.engine_selection = status;
        Ok(Some(effect))
    }

    #[verifier::rlimit(40)]
    fn engine_preparation_failed(
        &mut self,
        request_id: EngineSelectionRequestId,
        patch_id: PatchId,
        intent: &StructuralEditIntent,
        source_capability_id: &CapabilityId,
        target_capability_id: &CapabilityId,
        source_graph_revision: GraphRevision,
        target_graph_revision: GraphRevision,
        failure: EngineSelectionFailure,
    ) -> (r: Result<(), EventRejection>)
        requires
            state_wf(old(self)@),
        ensures
            quiet_view(r, final(self)@) == engine_failed(
                old(self)@,
                request_id@,
                patch_id,
                intent@,
                source_capability_id@,
                target_capability_id@,
                source_graph_revision@,
                target_graph_revision@,
                failure,
            ),
            r is Ok ==> state_wf(final(self)@),
    {
        let correlation = self.pending_request(request_id)?;
        if !is_patch(correlation.patch_id(), patch_id) || !correlation.intent().same_as(intent) || !names(
            correlation.source_capability_id(),
            source_capability_id,
        ) || !names(correlation.target_capability_id(), target_capability_id)
            || correlation.source_graph_revision().value() != source_graph_revision.value()
            || target_graph_revision.value() <= source_graph_revision.value() {
            return Err(EventRejection::MismatchedEngineSelection);
        }
        let status = match self.engine_selection.failed(failure) {
            Ok(st) => st,
            Err(_) => {
                return Err(EventRejection::MismatchedEngineSelection);
            },
        };
        self.engine_selection = status;
        self.pending_instrument_config = None;
        Ok(())
    }

    fn topology_prepared(
        &mut self,
        request_id: EngineSelectionRequestId,
        intent: &StructuralEditIntent,
        source_graph_revision: GraphRevision,
        target_graph_revision: GraphRevision,
    ) -> (r: Result<Option<EngineSelectionEffect>, EventRejection>)
        requires
            state_wf(old(self)@),
        ensures
            step_view(r, final(self)@) == topology_prepared(
                old(self)@,
                request_id@,
                intent@,
                source_graph_revision@,
                target_graph_revision@,
            ),
            r is Ok ==> state_wf(final(self)@),
    {
        let correlation = self.pending_request(request_id)?;
        if !correlation.intent().same_as(intent) || correlation.source_graph_revision().value()
            != source_graph_revision.value() || target_graph_revision.value() <= source_graph_revision.value()
            || !intent.is_occupancy() {
            return Err(EventRejection::MismatchedEngineSelection);
        }
        let status = match self.engine_selection.activating(target_graph_revision) {
            Ok(st) => st,
            Err(_) => {
                return Err(EventRejection::MismatchedEngineSelection);
            },
        };
        let effect = match status.correlation() {
            Some(c) => match EngineSelectionEffect::from_correlation(EngineSelectionEffectKind::CandidateCommitted, c) {
                Ok(e) => e,
                Err(_) => {
                    return Err(EventRejection::MismatchedEngineSelection);
                },
            },
            None => {
                return Err(EventRejection::MismatchedEngineSelection);
            },
        };
        self.engine_selection = status;
        Ok(Some(effect))
    }

    fn topology_preparation_failed(
        &mut self,
        request_id: EngineSelectionRequestId,
        intent: &StructuralEditIntent,
        source_graph_revision: GraphRevision,
        target_graph_revision: GraphRevision,
        failure: EngineSelectionFailure,
    ) -> (r: Result<(), EventRejection>)
        requires
            state_wf(old(self)@),
        ensures
            quiet_view(r, final(self)@) == topology_failed(
                old(self)@,
                request_id@,
                intent@,
                source_graph_revision@,
                target_graph_revision@,
                failure,
            ),
            r is Ok ==> state_wf(final(self)@),
    {
        let correlation = self.pending_request(request_id)?;
        if !correlation.intent().same_as(intent) || correlation.source_graph_revision().value()
            != source_graph_revision.value() || target_graph_revision.value() <= source_graph_revision.value()
            || !intent.is_occupancy() {
            return Err(EventRejection::MismatchedEngineSelection);
        }
        let status = match self.engine_selection.failed(failure) {
            Ok(st) => st,
            Err(_) => {
                return Err(EventRejection::MismatchedEngineSelection);
            },
        };
        self.engine_selection = status;
        Ok(())
    }

    fn engine_selection_lifecycle_advanced(&self, request_id: EngineSelectionRequestId) -> (r: Result<
        (),
        EventRejection,
    >)
        ensures
            quiet_view(r, self@) == lifecycle_advanced(self@, request_id@),
            r is Err,
    {
        match self.engine_selection.correlation() {
            None => Err(EventRejection::StaleEngineSelection),
            Some(c) => {
                if c.request_id().value() != request_id.value() {
                    Err(EventRejection::StaleEngineSelection)
                } else {
                    Err(EventRejection::MismatchedEngineSelection)
                }
            },
        }
    }
}


impl AppState {
    /// Whether canonical state still agrees with the activating request.
    fn pending_intent_matches_state(&self, correlation: &EngineSelectionCorrelation) -> (r: bool)
        ensures
            r == pending_matches_state(self@, correlation@),
    {
        match correlation.intent() {
            StructuralEditIntent::SetSlotOccupancy { patch_id, .. } => {
                self.find_patch(*patch_id).is_some() && correlation.source_graph_revision().value()
                    == self.engine_selection.active_graph_revision().value()
            },
            StructuralEditIntent::SetReturnOccupancy { .. } => {
                correlation.source_graph_revision().value() == self.engine_selection.active_graph_revision().value()
            },
            _ => {
                let patch_id = match correlation.patch_id() {
                    Some(p) => p,
                    None => {
                        return false;
                    },
                };
                let i = match self.find_patch(patch_id) {
                    Some(i) => i,
                    None => {
                        return false;
                    },
                };
                let candidate = match &self.pending_instrument_config {
                    Some(c) => c,
                    None => {
                        return false;
                    },
                };
                let current = self.patches[i].instrument_config();
                proof {
                    assert(self@.patches[i as int] == self.patches@[i as int]@);
                }
                names(correlation.source_capability_id(), current.capability_id()) && candidate_matches_intent(
                    current,
                    candidate,
                    correlation.intent(),
                )
            },
        }
    }

    #[verifier::rlimit(60)]
    fn engine_activation_acknowledged(
        &mut self,
        request_id: EngineSelectionRequestId,
        intent: &StructuralEditIntent,
        target_graph_revision: GraphRevision,
        retired_graph_revision: GraphRevision,
        collected: bool,
    ) -> (r: Result<Option<EngineSelectionEffect>, EventRejection>)
        requires
            state_wf(old(self)@),
        ensures
            step_view(r, final(self)@) == activation_acknowledged(
                old(self)@,
                request_id@,
                intent@,
                target_graph_revision@,
                retired_graph_revision@,
                collected,
            ),
            r is Ok ==> state_wf(final(self)@),
    {
        if self.engine_selection.kind() != EngineSelectionStatusKind::Activating {
            return Err(EventRejection::StaleEngineSelection);
        }
        let correlation = match self.engine_selection.correlation() {
            Some(c) => c.duplicate(),
            None => {
                return Err(EventRejection::StaleEngineSelection);
            },
        };
        if correlation.request_id().value() != request_id.value() {
            return Err(EventRejection::StaleEngineSelection);
        }
        let target_matches = match correlation.target_graph_revision() {
            Some(t) => t.value() == target_graph_revision.value(),
            None => false,
        };
        if !correlation.intent().same_as(intent) || !target_matches || correlation.source_graph_revision().value()
            != retired_graph_revision.value() || !collected || !self.pending_intent_matches_state(&correlation) {
            return Err(EventRejection::MismatchedEngineSelection);
        }
        let effect = match EngineSelectionEffect::from_correlation(
            EngineSelectionEffectKind::ActivationAcknowledged,
            &correlation,
        ) {
            Ok(e) => e,
            Err(_) => {
                return Err(EventRejection::MismatchedEngineSelection);
            },
        };
        match intent {
            StructuralEditIntent::SetSlotOccupancy { patch_id, slot, entry } => {
                let i = match self.find_patch(*patch_id) {
                    Some(i) => i,
                    None => {
                        return Err(EventRejection::MismatchedEngineSelection);
                    },
                };
                let occupant = match entry {
                    None => None,
                    Some(e) => match self.effects.default_config(e, slot.instance_identity()) {
                        Some(o) => Some(o),
                        None => {
                            return Err(EventRejection::MismatchedEngineSelection);
                        },
                    },
                };
                let mut p = self.patches[i].duplicate();
                proof {
                    assert(self@.patches[i as int] == self.patches@[i as int]@);
                }
                if p.set_slot_occupancy(*slot, occupant).is_err() {
                    return Err(EventRejection::MismatchedEngineSelection);
                }
                self.replace_patch(i, p);
            },
            StructuralEditIntent::SetReturnOccupancy { bus, entry } => {
                match entry {
                    Some(e) => {
                        if !self.effects.contains(e) {
                            return Err(EventRejection::MismatchedEngineSelection);
                        }
                    },
                    None => {},
                }
                let index = bus.value() as usize;
                let ghost before = self@;
                self.returns.set(index, crate::domain::duplicate_entry(entry));
                assert(self@.returns =~= before.returns.update(bus@ as int, entry_view(*entry)));
            },
            _ => {
                let candidate = match &self.pending_instrument_config {
                    Some(c) => c.duplicate(),
                    None => {
                        return Err(EventRejection::MismatchedEngineSelection);
                    },
                };
                let patch_id = match correlation.patch_id() {
                    Some(p) => p,
                    None => {
                        return Err(EventRejection::MismatchedEngineSelection);
                    },
                };
                let policy = match self.capabilities.descriptor(candidate.capability_id()) {
                    Some(d) => d.voice_policy(),
                    None => {
                        return Err(EventRejection::MismatchedEngineSelection);
                    },
                };
                let i = match self.find_patch(patch_id) {
                    Some(i) => i,
                    None => {
                        return Err(EventRejection::MismatchedEngineSelection);
                    },
                };
                let mut p = self.patches[i].duplicate();
                proof {
                    assert(self@.patches[i as int] == self.patches@[i as int]@);
                }
                let _ = p.replace_instrument_config(candidate, policy);
                self.replace_patch(i, p);
                self.pending_instrument_config = None;
            },
        }
        self.engine_selection = match self.engine_selection.acknowledged() {
            Ok(st) => st,
            Err(_) => {
                return Err(EventRejection::MismatchedEngineSelection);
            },
        };
        Ok(Some(effect))
    }
}


/// The view of an outcome.
pub open spec fn outcome_view(r: Result<ApplyOutcome, EventRejection>, s: StateView) -> Result<
    (StateView, Option<AudioCommand>, Option<EffectView>),
    EventRejection,
> {
    match r {
        Ok(o) => Ok((s, o@.audio_command, o@.engine_selection_effect)),
        Err(e) => Err(e),
    }
}

impl AppState {
    fn reduce(&mut self, event: AppEvent) -> (r: Result<Option<EngineSelectionEffect>, EventRejection>)
        requires
            state_wf(old(self)@),
        ensures
            step_view(r, final(self)@) == reduced(old(self)@, event),
            r is Ok ==> state_wf(final(self)@),
    {
        match event {
            AppEvent::SelectContext(c) => {
                self.select_context(c)?;
                Ok(None)
            },
            AppEvent::SelectPatch(d) => {
                self.select_patch(d)?;
                Ok(None)
            },
            AppEvent::Navigate(d) => {
                self.navigate(d)?;
                Ok(None)
            },
            AppEvent::Adjust(d) => self.adjust(d),
            AppEvent::SetInteractionMode(m) => {
                self.set_interaction_mode(m)?;
                Ok(None)
            },
            AppEvent::SetPatchOverviewOriginEnabled { patch_id, control, enabled } => {
                self.set_patch_overview_origin_enabled(patch_id, &control, enabled)?;
                Ok(None)
            },
            AppEvent::EnterSurface(surface) => {
                self.enter_surface(surface)?;
                Ok(None)
            },
            AppEvent::Return => {
                self.return_to_origin()?;
                Ok(None)
            },
            AppEvent::Activate => self.activate_focused_subordinate(),
            AppEvent::InstallPatches(patches) => {
                self.install_patches(patches)?;
                Ok(None)
            },
            AppEvent::SetSlotOccupancy { patch_id, slot, entry } => self.request_slot_occupancy(patch_id, slot, entry),
            AppEvent::SetReturnOccupancy { bus, entry } => self.request_return_occupancy(bus, entry),
            AppEvent::EngineSelectionLifecycleAdvanced { request_id, .. } => {
                self.engine_selection_lifecycle_advanced(request_id)?;
                Ok(None)
            },
            AppEvent::EnginePrepared {
                request_id,
                patch_id,
                intent,
                source_capability_id,
                target_capability_id,
                source_graph_revision,
                target_graph_revision,
                candidate_config,
                ..
            } => self.engine_prepared(
                request_id,
                patch_id,
                &intent,
                &source_capability_id,
                &target_capability_id,
                source_graph_revision,
                target_graph_revision,
                candidate_config,
            ),
            AppEvent::EnginePreparationFailed {
                request_id,
                patch_id,
                intent,
                source_capability_id,
                target_capability_id,
                source_graph_revision,
                target_graph_revision,
                failure,
            } => {
                self.engine_preparation_failed(
                    request_id,
                    patch_id,
                    &intent,
                    &source_capability_id,
                    &target_capability_id,
                    source_graph_revision,
                    target_graph_revision,
                    failure,
                )?;
                Ok(None)
            },
            AppEvent::EngineActivationAcknowledged {
                request_id,
                intent,
                target_graph_revision,
                retired_graph_revision,
                collected,
            } => self.engine_activation_acknowledged(
                request_id,
                &intent,
                target_graph_revision,
                retired_graph_revision,
                collected,
            ),
            AppEvent::TopologyPrepared { request_id, intent, source_graph_revision, target_graph_revision } =>
                self.topology_prepared(request_id, &intent, source_graph_revision, target_graph_revision),
            AppEvent::TopologyPreparationFailed {
                request_id,
                intent,
                source_graph_revision,
                target_graph_revision,
                failure,
            } => {
                self.topology_preparation_failed(
                    request_id,
                    &intent,
                    source_graph_revision,
                    target_graph_revision,
                    failure,
                )?;
                Ok(None)
            },
            _ => Err(EventRejection::ActionUnavailableInContext),
        }
    }

    /// Applies the only permitted control-state mutation.
    ///
    /// A rejected event leaves the state exactly as it was; an accepted event
    /// advances the generation exactly once.
    pub fn apply(&mut self, event: AppEvent) -> (r: Result<ApplyOutcome, EventRejection>)
        requires
            state_wf(old(self)@),
        ensures
            state_wf(final(self)@),
            outcome_view(r, final(self)@) == applied(old(self)@, event),
            r is Err ==> *final(self) == *old(self),
            r matches Ok(o) ==> o@.generation == final(self)@.generation,
    {
        if self.generation == u64::MAX {
            return Err(EventRejection::GenerationOverflow);
        }
        let generation = self.generation + 1;
        match event {
            AppEvent::Midi { patch_id, message } => {
                if self.find_patch(patch_id).is_none() {
                    return Err(EventRejection::UnknownPatch);
                }
                self.generation = generation;
                Ok(
                    ApplyOutcome {
                        accepted: StateAccepted { generation },
                        audio_command: Some(AudioCommand::PatchMidi { patch_id, message }),
                        engine_selection_effect: None,
                    },
                )
            },
            other => {
                let clears = clears_focus_repair_of(&other);
                let mut next = self.duplicate();
                let effect = next.reduce(other)?;
                next.generation = generation;
                if clears {
                    next.focus_repair = None;
                }
                *self = next;
                Ok(
                    ApplyOutcome {
                        accepted: StateAccepted { generation },
                        audio_command: None,
                        engine_selection_effect: effect,
                    },
                )
            },
        }
    }

    /// Applies one normalized user intent while enforcing the interaction
    /// mode: directions navigate only in Navigate or Modal mode and adjust
    /// only in Adjust mode.
    pub fn apply_semantic_action(&mut self, action: SemanticAction) -> (r: Result<ApplyOutcome, EventRejection>)
        requires
            state_wf(old(self)@),
        ensures
            state_wf(final(self)@),
            semantic_action_gated(old(self)@.interaction.mode, action) ==> r == Err::<ApplyOutcome, EventRejection>(
                EventRejection::ActionUnavailableInContext,
            ) && *final(self) == *old(self),
            !semantic_action_gated(old(self)@.interaction.mode, action) ==> outcome_view(r, final(self)@)
                == applied(old(self)@, semantic_event(action)) && (r is Err ==> *final(self) == *old(self)),
    {
        let mode = self.interaction.mode();
        let gated = match action {
            SemanticAction::Navigate(_) => mode == InteractionMode::Adjust,
            SemanticAction::Adjust(_) => mode != InteractionMode::Adjust,
            _ => false,
        };
        if gated {
            return Err(EventRejection::ActionUnavailableInContext);
        }
        self.apply(AppEvent::from_semantic_action(action))
    }

    /// Whether this state would accept `action`; the question is asked of a
    /// scratch copy, so this state is untouched.
    pub fn accepts_semantic_action(&self, action: &SemanticAction) -> (r: bool)
        requires
            state_wf(self@),
        ensures
            r == semantic_accepted(self@, *action),
    {
        let mut scratch = self.duplicate();
        scratch.apply_semantic_action(action.duplicate()).is_ok()
    }

    /// Restores one recorded voice limit per installed Patch. The whole list
    /// is checked first, so a refused list changes nothing.
    pub fn restore_voice_limits(&mut self, limits: &Vec<(PatchId, u16)>) -> (r: Result<(), EventRejection>)
        requires
            state_wf(old(self)@),
        ensures
            state_wf(final(self)@),
            r is Ok <==> limits@.len() == old(self)@.patches.len() && forall|k: int|
                0 <= k < limits@.len() ==> limit_restorable(old(self)@, #[trigger] limits@[k]),
            r matches Err(e) ==> e == EventRejection::InvalidInstrumentConfig && *final(self) == *old(self),
            r is Ok ==> final(self)@ == (StateView {
                patches: limits_restored(old(self)@.patches, limits@),
                ..old(self)@
            }),
    {
        if limits.len() != self.patches.len() || !self.limits_restorable(limits) {
            return Err(EventRejection::InvalidInstrumentConfig);
        }
        self.set_limits(limits);
        Ok(())
    }

    /// Whether one recorded limit is restorable.
    fn limit_entry_restorable(&self, patch_id: PatchId, value: u16) -> (r: bool)
        ensures
            r == limit_restorable(self@, (patch_id, value)),
    {
        let i = match self.find_patch(patch_id) {
            Some(i) => i,
            None => {
                return false;
            },
        };
        let descriptor = match self.capabilities.descriptor(self.patches[i].instrument_config().capability_id()) {
            Some(d) => d,
            None => {
                return false;
            },
        };
        value != 0 && value <= VoiceLimit::seeded_from(descriptor.voice_policy()).value()
    }

    /// Whether every recorded limit is restorable.
    fn limits_restorable(&self, limits: &Vec<(PatchId, u16)>) -> (r: bool)
        requires
            state_wf(self@),
        ensures
            r == forall|k: int| 0 <= k < limits@.len() ==> limit_restorable(self@, #[trigger] limits@[k]),
    {
        let mut k: usize = 0;
        while k < limits.len()
            invariant
                k <= limits@.len(),
                forall|j: int| 0 <= j < k ==> limit_restorable(self@, #[trigger] limits@[j]),
            decreases limits.len() - k,
        {
            let (patch_id, value) = limits[k];
            if !self.limit_entry_restorable(patch_id, value) {
                assert(!limit_restorable(self@, limits@[k as int]));
                return false;
            }
            k = k + 1;
        }
        true
    }

    /// Sets the voice limit of the first Patch with identity `patch_id`.
    fn set_limit_of(&mut self, patch_id: PatchId, value: u16)
        requires
            patch_index_of(old(self)@.patches, patch_id) is Some,
            1 <= value <= ENGINE_MANAGED_VOICE_LIMIT,
        ensures
            final(self)@ == (StateView {
                patches: old(self)@.patches.update(
                    patch_index_of(old(self)@.patches, patch_id)->0,
                    PatchView { voice_limit: value, ..old(self)@.patches[patch_index_of(old(self)@.patches, patch_id)->0] },
                ),
                ..old(self)@
            }),
    {
        let i = self.find_patch(patch_id).unwrap();
        let mut patch = self.patches[i].duplicate();
        let _ = patch.set_voice_limit(value);
        self.replace_patch(i, patch);
    }

    /// Sets every recorded limit, in order, on the Patch it names.
    #[verifier::rlimit(40)]
    #[verifier::spinoff_prover]
    fn set_limits(&mut self, limits: &Vec<(PatchId, u16)>)
        requires
            state_wf(old(self)@),
            forall|k: int| 0 <= k < limits@.len() ==> limit_restorable(old(self)@, #[trigger] limits@[k]),
        ensures
            state_wf(final(self)@),
            final(self)@ == (StateView { patches: limits_restored(old(self)@.patches, limits@), ..old(self)@ }),
    {
        let ghost start = self@;
        let mut k: usize = 0;
        while k < limits.len()
            invariant
                k <= limits@.len(),
                state_wf(start),
                forall|j: int| 0 <= j < limits@.len() ==> limit_restorable(start, #[trigger] limits@[j]),
                self@ == (StateView { patches: limits_restored(start.patches, limits@.take(k as int)), ..start }),
            decreases limits.len() - k,
        {
            let (patch_id, value) = limits[k];
            proof {
                assert(limit_restorable(start, limits@[k as int]));
                lemma_restored_keeps_ids(start.patches, limits@.take(k as int));
                lemma_same_ids_same_index(limits_restored(start.patches, limits@.take(k as int)), start.patches, patch_id);
                assert(limits@.take(k as int + 1).drop_last() =~= limits@.take(k as int));
            }
            self.set_limit_of(patch_id, value);
            k = k + 1;
        }
        proof {
            assert(limits@.take(limits@.len() as int) =~= limits@);
        }
    }
}

/// Whether one recorded limit names an installed Patch whose engine allows
/// it: at least one voice and no more than the engine's own ceiling.
pub open spec fn limit_restorable(s: StateView, entry: (PatchId, u16)) -> bool {
    match patch_index_of(s.patches, entry.0) {
        None => false,
        Some(i) => match descriptor_index(s.capabilities, s.patches[i].instrument_config.capability_id) {
            None => false,
            Some(d) => 1 <= entry.1 <= seeded_limit(s.capabilities[d].voice_policy),
        },
    }
}

/// The Patches after each recorded limit is set, in order, on the first
/// Patch its identity names.
pub open spec fn limits_restored(ps: Seq<PatchView>, limits: Seq<(PatchId, u16)>) -> Seq<PatchView>
    decreases limits.len(),
{
    if limits.len() == 0 {
        ps
    } else {
        let prev = limits_restored(ps, limits.drop_last());
        let entry = limits.last();
        match patch_index_of(prev, entry.0) {
            Some(i) => prev.update(i, PatchView { voice_limit: entry.1, ..prev[i] }),
            None => prev,
        }
    }
}

/// Restoring limits changes nothing but voice limits, so every Patch keeps
/// its identity and position.
proof fn lemma_restored_keeps_ids(ps: Seq<PatchView>, limits: Seq<(PatchId, u16)>)
    ensures
        limits_restored(ps, limits).len() == ps.len(),
        forall|i: int| 0 <= i < ps.len() ==> (#[trigger] limits_restored(ps, limits)[i]).id == ps[i].id,
    decreases limits.len(),
{
    if limits.len() > 0 {
        lemma_restored_keeps_ids(ps, limits.drop_last());
        lemma_patch_index_of(limits_restored(ps, limits.drop_last()), limits.last().0);
    }
}

/// Sequences with the same identities at every position find an identity at
/// the same position.
proof fn lemma_same_ids_same_index(a: Seq<PatchView>, b: Seq<PatchView>, id: PatchId)
    requires
        a.len() == b.len(),
        forall|i: int| 0 <= i < a.len() ==> (#[trigger] a[i]).id == b[i].id,
    ensures
        patch_index_of(a, id) == patch_index_of(b, id),
{
    lemma_patch_index_of(a, id);
    lemma_patch_index_of(b, id);
    if let Some(x) = patch_index_of(a, id) {
        assert(b[x].id == id);
        if let Some(y) = patch_index_of(b, id) {
            assert(a[y].id == id);
            assert(x == y);
        }
    } else {
        if let Some(y) = patch_index_of(b, id) {
            assert(a[y].id == id);
        }
    }
}

/// Whether state `s` accepts the user intent `action`.
pub open spec fn semantic_accepted(s: StateView, action: SemanticAction) -> bool {
    !semantic_action_gated(s.interaction.mode, action) && applied(s, semantic_event(action)) is Ok
}

/// Answers availability questions for many intents against one accepted
/// state, reusing a single scratch copy across refusals.
pub struct SemanticActionAvailability<'state> {
    accepted: &'state AppState,
    scratch: AppState,
}

impl<'state> SemanticActionAvailability<'state> {
    /// The scratch copy agrees with the well-formed accepted state.
    pub closed spec fn wf(self) -> bool {
        &&& state_wf(self.accepted@)
        &&& self.scratch@ == self.accepted@
    }

    /// The accepted state the questions are asked of.
    pub closed spec fn accepted_view(self) -> StateView {
        self.accepted@
    }

    /// Prepares one scratch copy of `accepted`.
    pub fn new(accepted: &'state AppState) -> (r: SemanticActionAvailability<'state>)
        requires
            state_wf(accepted@),
        ensures
            r.wf(),
            r.accepted_view() == accepted@,
    {
        SemanticActionAvailability { accepted, scratch: accepted.duplicate() }
    }

    /// Whether the accepted state would accept `action`; the scratch is
    /// refreshed after an acceptance.
    pub fn accepts(&mut self, action: &SemanticAction) -> (r: bool)
        requires
            old(self).wf(),
        ensures
            final(self).wf(),
            final(self).accepted_view() == old(self).accepted_view(),
            r == semantic_accepted(old(self).accepted_view(), *action),
    {
        let accepted = self.scratch.apply_semantic_action(action.duplicate()).is_ok();
        if accepted {
            self.scratch = self.accepted.duplicate();
        }
        accepted
    }
}

/// A list holds an origin exactly when its set does.
proof fn lemma_origin_set_contains(v: Seq<(PatchId, OverviewOrigin)>, x: (PatchId, OverviewOrigin))
    ensures
        origin_set(v).contains(x) == v.contains(x),
{
    reveal(origin_set);
}

/// Pushing onto a list adds exactly the pushed element to what it contains.
proof fn lemma_push_contains(v: Seq<(PatchId, OverviewOrigin)>, a: (PatchId, OverviewOrigin), x: (PatchId, OverviewOrigin))
    ensures
        v.push(a).contains(x) == (v.contains(x) || x == a),
{
    if v.contains(x) {
        let w = choose|w: int| 0 <= w < v.len() && v[w] == x;
        assert(v.push(a)[w] == x);
    }
    if x == a {
        assert(v.push(a)[v.len() as int] == a);
    }
    if v.push(a).contains(x) {
        let w = choose|w: int| 0 <= w < v.push(a).len() && v.push(a)[w] == x;
        if w < v.len() {
            assert(v[w] == x);
        }
    }
}

impl AppState {
    /// Whether the Overview origin `key` is disabled.
    fn origin_disabled(&self, key: (PatchId, OverviewOrigin)) -> (r: bool)
        ensures
            r == self@.disabled_origins.contains(key),
    {
        proof {
            lemma_origin_set_contains(self.disabled_origins@, key);
        }
        let mut i: usize = 0;
        while i < self.disabled_origins.len()
            invariant
                i <= self.disabled_origins@.len(),
                forall|j: int| 0 <= j < i ==> self.disabled_origins@[j] != key,
            decreases self.disabled_origins.len() - i,
        {
            let (p, o) = self.disabled_origins[i];
            if p.same_as(key.0) && o == key.1 {
                assert(self.disabled_origins@[i as int] == key);
                assert(self.disabled_origins@.contains(key));
                proof {
                    lemma_origin_set_contains(self.disabled_origins@, key);
                }
                return true;
            }
            i = i + 1;
        }
        false
    }

    /// Whether the Overview row `control` of Patch `patch_id` is enabled.
    /// Controls that are no origin are always enabled.
    pub fn patch_overview_origin_enabled(&self, patch_id: PatchId, control: &PatchControlId) -> (r: bool)
        ensures
            r == match overview_origin(*control) {
                Some(o) => !self@.disabled_origins.contains((patch_id, o)),
                None => true,
            },
    {
        match origin_of_control(control) {
            Some(o) => !self.origin_disabled((patch_id, o)),
            None => true,
        }
    }

    /// The number of enabled Overview origins of one Patch.
    fn enabled_origins(&self, patch_id: PatchId) -> (r: u8)
        ensures
            r == enabled_origin_count(self@.disabled_origins, patch_id),
    {
        let mut count: u8 = 0;
        if !self.origin_disabled((patch_id, OverviewOrigin::Engine)) {
            count = count + 1;
        }
        if !self.origin_disabled((patch_id, OverviewOrigin::EffectSlot(EffectSlotIndex::from_position(0)))) {
            count = count + 1;
        }
        if !self.origin_disabled((patch_id, OverviewOrigin::EffectSlot(EffectSlotIndex::from_position(1)))) {
            count = count + 1;
        }
        if !self.origin_disabled((patch_id, OverviewOrigin::EffectSlot(EffectSlotIndex::from_position(2)))) {
            count = count + 1;
        }
        count
    }

    /// Which main rows of Patch `patch_id` are disabled, row by row.
    fn disabled_row_flags(&self, patch_id: PatchId) -> (r: Vec<bool>)
        ensures
            r@ == disabled_flags(self@.disabled_origins, patch_id),
    {
        let mut r: Vec<bool> = Vec::new();
        r.push(self.origin_disabled((patch_id, OverviewOrigin::Engine)));
        r.push(self.origin_disabled((patch_id, OverviewOrigin::EffectSlot(EffectSlotIndex::from_position(0)))));
        r.push(self.origin_disabled((patch_id, OverviewOrigin::EffectSlot(EffectSlotIndex::from_position(1)))));
        r.push(self.origin_disabled((patch_id, OverviewOrigin::EffectSlot(EffectSlotIndex::from_position(2)))));
        assert(r@ =~= disabled_flags(self@.disabled_origins, patch_id));
        r
    }

    /// The disabled origins without `key`.
    fn origins_without(&self, key: (PatchId, OverviewOrigin)) -> (r: Vec<(PatchId, OverviewOrigin)>)
        ensures
            origin_set(r@) == self@.disabled_origins.remove(key),
    {
        let v = &self.disabled_origins;
        let mut kept: Vec<(PatchId, OverviewOrigin)> = Vec::new();
        let mut i: usize = 0;
        while i < v.len()
            invariant
                i <= v@.len(),
                forall|x: (PatchId, OverviewOrigin)| #[trigger] kept@.contains(x) ==> x != key && v@.contains(x),
                forall|j: int| 0 <= j < i && v@[j] != key ==> kept@.contains(#[trigger] v@[j]),
            decreases v.len() - i,
        {
            let (p, o) = v[i];
            if !(p.same_as(key.0) && o == key.1) {
                let ghost old_kept = kept@;
                assert(v@[i as int] == (p, o));
                kept.push((p, o));
                proof {
                    assert forall|x: (PatchId, OverviewOrigin)| #[trigger] kept@.contains(x) implies x != key
                        && v@.contains(x) by {
                        lemma_push_contains(old_kept, (p, o), x);
                    }
                    assert forall|j: int| 0 <= j < i + 1 && v@[j] != key implies kept@.contains(#[trigger] v@[j]) by {
                        lemma_push_contains(old_kept, (p, o), v@[j]);
                    }
                }
            }
            i = i + 1;
        }
        proof {
            assert forall|x: (PatchId, OverviewOrigin)| #[trigger] origin_set(kept@).contains(x)
                == self@.disabled_origins.remove(key).contains(x) by {
                lemma_origin_set_contains(kept@, x);
                lemma_origin_set_contains(v@, x);
                if v@.contains(x) && x != key {
                    let w = choose|w: int| 0 <= w < v@.len() && v@[w] == x;
                    assert(kept@.contains(v@[w]));
                }
            }
            assert(origin_set(kept@) =~= self@.disabled_origins.remove(key));
        }
        kept
    }

    fn set_patch_overview_origin_enabled(&mut self, patch_id: PatchId, control: &PatchControlId, enabled: bool) -> (r:
        Result<(), EventRejection>)
        requires
            state_wf(old(self)@),
        ensures
            quiet_view(r, final(self)@) == origin_toggled(old(self)@, patch_id, *control, enabled),
            r is Ok ==> state_wf(final(self)@),
    {
        let origin = match origin_of_control(control) {
            Some(o) => o,
            None => {
                return Err(EventRejection::InvalidSelection);
            },
        };
        let key = (patch_id, origin);
        if self.find_patch(patch_id).is_none() {
            return Err(EventRejection::InvalidSelection);
        }
        let disabled = self.origin_disabled(key);
        if !disabled == enabled {
            return Err(EventRejection::InvalidSelection);
        }
        let ghost before = self@;
        if enabled {
            let kept = self.origins_without(key);
            self.disabled_origins = kept;
            self.focus_repair = None;
            assert(self@ == (StateView {
                disabled_origins: before.disabled_origins.remove(key),
                focus_repair: None,
                ..before
            }));
            return Ok(());
        }
        if self.enabled_origins(patch_id) <= 1 {
            return Err(EventRejection::InvalidSelection);
        }
        let ghost old_list = self.disabled_origins@;
        self.disabled_origins.push(key);
        proof {
            assert forall|x: (PatchId, OverviewOrigin)| #[trigger] origin_set(self.disabled_origins@).contains(x)
                == before.disabled_origins.insert(key).contains(x) by {
                lemma_origin_set_contains(self.disabled_origins@, x);
                lemma_origin_set_contains(old_list, x);
                lemma_push_contains(old_list, key, x);
            }
            assert(origin_set(self.disabled_origins@) =~= before.disabled_origins.insert(key));
        }
        assert(self@ == (StateView { disabled_origins: before.disabled_origins.insert(key), ..before }));
        self.focus_repair = None;
        match self.interaction.patch_focus() {
            Some(f) => if f.same_as(patch_id) {
                let off = self.disabled_row_flags(patch_id);
                let row_before = self.interaction.patch_row();
                self.interaction = self.interaction.landed_on_enabled(&off);
                let row_after = self.interaction.patch_row();
                if row_after != row_before {
                    self.focus_repair = Some(
                        FocusRepairStatus {
                            patch_id,
                            removed_origin: origin_of_row(row_before),
                            replacement_origin: origin_of_row(row_after),
                        },
                    );
                }
            },
            None => {},
        }
        Ok(())
    }
}

/// The Overview origin a main row shows.
fn origin_of_row(row: u8) -> (r: OverviewOrigin)
    requires
        row < crate::focus::PATCH_MAIN_ROW_COUNT,
    ensures
        r == row_origin(row),
{
    if row == 0 {
        OverviewOrigin::Engine
    } else {
        OverviewOrigin::EffectSlot(EffectSlotIndex::from_position(row - 1))
    }
}

/// Whether an accepted `event` clears the note of a repaired focus.
fn clears_focus_repair_of(event: &AppEvent) -> (r: bool)
    ensures
        r == clears_focus_repair(*event),
{
    match event {
        AppEvent::SelectContext(_) | AppEvent::SelectPatch(_) | AppEvent::Navigate(_) | AppEvent::Adjust(_)
        | AppEvent::SetInteractionMode(_) | AppEvent::OpenRelated | AppEvent::Activate | AppEvent::PreviewStart
        | AppEvent::PreviewStop | AppEvent::EnterSurface(_) | AppEvent::Return | AppEvent::SetSlotOccupancy { .. }
        | AppEvent::SetReturnOccupancy { .. } => true,
        _ => false,
    }
}

impl AppState {
    /// The note of the last repaired focus, until the next event that moves
    /// focus or edits structure.
    pub fn focus_repair_status(&self) -> (r: Option<FocusRepairStatus>)
        ensures
            r == self@.focus_repair,
    {
        self.focus_repair
    }
}

/// Whether the interaction mode withholds a user intent: directions navigate
/// only outside Adjust mode and adjust only inside it.
pub open spec fn semantic_action_gated(mode: InteractionMode, action: SemanticAction) -> bool {
    match action {
        SemanticAction::Navigate(_) => mode == InteractionMode::Adjust,
        SemanticAction::Adjust(_) => mode != InteractionMode::Adjust,
        _ => false,
    }
}


/// A probe Patch on `channel` with `config` and an empty chain.
fn probe_patch(id: u32, channel: u8, config: &InstrumentConfig) -> (r: Patch)
    requires
        id != 0,
        channel < MIDI_CHANNEL_COUNT,
    ensures
        r@.id@ == id,
        r@.instrument_config == config@,
        r@.effects == Seq::new(MAX_EFFECT_SLOTS as nat, |i: int| None::<EffectConfigView>),
{
    let r = Patch::new(
        PatchId::from_nonzero(id),
        owned_text("Reducer probe"),
        config.duplicate(),
        MidiChannel::from_index(channel),
        PatchOutput::to_track(MixerTrackId::from_index(channel)),
    );
    r
}

/// The rejection an event met, or `fallback` had it been accepted.
fn rejection_of(r: Result<ApplyOutcome, EventRejection>, fallback: EventRejection) -> (e: EventRejection)
    ensures
        r matches Err(x) ==> e == x,
{
    match r {
        Err(x) => x,
        Ok(_) => fallback,
    }
}

fn probe_too_many(capabilities: &CapabilityRegistry, instrument_config: &InstrumentConfig) -> (e: EventRejection)
    ensures
        e == EventRejection::TooManyPatches,
{
    let mut patches: Vec<Patch> = Vec::new();
    let mut id: u32 = 1;
    while id <= 17
        invariant
            1 <= id <= 18,
            patches@.len() == id - 1,
        decreases 18 - id,
    {
        patches.push(probe_patch(id, ((id - 1) % 16) as u8, instrument_config));
        id = id + 1;
    }
    let mut state = AppState::new(capabilities.duplicate());
    proof {
        assert(patch_views(patches@).len() == 17);
    }
    rejection_of(state.apply(AppEvent::InstallPatches(patches)), EventRejection::TooManyPatches)
}

fn probe_unknown_instrument(capabilities: &CapabilityRegistry) -> (e: EventRejection)
    requires
        descriptor_index(capabilities@, "instrument.unknown"@) is None,
    ensures
        e == EventRejection::InvalidInstrumentConfig,
{
    let unknown_id = CapabilityId::new("instrument.unknown");
    proof {
        reveal_strlit("instrument.unknown");
    }
    let config = InstrumentConfig::from_parts(unknown_id.unwrap(), Vec::new());
    let mut state = AppState::new(capabilities.duplicate());
    let patches = vec![probe_patch(1, 0, &config)];
    proof {
        assert(patch_views(patches@)[0].instrument_config == config@);
        assert(!config_valid(capabilities@, patch_views(patches@)[0].instrument_config));
    }
    rejection_of(state.apply(AppEvent::InstallPatches(patches)), EventRejection::InvalidInstrumentConfig)
}

fn probe_unknown_effect(capabilities: &CapabilityRegistry, instrument_config: &InstrumentConfig) -> (e: EventRejection)
    requires
        config_valid(capabilities@, instrument_config@),
    ensures
        e == EventRejection::InvalidEffectConfig,
{
    let unknown_effect = EffectCapabilityId::new("effect.unknown");
    proof {
        reveal_strlit("effect.unknown");
    }
    let slot = EffectSlotIndex::from_position(0);
    let effect_config = PostEffectConfig::from_parts(slot.instance_identity(), unknown_effect.unwrap());
    let mut patch = probe_patch(1, 0, instrument_config);
    let _ = patch.set_slot_occupancy(slot, Some(effect_config));
    let mut state = AppState::new(capabilities.duplicate());
    let ghost view = patch@;
    let patches = vec![patch];
    proof {
        assert(patch_views(patches@)[0] == view);
        assert(view.effects[0] is Some);
        assert(!slots_accepted_before(Seq::<Seq<char>>::empty(), view.effects, view.effects.len() as int));
    }
    rejection_of(state.apply(AppEvent::InstallPatches(patches)), EventRejection::InvalidEffectConfig)
}

fn probe_no_patch(capabilities: &CapabilityRegistry) -> (e: EventRejection)
    ensures
        e == EventRejection::NoPatchesInstalled,
{
    let mut state = AppState::new(capabilities.duplicate());
    rejection_of(state.apply(AppEvent::SelectContext(TopLevelContext::Patch)), EventRejection::NoPatchesInstalled)
}

fn probe_master_gain_row(capabilities: &CapabilityRegistry) -> (e: EventRejection)
    ensures
        e == EventRejection::InvalidSelection,
{
    let mut state = AppState::new(capabilities.duplicate());
    let _ = state.apply(AppEvent::Navigate(Direction::Down));
    let _ = state.apply(AppEvent::Navigate(Direction::Down));
    rejection_of(state.apply(AppEvent::Navigate(Direction::Left)), EventRejection::InvalidSelection)
}

fn probe_voice_limit(instrument_config: &InstrumentConfig) -> (e: EventRejection)
    ensures
        e == EventRejection::InvalidParameterValue,
{
    let mut patch = probe_patch(1, 0, instrument_config);
    match patch.set_voice_limit(0) {
        Err(_) => EventRejection::InvalidParameterValue,
        Ok(_) => EventRejection::InvalidParameterValue,
    }
}

#[verifier::rlimit(100)]
fn probe_request_overflow(capabilities: &CapabilityRegistry, instrument_config: &InstrumentConfig) -> (e:
    EventRejection)
    requires
        config_valid(capabilities@, instrument_config@),
    ensures
        e == EventRejection::RequestIdOverflow,
{
    let mut state = AppState::new(capabilities.duplicate());
    let patches = vec![probe_patch(1, 0, instrument_config)];
    proof {
        assert(patch_views(patches@)[0].instrument_config == instrument_config@);
        assert(patch_views(patches@)[0].effects[0] is None);
    }
    let _ = state.apply(AppEvent::InstallPatches(patches));
    proof {
        assert(state@.patches.len() == 1);
        assert(state@.interaction.patch_focus == Some(state@.patches[0].id));
        lemma_patch_index_of(state@.patches, state@.patches[0].id);
        assert(patch_focus_installed(state@));
        assert(state@.engine_selection.kind == EngineSelectionStatusKind::Ready);
    }
    let _ = state.apply(AppEvent::SelectContext(TopLevelContext::Patch));
    proof {
        assert(state@.interaction.context == TopLevelContext::Patch);
        assert(state@.interaction.utility_row is None);
        assert(state@.interaction.patch_row == 0);
        assert(state@.engine_selection.kind == EngineSelectionStatusKind::Ready);
    }
    state.last_engine_selection_request_id = EngineSelectionRequestId::new(u64::MAX).unwrap();
    rejection_of(state.apply(AppEvent::Adjust(Direction::Right)), EventRejection::RequestIdOverflow)
}

fn probe_generation_overflow(capabilities: &CapabilityRegistry) -> (e: EventRejection)
    ensures
        e == EventRejection::GenerationOverflow,
{
    let mut state = AppState::new(capabilities.duplicate());
    state.generation = u64::MAX;
    rejection_of(state.apply(AppEvent::Navigate(Direction::Down)), EventRejection::GenerationOverflow)
}

/// The rejections that cannot occur once the fixed scene has installed its
/// valid Patch set, each measured on an isolated state: too many Patches, an
/// unknown instrument, an unknown effect, PATCH before installation, a
/// horizontal move on the MIXER master-gain row, an out-of-range voice
/// limit, an exhausted request identity and an exhausted generation.
pub fn exercise_reducer_table_rejections(capabilities: &CapabilityRegistry, instrument_config: &InstrumentConfig) -> (r:
    Vec<EventRejection>)
    requires
        config_valid(capabilities@, instrument_config@),
        descriptor_index(capabilities@, "instrument.unknown"@) is None,
    ensures
        r@ == seq![
            EventRejection::TooManyPatches,
            EventRejection::InvalidInstrumentConfig,
            EventRejection::InvalidEffectConfig,
            EventRejection::NoPatchesInstalled,
            EventRejection::InvalidSelection,
            EventRejection::InvalidParameterValue,
            EventRejection::RequestIdOverflow,
            EventRejection::GenerationOverflow,
        ],
{
    let r = vec![
        probe_too_many(capabilities, instrument_config),
        probe_unknown_instrument(capabilities),
        probe_unknown_effect(capabilities, instrument_config),
        probe_no_patch(capabilities),
        probe_master_gain_row(capabilities),
        probe_voice_limit(instrument_config),
        probe_request_overflow(capabilities, instrument_config),
        probe_generation_overflow(capabilities),
    ];
    assert(r@ =~= seq![
        EventRejection::TooManyPatches,
        EventRejection::InvalidInstrumentConfig,
        EventRejection::InvalidEffectConfig,
        EventRejection::NoPatchesInstalled,
        EventRejection::InvalidSelection,
        EventRejection::InvalidParameterValue,
        EventRejection::RequestIdOverflow,
        EventRejection::GenerationOverflow,
    ]);
    r
}


/// The Patches subscribed to `channel`, in installation order.
pub open spec fn channel_subscribers(ps: Seq<PatchView>, channel: MidiChannel) -> Seq<PatchId>
    decreases ps.len(),
{
    if ps.len() == 0 {
        Seq::empty()
    } else {
        let before = channel_subscribers(ps.drop_last(), channel);
        if ps.last().channel == channel {
            before.push(ps.last().id)
        } else {
            before
        }
    }
}

impl AppState {
    /// Every installed Patch listening on `channel`, in installation order:
    /// one MIDI message fans out to each of them.
    pub fn midi_subscribers(&self, channel: MidiChannel) -> (r: Vec<PatchId>)
        ensures
            r@ == channel_subscribers(self@.patches, channel),
    {
        let ghost v = self@.patches;
        let mut r: Vec<PatchId> = Vec::new();
        let mut i: usize = 0;
        while i < self.patches.len()
            invariant
                v == patch_views(self.patches@),
                i <= v.len(),
                r@ == channel_subscribers(v.subrange(0, i as int), channel),
            decreases self.patches.len() - i,
        {
            let patch = &self.patches[i];
            proof {
                let prefix = v.subrange(0, i as int + 1);
                assert(prefix.drop_last() =~= v.subrange(0, i as int));
                assert(prefix.last() == patch@);
            }
            if patch.channel().same_as(channel) {
                r.push(patch.id());
            }
            i = i + 1;
        }
        proof {
            assert(v.subrange(0, v.len() as int) =~= v);
        }
        r
    }
}


impl AppState {
    /// The PATCH main order of the focused Patch: its enabled Overview
    /// origins, in order.
    pub fn focused_patch_controls(&self) -> (r: Result<Vec<PatchControlId>, EventRejection>)
        ensures
            match r {
                Ok(c) => self@.interaction.patch_focus is Some && c@ == enabled_rows_from(
                    disabled_flags(self@.disabled_origins, self@.interaction.patch_focus->0),
                    0,
                ),
                Err(e) => self@.interaction.patch_focus is None && e == EventRejection::NoPatchesInstalled,
            },
    {
        match self.interaction.patch_focus() {
            None => Err(EventRejection::NoPatchesInstalled),
            Some(f) => {
                let off = self.disabled_row_flags(f);
                Ok(enabled_main_controls(&off))
            },
        }
    }
}


impl AppState {
    /// The choice subject of the focused PATCH row.
    fn focused_row_subject(&self) -> (r: ChoiceSubject)
        ensures
            r == row_subject(self@.interaction),
    {
        match self.interaction.utility_row() {
            Some(_) => ChoiceSubject::OutputTrack,
            None => {
                let row = self.interaction.patch_row();
                if row == 0 {
                    ChoiceSubject::Engine
                } else {
                    ChoiceSubject::EffectSlot(EffectSlotIndex::from_position(row - 1))
                }
            },
        }
    }

    /// Whether `option` is a position of the choice list of `subject`.
    fn is_option(&self, subject: ChoiceSubject, option: usize) -> (r: bool)
        ensures
            r == (option < option_count(self@, subject)),
    {
        match subject {
            ChoiceSubject::Engine => option < self.capabilities.descriptors().len(),
            ChoiceSubject::EffectSlot(_) => option <= self.effects.len(),
            ChoiceSubject::OutputTrack => option < MIDI_CHANNEL_COUNT as usize,
        }
    }

    /// Whether the choice list of `subject` has a position after `option`.
    fn has_next_option(&self, subject: ChoiceSubject, option: usize) -> (r: bool)
        ensures
            r == (option + 1 < option_count(self@, subject)),
            r ==> option < usize::MAX,
    {
        match subject {
            ChoiceSubject::Engine => {
                let n = self.capabilities.descriptors().len();
                n > 0 && option < n - 1
            },
            ChoiceSubject::EffectSlot(_) => option < self.effects.len(),
            ChoiceSubject::OutputTrack => option < MIDI_CHANNEL_COUNT as usize - 1,
        }
    }

    /// The position of Patch `i`'s current option in the list of `subject`.
    fn current_choice_option(&self, subject: ChoiceSubject, i: usize) -> (r: usize)
        requires
            i < self@.patches.len(),
        ensures
            r == current_option(self@, subject, self@.patches[i as int]),
    {
        proof {
            assert(self@.patches[i as int] == self.patches@[i as int]@);
        }
        match subject {
            ChoiceSubject::Engine => match self.capabilities.position(self.patches[i].instrument_config().capability_id()) {
                Some(k) => k,
                None => 0,
            },
            ChoiceSubject::EffectSlot(slot) => match self.entry_at_slot(i, slot) {
                None => 0,
                Some(e) => {
                    let n = self.effects.len();
                    match self.effects.position(e) {
                        Some(k) => k + 1,
                        None => 0,
                    }
                },
            },
            ChoiceSubject::OutputTrack => self.patches[i].output().track_id().value() as usize,
        }
    }

    /// Opens the choice list of `subject` on the focused Patch.
    fn open_choice_list(&mut self, subject: ChoiceSubject) -> (r: Result<(), EventRejection>)
        requires
            state_wf(old(self)@),
            old(self)@.interaction.context == TopLevelContext::Patch,
        ensures
            quiet_view(r, final(self)@) == choice_opened(old(self)@, subject),
            r is Ok ==> state_wf(final(self)@),
    {
        let i = match self.focused_patch_index() {
            Some(i) => i,
            None => {
                return Err(EventRejection::NoPatchesInstalled);
            },
        };
        if !self.is_option(subject, 0) {
            return Err(EventRejection::ActionUnavailableInContext);
        }
        let option = self.current_choice_option(subject, i);
        self.interaction = self.interaction.open_choice(subject, option);
        Ok(())
    }

    /// Moves along the open choice list.
    fn navigate_choice(&mut self, direction: Direction) -> (r: Result<(), EventRejection>)
        requires
            state_wf(old(self)@),
            old(self)@.interaction.choice is Some,
        ensures
            quiet_view(r, final(self)@) == choice_navigated(old(self)@, direction),
            r is Ok ==> state_wf(final(self)@),
    {
        let c = self.interaction.choice().unwrap();
        let next = match direction {
            Direction::Left | Direction::Right => {
                return Err(EventRejection::ActionUnavailableInContext);
            },
            Direction::Up => {
                if c.option == 0 {
                    return Err(EventRejection::ActionUnavailableInContext);
                }
                c.option - 1
            },
            Direction::Down => {
                if !self.has_next_option(c.subject, c.option) {
                    return Err(EventRejection::ActionUnavailableInContext);
                }
                c.option + 1
            },
        };
        if !self.is_option(c.subject, next) {
            return Err(EventRejection::ActionUnavailableInContext);
        }
        self.interaction = self.interaction.with_choice_option(next);
        Ok(())
    }

    /// Requests engine `target` for the focused Patch at position `i`.
    fn request_engine_selection_to(&mut self, i: usize, target: CapabilityId) -> (r: Result<
        Option<EngineSelectionEffect>,
        EventRejection,
    >)
        requires
            state_wf(old(self)@),
            patch_focus_installed(old(self)@),
            i == patch_index_of(old(self)@.patches, old(self)@.interaction.patch_focus->0)->0,
            i < old(self)@.patches.len(),
        ensures
            step_view(r, final(self)@) == engine_requested_to(old(self)@, target@),
            r is Ok ==> state_wf(final(self)@),
    {
        if self.engine_selection.is_in_flight() {
            return Err(EventRejection::StructuralEditBusy);
        }
        let request_id = match self.last_engine_selection_request_id.checked_next() {
            Ok(id) => id,
            Err(_) => {
                return Err(EventRejection::RequestIdOverflow);
            },
        };
        let patch_id = self.interaction.patch_focus().unwrap();
        let source = self.patches[i].instrument_config().capability_id().duplicate();
        proof {
            assert(self@.patches[i as int] == self.patches@[i as int]@);
        }
        let intent = StructuralEditIntent::ReplaceCapability { target_capability_id: target.duplicate() };
        let status = match EngineSelectionStatus::preparing_with_intent(
            self.engine_selection.active_graph_revision(),
            request_id,
            patch_id,
            intent,
            source,
            target,
        ) {
            Ok(st) => st,
            Err(_) => {
                return Err(EventRejection::EngineSelectionUnavailable);
            },
        };
        self.commit_request(status, request_id, EventRejection::EngineSelectionUnavailable)
    }

    /// Activates the focused option of the open choice list: the current
    /// option only closes the list; another engine or occupant is requested;
    /// another output track is set. An accepted activation closes the list.
    fn activate_focused_subordinate(&mut self) -> (r: Result<Option<EngineSelectionEffect>, EventRejection>)
        requires
            state_wf(old(self)@),
        ensures
            step_view(r, final(self)@) == choice_activated(old(self)@),
            r is Ok ==> state_wf(final(self)@),
    {
        let c = match self.interaction.choice() {
            None => {
                return Err(EventRejection::ActionUnavailableInContext);
            },
            Some(c) => c,
        };
        let i = match self.focused_patch_index() {
            None => {
                return Err(EventRejection::NoPatchesInstalled);
            },
            Some(i) => i,
        };
        if !self.is_option(c.subject, c.option) {
            return Err(EventRejection::InvalidSelection);
        }
        if c.option == self.current_choice_option(c.subject, i) {
            self.interaction = self.interaction.close_choice();
            return Ok(None);
        }
        let effect = match c.subject {
            ChoiceSubject::Engine => {
                let target = self.capabilities.descriptors()[c.option].id().duplicate();
                self.request_engine_selection_to(i, target)?
            },
            ChoiceSubject::EffectSlot(slot) => {
                let entry = if c.option == 0 {
                    None
                } else {
                    Some(self.effects.id_at(c.option - 1).duplicate())
                };
                let patch_id = self.interaction.patch_focus().unwrap();
                self.request_slot_occupancy(patch_id, slot, entry)?
            },
            ChoiceSubject::OutputTrack => {
                let mut p = self.patches[i].duplicate();
                p.set_output(PatchOutput::to_track(MixerTrackId::from_index(c.option as u8)));
                self.replace_patch(i, p);
                None
            },
        };
        self.interaction = self.interaction.close_choice();
        Ok(effect)
    }
}

} // verus!
