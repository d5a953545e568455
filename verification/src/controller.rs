use vstd::prelude::*;
use vstd::string::StringExecFns;
use crate::effort::EffortLevel;
use crate::preset::ModelSelectionResult;
use crate::preset::Preset;
use crate::preset::ReasoningOption;
use crate::preset::SupportedEffort;
use crate::preset::build_reasoning_options;
use crate::preset::find_effort;
use crate::preset::initial_option_index;
use crate::preset::lemma_initial_option_index_in_range;
use crate::preset::lemma_options_effort_seq;
use crate::preset::reasoning_options_ok;
use crate::preset::same_preset_data;
use crate::scroll::ScrollState;
use crate::scroll::adjusted_offset;
use crate::scroll::window_ok;

verus! {

/// Overall progress of the onboarding step. Exactly one value holds at a
/// time and governs which keys are accepted and what is rendered.
pub enum Status {
    Hidden,
    AwaitingPrerequisite,
    Loading,
    Ready,
    Saving,
    Complete,
    Failed(String),
}

/// Transient state of the reasoning-effort picker: which preset is being
/// configured, the options built for it, the highlighted option, and its own
/// scroll state.
pub struct ReasoningStageState {
    pub preset_index: usize,
    pub options: Vec<ReasoningOption>,
    pub selected_index: usize,
    pub scroll: ScrollState,
}

/// Which of the two sequential pickers is active. Moving between stages
/// replaces the reasoning stage's transient state wholesale.
pub enum SelectionStage {
    ModelList,
    Reasoning(ReasoningStageState),
}

/// What the host must hand to the configuration writer: the index of the
/// chosen preset, its model identifier, and the chosen effort.
pub struct SaveRequest {
    pub preset_index: usize,
    pub model: String,
    pub effort: Option<EffortLevel>,
}

/// How the surrounding onboarding sequence sees this step.
#[derive(Clone, Copy, PartialEq, Eq, Structural, Debug)]
pub enum StepState {
    Hidden,
    InProgress,
    Complete,
}

/// The step state that each status maps to.
pub open spec fn step_state_of(s: Status) -> StepState {
    match s {
        Status::Hidden => StepState::Hidden,
        Status::AwaitingPrerequisite => StepState::Hidden,
        Status::Loading => StepState::InProgress,
        Status::Ready => StepState::InProgress,
        Status::Saving => StepState::InProgress,
        Status::Failed(_) => StepState::InProgress,
        Status::Complete => StepState::Complete,
    }
}

/// The message stored when the catalog fetch succeeds but is empty.
pub open spec fn empty_catalog_message() -> Seq<char> {
    "no models available"@
}

/// Which way a highlight move goes.
#[derive(Clone, Copy, PartialEq, Eq, Structural, Debug)]
pub enum MoveDirection {
    Up,
    Down,
}

/// How far a highlight move goes: one row, or one page of visible rows.
#[derive(Clone, Copy, PartialEq, Eq, Structural, Debug)]
pub enum StepKind {
    Single,
    Page,
}

/// The index after one wrapping single step: up from the first row lands on
/// the last, down from the last lands on the first.
pub open spec fn wrap_next(i: nat, len: nat, dir: MoveDirection) -> nat
    recommends
        len > 0,
        i < len,
{
    match dir {
        MoveDirection::Down => if i + 1 == len {
            0
        } else {
            i + 1
        },
        MoveDirection::Up => if i == 0 {
            (len - 1) as nat
        } else {
            (i - 1) as nat
        },
    }
}

/// The index after `k` wrapping single steps in one direction.
pub open spec fn wrap_iter(i: nat, len: nat, dir: MoveDirection, k: nat) -> nat
    decreases k,
{
    if k == 0 {
        i
    } else {
        wrap_next(wrap_iter(i, len, dir, (k - 1) as nat), len, dir)
    }
}

proof fn lemma_wrap_iter_down(i: nat, len: nat, k: nat)
    requires
        len > 0,
        i < len,
        k <= len,
    ensures
        wrap_iter(i, len, MoveDirection::Down, k) == if i + k < len {
            i + k
        } else {
            (i + k - len) as nat
        },
    decreases k,
{
    if k > 0 {
        lemma_wrap_iter_down(i, len, (k - 1) as nat);
    }
}

proof fn lemma_wrap_iter_up(i: nat, len: nat, k: nat)
    requires
        len > 0,
        i < len,
        k <= len,
    ensures
        wrap_iter(i, len, MoveDirection::Up, k) == if i >= k {
            (i - k) as nat
        } else {
            (i + len - k) as nat
        },
    decreases k,
{
    if k > 0 {
        lemma_wrap_iter_up(i, len, (k - 1) as nat);
    }
}

/// Law: on a non-empty list of length `len`, `len` wrapping single steps in
/// one direction return the highlight to the index it started from.
pub proof fn lemma_wrap_roundtrip(i: nat, len: nat, dir: MoveDirection)
    requires
        len > 0,
        i < len,
    ensures
        wrap_iter(i, len, dir, len) == i,
{
    match dir {
        MoveDirection::Down => lemma_wrap_iter_down(i, len, len),
        MoveDirection::Up => lemma_wrap_iter_up(i, len, len),
    }
}

/// The index after a page move: the highlight shifts by one page of visible
/// rows and is clamped to the ends of the list; page moves never wrap.
pub open spec fn page_target(i: nat, len: nat, capacity: nat, dir: MoveDirection) -> nat
    recommends
        len > 0,
        i < len,
{
    let vis = crate::scroll::effective_capacity(capacity);
    match dir {
        MoveDirection::Down => if i + vis >= len {
            (len - 1) as nat
        } else {
            i + vis
        },
        MoveDirection::Up => if i >= vis {
            (i - vis) as nat
        } else {
            0
        },
    }
}

/// The controller of the two-stage selection flow. It owns every piece of
/// state; the host performs the fetch, the durable write and the drawing,
/// and reports their outcomes back.
pub struct SelectionController {
    pub presets: Vec<Preset>,
    pub selected_index: usize,
    pub status: Status,
    pub selection_result: Option<ModelSelectionResult>,
    pub stage: SelectionStage,
    pub scroll: ScrollState,
    pub current_model: String,
    pub current_effort: Option<EffortLevel>,
    pub pending_save: Option<SaveRequest>,
    pub frame_requested: bool,
}

impl SelectionController {
    /// Well-formedness: the highlight always names a stored preset, the
    /// reasoning stage always points into the catalog and its option list,
    /// and a save is pending exactly while the status is `Saving`.
    pub open spec fn inv(self) -> bool {
        &&& self.presets@.len() == 0 ==> self.selected_index == 0
        &&& self.presets@.len() > 0 ==> self.selected_index < self.presets@.len()
        &&& match self.stage {
            SelectionStage::ModelList => true,
            SelectionStage::Reasoning(st) => {
                &&& st.preset_index < self.presets@.len()
                &&& st.options@.len() > 0
                &&& st.selected_index < st.options@.len()
            },
        }
        &&& (self.pending_save matches Some(req) ==> req.preset_index < self.presets@.len())
        &&& ((self.status is Saving) <==> (self.pending_save is Some))
    }

    /// Everything except the status and the redraw flag is unchanged.
    pub open spec fn same_but_status(pre: Self, post: Self) -> bool {
        &&& post.presets == pre.presets
        &&& post.selected_index == pre.selected_index
        &&& post.stage == pre.stage
        &&& post.scroll == pre.scroll
        &&& post.current_model == pre.current_model
        &&& post.current_effort == pre.current_effort
        &&& post.selection_result == pre.selection_result
        &&& post.pending_save == pre.pending_save
    }

    /// Construct the controller from a snapshot of the current
    /// configuration. When the active provider is not handled by this step
    /// the step stays hidden; when its prerequisites are not satisfied yet
    /// the step waits for them; otherwise a catalog fetch is due at once,
    /// which the host performs on seeing the `Loading` status.
    pub fn new(
        provider_active: bool,
        prerequisites_satisfied: bool,
        current_model: String,
        current_effort: Option<EffortLevel>,
    ) -> (c: SelectionController)
        ensures
            c.inv(),
            c.presets@.len() == 0,
            c.selected_index == 0,
            c.status == (if !provider_active {
                Status::Hidden
            } else if !prerequisites_satisfied {
                Status::AwaitingPrerequisite
            } else {
                Status::Loading
            }),
            c.selection_result is None,
            c.stage is ModelList,
            c.scroll == (ScrollState { offset: 0, capacity: 1 }),
            c.current_model == current_model,
            c.current_effort == current_effort,
            c.pending_save is None,
            c.frame_requested == (provider_active && prerequisites_satisfied),
    {
        let status = if !provider_active {
            Status::Hidden
        } else if !prerequisites_satisfied {
            Status::AwaitingPrerequisite
        } else {
            Status::Loading
        };
        let frame_requested = provider_active && prerequisites_satisfied;
        SelectionController {
            presets: Vec::new(),
            selected_index: 0,
            status,
            selection_result: None,
            stage: SelectionStage::ModelList,
            scroll: ScrollState::new(),
            current_model,
            current_effort,
            pending_save: None,
            frame_requested,
        }
    }

    /// Prerequisites became available: a step that was waiting for them
    /// moves to `Loading` (the host then fetches); any other status is left
    /// alone, so the call is idempotent.
    pub fn credentials_ready(&mut self)
        requires
            old(self).inv(),
        ensures
            final(self).inv(),
            old(self).status is AwaitingPrerequisite ==> {
                &&& final(self).status is Loading
                &&& final(self).frame_requested
                &&& Self::same_but_status(*old(self), *final(self))
            },
            !(old(self).status is AwaitingPrerequisite) ==> *final(self) == *old(self),
    {
        if matches!(self.status, Status::AwaitingPrerequisite) {
            self.status = Status::Loading;
            self.frame_requested = true;
        }
    }

    /// The outcome of the catalog fetch the host performed. Accepted only
    /// while the status is `Loading`, so stale or duplicated fetches cannot
    /// clobber a later state. A non-empty catalog is stored in the given
    /// order with the currently active model marked by identifier, and the
    /// highlight, the scroll and the stage are reset; an empty catalog and a
    /// fetch error both fail the step with a message.
    pub fn load_presets(&mut self, fetched: Result<Vec<Preset>, String>)
        requires
            old(self).inv(),
        ensures
            final(self).inv(),
            !(old(self).status is Loading) ==> *final(self) == *old(self),
            old(self).status is Loading ==> match fetched {
                Result::Ok(v) => {
                    if v@.len() > 0 {
                        &&& final(self).presets@.len() == v@.len()
                        &&& forall|i: int|
                            0 <= i < v@.len() ==> same_preset_data(
                                #[trigger] final(self).presets@[i],
                                v@[i],
                            )
                        &&& forall|i: int|
                            0 <= i < v@.len() ==> (#[trigger] final(self).presets@[i]).is_default
                                == (v@[i].model@ == old(self).current_model@)
                        &&& final(self).selected_index == 0
                        &&& final(self).stage is ModelList
                        &&& final(self).scroll == (ScrollState { offset: 0, capacity: 1 })
                        &&& final(self).status is Ready
                        &&& final(self).frame_requested
                        &&& final(self).current_model == old(self).current_model
                        &&& final(self).current_effort == old(self).current_effort
                        &&& final(self).selection_result == old(self).selection_result
                        &&& final(self).pending_save == old(self).pending_save
                    } else {
                        &&& final(self).status matches Status::Failed(m) && m@
                            == empty_catalog_message()
                        &&& final(self).frame_requested
                        &&& Self::same_but_status(*old(self), *final(self))
                    }
                },
                Result::Err(e) => {
                    &&& final(self).status == Status::Failed(e)
                    &&& final(self).frame_requested
                    &&& Self::same_but_status(*old(self), *final(self))
                },
            },
    {
        if !matches!(self.status, Status::Loading) {
            return;
        }
        match fetched {
            Result::Ok(v) => {
                if v.len() == 0 {
                    self.status = Status::Failed(String::from_str("no models available"));
                    self.frame_requested = true;
                    return;
                }
                self.presets = mark_active(v, &self.current_model);
                self.selected_index = 0;
                self.scroll = ScrollState::new();
                self.stage = SelectionStage::ModelList;
                self.status = Status::Ready;
                self.frame_requested = true;
            },
            Result::Err(e) => {
                self.status = Status::Failed(e);
                self.frame_requested = true;
            },
        }
    }

    /// What dismissing a failure does: the step completes without ever
    /// having produced a result, which the caller must read as "the user
    /// skipped the selection". Any other status is left alone.
    pub open spec fn dismiss_rel(pre: Self, post: Self) -> bool {
        if pre.status is Failed {
            &&& post.status is Complete
            &&& post.frame_requested
            &&& Self::same_but_status(pre, post)
        } else {
            post == pre
        }
    }

    /// Dismiss a failure.
    pub fn dismiss_error(&mut self)
        requires
            old(self).inv(),
        ensures
            final(self).inv(),
            Self::dismiss_rel(*old(self), *final(self)),
    {
        if matches!(self.status, Status::Failed(_)) {
            self.status = Status::Complete;
            self.frame_requested = true;
        }
    }

    /// How the surrounding onboarding sequence should treat this step.
    pub fn get_step_state(&self) -> (r: StepState)
        ensures
            r == step_state_of(self.status),
    {
        match &self.status {
            Status::Hidden => StepState::Hidden,
            Status::AwaitingPrerequisite => StepState::Hidden,
            Status::Loading => StepState::InProgress,
            Status::Ready => StepState::InProgress,
            Status::Saving => StepState::InProgress,
            Status::Failed(_) => StepState::InProgress,
            Status::Complete => StepState::Complete,
        }
    }

    /// The final choice, if a save has completed. A `Complete` status with
    /// no result means the user skipped the step.
    pub fn selection(&self) -> (r: Option<ModelSelectionResult>)
        ensures
            r == self.selection_result,
    {
        match &self.selection_result {
            Option::None => None,
            Option::Some(res) => Some(res.duplicate()),
        }
    }

    /// Drain the redraw request: returns whether visible state changed since
    /// the last drain, and clears the flag.
    pub fn take_frame_request(&mut self) -> (r: bool)
        requires
            old(self).inv(),
        ensures
            final(self).inv(),
            r == old(self).frame_requested,
            !final(self).frame_requested,
            Self::same_but_status(*old(self), *final(self)),
            final(self).status == old(self).status,
    {
        let r = self.frame_requested;
        self.frame_requested = false;
        r
    }

    /// Which statuses accept a highlight move: single steps are also allowed
    /// while the step has failed, so a prior listing is not thrown away; page
    /// moves only while it is ready.
    pub open spec fn move_accepted(self, kind: StepKind) -> bool {
        match kind {
            StepKind::Single => self.status is Ready || self.status is Failed,
            StepKind::Page => self.status is Ready,
        }
    }

    /// A move applies to the model list: accepted status, model-list stage,
    /// and a non-empty catalog.
    pub open spec fn model_move_applies(pre: Self, kind: StepKind) -> bool {
        &&& pre.move_accepted(kind)
        &&& pre.stage is ModelList
        &&& pre.presets@.len() > 0
    }

    /// A move applies to the reasoning list: accepted status and reasoning
    /// stage.
    pub open spec fn reasoning_move_applies(pre: Self, kind: StepKind) -> bool {
        &&& pre.move_accepted(kind)
        &&& pre.stage is Reasoning
    }

    /// The number of reasoning options, when the reasoning stage is active.
    pub open spec fn reasoning_len(self) -> nat {
        match self.stage {
            SelectionStage::ModelList => 0,
            SelectionStage::Reasoning(st) => st.options@.len(),
        }
    }

    /// The highlighted reasoning option, when the reasoning stage is active.
    pub open spec fn reasoning_selected(self) -> nat {
        match self.stage {
            SelectionStage::ModelList => 0,
            SelectionStage::Reasoning(st) => st.selected_index as nat,
        }
    }

    /// The cached reasoning-list row capacity, when that stage is active.
    pub open spec fn reasoning_capacity(self) -> nat {
        match self.stage {
            SelectionStage::ModelList => 0,
            SelectionStage::Reasoning(st) => st.scroll.capacity as nat,
        }
    }

    /// A completed model-list move: the highlight landed on `new_index`, the
    /// window was nudged just enough to keep it visible, a redraw is due, and
    /// nothing else changed.
    pub open spec fn model_move_post(pre: Self, post: Self, new_index: nat) -> bool {
        &&& post.selected_index as nat == new_index
        &&& post.scroll.capacity == pre.scroll.capacity
        &&& post.scroll.offset as nat == adjusted_offset(
            pre.scroll.offset as nat,
            pre.presets@.len(),
            pre.scroll.capacity as nat,
            new_index,
        )
        &&& window_ok(post.scroll, pre.presets@.len(), new_index)
        &&& post.frame_requested
        &&& post.presets == pre.presets
        &&& post.stage == pre.stage
        &&& post.status == pre.status
        &&& post.selection_result == pre.selection_result
        &&& post.current_model == pre.current_model
        &&& post.current_effort == pre.current_effort
        &&& post.pending_save == pre.pending_save
    }

    /// A completed reasoning-list move, stated the same way for the
    /// reasoning stage's own highlight and scroll state.
    pub open spec fn reasoning_move_post(pre: Self, post: Self, new_index: nat) -> bool {
        &&& pre.stage matches SelectionStage::Reasoning(st) ==> (
        post.stage matches SelectionStage::Reasoning(st2) && {
            &&& st2.preset_index == st.preset_index
            &&& st2.options == st.options
            &&& st2.selected_index as nat == new_index
            &&& st2.scroll.capacity == st.scroll.capacity
            &&& st2.scroll.offset as nat == adjusted_offset(
                st.scroll.offset as nat,
                st.options@.len(),
                st.scroll.capacity as nat,
                new_index,
            )
            &&& window_ok(st2.scroll, st.options@.len(), new_index)
        })
        &&& post.frame_requested
        &&& post.presets == pre.presets
        &&& post.selected_index == pre.selected_index
        &&& post.scroll == pre.scroll
        &&& post.status == pre.status
        &&& post.selection_result == pre.selection_result
        &&& post.current_model == pre.current_model
        &&& post.current_effort == pre.current_effort
        &&& post.pending_save == pre.pending_save
    }

    /// What one single step does, whichever stage is active: a wrapping move
    /// of the active highlight, or nothing when no list accepts it.
    pub open spec fn single_move_rel(pre: Self, post: Self, dir: MoveDirection) -> bool {
        if Self::model_move_applies(pre, StepKind::Single) {
            Self::model_move_post(
                pre,
                post,
                wrap_next(pre.selected_index as nat, pre.presets@.len(), dir),
            )
        } else if Self::reasoning_move_applies(pre, StepKind::Single) {
            Self::reasoning_move_post(
                pre,
                post,
                wrap_next(pre.reasoning_selected(), pre.reasoning_len(), dir),
            )
        } else {
            post == pre
        }
    }

    /// What one page step does, whichever stage is active: a clamped move by
    /// the active list's visible capacity, or nothing when not accepted.
    pub open spec fn page_move_rel(pre: Self, post: Self, dir: MoveDirection) -> bool {
        if Self::model_move_applies(pre, StepKind::Page) {
            Self::model_move_post(
                pre,
                post,
                page_target(
                    pre.selected_index as nat,
                    pre.presets@.len(),
                    pre.scroll.capacity as nat,
                    dir,
                ),
            )
        } else if Self::reasoning_move_applies(pre, StepKind::Page) {
            Self::reasoning_move_post(
                pre,
                post,
                page_target(
                    pre.reasoning_selected(),
                    pre.reasoning_len(),
                    pre.reasoning_capacity(),
                    dir,
                ),
            )
        } else {
            post == pre
        }
    }

    /// One wrapping single step of the model-list highlight.
    pub fn move_model_selection(&mut self, dir: MoveDirection)
        requires
            old(self).inv(),
        ensures
            final(self).inv(),
            Self::model_move_applies(*old(self), StepKind::Single) ==> Self::model_move_post(
                *old(self),
                *final(self),
                wrap_next(old(self).selected_index as nat, old(self).presets@.len(), dir),
            ),
            !Self::model_move_applies(*old(self), StepKind::Single) ==> *final(self) == *old(self),
    {
        if !matches!(self.status, Status::Ready | Status::Failed(_)) {
            return;
        }
        if !matches!(self.stage, SelectionStage::ModelList) {
            return;
        }
        let len = self.presets.len();
        if len == 0 {
            return;
        }
        let next = match dir {
            MoveDirection::Down => if self.selected_index + 1 == len {
                0
            } else {
                self.selected_index + 1
            },
            MoveDirection::Up => if self.selected_index == 0 {
                len - 1
            } else {
                self.selected_index - 1
            },
        };
        self.selected_index = next;
        self.scroll.adjust(len, next);
        self.frame_requested = true;
    }

    /// One clamped page step of the model-list highlight.
    pub fn move_model_selection_page(&mut self, dir: MoveDirection)
        requires
            old(self).inv(),
        ensures
            final(self).inv(),
            Self::model_move_applies(*old(self), StepKind::Page) ==> Self::model_move_post(
                *old(self),
                *final(self),
                page_target(
                    old(self).selected_index as nat,
                    old(self).presets@.len(),
                    old(self).scroll.capacity as nat,
                    dir,
                ),
            ),
            !Self::model_move_applies(*old(self), StepKind::Page) ==> *final(self) == *old(self),
    {
        if !matches!(self.status, Status::Ready) {
            return;
        }
        if !matches!(self.stage, SelectionStage::ModelList) {
            return;
        }
        let len = self.presets.len();
        if len == 0 {
            return;
        }
        let vis = if self.scroll.capacity == 0 {
            1
        } else {
            self.scroll.capacity
        };
        let next = match dir {
            MoveDirection::Down => if vis >= len - self.selected_index {
                len - 1
            } else {
                self.selected_index + vis
            },
            MoveDirection::Up => if self.selected_index >= vis {
                self.selected_index - vis
            } else {
                0
            },
        };
        self.selected_index = next;
        self.scroll.adjust(len, next);
        self.frame_requested = true;
    }

    /// One wrapping single step of the reasoning-list highlight.
    pub fn move_reasoning_selection(&mut self, dir: MoveDirection)
        requires
            old(self).inv(),
        ensures
            final(self).inv(),
            Self::reasoning_move_applies(*old(self), StepKind::Single)
                ==> Self::reasoning_move_post(
                *old(self),
                *final(self),
                wrap_next(old(self).reasoning_selected(), old(self).reasoning_len(), dir),
            ),
            !Self::reasoning_move_applies(*old(self), StepKind::Single) ==> *final(self) == *old(
                self,
            ),
    {
        if !matches!(self.status, Status::Ready | Status::Failed(_)) {
            return;
        }
        let mut stage = SelectionStage::ModelList;
        core::mem::swap(&mut stage, &mut self.stage);
        match stage {
            SelectionStage::ModelList => {
                self.stage = SelectionStage::ModelList;
            },
            SelectionStage::Reasoning(mut st) => {
                let len = st.options.len();
                let next = match dir {
                    MoveDirection::Down => if st.selected_index + 1 == len {
                        0
                    } else {
                        st.selected_index + 1
                    },
                    MoveDirection::Up => if st.selected_index == 0 {
                        len - 1
                    } else {
                        st.selected_index - 1
                    },
                };
                st.selected_index = next;
                st.scroll.adjust(len, next);
                self.stage = SelectionStage::Reasoning(st);
                self.frame_requested = true;
            },
        }
    }

    /// One clamped page step of the reasoning-list highlight.
    pub fn move_reasoning_selection_page(&mut self, dir: MoveDirection)
        requires
            old(self).inv(),
        ensures
            final(self).inv(),
            Self::reasoning_move_applies(*old(self), StepKind::Page) ==> Self::reasoning_move_post(
                *old(self),
                *final(self),
                page_target(
                    old(self).reasoning_selected(),
                    old(self).reasoning_len(),
                    old(self).reasoning_capacity(),
                    dir,
                ),
            ),
            !Self::reasoning_move_applies(*old(self), StepKind::Page) ==> *final(self) == *old(
                self,
            ),
    {
        if !matches!(self.status, Status::Ready) {
            return;
        }
        let mut stage = SelectionStage::ModelList;
        core::mem::swap(&mut stage, &mut self.stage);
        match stage {
            SelectionStage::ModelList => {
                self.stage = SelectionStage::ModelList;
            },
            SelectionStage::Reasoning(mut st) => {
                let len = st.options.len();
                let vis = if st.scroll.capacity == 0 {
                    1
                } else {
                    st.scroll.capacity
                };
                let next = match dir {
                    MoveDirection::Down => if vis >= len - st.selected_index {
                        len - 1
                    } else {
                        st.selected_index + vis
                    },
                    MoveDirection::Up => if st.selected_index >= vis {
                        st.selected_index - vis
                    } else {
                        0
                    },
                };
                st.selected_index = next;
                st.scroll.adjust(len, next);
                self.stage = SelectionStage::Reasoning(st);
                self.frame_requested = true;
            },
        }
    }

    /// Move the highlight of whichever list is active: a single step wraps
    /// around the ends, a page step is clamped to them.
    pub fn move_highlight(&mut self, dir: MoveDirection, kind: StepKind)
        requires
            old(self).inv(),
        ensures
            final(self).inv(),
            kind is Single ==> Self::single_move_rel(*old(self), *final(self), dir),
            kind is Page ==> Self::page_move_rel(*old(self), *final(self), dir),
    {
        let in_model_list = matches!(self.stage, SelectionStage::ModelList);
        match kind {
            StepKind::Single => {
                if in_model_list {
                    self.move_model_selection(dir);
                } else {
                    self.move_reasoning_selection(dir);
                }
            },
            StepKind::Page => {
                if in_model_list {
                    self.move_model_selection_page(dir);
                } else {
                    self.move_reasoning_selection_page(dir);
                }
            },
        }
    }

    /// What entering the reasoning stage does: on a non-empty model list it
    /// resolves the highlighted preset (clamped defensively), builds that
    /// preset's option list, highlights the initial option by priority
    /// (configured effort of the active model, then the preset's declared
    /// default, then the first option), and starts the stage with a fresh
    /// scroll; otherwise nothing happens.
    pub open spec fn begin_reasoning_rel(pre: Self, post: Self) -> bool {
        if pre.stage is ModelList && pre.presets@.len() > 0 {
            &&& (post.stage matches SelectionStage::Reasoning(st) && {
                let pi = if pre.selected_index < pre.presets@.len() {
                    pre.selected_index as int
                } else {
                    pre.presets@.len() - 1
                };
                let p = pre.presets@[pi];
                &&& st.preset_index as int == pi
                &&& reasoning_options_ok(p, st.options@)
                &&& st.selected_index as nat == initial_option_index(
                    p,
                    pre.current_model@,
                    pre.current_effort,
                )
                &&& st.scroll.offset == 0
                &&& st.scroll.capacity == 0
            })
            &&& post.frame_requested
            &&& post.presets == pre.presets
            &&& post.selected_index == pre.selected_index
            &&& post.scroll == pre.scroll
            &&& post.status == pre.status
            &&& post.selection_result == pre.selection_result
            &&& post.current_model == pre.current_model
            &&& post.current_effort == pre.current_effort
            &&& post.pending_save == pre.pending_save
        } else {
            post == pre
        }
    }

    /// Enter the reasoning stage for the highlighted preset.
    pub fn begin_reasoning_stage(&mut self)
        requires
            old(self).inv(),
        ensures
            final(self).inv(),
            Self::begin_reasoning_rel(*old(self), *final(self)),
    {
        if !matches!(self.stage, SelectionStage::ModelList) {
            return;
        }
        if self.presets.len() == 0 {
            return;
        }
        let preset_index = if self.selected_index < self.presets.len() {
            self.selected_index
        } else {
            self.presets.len() - 1
        };
        let preset = &self.presets[preset_index];
        let options = build_reasoning_options(preset);
        let target = if preset.model == self.current_model {
            self.current_effort
        } else {
            Some(preset.default_reasoning_effort)
        };
        let default_effort = Some(preset.default_reasoning_effort);
        let selected_index = match find_effort(&options, target) {
            Some(i) => i,
            None => match find_effort(&options, default_effort) {
                Some(i) => i,
                None => 0,
            },
        };
        proof {
            let p = self.presets@[preset_index as int];
            lemma_options_effort_seq(p, options@);
            lemma_initial_option_index_in_range(p, self.current_model@, self.current_effort);
        }
        self.stage = SelectionStage::Reasoning(
            ReasoningStageState {
                preset_index,
                options,
                selected_index,
                scroll: ScrollState { offset: 0, capacity: 0 },
            },
        );
        self.frame_requested = true;
    }

    /// What leaving the reasoning stage does: back to the model list, the
    /// stage's transient state discarded wholesale, everything else kept.
    pub open spec fn exit_reasoning_rel(pre: Self, post: Self) -> bool {
        if pre.stage is Reasoning {
            &&& post.stage is ModelList
            &&& post.frame_requested
            &&& post.presets == pre.presets
            &&& post.selected_index == pre.selected_index
            &&& post.scroll == pre.scroll
            &&& post.status == pre.status
            &&& post.selection_result == pre.selection_result
            &&& post.current_model == pre.current_model
            &&& post.current_effort == pre.current_effort
            &&& post.pending_save == pre.pending_save
        } else {
            post == pre
        }
    }

    /// Leave the reasoning stage without confirming.
    pub fn exit_reasoning_stage(&mut self)
        requires
            old(self).inv(),
        ensures
            final(self).inv(),
            Self::exit_reasoning_rel(*old(self), *final(self)),
    {
        if matches!(self.stage, SelectionStage::Reasoning(_)) {
            self.stage = SelectionStage::ModelList;
            self.frame_requested = true;
        }
    }

    /// Law: entering the reasoning stage, leaving it without confirming, and
    /// entering it again highlights the same option as the first entry did.
    /// The initial highlight is a function of the resolved preset and the
    /// current configuration alone, and leaving the stage touches neither,
    /// so the rebuilt stage starts where the discarded one started.
    pub proof fn lemma_reenter_reasoning_same_index(
        pre1: Self,
        post1: Self,
        pre2: Self,
        post2: Self,
    )
        requires
            Self::begin_reasoning_rel(pre1, post1),
            Self::begin_reasoning_rel(pre2, post2),
            pre1.stage is ModelList,
            pre1.presets@.len() > 0,
            pre2.stage is ModelList,
            pre2.presets@ == pre1.presets@,
            pre2.selected_index == pre1.selected_index,
            pre2.current_model@ == pre1.current_model@,
            pre2.current_effort == pre1.current_effort,
        ensures
            post1.stage is Reasoning,
            post2.stage is Reasoning,
            post2.reasoning_selected() == post1.reasoning_selected(),
    {
    }

    /// A save can start: the preset exists and no save is in flight.
    pub open spec fn save_applies(pre: Self, preset_index: int) -> bool {
        &&& 0 <= preset_index < pre.presets@.len()
        &&& pre.pending_save is None
    }

    /// What starting a save does: the status turns to `Saving`, the request
    /// the host must persist is recorded and returned, and everything else
    /// waits untouched for the outcome. A save of a preset that does not
    /// exist, or while another save is in flight, is rejected.
    pub open spec fn save_rel(
        pre: Self,
        post: Self,
        preset_index: int,
        effort: Option<EffortLevel>,
        r: Option<SaveRequest>,
    ) -> bool {
        if Self::save_applies(pre, preset_index) {
            &&& (r matches Some(req) && {
                &&& req.preset_index as int == preset_index
                &&& req.model == pre.presets@[preset_index].model
                &&& req.effort == effort
            })
            &&& post.pending_save == r
            &&& post.status is Saving
            &&& post.frame_requested
            &&& post.presets == pre.presets
            &&& post.selected_index == pre.selected_index
            &&& post.stage == pre.stage
            &&& post.scroll == pre.scroll
            &&& post.selection_result == pre.selection_result
            &&& post.current_model == pre.current_model
            &&& post.current_effort == pre.current_effort
        } else {
            post == pre && r is None
        }
    }

    /// Start saving the given preset with the given effort. The returned
    /// request must be handed to the configuration writer; its outcome comes
    /// back through `apply_save_result`.
    pub fn save_selection(&mut self, preset_index: usize, effort: Option<EffortLevel>) -> (r:
        Option<SaveRequest>)
        requires
            old(self).inv(),
        ensures
            final(self).inv(),
            Self::save_rel(*old(self), *final(self), preset_index as int, effort, r),
    {
        if preset_index >= self.presets.len() {
            return None;
        }
        if self.pending_save.is_some() {
            return None;
        }
        let model = self.presets[preset_index].model.clone();
        let request = SaveRequest { preset_index, model: model.clone(), effort };
        self.pending_save = Some(SaveRequest { preset_index, model, effort });
        self.status = Status::Saving;
        self.frame_requested = true;
        Some(request)
    }

    /// A confirmation is accepted: ready status, reasoning stage.
    pub open spec fn confirm_applies(pre: Self) -> bool {
        &&& pre.status is Ready
        &&& pre.stage is Reasoning
    }

    /// What confirming the highlighted reasoning option does: it starts the
    /// save of the stage's preset with the highlighted option's effort.
    pub open spec fn confirm_rel(pre: Self, post: Self, r: Option<SaveRequest>) -> bool {
        if Self::confirm_applies(pre) {
            pre.stage matches SelectionStage::Reasoning(st) && Self::save_rel(
                pre,
                post,
                st.preset_index as int,
                st.options@[st.selected_index as int].effort,
                r,
            )
        } else {
            post == pre && r is None
        }
    }

    /// Confirm the highlighted reasoning option.
    pub fn confirm_reasoning_selection(&mut self) -> (r: Option<SaveRequest>)
        requires
            old(self).inv(),
        ensures
            final(self).inv(),
            Self::confirm_rel(*old(self), *final(self), r),
    {
        if !matches!(self.status, Status::Ready) {
            return None;
        }
        let (preset_index, effort) = match &self.stage {
            SelectionStage::Reasoning(st) => {
                if st.selected_index < st.options.len() {
                    (st.preset_index, st.options[st.selected_index].effort)
                } else {
                    return None;
                }
            },
            SelectionStage::ModelList => {
                return None;
            },
        };
        self.save_selection(preset_index, effort)
    }

    /// The message stored when the durable write fails.
    pub open spec fn save_error_message(e: Seq<char>) -> Seq<char> {
        "Failed to write model selection: "@ + e
    }

    /// What the outcome of the durable write does. On success exactly the
    /// saved preset carries the active flag afterwards (it is swapped, never
    /// added), the highlight moves to it, the result and the current
    /// configuration take the confirmed model and effort, and the step
    /// completes back on the model list. On failure nothing is recorded: the
    /// catalog, the result and the configuration stay as they were and the
    /// step fails with a message embedding the error. Without a save in
    /// flight the outcome is ignored.
    pub open spec fn save_result_rel(pre: Self, post: Self, result: Result<(), String>) -> bool {
        match pre.pending_save {
            Option::None => post == pre,
            Option::Some(req) => match result {
                Result::Ok(u) => {
                    &&& post.presets@.len() == pre.presets@.len()
                    &&& forall|i: int|
                        0 <= i < pre.presets@.len() ==> same_preset_data(
                            #[trigger] post.presets@[i],
                            pre.presets@[i],
                        )
                    &&& forall|i: int|
                        0 <= i < pre.presets@.len() ==> (#[trigger] post.presets@[i]).is_default
                            == (i == req.preset_index as int)
                    &&& post.selected_index == req.preset_index
                    &&& post.scroll == (ScrollState { offset: 0, capacity: 1 })
                    &&& post.selection_result == Some(
                        ModelSelectionResult { model: req.model, reasoning_effort: req.effort },
                    )
                    &&& post.current_model == req.model
                    &&& post.current_effort == req.effort
                    &&& post.stage is ModelList
                    &&& post.status is Complete
                    &&& post.pending_save is None
                    &&& post.frame_requested
                },
                Result::Err(e) => {
                    &&& (post.status matches Status::Failed(m) && m@ == Self::save_error_message(
                        e@,
                    ))
                    &&& post.pending_save is None
                    &&& post.frame_requested
                    &&& post.presets == pre.presets
                    &&& post.selected_index == pre.selected_index
                    &&& post.stage == pre.stage
                    &&& post.scroll == pre.scroll
                    &&& post.selection_result == pre.selection_result
                    &&& post.current_model == pre.current_model
                    &&& post.current_effort == pre.current_effort
                },
            },
        }
    }

    /// The outcome of the durable write the host performed for the pending
    /// save request.
    pub fn apply_save_result(&mut self, result: Result<(), String>)
        requires
            old(self).inv(),
        ensures
            final(self).inv(),
            Self::save_result_rel(*old(self), *final(self), result),
    {
        let pending = self.pending_save.take();
        let req = match pending {
            Option::None => {
                return;
            },
            Option::Some(req) => req,
        };
        match result {
            Result::Ok(_) => {
                let mut presets: Vec<Preset> = Vec::new();
                core::mem::swap(&mut presets, &mut self.presets);
                self.presets = mark_default(presets, req.preset_index);
                self.selected_index = req.preset_index;
                self.scroll = ScrollState { offset: 0, capacity: 1 };
                self.selection_result = Some(
                    ModelSelectionResult {
                        model: req.model.clone(),
                        reasoning_effort: req.effort,
                    },
                );
                self.current_model = req.model;
                self.current_effort = req.effort;
                self.stage = SelectionStage::ModelList;
                self.status = Status::Complete;
                self.frame_requested = true;
            },
            Result::Err(e) => {
                let mut message = String::from_str("Failed to write model selection: ");
                message.append(e.as_str());
                self.status = Status::Failed(message);
                self.frame_requested = true;
            },
        }
    }

    /// A jump applies only to a non-empty model list.
    pub open spec fn jump_applies(pre: Self) -> bool {
        &&& pre.stage is ModelList
        &&& pre.presets@.len() > 0
    }

    /// Jump the model-list highlight to the first preset.
    pub fn jump_to_start(&mut self)
        requires
            old(self).inv(),
        ensures
            final(self).inv(),
            Self::jump_applies(*old(self)) ==> Self::model_move_post(*old(self), *final(self), 0),
            !Self::jump_applies(*old(self)) ==> *final(self) == *old(self),
    {
        if matches!(self.stage, SelectionStage::ModelList) && self.presets.len() > 0 {
            self.selected_index = 0;
            let len = self.presets.len();
            self.scroll.adjust(len, 0);
            self.frame_requested = true;
        }
    }

    /// Jump the model-list highlight to the last preset.
    pub fn jump_to_end(&mut self)
        requires
            old(self).inv(),
        ensures
            final(self).inv(),
            Self::jump_applies(*old(self)) ==> Self::model_move_post(
                *old(self),
                *final(self),
                (old(self).presets@.len() - 1) as nat,
            ),
            !Self::jump_applies(*old(self)) ==> *final(self) == *old(self),
    {
        if matches!(self.stage, SelectionStage::ModelList) && self.presets.len() > 0 {
            let len = self.presets.len();
            self.selected_index = len - 1;
            self.scroll.adjust(len, len - 1);
            self.frame_requested = true;
        }
    }
}

/// An owned copy of a supported-efforts list.
fn clone_supported(v: &Vec<SupportedEffort>) -> (r: Vec<SupportedEffort>)
    ensures
        r@ == v@,
{
    let mut r: Vec<SupportedEffort> = Vec::new();
    let mut i: usize = 0;
    while i < v.len()
        invariant
            i <= v.len(),
            r@ == v@.subrange(0, i as int),
        decreases v.len() - i,
    {
        let s = &v[i];
        r.push(SupportedEffort { effort: s.effort, description: s.description.clone() });
        proof {
            assert(r@ =~= v@.subrange(0, i as int + 1));
        }
        i += 1;
    }
    proof {
        assert(r@ =~= v@);
    }
    r
}

/// The catalog as stored: every preset keeps its place and its data, and
/// the "currently active" flag is set exactly on those whose identifier
/// matches the current model.
fn mark_active(v: Vec<Preset>, current_model: &String) -> (r: Vec<Preset>)
    ensures
        r@.len() == v@.len(),
        forall|i: int| 0 <= i < v@.len() ==> same_preset_data(#[trigger] r@[i], v@[i]),
        forall|i: int|
            0 <= i < v@.len() ==> (#[trigger] r@[i]).is_default == (v@[i].model@
                == current_model@),
{
    let mut r: Vec<Preset> = Vec::new();
    let mut i: usize = 0;
    while i < v.len()
        invariant
            i <= v.len(),
            r@.len() == i,
            forall|k: int| 0 <= k < i ==> same_preset_data(#[trigger] r@[k], v@[k]),
            forall|k: int|
                0 <= k < i ==> (#[trigger] r@[k]).is_default == (v@[k].model@ == current_model@),
        decreases v.len() - i,
    {
        let p = &v[i];
        let active = p.model == *current_model;
        let marked = Preset {
            display_name: p.display_name.clone(),
            model: p.model.clone(),
            description: p.description.clone(),
            default_reasoning_effort: p.default_reasoning_effort,
            supported_reasoning_efforts: clone_supported(&p.supported_reasoning_efforts),
            is_default: active,
        };
        let ghost r0 = r@;
        let ghost markedg = marked;
        r.push(marked);
        proof {
            assert forall|k: int|
                0 <= k < i + 1 implies same_preset_data(#[trigger] r@[k], v@[k]) && r@[k].is_default
                == (v@[k].model@ == current_model@) by {
                if k < i {
                    assert(r@[k] == r0[k]);
                    assert(same_preset_data(r0[k], v@[k]));
                } else {
                    assert(r@[k] == markedg);
                    assert(same_preset_data(markedg, v@[k]));
                }
            }
        }
        i += 1;
    }
    r
}

/// A key code, as far as this flow tells them apart; anything else is
/// `Other` and ignored.
#[derive(Clone, Copy, PartialEq, Eq, Structural, Debug)]
pub enum KeyCode {
    Up,
    Down,
    PageUp,
    PageDown,
    Home,
    End,
    Esc,
    Enter,
    Other,
}

/// A keyboard event at the flow's boundary: its code, whether any modifier
/// was held, and whether it is a press (releases and repeats are ignored).
#[derive(Clone, Copy, PartialEq, Eq, Structural, Debug)]
pub struct KeyPress {
    pub code: KeyCode,
    pub has_modifiers: bool,
    pub is_press: bool,
}

impl SelectionController {
    /// An event this flow does not consume: not a press, any modifier held,
    /// or a key it does not recognize.
    pub open spec fn key_ignored(key: KeyPress) -> bool {
        ||| !key.is_press
        ||| key.has_modifiers
        ||| key.code is Other
    }

    /// What the escape key does: it leaves the reasoning stage when that
    /// stage is active, and otherwise dismisses a failure.
    pub open spec fn esc_rel(pre: Self, post: Self) -> bool {
        if pre.stage is Reasoning {
            Self::exit_reasoning_rel(pre, post)
        } else {
            Self::dismiss_rel(pre, post)
        }
    }

    /// What the enter key does: while ready it enters the reasoning stage
    /// from the model list and confirms the highlighted option from the
    /// reasoning stage; a failed or complete step completes; any other
    /// status ignores it.
    pub open spec fn enter_rel(pre: Self, post: Self, r: Option<SaveRequest>) -> bool {
        if pre.status is Ready {
            if pre.stage is ModelList {
                Self::begin_reasoning_rel(pre, post) && r is None
            } else {
                Self::confirm_rel(pre, post, r)
            }
        } else if pre.status is Failed || pre.status is Complete {
            &&& post.status is Complete
            &&& post.frame_requested
            &&& Self::same_but_status(pre, post)
            &&& r is None
        } else {
            post == pre && r is None
        }
    }

    /// Feed one keyboard event to the flow. A returned request means a save
    /// was confirmed: the host performs the durable write and reports its
    /// outcome through `apply_save_result`.
    pub fn handle_key_event(&mut self, key: KeyPress) -> (r: Option<SaveRequest>)
        requires
            old(self).inv(),
        ensures
            final(self).inv(),
            Self::key_ignored(key) ==> *final(self) == *old(self) && r is None,
            !Self::key_ignored(key) ==> match key.code {
                KeyCode::Up => Self::single_move_rel(*old(self), *final(self), MoveDirection::Up)
                    && r is None,
                KeyCode::Down => Self::single_move_rel(
                    *old(self),
                    *final(self),
                    MoveDirection::Down,
                ) && r is None,
                KeyCode::PageUp => Self::page_move_rel(*old(self), *final(self), MoveDirection::Up)
                    && r is None,
                KeyCode::PageDown => Self::page_move_rel(
                    *old(self),
                    *final(self),
                    MoveDirection::Down,
                ) && r is None,
                KeyCode::Home => (if Self::jump_applies(*old(self)) {
                    Self::model_move_post(*old(self), *final(self), 0)
                } else {
                    *final(self) == *old(self)
                }) && r is None,
                KeyCode::End => (if Self::jump_applies(*old(self)) {
                    Self::model_move_post(
                        *old(self),
                        *final(self),
                        (old(self).presets@.len() - 1) as nat,
                    )
                } else {
                    *final(self) == *old(self)
                }) && r is None,
                KeyCode::Esc => Self::esc_rel(*old(self), *final(self)) && r is None,
                KeyCode::Enter => Self::enter_rel(*old(self), *final(self), r),
                KeyCode::Other => true,
            },
    {
        if !key.is_press || key.has_modifiers {
            return None;
        }
        match key.code {
            KeyCode::Up => {
                self.move_highlight(MoveDirection::Up, StepKind::Single);
                None
            },
            KeyCode::Down => {
                self.move_highlight(MoveDirection::Down, StepKind::Single);
                None
            },
            KeyCode::PageUp => {
                self.move_highlight(MoveDirection::Up, StepKind::Page);
                None
            },
            KeyCode::PageDown => {
                self.move_highlight(MoveDirection::Down, StepKind::Page);
                None
            },
            KeyCode::Home => {
                self.jump_to_start();
                None
            },
            KeyCode::End => {
                self.jump_to_end();
                None
            },
            KeyCode::Esc => {
                if matches!(self.stage, SelectionStage::Reasoning(_)) {
                    self.exit_reasoning_stage();
                } else {
                    self.dismiss_error();
                }
                None
            },
            KeyCode::Enter => {
                if matches!(self.status, Status::Ready) {
                    if matches!(self.stage, SelectionStage::ModelList) {
                        self.begin_reasoning_stage();
                        None
                    } else {
                        self.confirm_reasoning_selection()
                    }
                } else if matches!(self.status, Status::Failed(_) | Status::Complete) {
                    self.status = Status::Complete;
                    self.frame_requested = true;
                    None
                } else {
                    None
                }
            },
            KeyCode::Other => None,
        }
    }
}

/// The catalog after a successful save: every preset keeps its place and
/// its data, and the "currently active" flag is set exactly on the preset at
/// the saved index.
fn mark_default(v: Vec<Preset>, preset_index: usize) -> (r: Vec<Preset>)
    ensures
        r@.len() == v@.len(),
        forall|i: int| 0 <= i < v@.len() ==> same_preset_data(#[trigger] r@[i], v@[i]),
        forall|i: int|
            0 <= i < v@.len() ==> (#[trigger] r@[i]).is_default == (i == preset_index as int),
{
    let mut r: Vec<Preset> = Vec::new();
    let mut i: usize = 0;
    while i < v.len()
        invariant
            i <= v.len(),
            r@.len() == i,
            forall|k: int| 0 <= k < i ==> same_preset_data(#[trigger] r@[k], v@[k]),
            forall|k: int| 0 <= k < i ==> (#[trigger] r@[k]).is_default == (k == preset_index as int),
        decreases v.len() - i,
    {
        let p = &v[i];
        let marked = Preset {
            display_name: p.display_name.clone(),
            model: p.model.clone(),
            description: p.description.clone(),
            default_reasoning_effort: p.default_reasoning_effort,
            supported_reasoning_efforts: clone_supported(&p.supported_reasoning_efforts),
            is_default: i == preset_index,
        };
        let ghost r0 = r@;
        let ghost markedg = marked;
        r.push(marked);
        proof {
            assert forall|k: int|
                0 <= k < i + 1 implies same_preset_data(#[trigger] r@[k], v@[k]) && r@[k].is_default
                == (k == preset_index as int) by {
                if k < i {
                    assert(r@[k] == r0[k]);
                    assert(same_preset_data(r0[k], v@[k]));
                } else {
                    assert(r@[k] == markedg);
                    assert(same_preset_data(markedg, v@[k]));
                }
            }
        }
        i += 1;
    }
    r
}

} // verus!
