use vstd::prelude::*;
use vstd::string::StringExecFns;
use crate::controller::SelectionController;
use crate::controller::SelectionStage;
use crate::controller::ReasoningStageState;
use crate::effort::effort_name;
use crate::effort::effort_name_str;
use crate::preset::ModelSelectionResult;
use crate::preset::Preset;
use crate::preset::ReasoningOption;
use crate::scroll::ScrollState;
use crate::scroll::adjusted_offset;
use crate::scroll::effective_capacity;

verus! {

/// One visible row of the model list, ready to draw: its place in the
/// catalog, the name to show, the identifier, the "(current)" marker, the
/// highlight, and the description line when there is one.
pub struct ModelRow {
    pub position: usize,
    pub display_name: String,
    pub model: String,
    pub is_current: bool,
    pub is_selected: bool,
    pub description: Option<String>,
}

/// One visible row of the reasoning list: its place, its label, its
/// description, the highlight, and the warning line shown only under the
/// highlighted row.
pub struct ReasoningRow {
    pub position: usize,
    pub label: String,
    pub description: Option<String>,
    pub is_selected: bool,
    pub selected_description: Option<String>,
}

/// The visible row capacity a list area of the given height yields: the
/// height minus the fixed chrome, and at least one row.
pub open spec fn capacity_for_height(h: nat) -> nat {
    if h <= 3 {
        1
    } else {
        (h - 2) as nat
    }
}

/// What one drawn model row must show of the preset it stands for. An empty
/// display name falls back to the identifier; an empty description draws no
/// description line.
pub open spec fn model_row_ok(p: Preset, position: int, selected: int, row: ModelRow) -> bool {
    &&& row.position as int == position
    &&& row.display_name@ == if p.display_name@.len() == 0 {
        p.model@
    } else {
        p.display_name@
    }
    &&& row.model == p.model
    &&& row.is_current == p.is_default
    &&& row.is_selected == (position == selected)
    &&& (row.description is Some <==> p.description@.len() > 0)
    &&& (row.description matches Some(d) ==> d@ == p.description@)
}

/// What one drawn reasoning row must show of the option it stands for; the
/// warning travels only with the highlighted row.
pub open spec fn reasoning_row_ok(
    o: ReasoningOption,
    position: int,
    selected: int,
    row: ReasoningRow,
) -> bool {
    &&& row.position as int == position
    &&& row.label == o.label
    &&& row.description == o.description
    &&& row.is_selected == (position == selected)
    &&& row.selected_description == if position == selected {
        o.selected_description
    } else {
        Option::<String>::None
    }
}

/// The rows of one reconciled window into a list of `len` items.
pub open spec fn window_end(offset: nat, capacity: nat, len: nat) -> nat {
    let vis = effective_capacity(capacity);
    if offset + vis < len {
        offset + vis
    } else {
        len
    }
}

impl SelectionController {
    /// The visible window of the model list for a list area of the given
    /// height. This is the one sanctioned render-time mutation: the scroll
    /// state learns the real row capacity and reconciles the window around
    /// the highlight; selection, stage and status are untouched. A zero
    /// height draws nothing and learns nothing.
    pub fn model_list_rows(&mut self, list_height: u16) -> (rows: Vec<ModelRow>)
        requires
            old(self).inv(),
        ensures
            final(self).inv(),
            final(self).presets == old(self).presets,
            final(self).selected_index == old(self).selected_index,
            final(self).status == old(self).status,
            final(self).stage == old(self).stage,
            final(self).selection_result == old(self).selection_result,
            final(self).current_model == old(self).current_model,
            final(self).current_effort == old(self).current_effort,
            final(self).pending_save == old(self).pending_save,
            final(self).frame_requested == old(self).frame_requested,
            list_height == 0 ==> *final(self) == *old(self) && rows@.len() == 0,
            list_height > 0 ==> {
                let len = old(self).presets@.len();
                let cap = capacity_for_height(list_height as nat);
                let offset = adjusted_offset(
                    old(self).scroll.offset as nat,
                    len,
                    cap,
                    old(self).selected_index as nat,
                );
                let end = window_end(offset, cap, len);
                &&& final(self).scroll.capacity as nat == cap
                &&& final(self).scroll.offset as nat == offset
                &&& rows@.len() == end - offset
                &&& forall|k: int|
                    0 <= k < rows@.len() ==> model_row_ok(
                        old(self).presets@[offset + k],
                        offset + k,
                        old(self).selected_index as int,
                        #[trigger] rows@[k],
                    )
            },
    {
        if list_height == 0 {
            return Vec::new();
        }
        let h = list_height as usize;
        let cap: usize = if h <= 3 {
            1
        } else {
            h - 2
        };
        self.scroll.set_capacity(cap);
        let len = self.presets.len();
        let selected = self.selected_index;
        self.scroll.adjust(len, selected);
        let offset = self.scroll.offset;
        let visible = if self.scroll.capacity == 0 {
            1
        } else {
            self.scroll.capacity
        };
        let end = if offset < len && len - offset > visible {
            offset + visible
        } else {
            len
        };
        let mut rows: Vec<ModelRow> = Vec::new();
        let mut idx = offset;
        while idx < end
            invariant
                offset <= idx <= end <= self.presets@.len(),
                selected == self.selected_index,
                rows@.len() == idx - offset,
                forall|k: int|
                    0 <= k < rows@.len() ==> model_row_ok(
                        self.presets@[offset + k],
                        offset + k,
                        selected as int,
                        #[trigger] rows@[k],
                    ),
            decreases end - idx,
        {
            let p = &self.presets[idx];
            let display_name = if p.display_name.as_str().is_empty() {
                p.model.clone()
            } else {
                p.display_name.clone()
            };
            let description = if p.description.as_str().is_empty() {
                None
            } else {
                Some(p.description.clone())
            };
            let row = ModelRow {
                position: idx,
                display_name,
                model: p.model.clone(),
                is_current: p.is_default,
                is_selected: idx == selected,
                description,
            };
            let ghost rows0 = rows@;
            let ghost rowg = row;
            rows.push(row);
            proof {
                assert forall|k: int|
                    0 <= k < rows@.len() implies model_row_ok(
                    self.presets@[offset + k],
                    offset + k,
                    selected as int,
                    #[trigger] rows@[k],
                ) by {
                    if k < rows0.len() {
                        assert(rows@[k] == rows0[k]);
                    } else {
                        assert(rows@[k] == rowg);
                    }
                }
            }
            idx += 1;
        }
        rows
    }

    /// The visible window of the reasoning list for a list area of the given
    /// height, reconciling the reasoning stage's own scroll state the same
    /// way. Outside the reasoning stage, or for a zero height, it draws
    /// nothing and changes nothing.
    pub fn reasoning_rows(&mut self, list_height: u16) -> (rows: Vec<ReasoningRow>)
        requires
            old(self).inv(),
        ensures
            final(self).inv(),
            final(self).presets == old(self).presets,
            final(self).selected_index == old(self).selected_index,
            final(self).status == old(self).status,
            final(self).scroll == old(self).scroll,
            final(self).selection_result == old(self).selection_result,
            final(self).current_model == old(self).current_model,
            final(self).current_effort == old(self).current_effort,
            final(self).pending_save == old(self).pending_save,
            final(self).frame_requested == old(self).frame_requested,
            !(old(self).stage is Reasoning) || list_height == 0 ==> *final(self) == *old(self)
                && rows@.len() == 0,
            old(self).stage matches SelectionStage::Reasoning(st) ==> list_height > 0 ==> {
                let len = st.options@.len();
                let cap = capacity_for_height(list_height as nat);
                let offset = adjusted_offset(
                    st.scroll.offset as nat,
                    len,
                    cap,
                    st.selected_index as nat,
                );
                let end = window_end(offset, cap, len);
                &&& (final(self).stage matches SelectionStage::Reasoning(st2) && {
                    &&& st2.preset_index == st.preset_index
                    &&& st2.options == st.options
                    &&& st2.selected_index == st.selected_index
                    &&& st2.scroll.capacity as nat == cap
                    &&& st2.scroll.offset as nat == offset
                })
                &&& rows@.len() == end - offset
                &&& forall|k: int|
                    0 <= k < rows@.len() ==> reasoning_row_ok(
                        st.options@[offset + k],
                        offset + k,
                        st.selected_index as int,
                        #[trigger] rows@[k],
                    )
            },
    {
        if list_height == 0 {
            return Vec::new();
        }
        if !matches!(self.stage, SelectionStage::Reasoning(_)) {
            return Vec::new();
        }
        let mut stage = SelectionStage::ModelList;
        core::mem::swap(&mut stage, &mut self.stage);
        match stage {
            SelectionStage::ModelList => {
                self.stage = SelectionStage::ModelList;
                Vec::new()
            },
            SelectionStage::Reasoning(mut st) => {
                let h = list_height as usize;
                let cap: usize = if h <= 3 {
                    1
                } else {
                    h - 2
                };
                st.scroll.set_capacity(cap);
                let len = st.options.len();
                let selected = st.selected_index;
                st.scroll.adjust(len, selected);
                let offset = st.scroll.offset;
                let visible = if st.scroll.capacity == 0 {
                    1
                } else {
                    st.scroll.capacity
                };
                let end = if offset < len && len - offset > visible {
                    offset + visible
                } else {
                    len
                };
                let mut rows: Vec<ReasoningRow> = Vec::new();
                let mut idx = offset;
                while idx < end
                    invariant
                        offset <= idx <= end <= st.options@.len(),
                        selected == st.selected_index,
                        rows@.len() == idx - offset,
                        forall|k: int|
                            0 <= k < rows@.len() ==> reasoning_row_ok(
                                st.options@[offset + k],
                                offset + k,
                                selected as int,
                                #[trigger] rows@[k],
                            ),
                    decreases end - idx,
                {
                    let o = &st.options[idx];
                    let description = match &o.description {
                        Option::None => None,
                        Option::Some(d) => Some(d.clone()),
                    };
                    let selected_description = if idx == selected {
                        match &o.selected_description {
                            Option::None => None,
                            Option::Some(w) => Some(w.clone()),
                        }
                    } else {
                        None
                    };
                    let row = ReasoningRow {
                        position: idx,
                        label: o.label.clone(),
                        description,
                        is_selected: idx == selected,
                        selected_description,
                    };
                    let ghost rows0 = rows@;
                    let ghost rowg = row;
                    rows.push(row);
                    proof {
                        assert forall|k: int|
                            0 <= k < rows@.len() implies reasoning_row_ok(
                            st.options@[offset + k],
                            offset + k,
                            selected as int,
                            #[trigger] rows@[k],
                        ) by {
                            if k < rows0.len() {
                                assert(rows@[k] == rows0[k]);
                            } else {
                                assert(rows@[k] == rowg);
                            }
                        }
                    }
                    idx += 1;
                }
                self.stage = SelectionStage::Reasoning(st);
                rows
            },
        }
    }

    /// The line shown when the step has completed: the chosen model and
    /// effort, or a note that nothing changed when the user skipped.
    pub fn completion_message(&self) -> (r: String)
        ensures
            r@ == completion_message_spec(self.selection_result),
    {
        let mut message = String::from_str("Model set to ");
        match &self.selection_result {
            Option::Some(res) => {
                message.append(res.model.as_str());
                message.append(" (");
                match res.reasoning_effort {
                    Option::Some(e) => message.append(effort_name_str(e)),
                    Option::None => message.append("default effort"),
                }
            },
            Option::None => {
                message.append("unchanged");
                message.append(" (");
                message.append("default effort");
            },
        }
        message.append(").");
        message
    }
}

/// The completion line: the chosen model's identifier and the chosen
/// effort's name, with fallbacks for a skipped step and a default effort.
pub open spec fn completion_message_spec(r: Option<ModelSelectionResult>) -> Seq<char> {
    let model = match r {
        Option::Some(res) => res.model@,
        Option::None => "unchanged"@,
    };
    let label = match r {
        Option::Some(res) => match res.reasoning_effort {
            Option::Some(e) => effort_name(e),
            Option::None => "default effort"@,
        },
        Option::None => "default effort"@,
    };
    "Model set to "@ + model + " ("@ + label + ")."@
}

} // verus!
