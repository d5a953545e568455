use vstd::prelude::*;
use vstd::string::StringExecFns;
use crate::effort::EffortLevel;
use crate::effort::effort_name;
use crate::effort::effort_name_str;
use crate::effort::effort_opt_eq;

verus! {

/// One supported reasoning-effort value of a preset, with its short
/// description.
pub struct SupportedEffort {
    pub effort: EffortLevel,
    pub description: String,
}

/// A selectable model definition: display metadata, the machine identifier,
/// its default reasoning effort, the ordered efforts it supports, and
/// whether it is the currently active model.
pub struct Preset {
    pub display_name: String,
    pub model: String,
    pub description: String,
    pub default_reasoning_effort: EffortLevel,
    pub supported_reasoning_efforts: Vec<SupportedEffort>,
    pub is_default: bool,
}

/// Two presets carry the same data, the "currently active" flag aside.
pub open spec fn same_preset_data(a: Preset, b: Preset) -> bool {
    &&& a.display_name == b.display_name
    &&& a.model == b.model
    &&& a.description == b.description
    &&& a.default_reasoning_effort == b.default_reasoning_effort
    &&& a.supported_reasoning_efforts@ == b.supported_reasoning_efforts@
}

/// The final choice the flow emits: the chosen model identifier and the
/// chosen reasoning effort ("none" means the model's built-in default).
pub struct ModelSelectionResult {
    pub model: String,
    pub reasoning_effort: Option<EffortLevel>,
}

impl ModelSelectionResult {
    /// An owned copy of the result.
    pub fn duplicate(&self) -> (r: ModelSelectionResult)
        ensures
            r == *self,
    {
        ModelSelectionResult { model: self.model.clone(), reasoning_effort: self.reasoning_effort }
    }
}

/// One row of the reasoning-effort picker: the effort it stands for, its
/// label, an optional short description, and an optional warning shown only
/// while the row is highlighted.
pub struct ReasoningOption {
    pub effort: Option<EffortLevel>,
    pub label: String,
    pub description: Option<String>,
    pub selected_description: Option<String>,
}

/// The model identifier whose "high" effort option carries a cost warning.
pub open spec fn flagged_model() -> Seq<char> {
    "gpt-5-codex"@
}

/// The warning attached to the flagged model's "high" effort option.
pub open spec fn high_effort_warning() -> Seq<char> {
    "⚠ High reasoning effort can quickly consume Plus plan rate limits."@
}

/// The label of a reasoning option: the capitalized effort name, suffixed
/// when the effort is the preset's default.
pub open spec fn option_label(e: EffortLevel, is_preset_default: bool) -> Seq<char> {
    if is_preset_default {
        effort_name(e) + " (default)"@
    } else {
        effort_name(e)
    }
}

/// The efforts of the reasoning options built for a preset: one per
/// supported effort, in order; a preset that declares none gets exactly one
/// option carrying its default effort.
pub open spec fn option_efforts(p: Preset) -> Seq<Option<EffortLevel>> {
    if p.supported_reasoning_efforts@.len() == 0 {
        seq![Some(p.default_reasoning_effort)]
    } else {
        p.supported_reasoning_efforts@.map_values(|s: SupportedEffort| Some(s.effort))
    }
}

/// What one option built from a declared supported effort must hold: its
/// effort, a label marking the preset's default, the entry's description
/// when it is not empty, and the cost warning on the flagged model's "high"
/// option.
pub open spec fn supported_option_ok(p: Preset, o: ReasoningOption, j: int) -> bool {
    let entry = p.supported_reasoning_efforts@[j];
    &&& o.effort == Some(entry.effort)
    &&& o.label@ == option_label(entry.effort, entry.effort == p.default_reasoning_effort)
    &&& (o.description is Some <==> entry.description@.len() > 0)
    &&& (o.description matches Some(d) ==> d@ == entry.description@)
    &&& (o.selected_description is Some <==> (p.model@ == flagged_model() && entry.effort
        == EffortLevel::High))
    &&& (o.selected_description matches Some(w) ==> w@ == high_effort_warning())
}

/// What the single synthesized option must hold when a preset declares no
/// supported efforts: it stands for the preset's default effort, with a bare
/// label and no description.
pub open spec fn synthesized_option_ok(p: Preset, o: ReasoningOption) -> bool {
    &&& o.effort == Some(p.default_reasoning_effort)
    &&& o.label@ == effort_name(p.default_reasoning_effort)
    &&& o.description is None
    &&& o.selected_description is None
}

/// What the whole built option list must be, given the preset it was built
/// for.
pub open spec fn reasoning_options_ok(p: Preset, options: Seq<ReasoningOption>) -> bool {
    if p.supported_reasoning_efforts@.len() == 0 {
        options.len() == 1 && synthesized_option_ok(p, options[0])
    } else {
        options.len() == p.supported_reasoning_efforts@.len() && forall|j: int|
            0 <= j < options.len() ==> supported_option_ok(p, #[trigger] options[j], j)
    }
}

/// The effort each option of a list stands for, in order.
pub open spec fn efforts_of(options: Seq<ReasoningOption>) -> Seq<Option<EffortLevel>> {
    Seq::new(options.len(), |j: int| options[j].effort)
}

/// A well-built option list carries exactly the efforts that
/// `option_efforts` prescribes.
pub proof fn lemma_options_effort_seq(p: Preset, options: Seq<ReasoningOption>)
    requires
        reasoning_options_ok(p, options),
    ensures
        efforts_of(options) == option_efforts(p),
{
    assert(efforts_of(options) =~= option_efforts(p));
}

/// The initial highlight of the reasoning stage, by priority: the option
/// matching the currently configured effort if the preset is the active
/// model (otherwise its declared default stands in as the target), then the
/// option matching the preset's declared default, then the first option.
pub open spec fn initial_option_index(
    p: Preset,
    current_model: Seq<char>,
    current_effort: Option<EffortLevel>,
) -> nat {
    let opts = option_efforts(p);
    let target = if p.model@ == current_model {
        current_effort
    } else {
        Some(p.default_reasoning_effort)
    };
    match opts.index_of_first(target) {
        Some(i) => i as nat,
        None => match opts.index_of_first(Some(p.default_reasoning_effort)) {
            Some(i) => i as nat,
            None => 0,
        },
    }
}

/// The initial highlight always names a valid option.
pub proof fn lemma_initial_option_index_in_range(
    p: Preset,
    current_model: Seq<char>,
    current_effort: Option<EffortLevel>,
)
    ensures
        initial_option_index(p, current_model, current_effort) < option_efforts(p).len(),
{
    let opts = option_efforts(p);
    let target = if p.model@ == current_model {
        current_effort
    } else {
        Some(p.default_reasoning_effort)
    };
    opts.index_of_first_ensures(target);
    opts.index_of_first_ensures(Some(p.default_reasoning_effort));
}

/// The label of one reasoning option.
fn make_label(e: EffortLevel, is_preset_default: bool) -> (r: String)
    ensures
        r@ == option_label(e, is_preset_default),
{
    let mut label = effort_name_str(e).to_owned();
    if is_preset_default {
        label.append(" (default)");
    }
    label
}

/// Whether a model identifier is the one whose "high" option is flagged.
fn is_flagged_model(model: &String) -> (r: bool)
    ensures
        r == (model@ == flagged_model()),
{
    let flagged: String = "gpt-5-codex".to_owned();
    *model == flagged
}

/// Build the reasoning-option list for a preset: one option per supported
/// effort, in the declared order, or a single synthesized option for the
/// preset's default effort when it declares none.
pub fn build_reasoning_options(preset: &Preset) -> (options: Vec<ReasoningOption>)
    ensures
        reasoning_options_ok(*preset, options@),
{
    let mut options: Vec<ReasoningOption> = Vec::new();
    let n = preset.supported_reasoning_efforts.len();
    let flagged = is_flagged_model(&preset.model);
    let mut i: usize = 0;
    while i < n
        invariant
            i <= n,
            n == preset.supported_reasoning_efforts@.len(),
            flagged == (preset.model@ == flagged_model()),
            options@.len() == i,
            forall|j: int| 0 <= j < i ==> supported_option_ok(*preset, #[trigger] options@[j], j),
        decreases n - i,
    {
        let entry = &preset.supported_reasoning_efforts[i];
        let is_def = entry.effort == preset.default_reasoning_effort;
        let label = make_label(entry.effort, is_def);
        let description = if entry.description.as_str().is_empty() {
            None
        } else {
            Some(entry.description.clone())
        };
        let warning = if flagged && matches!(entry.effort, EffortLevel::High) {
            Some("⚠ High reasoning effort can quickly consume Plus plan rate limits.".to_owned())
        } else {
            None
        };
        let option = ReasoningOption {
            effort: Some(entry.effort),
            label,
            description,
            selected_description: warning,
        };
        let ghost o0 = options@;
        let ghost optiong = option;
        options.push(option);
        proof {
            assert forall|j: int|
                0 <= j < i + 1 implies supported_option_ok(*preset, #[trigger] options@[j], j) by {
                if j < i {
                    assert(options@[j] == o0[j]);
                    assert(supported_option_ok(*preset, o0[j], j));
                } else {
                    assert(options@[j] == optiong);
                }
            }
        }
        i += 1;
    }
    if options.len() == 0 {
        let label = effort_name_str(preset.default_reasoning_effort).to_owned();
        options.push(
            ReasoningOption {
                effort: Some(preset.default_reasoning_effort),
                label,
                description: None,
                selected_description: None,
            },
        );
    }
    options
}

/// The position of the first option carrying the wanted effort, if any.
pub fn find_effort(options: &Vec<ReasoningOption>, needle: Option<EffortLevel>) -> (r: Option<
    usize,
>)
    ensures
        ({
            let efforts = efforts_of(options@);
            match r {
                Some(i) => efforts.index_of_first(needle) == Some(i as int),
                None => efforts.index_of_first(needle) is None,
            }
        }),
{
    let ghost efforts = efforts_of(options@);
    let mut i: usize = 0;
    while i < options.len()
        invariant
            i <= options@.len(),
            efforts == efforts_of(options@),
            forall|j: int| 0 <= j < i ==> efforts[j] != needle,
        decreases options@.len() - i,
    {
        if effort_opt_eq(options[i].effort, needle) {
            proof {
                assert(efforts[i as int] == needle);
                efforts.index_of_first_ensures(needle);
            }
            return Some(i);
        }
        proof {
            assert(efforts[i as int] == options@[i as int].effort);
        }
        i += 1;
    }
    proof {
        efforts.index_of_first_ensures(needle);
    }
    None
}

} // verus!
