use vstd::prelude::*;
use vstd::string::StringExecFns;

verus! {

/// The key under which turns without a session identifier are recorded.
pub open spec fn default_session_key() -> Seq<char> {
    "_default"@
}

/// What `str::trim` returns for a given input.
pub uninterp spec fn trim_of(s: Seq<char>) -> Seq<char>;

/// Relies on str::trim: the input without its leading and trailing
/// whitespace, so never longer than the input.
#[verifier::external_body]
fn trim_str(s: &str) -> (r: &str)
    ensures
        r@ == trim_of(s@),
        r@.len() <= s@.len(),
{
    s.trim()
}

/// Relies on std::time::SystemTime::now: the wall clock's reading, as
/// milliseconds since the Unix epoch, clamped into the result's range; a
/// clock reading before the epoch comes out as zero. Nothing is promised of
/// the reading, and no clock state can make the call fail.
#[verifier::external_body]
fn now_millis() -> i64 {
    match std::time::SystemTime::now().duration_since(std::time::UNIX_EPOCH) {
        Ok(since_epoch) => i64::try_from(since_epoch.as_millis()).unwrap_or(i64::MAX),
        Err(_) => 0,
    }
}

/// An optional borrowed string, as the mathematical value the contracts
/// speak about.
pub open spec fn opt_str_view(s: Option<&str>) -> Option<Seq<char>> {
    match s {
        Option::Some(s) => Some(s@),
        Option::None => None,
    }
}

/// The key a turn is recorded under: the trimmed identifier, or the default
/// key when none was given or it trims to nothing.
pub open spec fn normalized_session_key(session_id: Option<Seq<char>>) -> Seq<char> {
    match session_id {
        Option::Some(s) => if trim_of(s).len() > 0 {
            trim_of(s)
        } else {
            default_session_key()
        },
        Option::None => default_session_key(),
    }
}

/// Normalize an optional session identifier to its recording key.
pub fn normalize_session_id(session_id: Option<&str>) -> (r: String)
    ensures
        r@ == normalized_session_key(opt_str_view(session_id)),
{
    match session_id {
        Option::Some(s) => {
            let trimmed = trim_str(s);
            if trimmed.is_empty() {
                "_default".to_owned()
            } else {
                trimmed.to_owned()
            }
        },
        Option::None => "_default".to_owned(),
    }
}

/// Per-model usage accumulated within one session.
pub struct ModelUsageEntry {
    pub turns: u32,
    pub total_tokens: i64,
    pub prompt_tokens: i64,
    pub completion_tokens: i64,
    pub reasoning_tokens: i64,
    pub last_reasoning_effort: Option<String>,
    pub last_updated_millis: i64,
}

/// Usage accumulated for one session, with a per-model breakdown.
pub struct SessionTelemetryEntry {
    pub total_turns: u32,
    pub total_tokens: i64,
    pub total_prompt_tokens: i64,
    pub total_completion_tokens: i64,
    pub total_reasoning_tokens: i64,
    pub last_model: Option<String>,
    pub last_reasoning_effort: Option<String>,
    pub last_updated_millis: Option<i64>,
    pub models: Vec<(String, ModelUsageEntry)>,
}

/// Usage accumulated per session key.
pub struct TelemetryStore {
    pub sessions: Vec<(String, SessionTelemetryEntry)>,
}

/// The session keys of a store, in storage order.
pub open spec fn session_keys(sessions: Seq<(String, SessionTelemetryEntry)>) -> Seq<Seq<char>> {
    Seq::new(sessions.len(), |i: int| sessions[i].0@)
}

/// The model keys of one session's breakdown, in storage order.
pub open spec fn model_keys(models: Seq<(String, ModelUsageEntry)>) -> Seq<Seq<char>> {
    Seq::new(models.len(), |i: int| models[i].0@)
}

/// No two entries of a per-model breakdown share a key. The original kept
/// the breakdown in a map; this is the uniqueness a map gave by
/// construction, and what makes "the entry under a key" unique in every
/// contract here.
pub open spec fn models_wf(models: Seq<(String, ModelUsageEntry)>) -> bool {
    forall|i: int, j: int|
        0 <= i < j < models.len() ==> (#[trigger] models[i]).0@ != (#[trigger] models[j]).0@
}

/// No two sessions share a key, and each session's breakdown is itself
/// duplicate-free.
pub open spec fn sessions_wf(sessions: Seq<(String, SessionTelemetryEntry)>) -> bool {
    &&& forall|i: int, j: int|
        0 <= i < j < sessions.len() ==> (#[trigger] sessions[i]).0@ != (#[trigger] sessions[j]).0@
    &&& forall|i: int| 0 <= i < sessions.len() ==> models_wf((#[trigger] sessions[i]).1.models@)
}

/// Addition on `i64` that sticks at the ends of the range instead of
/// overflowing.
pub open spec fn sat_add_i64(a: i64, b: i64) -> i64 {
    if a + b > i64::MAX {
        i64::MAX
    } else if a + b < i64::MIN {
        i64::MIN
    } else {
        (a + b) as i64
    }
}

/// Saturating `i64` addition.
fn sat_add(a: i64, b: i64) -> (r: i64)
    ensures
        r == sat_add_i64(a, b),
{
    match a.checked_add(b) {
        Option::Some(v) => v,
        Option::None => if b >= 0 {
            i64::MAX
        } else {
            i64::MIN
        },
    }
}

/// Two optional strings carry the same text.
pub open spec fn opt_string_view_eq(a: Option<String>, b: Option<Seq<char>>) -> bool {
    match (a, b) {
        (Option::Some(x), Option::Some(y)) => x@ == y,
        (Option::None, Option::None) => true,
        _ => false,
    }
}

/// A model entry with nothing recorded yet.
pub open spec fn zero_model_entry() -> ModelUsageEntry {
    ModelUsageEntry {
        turns: 0,
        total_tokens: 0,
        prompt_tokens: 0,
        completion_tokens: 0,
        reasoning_tokens: 0,
        last_reasoning_effort: None,
        last_updated_millis: 0,
    }
}

/// What one recorded turn does to a model entry: the turn count and the
/// token totals accumulate (saturating at the range ends), and the last
/// effort and timestamp are replaced.
pub open spec fn model_entry_bumped(
    pre: ModelUsageEntry,
    post: ModelUsageEntry,
    effort: Option<Seq<char>>,
    prompt: i64,
    completion: i64,
    reasoning: i64,
    total: i64,
    now: i64,
) -> bool {
    &&& post.turns == pre.turns.saturating_add(1)
    &&& post.total_tokens == sat_add_i64(pre.total_tokens, total)
    &&& post.prompt_tokens == sat_add_i64(pre.prompt_tokens, prompt)
    &&& post.completion_tokens == sat_add_i64(pre.completion_tokens, completion)
    &&& post.reasoning_tokens == sat_add_i64(pre.reasoning_tokens, reasoning)
    &&& opt_string_view_eq(post.last_reasoning_effort, effort)
    &&& post.last_updated_millis == now
}

/// What one recorded turn does to a session's per-model breakdown: the
/// entry for the turn's model accumulates in place, or a fresh entry for it
/// is appended; every other entry is untouched.
pub open spec fn models_bumped(
    pre: Seq<(String, ModelUsageEntry)>,
    post: Seq<(String, ModelUsageEntry)>,
    model: Seq<char>,
    effort: Option<Seq<char>>,
    prompt: i64,
    completion: i64,
    reasoning: i64,
    total: i64,
    now: i64,
) -> bool {
    match model_keys(pre).index_of_first(model) {
        Option::Some(i) => {
            &&& post.len() == pre.len()
            &&& (forall|j: int| 0 <= j < pre.len() && j != i ==> post[j] == pre[j])
            &&& post[i].0 == pre[i].0
            &&& model_entry_bumped(
                pre[i].1,
                post[i].1,
                effort,
                prompt,
                completion,
                reasoning,
                total,
                now,
            )
        },
        Option::None => {
            &&& post.len() == pre.len() + 1
            &&& (forall|j: int| 0 <= j < pre.len() ==> post[j] == pre[j])
            &&& post[pre.len() as int].0@ == model
            &&& model_entry_bumped(
                zero_model_entry(),
                post[pre.len() as int].1,
                effort,
                prompt,
                completion,
                reasoning,
                total,
                now,
            )
        },
    }
}

/// What one recorded turn does to a session entry: its totals accumulate
/// (saturating), the last model, effort and timestamp are replaced, and its
/// per-model breakdown is bumped for the turn's model.
pub open spec fn session_entry_bumped(
    pre: SessionTelemetryEntry,
    post: SessionTelemetryEntry,
    model: Seq<char>,
    effort: Option<Seq<char>>,
    prompt: i64,
    completion: i64,
    reasoning: i64,
    total: i64,
    now: i64,
) -> bool {
    &&& post.total_turns == pre.total_turns.saturating_add(1)
    &&& post.total_tokens == sat_add_i64(pre.total_tokens, total)
    &&& post.total_prompt_tokens == sat_add_i64(pre.total_prompt_tokens, prompt)
    &&& post.total_completion_tokens == sat_add_i64(pre.total_completion_tokens, completion)
    &&& post.total_reasoning_tokens == sat_add_i64(pre.total_reasoning_tokens, reasoning)
    &&& (post.last_model matches Some(m) && m@ == model)
    &&& opt_string_view_eq(post.last_reasoning_effort, effort)
    &&& post.last_updated_millis == Some(now)
    &&& models_bumped(pre.models@, post.models@, model, effort, prompt, completion, reasoning, total, now)
}

/// A session entry recording its first turn: the totals are exactly that
/// turn's numbers and the breakdown holds its model alone.
pub open spec fn session_entry_fresh(
    post: SessionTelemetryEntry,
    model: Seq<char>,
    effort: Option<Seq<char>>,
    prompt: i64,
    completion: i64,
    reasoning: i64,
    total: i64,
    now: i64,
) -> bool {
    &&& post.total_turns == 1
    &&& post.total_tokens == total
    &&& post.total_prompt_tokens == prompt
    &&& post.total_completion_tokens == completion
    &&& post.total_reasoning_tokens == reasoning
    &&& (post.last_model matches Some(m) && m@ == model)
    &&& opt_string_view_eq(post.last_reasoning_effort, effort)
    &&& post.last_updated_millis == Some(now)
    &&& models_bumped(
        Seq::empty(),
        post.models@,
        model,
        effort,
        prompt,
        completion,
        reasoning,
        total,
        now,
    )
}

/// What one recorded turn does to the whole store: the entry under the
/// turn's session key is bumped in place, or a fresh entry under that key is
/// appended and bumped; every other session is untouched.
pub open spec fn recorded(
    pre: Seq<(String, SessionTelemetryEntry)>,
    post: Seq<(String, SessionTelemetryEntry)>,
    key: Seq<char>,
    model: Seq<char>,
    effort: Option<Seq<char>>,
    prompt: i64,
    completion: i64,
    reasoning: i64,
    total: i64,
    now: i64,
) -> bool {
    match session_keys(pre).index_of_first(key) {
        Option::Some(i) => {
            &&& post.len() == pre.len()
            &&& (forall|j: int| 0 <= j < pre.len() && j != i ==> post[j] == pre[j])
            &&& post[i].0 == pre[i].0
            &&& session_entry_bumped(
                pre[i].1,
                post[i].1,
                model,
                effort,
                prompt,
                completion,
                reasoning,
                total,
                now,
            )
        },
        Option::None => {
            &&& post.len() == pre.len() + 1
            &&& (forall|j: int| 0 <= j < pre.len() ==> post[j] == pre[j])
            &&& post[pre.len() as int].0@ == key
            &&& session_entry_fresh(
                post[pre.len() as int].1,
                model,
                effort,
                prompt,
                completion,
                reasoning,
                total,
                now,
            )
        },
    }
}

/// The five per-turn quantities of one model entry: turns and the four
/// token counters, as unbounded integers.
pub open spec fn entry_vector(e: ModelUsageEntry) -> (int, int, int, int, int) {
    (
        e.turns as int,
        e.total_tokens as int,
        e.prompt_tokens as int,
        e.completion_tokens as int,
        e.reasoning_tokens as int,
    )
}

/// Componentwise sum of two quantity vectors.
pub open spec fn add5(a: (int, int, int, int, int), b: (int, int, int, int, int)) -> (
    int,
    int,
    int,
    int,
    int,
) {
    (a.0 + b.0, a.1 + b.1, a.2 + b.2, a.3 + b.3, a.4 + b.4)
}

/// Componentwise difference of two quantity vectors.
pub open spec fn sub5(a: (int, int, int, int, int), b: (int, int, int, int, int)) -> (
    int,
    int,
    int,
    int,
    int,
) {
    (a.0 - b.0, a.1 - b.1, a.2 - b.2, a.3 - b.3, a.4 - b.4)
}

/// The sums of the five quantities over a whole per-model breakdown.
pub open spec fn models_sums(models: Seq<(String, ModelUsageEntry)>) -> (int, int, int, int, int)
    decreases models.len(),
{
    if models.len() == 0 {
        (0, 0, 0, 0, 0)
    } else {
        add5(models_sums(models.drop_last()), entry_vector(models.last().1))
    }
}

/// A session's running totals agree exactly with the sums over its
/// per-model entries.
pub open spec fn session_totals_exact(e: SessionTelemetryEntry) -> bool {
    models_sums(e.models@) == (
        e.total_turns as int,
        e.total_tokens as int,
        e.total_prompt_tokens as int,
        e.total_completion_tokens as int,
        e.total_reasoning_tokens as int,
    )
}

proof fn lemma_models_sums_update(
    pre: Seq<(String, ModelUsageEntry)>,
    post: Seq<(String, ModelUsageEntry)>,
    i: int,
)
    requires
        0 <= i < pre.len(),
        post.len() == pre.len(),
        forall|j: int| 0 <= j < pre.len() && j != i ==> post[j] == pre[j],
    ensures
        models_sums(post) == add5(
            sub5(models_sums(pre), entry_vector(pre[i].1)),
            entry_vector(post[i].1),
        ),
    decreases pre.len(),
{
    if i == pre.len() - 1 {
        assert(post.drop_last() =~= pre.drop_last());
    } else {
        assert forall|j: int|
            0 <= j < pre.drop_last().len() && j != i implies post.drop_last()[j]
            == pre.drop_last()[j] by {
            assert(post.drop_last()[j] == post[j]);
            assert(pre.drop_last()[j] == pre[j]);
        }
        lemma_models_sums_update(pre.drop_last(), post.drop_last(), i);
        assert(post.last() == pre.last());
        assert(post.drop_last()[i] == post[i]);
        assert(pre.drop_last()[i] == pre[i]);
    }
}

proof fn lemma_models_sums_push(models: Seq<(String, ModelUsageEntry)>, x: (String, ModelUsageEntry))
    ensures
        models_sums(models.push(x)) == add5(models_sums(models), entry_vector(x.1)),
{
    assert(models.push(x).drop_last() =~= models);
    assert(models.push(x).last() == x);
}

/// This turn fits the given session entry without saturating: the session
/// totals and the turn's model entry all stay inside their ranges.
pub open spec fn turn_fits(
    e: SessionTelemetryEntry,
    model: Seq<char>,
    prompt: i64,
    completion: i64,
    reasoning: i64,
    total: i64,
) -> bool {
    &&& e.total_turns < u32::MAX
    &&& i64::MIN <= e.total_tokens + total <= i64::MAX
    &&& i64::MIN <= e.total_prompt_tokens + prompt <= i64::MAX
    &&& i64::MIN <= e.total_completion_tokens + completion <= i64::MAX
    &&& i64::MIN <= e.total_reasoning_tokens + reasoning <= i64::MAX
    &&& match model_keys(e.models@).index_of_first(model) {
        Option::Some(i) => {
            let m = e.models@[i].1;
            &&& m.turns < u32::MAX
            &&& i64::MIN <= m.total_tokens + total <= i64::MAX
            &&& i64::MIN <= m.prompt_tokens + prompt <= i64::MAX
            &&& i64::MIN <= m.completion_tokens + completion <= i64::MAX
            &&& i64::MIN <= m.reasoning_tokens + reasoning <= i64::MAX
        },
        Option::None => true,
    }
}

/// Law: one recorded turn moves a session's totals and its per-model sums
/// by the same amounts, so a session whose totals equal the sums over its
/// per-model entries keeps that agreement — as long as neither the session
/// totals nor the turn's model entry saturate on this turn.
pub proof fn lemma_bumped_keeps_totals_exact(
    pre: SessionTelemetryEntry,
    post: SessionTelemetryEntry,
    model: Seq<char>,
    effort: Option<Seq<char>>,
    prompt: i64,
    completion: i64,
    reasoning: i64,
    total: i64,
    now: i64,
)
    requires
        session_entry_bumped(pre, post, model, effort, prompt, completion, reasoning, total, now),
        session_totals_exact(pre),
        turn_fits(pre, model, prompt, completion, reasoning, total),
    ensures
        session_totals_exact(post),
{
    match model_keys(pre.models@).index_of_first(model) {
        Option::Some(i) => {
            model_keys(pre.models@).index_of_first_ensures(model);
            lemma_models_sums_update(pre.models@, post.models@, i);
        },
        Option::None => {
            assert(post.models@ =~= post.models@.drop_last().push(post.models@.last()));
            assert(post.models@.drop_last() =~= pre.models@);
            lemma_models_sums_push(pre.models@, post.models@.last());
            assert(models_sums(post.models@) == add5(
                models_sums(pre.models@),
                entry_vector(post.models@[pre.models@.len() as int].1),
            ));
        },
    }
}

/// Law: a session entry recording its first turn has totals that equal the
/// sums over its one-entry breakdown, unconditionally.
pub proof fn lemma_fresh_totals_exact(
    post: SessionTelemetryEntry,
    model: Seq<char>,
    effort: Option<Seq<char>>,
    prompt: i64,
    completion: i64,
    reasoning: i64,
    total: i64,
    now: i64,
)
    requires
        session_entry_fresh(post, model, effort, prompt, completion, reasoning, total, now),
    ensures
        session_totals_exact(post),
{
    let empty: Seq<(String, ModelUsageEntry)> = Seq::empty();
    model_keys(empty).index_of_first_ensures(model);
    assert(post.models@.len() == 1);
    assert(post.models@ =~= empty.push(post.models@[0]));
    lemma_models_sums_push(empty, post.models@[0]);
}

/// The position of a session key in the store, if it is present.
fn find_session(sessions: &Vec<(String, SessionTelemetryEntry)>, key: &String) -> (r: Option<
    usize,
>)
    ensures
        ({
            let keys = session_keys(sessions@);
            match r {
                Some(i) => keys.index_of_first(key@) == Some(i as int),
                None => keys.index_of_first(key@) is None,
            }
        }),
{
    let ghost keys = session_keys(sessions@);
    let mut i: usize = 0;
    while i < sessions.len()
        invariant
            i <= sessions@.len(),
            keys == session_keys(sessions@),
            forall|j: int| 0 <= j < i ==> keys[j] != key@,
        decreases sessions@.len() - i,
    {
        if sessions[i].0 == *key {
            proof {
                assert(keys[i as int] == key@);
                keys.index_of_first_ensures(key@);
            }
            return Some(i);
        }
        proof {
            assert(keys[i as int] == sessions@[i as int].0@);
        }
        i += 1;
    }
    proof {
        keys.index_of_first_ensures(key@);
    }
    None
}

/// The position of a model key in a session's breakdown, if present.
fn find_model(models: &Vec<(String, ModelUsageEntry)>, model: &String) -> (r: Option<usize>)
    ensures
        ({
            let keys = model_keys(models@);
            match r {
                Some(i) => keys.index_of_first(model@) == Some(i as int),
                None => keys.index_of_first(model@) is None,
            }
        }),
{
    let ghost keys = model_keys(models@);
    let mut i: usize = 0;
    while i < models.len()
        invariant
            i <= models@.len(),
            keys == model_keys(models@),
            forall|j: int| 0 <= j < i ==> keys[j] != model@,
        decreases models@.len() - i,
    {
        if models[i].0 == *model {
            proof {
                assert(keys[i as int] == model@);
                keys.index_of_first_ensures(model@);
            }
            return Some(i);
        }
        proof {
            assert(keys[i as int] == models@[i as int].0@);
        }
        i += 1;
    }
    proof {
        keys.index_of_first_ensures(model@);
    }
    None
}

/// Accumulate one turn into a model entry.
fn bump_model(
    entry: &mut ModelUsageEntry,
    reasoning_effort: Option<&str>,
    prompt_tokens: i64,
    completion_tokens: i64,
    reasoning_tokens: i64,
    total_tokens: i64,
    now: i64,
)
    ensures
        model_entry_bumped(
            *old(entry),
            *final(entry),
            opt_str_view(reasoning_effort),
            prompt_tokens,
            completion_tokens,
            reasoning_tokens,
            total_tokens,
            now,
        ),
{
    entry.turns = entry.turns.saturating_add(1);
    entry.total_tokens = sat_add(entry.total_tokens, total_tokens);
    entry.prompt_tokens = sat_add(entry.prompt_tokens, prompt_tokens);
    entry.completion_tokens = sat_add(entry.completion_tokens, completion_tokens);
    entry.reasoning_tokens = sat_add(entry.reasoning_tokens, reasoning_tokens);
    entry.last_reasoning_effort = match reasoning_effort {
        Option::Some(e) => Some(e.to_owned()),
        Option::None => None,
    };
    entry.last_updated_millis = now;
}

/// Accumulate one turn into a session entry and its per-model breakdown.
fn bump_session(
    entry: &mut SessionTelemetryEntry,
    model: &str,
    reasoning_effort: Option<&str>,
    prompt_tokens: i64,
    completion_tokens: i64,
    reasoning_tokens: i64,
    total_tokens: i64,
    now: i64,
)
    ensures
        session_entry_bumped(
            *old(entry),
            *final(entry),
            model@,
            opt_str_view(reasoning_effort),
            prompt_tokens,
            completion_tokens,
            reasoning_tokens,
            total_tokens,
            now,
        ),
        models_wf(old(entry).models@) ==> models_wf(final(entry).models@),
{
    entry.total_turns = entry.total_turns.saturating_add(1);
    entry.total_tokens = sat_add(entry.total_tokens, total_tokens);
    entry.total_prompt_tokens = sat_add(entry.total_prompt_tokens, prompt_tokens);
    entry.total_completion_tokens = sat_add(entry.total_completion_tokens, completion_tokens);
    entry.total_reasoning_tokens = sat_add(entry.total_reasoning_tokens, reasoning_tokens);
    entry.last_model = Some(model.to_owned());
    entry.last_reasoning_effort = match reasoning_effort {
        Option::Some(e) => Some(e.to_owned()),
        Option::None => None,
    };
    entry.last_updated_millis = Some(now);
    let model_key = model.to_owned();
    let found = find_model(&entry.models, &model_key);
    match found {
        Option::Some(i) => {
            let ghost models0 = entry.models@;
            proof {
                model_keys(models0).index_of_first_ensures(model_key@);
            }
            let (key, mut m) = entry.models.remove(i);
            bump_model(
                &mut m,
                reasoning_effort,
                prompt_tokens,
                completion_tokens,
                reasoning_tokens,
                total_tokens,
                now,
            );
            let ghost pair = (key, m);
            entry.models.insert(i, (key, m));
            proof {
                let removed = models0.remove(i as int);
                models0.remove_ensures(i as int);
                removed.insert_ensures(i as int, pair);
                assert forall|j: int|
                    0 <= j < models0.len() && j != i implies entry.models@[j] == models0[j] by {
                    if j < i {
                        assert(entry.models@[j] == removed[j]);
                    } else {
                        assert(entry.models@[j] == removed[j - 1]);
                        assert(removed[j - 1] == models0[j]);
                    }
                }
                if models_wf(models0) {
                    assert(entry.models@[i as int].0 == models0[i as int].0);
                    assert forall|a: int, b: int|
                        0 <= a < b < entry.models@.len() implies (#[trigger] entry.models@[a]).0@
                        != (#[trigger] entry.models@[b]).0@ by {
                        assert(entry.models@[a].0 == models0[a].0);
                        assert(entry.models@[b].0 == models0[b].0);
                        assert(models0[a].0@ != models0[b].0@);
                    }
                }
            }
        },
        Option::None => {
            let mut m = ModelUsageEntry {
                turns: 0,
                total_tokens: 0,
                prompt_tokens: 0,
                completion_tokens: 0,
                reasoning_tokens: 0,
                last_reasoning_effort: None,
                last_updated_millis: 0,
            };
            bump_model(
                &mut m,
                reasoning_effort,
                prompt_tokens,
                completion_tokens,
                reasoning_tokens,
                total_tokens,
                now,
            );
            let ghost models0 = entry.models@;
            let ghost pair = (model_key, m);
            entry.models.push((model_key, m));
            proof {
                model_keys(models0).index_of_first_ensures(model_key@);
                if models_wf(models0) {
                    assert forall|a: int, b: int|
                        0 <= a < b < entry.models@.len() implies (#[trigger] entry.models@[a]).0@
                        != (#[trigger] entry.models@[b]).0@ by {
                        assert(entry.models@[a] == models0[a]);
                        if b < models0.len() {
                            assert(entry.models@[b] == models0[b]);
                        } else {
                            assert(entry.models@[b] == pair);
                            assert(model_keys(models0)[a] == models0[a].0@);
                            if models0[a].0@ == model_key@ {
                                assert(model_keys(models0).contains(model_key@));
                            }
                        }
                    }
                }
            }
        },
    }
}

/// Record one turn against the given session at the given time.
pub fn record_turn_at(
    store: &mut TelemetryStore,
    session_id: Option<&str>,
    model: &str,
    reasoning_effort: Option<&str>,
    prompt_tokens: i64,
    completion_tokens: i64,
    reasoning_tokens: i64,
    total_tokens: i64,
    now: i64,
)
    requires
        old(store).wf(),
    ensures
        final(store).wf(),
        recorded(
            old(store).sessions@,
            final(store).sessions@,
            normalized_session_key(opt_str_view(session_id)),
            model@,
            opt_str_view(reasoning_effort),
            prompt_tokens,
            completion_tokens,
            reasoning_tokens,
            total_tokens,
            now,
        ),
{
    let key = normalize_session_id(session_id);
    let found = find_session(&store.sessions, &key);
    match found {
        Option::Some(i) => {
            let ghost sessions0 = store.sessions@;
            proof {
                session_keys(sessions0).index_of_first_ensures(key@);
            }
            let (stored_key, mut entry) = store.sessions.remove(i);
            bump_session(
                &mut entry,
                model,
                reasoning_effort,
                prompt_tokens,
                completion_tokens,
                reasoning_tokens,
                total_tokens,
                now,
            );
            let ghost pair = (stored_key, entry);
            store.sessions.insert(i, (stored_key, entry));
            proof {
                let removed = sessions0.remove(i as int);
                sessions0.remove_ensures(i as int);
                removed.insert_ensures(i as int, pair);
                assert forall|j: int|
                    0 <= j < sessions0.len() && j != i implies store.sessions@[j] == sessions0[j] by {
                    if j < i {
                        assert(store.sessions@[j] == removed[j]);
                    } else {
                        assert(store.sessions@[j] == removed[j - 1]);
                        assert(removed[j - 1] == sessions0[j]);
                    }
                }
                assert(store.sessions@[i as int].0 == sessions0[i as int].0);
                assert(models_wf(sessions0[i as int].1.models@));
                assert forall|a: int, b: int|
                    0 <= a < b < store.sessions@.len() implies (#[trigger] store.sessions@[a]).0@
                    != (#[trigger] store.sessions@[b]).0@ by {
                    assert(store.sessions@[a].0 == sessions0[a].0);
                    assert(store.sessions@[b].0 == sessions0[b].0);
                    assert(sessions0[a].0@ != sessions0[b].0@);
                }
                assert forall|j: int|
                    0 <= j < store.sessions@.len() implies models_wf(
                    (#[trigger] store.sessions@[j]).1.models@,
                ) by {
                    if j != i {
                        assert(store.sessions@[j] == sessions0[j]);
                        assert(models_wf(sessions0[j].1.models@));
                    }
                }
            }
        },
        Option::None => {
            let mut entry = SessionTelemetryEntry {
                total_turns: 0,
                total_tokens: 0,
                total_prompt_tokens: 0,
                total_completion_tokens: 0,
                total_reasoning_tokens: 0,
                last_model: None,
                last_reasoning_effort: None,
                last_updated_millis: None,
                models: Vec::new(),
            };
            bump_session(
                &mut entry,
                model,
                reasoning_effort,
                prompt_tokens,
                completion_tokens,
                reasoning_tokens,
                total_tokens,
                now,
            );
            let ghost sessions0 = store.sessions@;
            let ghost pair = (key, entry);
            store.sessions.push((key, entry));
            proof {
                session_keys(sessions0).index_of_first_ensures(pair.0@);
                assert forall|a: int, b: int|
                    0 <= a < b < store.sessions@.len() implies (#[trigger] store.sessions@[a]).0@
                    != (#[trigger] store.sessions@[b]).0@ by {
                    assert(store.sessions@[a] == sessions0[a]);
                    if b < sessions0.len() {
                        assert(store.sessions@[b] == sessions0[b]);
                        assert(sessions0[a].0@ != sessions0[b].0@);
                    } else {
                        assert(store.sessions@[b] == pair);
                        assert(session_keys(sessions0)[a] == sessions0[a].0@);
                        if sessions0[a].0@ == pair.0@ {
                            assert(session_keys(sessions0).contains(pair.0@));
                        }
                    }
                }
                assert forall|j: int|
                    0 <= j < store.sessions@.len() implies models_wf(
                    (#[trigger] store.sessions@[j]).1.models@,
                ) by {
                    if j < sessions0.len() {
                        assert(store.sessions@[j] == sessions0[j]);
                        assert(models_wf(sessions0[j].1.models@));
                    } else {
                        assert(store.sessions@[j] == pair);
                    }
                }
            }
        },
    }
}

/// Record one turn against the given session, timestamped with the clock's
/// current reading.
pub fn record_turn(
    store: &mut TelemetryStore,
    session_id: Option<&str>,
    model: &str,
    reasoning_effort: Option<&str>,
    prompt_tokens: i64,
    completion_tokens: i64,
    reasoning_tokens: i64,
    total_tokens: i64,
)
    requires
        old(store).wf(),
    ensures
        final(store).wf(),
        exists|now: i64|
            recorded(
                old(store).sessions@,
                final(store).sessions@,
                normalized_session_key(opt_str_view(session_id)),
                model@,
                opt_str_view(reasoning_effort),
                prompt_tokens,
                completion_tokens,
                reasoning_tokens,
                total_tokens,
                now,
            ),
{
    let now = now_millis();
    record_turn_at(
        store,
        session_id,
        model,
        reasoning_effort,
        prompt_tokens,
        completion_tokens,
        reasoning_tokens,
        total_tokens,
        now,
    );
}

/// Forget everything recorded against the given session: the first entry
/// stored under its key — under well-formedness, the only one — is removed;
/// a key that is not present changes nothing.
pub fn clear_session(store: &mut TelemetryStore, session_id: Option<&str>)
    requires
        old(store).wf(),
    ensures
        final(store).wf(),
        ({
            let key = normalized_session_key(opt_str_view(session_id));
            match session_keys(old(store).sessions@).index_of_first(key) {
                Some(i) => final(store).sessions@ == old(store).sessions@.remove(i),
                None => final(store).sessions@ == old(store).sessions@,
            }
        }),
{
    let key = normalize_session_id(session_id);
    let found = find_session(&store.sessions, &key);
    match found {
        Option::Some(i) => {
            proof {
                session_keys(store.sessions@).index_of_first_ensures(key@);
            }
            let ghost sessions0 = store.sessions@;
            store.sessions.remove(i);
            proof {
                sessions0.remove_ensures(i as int);
                assert forall|a: int, b: int|
                    0 <= a < b < store.sessions@.len() implies (#[trigger] store.sessions@[a]).0@
                    != (#[trigger] store.sessions@[b]).0@ by {
                    let a0 = if a < i { a } else { a + 1 };
                    let b0 = if b < i { b } else { b + 1 };
                    assert(store.sessions@[a] == sessions0[a0]);
                    assert(store.sessions@[b] == sessions0[b0]);
                    assert(sessions0[a0].0@ != sessions0[b0].0@);
                }
                assert forall|j: int|
                    0 <= j < store.sessions@.len() implies models_wf(
                    (#[trigger] store.sessions@[j]).1.models@,
                ) by {
                    let j0 = if j < i { j } else { j + 1 };
                    assert(store.sessions@[j] == sessions0[j0]);
                    assert(models_wf(sessions0[j0].1.models@));
                }
            }
        },
        Option::None => {},
    }
}

/// Law: every store the recording calls build keeps each session's totals
/// equal to the sums over its per-model entries: one recorded turn
/// preserves the agreement for every session, provided the turn fits its
/// session without saturating (a fresh session always fits).
pub proof fn lemma_recorded_keeps_totals_exact(
    pre: Seq<(String, SessionTelemetryEntry)>,
    post: Seq<(String, SessionTelemetryEntry)>,
    key: Seq<char>,
    model: Seq<char>,
    effort: Option<Seq<char>>,
    prompt: i64,
    completion: i64,
    reasoning: i64,
    total: i64,
    now: i64,
)
    requires
        recorded(pre, post, key, model, effort, prompt, completion, reasoning, total, now),
        forall|i: int| 0 <= i < pre.len() ==> session_totals_exact((#[trigger] pre[i]).1),
        (match session_keys(pre).index_of_first(key) {
            Option::Some(i) => turn_fits(pre[i].1, model, prompt, completion, reasoning, total),
            Option::None => true,
        }),
    ensures
        forall|i: int| 0 <= i < post.len() ==> session_totals_exact((#[trigger] post[i]).1),
{
    match session_keys(pre).index_of_first(key) {
        Option::Some(i) => {
            session_keys(pre).index_of_first_ensures(key);
            lemma_bumped_keeps_totals_exact(
                pre[i].1,
                post[i].1,
                model,
                effort,
                prompt,
                completion,
                reasoning,
                total,
                now,
            );
            assert forall|j: int| 0 <= j < post.len() implies session_totals_exact(
                (#[trigger] post[j]).1,
            ) by {
                if j != i {
                    assert(post[j] == pre[j]);
                    assert(session_totals_exact(pre[j].1));
                }
            }
        },
        Option::None => {
            lemma_fresh_totals_exact(
                post[pre.len() as int].1,
                model,
                effort,
                prompt,
                completion,
                reasoning,
                total,
                now,
            );
            assert forall|j: int| 0 <= j < post.len() implies session_totals_exact(
                (#[trigger] post[j]).1,
            ) by {
                if j < pre.len() {
                    assert(post[j] == pre[j]);
                    assert(session_totals_exact(pre[j].1));
                }
            }
        },
    }
}

/// Law: under well-formedness the entry `clear_session` removes was the
/// only one under its key, so afterwards no entry under that key remains
/// and a snapshot of that session yields nothing.
pub proof fn lemma_cleared_key_absent(
    pre: Seq<(String, SessionTelemetryEntry)>,
    key: Seq<char>,
    i: int,
)
    requires
        sessions_wf(pre),
        session_keys(pre).index_of_first(key) == Some(i),
    ensures
        session_keys(pre.remove(i)).index_of_first(key) is None,
{
    session_keys(pre).index_of_first_ensures(key);
    pre.remove_ensures(i);
    let removed = pre.remove(i);
    let rkeys = session_keys(removed);
    assert forall|j: int| 0 <= j < rkeys.len() implies rkeys[j] != key by {
        assert(rkeys[j] == removed[j].0@);
        if j < i {
            assert(removed[j] == pre[j]);
            assert(pre[j].0@ != pre[i].0@);
        } else {
            assert(removed[j] == pre[j + 1]);
            assert(pre[i].0@ != pre[j + 1].0@);
        }
    }
    rkeys.index_of_first_ensures(key);
}

impl TelemetryStore {
    /// Well-formedness: session keys are unique, and so are the model keys
    /// within each session. Every public operation preserves this.
    pub open spec fn wf(self) -> bool {
        sessions_wf(self.sessions@)
    }

    /// An empty store.
    pub fn new() -> (s: TelemetryStore)
        ensures
            s.sessions@.len() == 0,
            s.wf(),
    {
        TelemetryStore { sessions: Vec::new() }
    }
}

/// One model's usage, flattened for reporting.
pub struct ModelUsageSnapshot {
    pub model: String,
    pub turns: u32,
    pub total_tokens: i64,
    pub prompt_tokens: i64,
    pub completion_tokens: i64,
    pub reasoning_tokens: i64,
    pub last_reasoning_effort: Option<String>,
    pub last_updated_millis: i64,
}

/// One session's usage, flattened for reporting, with its per-model
/// breakdown ordered by heaviest token use first.
pub struct SessionTelemetrySnapshot {
    pub total_turns: u32,
    pub total_tokens: i64,
    pub total_prompt_tokens: i64,
    pub total_completion_tokens: i64,
    pub total_reasoning_tokens: i64,
    pub last_model: Option<String>,
    pub last_reasoning_effort: Option<String>,
    pub last_updated_millis: Option<i64>,
    pub models: Vec<ModelUsageSnapshot>,
}

/// The snapshot of one stored model entry.
pub open spec fn model_snapshot_of(pair: (String, ModelUsageEntry)) -> ModelUsageSnapshot {
    ModelUsageSnapshot {
        model: pair.0,
        turns: pair.1.turns,
        total_tokens: pair.1.total_tokens,
        prompt_tokens: pair.1.prompt_tokens,
        completion_tokens: pair.1.completion_tokens,
        reasoning_tokens: pair.1.reasoning_tokens,
        last_reasoning_effort: pair.1.last_reasoning_effort,
        last_updated_millis: pair.1.last_updated_millis,
    }
}

/// The snapshots of a whole breakdown, in storage order.
pub open spec fn model_snapshots(models: Seq<(String, ModelUsageEntry)>) -> Seq<
    ModelUsageSnapshot,
> {
    Seq::new(models.len(), |i: int| model_snapshot_of(models[i]))
}

/// Heaviest token use first.
pub open spec fn sorted_desc(s: Seq<ModelUsageSnapshot>) -> bool {
    forall|i: int, j: int| 0 <= i < j < s.len() ==> s[i].total_tokens >= s[j].total_tokens
}

/// Where a snapshot with a given count goes in a descending list: behind
/// every entry whose count is at least as large, so entries with equal
/// counts keep their arrival order.
pub open spec fn insert_position(s: Seq<ModelUsageSnapshot>, x: ModelUsageSnapshot) -> int
    decreases s.len(),
{
    if s.len() == 0 {
        0
    } else if s[0].total_tokens >= x.total_tokens {
        1 + insert_position(s.drop_first(), x)
    } else {
        0
    }
}

/// One snapshot inserted at its position.
pub open spec fn insert_desc(s: Seq<ModelUsageSnapshot>, x: ModelUsageSnapshot) -> Seq<
    ModelUsageSnapshot,
> {
    s.insert(insert_position(s, x), x)
}

/// The stable descending sort of a snapshot list: every entry inserted in
/// arrival order, each behind the entries with at least its count. This pins
/// the whole result, the order of equal counts included, so repeated
/// snapshots of an unchanged store agree.
pub open spec fn stable_sorted_desc(s: Seq<ModelUsageSnapshot>) -> Seq<ModelUsageSnapshot>
    decreases s.len(),
{
    if s.len() == 0 {
        Seq::empty()
    } else {
        insert_desc(stable_sorted_desc(s.drop_last()), s.last())
    }
}

proof fn lemma_insert_position_bounds(s: Seq<ModelUsageSnapshot>, x: ModelUsageSnapshot)
    requires
        sorted_desc(s),
    ensures
        0 <= insert_position(s, x) <= s.len(),
        forall|k: int| 0 <= k < insert_position(s, x) ==> s[k].total_tokens >= x.total_tokens,
        forall|k: int|
            insert_position(s, x) <= k < s.len() ==> s[k].total_tokens < x.total_tokens,
    decreases s.len(),
{
    if s.len() > 0 && s[0].total_tokens >= x.total_tokens {
        let rest = s.drop_first();
        assert forall|i: int, j: int|
            0 <= i < j < rest.len() implies rest[i].total_tokens >= rest[j].total_tokens by {
            assert(rest[i] == s[i + 1]);
            assert(rest[j] == s[j + 1]);
        }
        lemma_insert_position_bounds(rest, x);
        let p = insert_position(s, x);
        assert forall|k: int| 0 <= k < p implies s[k].total_tokens >= x.total_tokens by {
            if k > 0 {
                assert(rest[k - 1] == s[k]);
            }
        }
        assert forall|k: int| p <= k < s.len() implies s[k].total_tokens < x.total_tokens by {
            assert(rest[k - 1] == s[k]);
        }
    }
}

proof fn lemma_insert_desc_props(s: Seq<ModelUsageSnapshot>, x: ModelUsageSnapshot)
    requires
        sorted_desc(s),
    ensures
        insert_desc(s, x).len() == s.len() + 1,
        sorted_desc(insert_desc(s, x)),
        insert_desc(s, x).to_multiset() == s.to_multiset().insert(x),
{
    broadcast use vstd::seq_lib::group_to_multiset_ensures;
    broadcast use vstd::multiset::group_multiset_axioms;

    lemma_insert_position_bounds(s, x);
    let p = insert_position(s, x);
    s.insert_ensures(p, x);
    let r = insert_desc(s, x);
    assert forall|i: int, j: int|
        0 <= i < j < r.len() implies r[i].total_tokens >= r[j].total_tokens by {
        if i < p {
            assert(r[i] == s[i]);
        } else if i == p {
            assert(r[i] == x);
        } else {
            assert(r[i] == s[i - 1]);
        }
        if j < p {
            assert(r[j] == s[j]);
        } else if j == p {
            assert(r[j] == x);
        } else {
            assert(r[j] == s[j - 1]);
        }
    }
    r.remove_ensures(p);
    assert(r.remove(p) =~= s);
    assert(r[p] == x);
    assert(r.contains(x)) by {
        assert(0 <= p < r.len() && r[p] == x);
    }
    assert(r.to_multiset().remove(x) =~= s.to_multiset());
    assert(r.to_multiset().count(x) > 0);
    assert(r.to_multiset() =~= s.to_multiset().insert(x));
}

proof fn lemma_stable_sorted_props(s: Seq<ModelUsageSnapshot>)
    ensures
        stable_sorted_desc(s).len() == s.len(),
        sorted_desc(stable_sorted_desc(s)),
        stable_sorted_desc(s).to_multiset() == s.to_multiset(),
    decreases s.len(),
{
    broadcast use vstd::seq_lib::group_to_multiset_ensures;

    if s.len() == 0 {
        assert(stable_sorted_desc(s).to_multiset() =~= s.to_multiset());
    } else {
        let prefix = s.drop_last();
        lemma_stable_sorted_props(prefix);
        lemma_insert_desc_props(stable_sorted_desc(prefix), s.last());
        assert(prefix.push(s.last()) =~= s);
        assert(stable_sorted_desc(s).to_multiset() =~= s.to_multiset());
    }
}

/// Sorting keeps a duplicate-free breakdown duplicate-free: a reordering of
/// snapshots with pairwise distinct model keys has pairwise distinct model
/// keys, so the report holds one row per distinct model.
proof fn lemma_reordered_keys_distinct(s: Seq<ModelUsageSnapshot>, t: Seq<ModelUsageSnapshot>)
    requires
        t.to_multiset() == s.to_multiset(),
        forall|i: int, j: int| 0 <= i < j < s.len() ==> s[i].model@ != s[j].model@,
    ensures
        forall|i: int, j: int| 0 <= i < j < t.len() ==> t[i].model@ != t[j].model@,
{
    broadcast use vstd::seq_lib::group_to_multiset_ensures;

    assert forall|i: int, j: int|
        0 <= i < s.len() && 0 <= j < s.len() && i != j implies s[i] != s[j] by {
        if i < j {
            assert(s[i].model@ != s[j].model@);
        } else {
            assert(s[j].model@ != s[i].model@);
        }
    }
    assert(s.no_duplicates());
    s.lemma_multiset_has_no_duplicates();
    assert(forall|x: ModelUsageSnapshot|
        t.to_multiset().contains(x) ==> t.to_multiset().count(x) == 1);
    t.lemma_multiset_has_no_duplicates_conv();
    assert forall|i: int, j: int| 0 <= i < j < t.len() implies t[i].model@ != t[j].model@ by {
        if t[i].model@ == t[j].model@ {
            assert(t[i] != t[j]);
            assert(t.contains(t[i])) by {
                assert(0 <= i < t.len());
            }
            assert(t.contains(t[j])) by {
                assert(0 <= j < t.len());
            }
            assert(s.to_multiset().count(t[i]) > 0);
            assert(s.to_multiset().count(t[j]) > 0);
            assert(s.contains(t[i]));
            assert(s.contains(t[j]));
            let m = choose|m: int| 0 <= m < s.len() && s[m] == t[i];
            let n = choose|n: int| 0 <= n < s.len() && s[n] == t[j];
            assert(m != n);
            if m < n {
                assert(s[m].model@ != s[n].model@);
            } else {
                assert(s[n].model@ != s[m].model@);
            }
        }
    }
}

/// Sort model snapshots by descending total token use; entries with equal
/// counts keep their arrival order. The result is exactly the stable
/// descending sort of the input.
fn sort_models_desc(input: Vec<ModelUsageSnapshot>) -> (r: Vec<ModelUsageSnapshot>)
    ensures
        r@ == stable_sorted_desc(input@),
        sorted_desc(r@),
        r@.to_multiset() == input@.to_multiset(),
{
    let ghost orig = input@;
    let mut rest = input;
    let mut out: Vec<ModelUsageSnapshot> = Vec::new();
    proof {
        assert(rest@ =~= orig.subrange(0, orig.len() as int));
        assert(out@ =~= stable_sorted_desc(orig.subrange(0, 0)));
    }
    while rest.len() > 0
        invariant
            rest@.len() <= orig.len(),
            rest@ == orig.subrange(orig.len() - rest@.len(), orig.len() as int),
            out@ == stable_sorted_desc(orig.subrange(0, orig.len() - rest@.len())),
            sorted_desc(out@),
        decreases rest@.len(),
    {
        let ghost consumed = orig.len() - rest@.len();
        let ghost rest0 = rest@;
        let ghost out0 = out@;
        let x = rest.remove(0);
        let ghost xg = x;
        proof {
            rest0.remove_ensures(0);
            assert(rest@ =~= orig.subrange(consumed + 1, orig.len() as int));
            assert(xg == orig[consumed as int]);
        }
        let mut k: usize = 0;
        while k < out.len() && out[k].total_tokens >= x.total_tokens
            invariant
                k <= out@.len(),
                out@ == out0,
                x == xg,
                forall|j: int| 0 <= j < k ==> out@[j].total_tokens >= x.total_tokens,
            decreases out@.len() - k,
        {
            k += 1;
        }
        proof {
            lemma_insert_position_bounds(out0, xg);
            let p = insert_position(out0, xg);
            if (k as int) < p {
                assert(out0[k as int].total_tokens >= xg.total_tokens);
                assert(false);
            }
            if (k as int) > p {
                assert(out0[p].total_tokens < xg.total_tokens);
                assert(false);
            }
        }
        out.insert(k, x);
        proof {
            assert(out@ == insert_desc(out0, xg));
            let t = orig.subrange(0, consumed + 1);
            assert(t.drop_last() =~= orig.subrange(0, consumed));
            assert(t.last() == orig[consumed as int]);
            assert(out@ =~= stable_sorted_desc(t));
            lemma_insert_desc_props(out0, xg);
        }
    }
    proof {
        assert(orig.subrange(0, orig.len() as int) =~= orig);
        lemma_stable_sorted_props(orig);
    }
    out
}

/// Report everything recorded against the given session: its totals, its
/// last turn, and a per-model breakdown holding exactly the stored model
/// entries, heaviest token use first. A session never recorded yields
/// nothing.
pub fn snapshot(store: &TelemetryStore, session_id: Option<&str>) -> (r: Option<
    SessionTelemetrySnapshot,
>)
    requires
        store.wf(),
    ensures
        ({
            let key = normalized_session_key(opt_str_view(session_id));
            match session_keys(store.sessions@).index_of_first(key) {
                Some(i) => r matches Some(snap) && {
                    let entry = store.sessions@[i].1;
                    &&& snap.total_turns == entry.total_turns
                    &&& snap.total_tokens == entry.total_tokens
                    &&& snap.total_prompt_tokens == entry.total_prompt_tokens
                    &&& snap.total_completion_tokens == entry.total_completion_tokens
                    &&& snap.total_reasoning_tokens == entry.total_reasoning_tokens
                    &&& snap.last_model == entry.last_model
                    &&& snap.last_reasoning_effort == entry.last_reasoning_effort
                    &&& snap.last_updated_millis == entry.last_updated_millis
                    &&& snap.models@ == stable_sorted_desc(model_snapshots(entry.models@))
                    &&& sorted_desc(snap.models@)
                    &&& snap.models@.to_multiset() == model_snapshots(entry.models@).to_multiset()
                    &&& forall|a: int, b: int|
                        0 <= a < b < snap.models@.len() ==> (#[trigger] snap.models@[a]).model@
                            != (#[trigger] snap.models@[b]).model@
                },
                None => r is None,
            }
        }),
{
    let key = normalize_session_id(session_id);
    let found = find_session(&store.sessions, &key);
    let i = match found {
        Option::Some(i) => i,
        Option::None => {
            return None;
        },
    };
    proof {
        session_keys(store.sessions@).index_of_first_ensures(key@);
    }
    let entry = &store.sessions[i].1;
    let mut snaps: Vec<ModelUsageSnapshot> = Vec::new();
    let mut k: usize = 0;
    while k < entry.models.len()
        invariant
            k <= entry.models@.len(),
            snaps@.len() == k,
            forall|j: int| 0 <= j < k ==> #[trigger] snaps@[j] == model_snapshots(entry.models@)[j],
        decreases entry.models@.len() - k,
    {
        let pair = &entry.models[k];
        let snap = ModelUsageSnapshot {
            model: pair.0.clone(),
            turns: pair.1.turns,
            total_tokens: pair.1.total_tokens,
            prompt_tokens: pair.1.prompt_tokens,
            completion_tokens: pair.1.completion_tokens,
            reasoning_tokens: pair.1.reasoning_tokens,
            last_reasoning_effort: clone_opt_string(&pair.1.last_reasoning_effort),
            last_updated_millis: pair.1.last_updated_millis,
        };
        let ghost snaps0 = snaps@;
        let ghost snapg = snap;
        snaps.push(snap);
        proof {
            assert forall|j: int|
                0 <= j < k + 1 implies #[trigger] snaps@[j] == model_snapshots(entry.models@)[j] by {
                if j < k {
                    assert(snaps@[j] == snaps0[j]);
                } else {
                    assert(snaps@[j] == snapg);
                }
            }
        }
        k += 1;
    }
    proof {
        assert(snaps@ =~= model_snapshots(entry.models@));
    }
    let ghost snapsg = snaps@;
    let models = sort_models_desc(snaps);
    proof {
        assert(models_wf(entry.models@));
        assert forall|a: int, b: int|
            0 <= a < b < snapsg.len() implies snapsg[a].model@ != snapsg[b].model@ by {
            assert(snapsg[a] == model_snapshot_of(entry.models@[a]));
            assert(snapsg[b] == model_snapshot_of(entry.models@[b]));
            assert(entry.models@[a].0@ != entry.models@[b].0@);
        }
        lemma_reordered_keys_distinct(snapsg, models@);
    }
    Some(
        SessionTelemetrySnapshot {
            total_turns: entry.total_turns,
            total_tokens: entry.total_tokens,
            total_prompt_tokens: entry.total_prompt_tokens,
            total_completion_tokens: entry.total_completion_tokens,
            total_reasoning_tokens: entry.total_reasoning_tokens,
            last_model: clone_opt_string(&entry.last_model),
            last_reasoning_effort: clone_opt_string(&entry.last_reasoning_effort),
            last_updated_millis: entry.last_updated_millis,
            models,
        },
    )
}

/// An owned copy of an optional string.
fn clone_opt_string(s: &Option<String>) -> (r: Option<String>)
    ensures
        r == *s,
{
    match s {
        Option::None => None,
        Option::Some(v) => Some(v.clone()),
    }
}

} // verus!
