//! `/model` (alias `/m`) — switch model + (optionally) reasoning effort.
//! Chained autocomplete: pick a reasoning-supported model → trailing space
//! re-opens the dropdown into a `xhigh|high|medium|low` sub-menu.
use vstd::prelude::*;
use crate::commands::{Action, ArgItem, ArgItemView, CommandResult, ReasoningEffort};
use crate::text::{
    chars_of, concat, eq_ignore_ascii_case, seq_eq, eq_ignore_case, is_whitespace, is_ws, one_char,
    slice_chars, string_of, strip_suffix_all, strip_suffix_all_chars, trim, trim_chars, trim_end,
    trim_end_chars,
};

verus! {

/// One catalog model, as far as the picker reads it.
pub struct ModelInfo {
    /// Catalog id: `provider::model` or a bare id.
    pub id: String,
    pub name: String,
    /// Provider advertised in the model's metadata.
    pub provider: Option<String>,
    /// Provider-side model id advertised in the model's metadata.
    pub model_id: Option<String>,
    pub supports_reasoning_effort: bool,
    /// Effort levels the model offers.
    pub effort_options: Vec<ReasoningEffort>,
}

pub struct ModelInfoView {
    pub id: Seq<char>,
    pub name: Seq<char>,
    pub provider: Option<Seq<char>>,
    pub model_id: Option<Seq<char>>,
    pub supports: bool,
    pub effort_options: Seq<ReasoningEffort>,
}

pub open spec fn opt_view(o: Option<String>) -> Option<Seq<char>> {
    match o {
        Some(s) => Some(s@),
        None => None,
    }
}

impl View for ModelInfo {
    type V = ModelInfoView;

    open spec fn view(&self) -> ModelInfoView {
        ModelInfoView {
            id: self.id@,
            name: self.name@,
            provider: opt_view(self.provider),
            model_id: opt_view(self.model_id),
            supports: self.supports_reasoning_effort,
            effort_options: self.effort_options@,
        }
    }
}

/// The model catalog and the session's current choice.
pub struct ModelState {
    pub available: Vec<ModelInfo>,
    pub current: Option<String>,
    /// Ids of the models the session is scoped to.
    pub scoped: Vec<String>,
    pub reasoning_effort: Option<ReasoningEffort>,
}

impl ModelState {
    pub open spec fn models(&self) -> Seq<ModelInfoView> {
        self.available@.map_values(|m: ModelInfo| m@)
    }

    pub open spec fn scoped_ids(&self) -> Seq<Seq<char>> {
        self.scoped@.map_values(|s: String| s@)
    }

    pub fn is_empty(&self) -> (r: bool)
        ensures
            r == (self.available.len() == 0),
    {
        self.available.len() == 0
    }
}

impl Default for ModelState {
    fn default() -> (r: ModelState)
        ensures
            r.available.len() == 0,
            r.current is None,
            r.scoped.len() == 0,
            r.reasoning_effort is None,
    {
        ModelState { available: Vec::new(), current: None, scoped: Vec::new(), reasoning_effort: None }
    }
}

/// Context for running a command.
pub struct CommandExecCtx<'a> {
    pub models: &'a ModelState,
    pub plan_mode_active: bool,
}

/// Context for argument completion.
pub struct AppCtx<'a> {
    pub models: &'a ModelState,
}

// ---------------------------------------------------------------------------
// Specification
// ---------------------------------------------------------------------------

/// First `::` at or after `i`.
pub open spec fn dcolon_from(s: Seq<char>, i: int) -> Option<int>
    decreases s.len() - i,
{
    if i < 0 || i + 1 >= s.len() {
        None
    } else if s[i] == ':' && s[i + 1] == ':' {
        Some(i)
    } else {
        dcolon_from(s, i + 1)
    }
}

/// `(provider, model id)`: from a `provider::model` catalog id, else from
/// the metadata (the model id falling back to the catalog id).
pub open spec fn split_provider_model(m: ModelInfoView) -> (Option<Seq<char>>, Seq<char>) {
    match dcolon_from(m.id, 0) {
        Some(i) => (Some(m.id.take(i)), m.id.skip(i + 2)),
        None => (
            m.provider,
            match m.model_id {
                Some(x) => x,
                None => m.id,
            },
        ),
    }
}

pub open spec fn provider_text(m: ModelInfoView) -> Seq<char> {
    match split_provider_model(m).0 {
        Some(p) => p,
        None => Seq::empty(),
    }
}

/// Completion value: `provider/id` when the provider is known.
pub open spec fn completion_token(m: ModelInfoView) -> Seq<char> {
    let p = provider_text(m);
    let id = split_provider_model(m).1;
    if p.len() > 0 {
        p + "/"@ + id
    } else {
        id
    }
}

/// Search text: id first, then provider forms, then the display name.
pub open spec fn completion_search_text(m: ModelInfoView) -> Seq<char> {
    let p = provider_text(m);
    let id = split_provider_model(m).1;
    let name = if m.name.len() == 0 {
        Seq::<char>::empty()
    } else {
        " "@ + m.name
    };
    if p.len() > 0 {
        id + " "@ + p + " "@ + p + "/"@ + id + " "@ + p + " "@ + id + name
    } else {
        id + name
    }
}

/// A query names model `m` by catalog id, display name, or completion
/// token (names and tokens compared ignoring ASCII case).
pub open spec fn names_model(m: ModelInfoView, q: Seq<char>) -> bool {
    m.id == q || eq_ignore_case(m.name, q) || eq_ignore_case(completion_token(m), q)
}

/// Index of the first model from `i` on that the query names.
pub open spec fn resolve_from(ms: Seq<ModelInfoView>, q: Seq<char>, i: int) -> Option<int>
    decreases ms.len() - i,
{
    if i < 0 || i >= ms.len() {
        None
    } else if names_model(ms[i], q) {
        Some(i)
    } else {
        resolve_from(ms, q, i + 1)
    }
}

pub open spec fn resolve_index(ms: Seq<ModelInfoView>, q: Seq<char>) -> Option<int> {
    resolve_from(ms, q, 0)
}

pub open spec fn resolve_id(ms: Seq<ModelInfoView>, q: Seq<char>) -> Option<Seq<char>> {
    match resolve_index(ms, q) {
        Some(i) => Some(ms[i].id),
        None => None,
    }
}

/// Last whitespace position.
pub open spec fn last_ws(s: Seq<char>) -> Option<int>
    decreases s.len(),
{
    if s.len() == 0 {
        None
    } else if is_ws(s.last()) {
        Some(s.len() - 1)
    } else {
        last_ws(s.drop_last())
    }
}

/// `(prefix, last token)` split on the final whitespace run.
pub open spec fn split_trailing(s: Seq<char>) -> Option<(Seq<char>, Seq<char>)> {
    match last_ws(s) {
        Some(j) => {
            let prefix = trim_end(s.take(j));
            let last = s.skip(j + 1);
            if prefix.len() == 0 || last.len() == 0 {
                None
            } else {
                Some((prefix, last))
            }
        },
        None => None,
    }
}

/// `last_ws` finds the last whitespace character, if any.
pub proof fn lemma_last_ws(s: Seq<char>)
    ensures
        last_ws(s) matches Some(j) ==> 0 <= j < s.len() && is_ws(s[j]) && forall|k: int|
            j < k < s.len() ==> !is_ws(#[trigger] s[k]),
        last_ws(s) is None ==> forall|k: int| 0 <= k < s.len() ==> !is_ws(#[trigger] s[k]),
    decreases s.len(),
{
    if s.len() > 0 && !is_ws(s.last()) {
        lemma_last_ws(s.drop_last());
        assert forall|k: int| 0 <= k < s.len() - 1 implies #[trigger] s[k] == s.drop_last()[k] by {}
    }
}

/// A typed argument splits off its trailing token exactly when it holds a
/// whitespace character with text after the last one and non-blank text
/// before it: the token is everything after the last whitespace, and the
/// prefix is what precedes that whitespace run's last character, with
/// trailing whitespace trimmed.
pub proof fn law_split_trailing(s: Seq<char>)
    ensures
        split_trailing(s) matches Some((prefix, token)) ==> exists|j: int|
            0 <= j < s.len() && is_ws(#[trigger] s[j]) && token == s.skip(j + 1) && token.len() > 0
                && (forall|k: int| 0 <= k < token.len() ==> !is_ws(#[trigger] token[k])) && prefix
                == trim_end(s.take(j)) && prefix.len() > 0,
        split_trailing(s) is None ==> (forall|k: int| 0 <= k < s.len() ==> !is_ws(#[trigger] s[k]))
            || is_ws(s.last()) || (last_ws(s) matches Some(j) && trim_end(s.take(j)).len() == 0),
{
    lemma_last_ws(s);
    if let Some(j) = last_ws(s) {
        let token = s.skip(j + 1);
        assert forall|k: int| 0 <= k < token.len() implies !is_ws(#[trigger] token[k]) by {
            assert(token[k] == s[j + 1 + k]);
        }
        if split_trailing(s) is Some {
            assert(is_ws(s[j]));
        } else if token.len() == 0 {
            assert(j == s.len() - 1);
        }
    }
}

/// Bytes a character takes in UTF-8.
pub open spec fn char_utf8_len(c: char) -> nat {
    if (c as u32) < 0x80 {
        1
    } else if (c as u32) < 0x800 {
        2
    } else if (c as u32) < 0x10000 {
        3
    } else {
        4
    }
}

pub open spec fn utf8_len(s: Seq<char>) -> nat
    decreases s.len(),
{
    if s.len() == 0 {
        0
    } else {
        utf8_len(s.drop_last()) + char_utf8_len(s.last())
    }
}

/// The query reads `<token of a reasoning model><whitespace>...`.
pub open spec fn effort_phase_match(m: ModelInfoView, q: Seq<char>) -> bool {
    let t = completion_token(m);
    &&& m.supports
    &&& q.len() > t.len()
    &&& eq_ignore_case(q.take(t.len() as int), t)
    &&& is_ws(q[t.len() as int])
}

/// Model `i` is the effort-phase match: longest token (in bytes) first,
/// catalog order among equals.
pub open spec fn effort_phase_best(ms: Seq<ModelInfoView>, q: Seq<char>, i: int) -> bool {
    &&& 0 <= i < ms.len()
    &&& effort_phase_match(ms[i], q)
    &&& forall|j: int|
        0 <= j < ms.len() && effort_phase_match(#[trigger] ms[j], q) ==> utf8_len(completion_token(ms[j]))
            < utf8_len(completion_token(ms[i])) || (utf8_len(completion_token(ms[j])) == utf8_len(
            completion_token(ms[i]),
        ) && i <= j)
}

pub open spec fn no_effort_phase(ms: Seq<ModelInfoView>, q: Seq<char>) -> bool {
    forall|j: int| 0 <= j < ms.len() ==> !effort_phase_match(#[trigger] ms[j], q)
}

pub open spec fn is_scoped(scoped: Seq<Seq<char>>, id: Seq<char>) -> bool {
    exists|k: int| 0 <= k < scoped.len() && scoped[k] == id
}

/// Row label: the display name, or the model id when the name is blank.
pub open spec fn row_label(m: ModelInfoView) -> Seq<char> {
    if trim(m.name).len() == 0 {
        split_provider_model(m).1
    } else {
        m.name
    }
}

/// Row text: the label and provider, marked when scoped; the current
/// model's row also names its model id, when the label is not already that
/// id, before the current mark.
pub open spec fn row_display(m: ModelInfoView, scoped: bool, current: bool) -> Seq<char> {
    let p = provider_text(m);
    let mid = split_provider_model(m).1;
    let base = if p.len() == 0 {
        row_label(m)
    } else {
        row_label(m) + " · "@ + p
    };
    let s = if scoped {
        base + " (scoped)"@
    } else {
        base
    };
    if current {
        if row_label(m) == mid {
            s + " (current)"@
        } else {
            s + " · "@ + mid + " (current)"@
        }
    } else {
        s
    }
}

/// The dropdown row of one model.
pub open spec fn model_row(st: &ModelState, i: int) -> ArgItemView {
    let m = st.models()[i];
    ArgItemView {
        display: row_display(
            m,
            is_scoped(st.scoped_ids(), m.id),
            opt_view(st.current) == Some(m.id),
        ),
        match_text: completion_search_text(m),
        insert_text: if m.supports {
            completion_token(m) + " "@
        } else {
            completion_token(m)
        },
        description: provider_text(m),
    }
}

/// The catalog model an argument row stands for.
pub open spec fn resolve_row(ms: Seq<ModelInfoView>, item: ArgItemView) -> Option<Seq<char>> {
    match resolve_id(ms, trim_end(item.insert_text)) {
        Some(id) => Some(id),
        None => resolve_id(ms, trim(strip_suffix_all(item.display, "(current)"@))),
    }
}

pub open spec fn effort_id(e: ReasoningEffort) -> Seq<char> {
    match e {
        ReasoningEffort::Low => "low"@,
        ReasoningEffort::Medium => "medium"@,
        ReasoningEffort::High => "high"@,
        ReasoningEffort::Xhigh => "xhigh"@,
    }
}

/// Effort rows are listed strongest first.
pub open spec fn effort_order() -> Seq<ReasoningEffort> {
    seq![ReasoningEffort::Xhigh, ReasoningEffort::High, ReasoningEffort::Medium, ReasoningEffort::Low]
}

/// The levels of `order` that `offered` holds, in `order`'s order.
pub open spec fn offered_in_order(order: Seq<ReasoningEffort>, offered: Seq<ReasoningEffort>) -> Seq<
    ReasoningEffort,
>
    decreases order.len(),
{
    if order.len() == 0 {
        Seq::empty()
    } else {
        let rest = offered_in_order(order.drop_last(), offered);
        if offered.contains(order.last()) {
            rest.push(order.last())
        } else {
            rest
        }
    }
}

/// Sort key for effort row `k`: `a`, `b`, ...
pub open spec fn sort_key(k: int) -> char {
    ((97 + k) as u32) as char
}

/// `xs` joined by `sep`.
pub open spec fn join(xs: Seq<Seq<char>>, sep: Seq<char>) -> Seq<char>
    decreases xs.len(),
{
    if xs.len() == 0 {
        Seq::empty()
    } else if xs.len() == 1 {
        xs[0]
    } else {
        join(xs.drop_last(), sep) + sep + xs.last()
    }
}

/// The first offered level whose id matches the token (ASCII case ignored).
pub open spec fn effort_from(opts: Seq<ReasoningEffort>, tok: Seq<char>, i: int) -> Option<ReasoningEffort>
    decreases opts.len() - i,
{
    if i < 0 || i >= opts.len() {
        None
    } else if eq_ignore_case(effort_id(opts[i]), tok) {
        Some(opts[i])
    } else {
        effort_from(opts, tok, i + 1)
    }
}

pub open spec fn effort_error(opts: Seq<ReasoningEffort>, tok: Seq<char>) -> Seq<char> {
    "unknown effort level '"@ + tok + "'; use one of: "@ + join(
        opts.map_values(|e: ReasoningEffort| effort_id(e)),
        ", "@,
    )
}

/// What `/model <args>` answers.
pub enum ModelRunSpec {
    OpenPicker,
    Next,
    SetDefault(Seq<char>),
    Switch(Seq<char>, ReasoningEffort),
    Error(Seq<char>),
}

pub open spec fn spec_model_run(ms: Seq<ModelInfoView>, args: Seq<char>) -> ModelRunSpec {
    let t = trim(args);
    if t.len() == 0 {
        ModelRunSpec::OpenPicker
    } else if eq_ignore_case(t, "next"@) {
        ModelRunSpec::Next
    } else if resolve_id(ms, t) is Some {
        ModelRunSpec::SetDefault(resolve_id(ms, t)->0)
    } else {
        match split_trailing(t) {
            Some((prefix, tok)) => match resolve_index(ms, prefix) {
                Some(i) if ms[i].supports => match effort_from(ms[i].effort_options, tok, 0) {
                    Some(e) => ModelRunSpec::Switch(ms[i].id, e),
                    None => ModelRunSpec::Error(effort_error(ms[i].effort_options, tok)),
                },
                _ => ModelRunSpec::Error("Unknown model: "@ + t),
            },
            None => ModelRunSpec::Error("Unknown model: "@ + t),
        }
    }
}

pub open spec fn result_is(r: CommandResult, s: ModelRunSpec) -> bool {
    match s {
        ModelRunSpec::OpenPicker => r matches CommandResult::Action(Action::OpenModelPicker),
        ModelRunSpec::Next => r matches CommandResult::Action(Action::NextModel),
        ModelRunSpec::SetDefault(id) => r matches CommandResult::Action(Action::SetDefaultModel(x))
            && x@ == id,
        ModelRunSpec::Switch(id, e) => r matches CommandResult::Action(
            Action::SwitchModel { model_id, effort },
        ) && model_id@ == id && effort == Some(e),
        ModelRunSpec::Error(m) => r matches CommandResult::Error(x) && x@ == m,
    }
}

// ---------------------------------------------------------------------------
// Executable helpers
// ---------------------------------------------------------------------------

fn sv(s: &String) -> (r: Vec<char>)
    ensures
        r@ == s@,
{
    chars_of(s.as_str())
}

fn dcolon(s: &Vec<char>) -> (r: Option<usize>)
    ensures
        r matches Some(i) ==> dcolon_from(s@, 0) == Some(i as int) && i + 2 <= s.len(),
        r is None ==> dcolon_from(s@, 0) is None,
{
    if s.len() < 2 {
        return None;
    }
    let mut i: usize = 0;
    while i < s.len() - 1
        invariant
            s.len() >= 2,
            dcolon_from(s@, 0) == dcolon_from(s@, i as int),
            i <= s.len(),
        decreases s.len() - i,
    {
        if s[i] == ':' && s[i + 1] == ':' {
            return Some(i);
        }
        i = i + 1;
    }
    None
}

/// `(provider, model id)` of a catalog model.
fn split_provider_model_id(m: &ModelInfo) -> (r: (Option<Vec<char>>, Vec<char>))
    ensures
        (match r.0 {
            Some(p) => Some(p@),
            None => None,
        }) == split_provider_model(m@).0,
        r.1@ == split_provider_model(m@).1,
{
    let raw = sv(&m.id);
    match dcolon(&raw) {
        Some(i) => {
            let p = slice_chars(&raw, 0, i);
            let rest = slice_chars(&raw, i + 2, raw.len());
            assert(p@ =~= raw@.take(i as int));
            assert(rest@ =~= raw@.skip(i + 2));
            (Some(p), rest)
        },
        None => {
            let p = match &m.provider {
                Some(p) => Some(sv(p)),
                None => None,
            };
            let id = match &m.model_id {
                Some(x) => sv(x),
                None => raw,
            };
            (p, id)
        },
    }
}

fn provider_chars(m: &ModelInfo) -> (r: Vec<char>)
    ensures
        r@ == provider_text(m@),
{
    match split_provider_model_id(m).0 {
        Some(p) => p,
        None => Vec::new(),
    }
}

fn token_chars(m: &ModelInfo) -> (r: Vec<char>)
    ensures
        r@ == completion_token(m@),
{
    let p = provider_chars(m);
    let id = split_provider_model_id(m).1;
    if p.len() > 0 {
        let a = concat(&p, &chars_of("/"));
        concat(&a, &id)
    } else {
        id
    }
}

/// First line of the `/model` detail pane: the name, then `  [provider]`
/// when a provider is known, then `  ·  id` when the provider-side id differs
/// from the name.
pub open spec fn detail_title(m: ModelInfoView) -> Seq<char> {
    let p = provider_text(m);
    let id = split_provider_model(m).1;
    let with_provider = if p.len() > 0 {
        m.name + seq![' ', ' ', '['] + p + seq![']']
    } else {
        m.name
    };
    if id != m.name {
        with_provider + seq![' ', ' ', '·', ' ', ' '] + id
    } else {
        with_provider
    }
}

/// The title line of the `/model` detail pane for `m`.
pub fn model_detail_title(m: &ModelInfo) -> (r: String)
    ensures
        r@ == detail_title(m@),
{
    let name = sv(&m.name);
    let p = provider_chars(m);
    let id = split_provider_model_id(m).1;
    let mut out = sv(&m.name);
    if p.len() > 0 {
        let mut open: Vec<char> = Vec::new();
        open.push(' ');
        open.push(' ');
        open.push('[');
        out = concat(&out, &open);
        out = concat(&out, &p);
        out.push(']');
    }
    let ghost with_provider = out@;
    if !seq_eq(&id, &name) {
        let mut sep: Vec<char> = Vec::new();
        sep.push(' ');
        sep.push(' ');
        sep.push('·');
        sep.push(' ');
        sep.push(' ');
        out = concat(&out, &sep);
        out = concat(&out, &id);
    }
    proof {
        assert(with_provider =~= (if provider_text(m@).len() > 0 {
            m@.name + seq![' ', ' ', '['] + provider_text(m@) + seq![']']
        } else {
            m@.name
        }));
    }
    string_of(&out)
}

/// Completion value for one model: `provider/id` when the provider is known.
pub fn model_completion_token(m: &ModelInfo) -> (r: String)
    ensures
        r@ == completion_token(m@),
{
    string_of(&token_chars(m))
}

/// Search text for one model.
pub fn model_completion_search_text(m: &ModelInfo) -> (r: String)
    ensures
        r@ == completion_search_text(m@),
{
    let p = provider_chars(m);
    let id = split_provider_model_id(m).1;
    let raw_name = sv(&m.name);
    let name = if raw_name.len() == 0 {
        Vec::new()
    } else {
        concat(&chars_of(" "), &raw_name)
    };
    if p.len() > 0 {
        let sp = chars_of(" ");
        let sl = chars_of("/");
        let mut out = concat(&id, &sp);
        out = concat(&out, &p);
        out = concat(&out, &sp);
        out = concat(&out, &p);
        out = concat(&out, &sl);
        out = concat(&out, &id);
        out = concat(&out, &sp);
        out = concat(&out, &p);
        out = concat(&out, &sp);
        out = concat(&out, &id);
        out = concat(&out, &name);
        string_of(&out)
    } else {
        string_of(&concat(&id, &name))
    }
}

fn names_model_exec(m: &ModelInfo, q: &Vec<char>) -> (r: bool)
    ensures
        r == names_model(m@, q@),
{
    let id = sv(&m.id);
    if id.len() == q.len() {
        let mut same = true;
        let mut i: usize = 0;
        while i < id.len()
            invariant
                id.len() == q.len(),
                i <= id.len(),
                same == forall|j: int| 0 <= j < i ==> id@[j] == q@[j],
            decreases id.len() - i,
        {
            if id[i] != q[i] {
                same = false;
            }
            i = i + 1;
        }
        if same {
            assert(id@ =~= q@);
            return true;
        }
    }
    eq_ignore_ascii_case(&sv(&m.name), q) || eq_ignore_ascii_case(&token_chars(m), q)
}

/// Index of the first catalog model the query names.
fn resolve_idx(st: &ModelState, q: &Vec<char>) -> (r: Option<usize>)
    ensures
        r matches Some(i) ==> i < st.available.len() && resolve_index(st.models(), q@) == Some(i as int),
        r is None ==> resolve_index(st.models(), q@) is None,
{
    let mut i: usize = 0;
    while i < st.available.len()
        invariant
            i <= st.available.len(),
            resolve_index(st.models(), q@) == resolve_from(st.models(), q@, i as int),
        decreases st.available.len() - i,
    {
        if names_model_exec(&st.available[i], q) {
            return Some(i);
        }
        i = i + 1;
    }
    None
}

/// Look up a model by catalog id, or by display name or completion token
/// ignoring ASCII case.
pub fn resolve_by_name_or_id(st: &ModelState, name: &str) -> (r: Option<String>)
    ensures
        opt_view(r) == resolve_id(st.models(), name@),
{
    match resolve_idx(st, &chars_of(name)) {
        Some(i) => Some(string_of(&sv(&st.available[i].id))),
        None => None,
    }
}

fn split_trailing_chars(s: &Vec<char>) -> (r: Option<(Vec<char>, Vec<char>)>)
    ensures
        match r {
            Some((a, b)) => split_trailing(s@) == Some((a@, b@)),
            None => split_trailing(s@) is None,
        },
{
    let mut j: usize = s.len();
    assert(s@.take(j as int) =~= s@);
    while j > 0 && !is_whitespace(s[j - 1])
        invariant
            j <= s.len(),
            last_ws(s@) == last_ws(s@.take(j as int)),
        decreases j,
    {
        assert(s@.take(j as int).drop_last() =~= s@.take(j - 1));
        j = j - 1;
    }
    if j == 0 {
        assert(s@.take(0) =~= Seq::<char>::empty());
        return None;
    }
    let k = j - 1;
    assert(last_ws(s@.take(j as int)) == Some(k as int));
    let head = slice_chars(s, 0, k);
    assert(head@ =~= s@.take(k as int));
    let prefix = trim_end_chars(&head);
    let last = slice_chars(s, k + 1, s.len());
    assert(last@ =~= s@.skip(k + 1));
    if prefix.len() == 0 || last.len() == 0 {
        return None;
    }
    Some((prefix, last))
}

/// Split `args` into `(prefix, last token)` on the final whitespace; `None`
/// when there is nothing on one side of it.
pub fn split_trailing_token(args: &str) -> (r: Option<(String, String)>)
    ensures
        match r {
            Some((a, b)) => split_trailing(args@) == Some((a@, b@)),
            None => split_trailing(args@) is None,
        },
{
    match split_trailing_chars(&chars_of(args)) {
        Some((a, b)) => Some((string_of(&a), string_of(&b))),
        None => None,
    }
}

fn char_len_utf8(c: char) -> (r: usize)
    ensures
        r == char_utf8_len(c),
{
    let v: u32 = c as u32;
    if v < 0x80 {
        1
    } else if v < 0x800 {
        2
    } else if v < 0x10000 {
        3
    } else {
        4
    }
}

fn utf8_len_exec(s: &Vec<char>) -> (r: u128)
    ensures
        r == utf8_len(s@),
{
    let mut n: u128 = 0;
    let mut i: usize = 0;
    while i < s.len()
        invariant
            i <= s.len(),
            n == utf8_len(s@.take(i as int)),
            n <= 4 * i,
        decreases s.len() - i,
    {
        assert(s@.take(i + 1).drop_last() =~= s@.take(i as int));
        n = n + char_len_utf8(s[i]) as u128;
        i = i + 1;
    }
    assert(s@.take(s.len() as int) =~= s@);
    n
}

fn effort_match_exec(m: &ModelInfo, q: &Vec<char>) -> (r: Option<u128>)
    ensures
        r is Some == effort_phase_match(m@, q@),
        r matches Some(n) ==> n == utf8_len(completion_token(m@)),
{
    if !m.supports_reasoning_effort {
        return None;
    }
    let t = token_chars(m);
    if q.len() <= t.len() {
        return None;
    }
    let head = slice_chars(q, 0, t.len());
    assert(head@ =~= q@.take(t.len() as int));
    if !eq_ignore_ascii_case(&head, &t) || !is_whitespace(q[t.len()]) {
        return None;
    }
    Some(utf8_len_exec(&t))
}

/// The reasoning model whose token (plus whitespace) begins the query.
fn detect_effort_phase(st: &ModelState, q: &Vec<char>) -> (r: Option<usize>)
    ensures
        r matches Some(i) ==> effort_phase_best(st.models(), q@, i as int),
        r is None ==> no_effort_phase(st.models(), q@),
{
    let ghost ms = st.models();
    let mut best: Option<usize> = None;
    let mut best_len: u128 = 0;
    let mut i: usize = 0;
    while i < st.available.len()
        invariant
            ms == st.models(),
            i <= st.available.len(),
            best matches Some(b) ==> b < i && effort_phase_match(ms[b as int], q@) && best_len == utf8_len(
                completion_token(ms[b as int]),
            ) && forall|j: int|
                0 <= j < i && effort_phase_match(#[trigger] ms[j], q@) ==> utf8_len(completion_token(ms[j]))
                    < best_len || (utf8_len(completion_token(ms[j])) == best_len && b <= j),
            best is None ==> forall|j: int| 0 <= j < i ==> !effort_phase_match(#[trigger] ms[j], q@),
        decreases st.available.len() - i,
    {
        assert(ms[i as int] == st.available@[i as int]@);
        match effort_match_exec(&st.available[i], q) {
            Some(n) => {
                match best {
                    Some(_) => {
                        if n > best_len {
                            best = Some(i);
                            best_len = n;
                        }
                    },
                    None => {
                        best = Some(i);
                        best_len = n;
                    },
                }
            },
            None => {},
        }
        i = i + 1;
    }
    best
}

/// Whether `/model` shows its model picker rather than the chained
/// reasoning-effort picker.
pub fn uses_pi_model_picker_search(st: &ModelState, args_query: &str) -> (r: bool)
    ensures
        r == no_effort_phase(st.models(), args_query@),
{
    let r = detect_effort_phase(st, &chars_of(args_query));
    r.is_none()
}

fn is_scoped_exec(st: &ModelState, id: &Vec<char>) -> (r: bool)
    ensures
        r == is_scoped(st.scoped_ids(), id@),
{
    let mut k: usize = 0;
    while k < st.scoped.len()
        invariant
            k <= st.scoped.len(),
            forall|j: int| 0 <= j < k ==> st.scoped_ids()[j] != id@,
        decreases st.scoped.len() - k,
    {
        let s = sv(&st.scoped[k]);
        if seq_eq(&s, id) {
            assert(st.scoped_ids()[k as int] == id@);
            return true;
        }
        k = k + 1;
    }
    false
}

fn is_current_exec(st: &ModelState, id: &Vec<char>) -> (r: bool)
    ensures
        r == (opt_view(st.current) == Some(id@)),
{
    match &st.current {
        Some(c) => seq_eq(&sv(c), id),
        None => false,
    }
}

fn model_row_exec(st: &ModelState, i: usize) -> (r: ArgItem)
    requires
        i < st.available.len(),
    ensures
        r@ == model_row(st, i as int),
{
    let m = &st.available[i];
    assert(st.models()[i as int] == m@);
    let id = sv(&m.id);
    let p = provider_chars(m);
    let tok = token_chars(m);
    let raw_name = sv(&m.name);
    let mid = split_provider_model_id(m).1;
    let label = if trim_chars(&raw_name).len() == 0 {
        split_provider_model_id(m).1
    } else {
        raw_name
    };
    let label_is_id = seq_eq(&label, &mid);
    let mut display = if p.len() == 0 {
        label
    } else {
        concat(&concat(&label, &chars_of(" · ")), &p)
    };
    if is_scoped_exec(st, &id) {
        display = concat(&display, &chars_of(" (scoped)"));
    }
    if is_current_exec(st, &id) {
        if !label_is_id {
            display = concat(&concat(&display, &chars_of(" · ")), &mid);
        }
        display = concat(&display, &chars_of(" (current)"));
    }
    let insert = if m.supports_reasoning_effort {
        concat(&tok, &chars_of(" "))
    } else {
        tok
    };
    ArgItem {
        display: string_of(&display),
        match_text: model_completion_search_text(m),
        insert_text: string_of(&insert),
        description: string_of(&p),
    }
}

/// Resolve the catalog model for an argument row.
pub fn resolve_model_for_arg_item(st: &ModelState, item: &ArgItem) -> (r: Option<String>)
    ensures
        opt_view(r) == resolve_row(st.models(), item@),
{
    let ins = trim_end_chars(&sv(&item.insert_text));
    match resolve_idx(st, &ins) {
        Some(i) => Some(string_of(&sv(&st.available[i].id))),
        None => {
            let d = trim_chars(&strip_suffix_all_chars(&sv(&item.display), &chars_of("(current)")));
            match resolve_idx(st, &d) {
                Some(i) => Some(string_of(&sv(&st.available[i].id))),
                None => None,
            }
        },
    }
}

/// The rows of the model dropdown, in catalog order.
pub open spec fn model_rows(st: &ModelState) -> Seq<ArgItemView> {
    Seq::new(st.available.len() as nat, |i: int| model_row(st, i))
}

/// Row `k` stands for model `c`.
pub open spec fn row_hits(st: &ModelState, c: Seq<char>, k: int) -> bool {
    resolve_row(st.models(), model_rows(st)[k]) == Some(c)
}

/// Row `p` is the first row standing for model `c`.
pub open spec fn first_hit(st: &ModelState, c: Seq<char>, p: int) -> bool {
    &&& 0 <= p < st.available.len()
    &&& row_hits(st, c, p)
    &&& forall|k: int| 0 <= k < p ==> !#[trigger] row_hits(st, c, k)
}

/// The model dropdown: one row per catalog model, with the first row that
/// stands for the current model swapped to the top.
pub open spec fn spec_model_items(st: &ModelState, r: Seq<ArgItemView>) -> bool {
    let rows = model_rows(st);
    match opt_view(st.current) {
        Some(c) => {
            ||| exists|p: int| #[trigger] first_hit(st, c, p) && r == rows.update(0, rows[p]).update(p, rows[0])
            ||| (forall|k: int| 0 <= k < rows.len() ==> !#[trigger] row_hits(st, c, k)) && r == rows
        },
        None => r == rows,
    }
}

fn build_model_items(st: &ModelState) -> (r: Vec<ArgItem>)
    ensures
        spec_model_items(st, r@.map_values(|a: ArgItem| a@)),
{
    let ghost rows = model_rows(st);
    let mut items: Vec<ArgItem> = Vec::new();
    let mut i: usize = 0;
    while i < st.available.len()
        invariant
            i <= st.available.len(),
            rows == model_rows(st),
            items.len() == i,
            forall|k: int| 0 <= k < i ==> #[trigger] items@[k]@ == rows[k],
        decreases st.available.len() - i,
    {
        items.push(model_row_exec(st, i));
        i = i + 1;
    }
    assert(items@.map_values(|a: ArgItem| a@) =~= rows);
    let cur = match &st.current {
        Some(c) => c,
        None => {
            return items;
        },
    };
    let ghost c = cur@;
    let mut p: usize = 0;
    while p < items.len()
        invariant
            p <= items.len(),
            items.len() == rows.len(),
            rows == model_rows(st),
            forall|k: int| 0 <= k < items.len() ==> #[trigger] items@[k]@ == rows[k],
            forall|k: int| 0 <= k < p ==> !#[trigger] row_hits(st, c, k),
            st.current == Some(*cur),
            c == cur@,
        decreases items.len() - p,
    {
        let found = resolve_model_for_arg_item(st, &items[p]);
        let same = match &found {
            Some(f) => seq_eq(&sv(f), &sv(cur)),
            None => false,
        };
        if same {
            assert(row_hits(st, c, p as int));
            assert(first_hit(st, c, p as int));
            if p > 0 {
                let a = items.remove(p);
                let b = items.remove(0);
                items.insert(0, a);
                items.insert(p, b);
            }
            assert forall|k: int| 0 <= k < items.len() implies #[trigger] items@[k]@ == rows.update(0, rows[p as int]).update(p as int, rows[0])[k] by {}
            assert(items@.map_values(|a: ArgItem| a@) =~= rows.update(0, rows[p as int]).update(p as int, rows[0]));
            return items;
        }
        p = p + 1;
    }
    assert(items@.map_values(|a: ArgItem| a@) =~= rows);
    items
}

fn effort_id_chars(e: ReasoningEffort) -> (r: Vec<char>)
    ensures
        r@ == effort_id(e),
{
    match e {
        ReasoningEffort::Low => chars_of("low"),
        ReasoningEffort::Medium => chars_of("medium"),
        ReasoningEffort::High => chars_of("high"),
        ReasoningEffort::Xhigh => chars_of("xhigh"),
    }
}

fn offers(opts: &Vec<ReasoningEffort>, e: ReasoningEffort) -> (r: bool)
    ensures
        r == opts@.contains(e),
{
    let mut i: usize = 0;
    while i < opts.len()
        invariant
            i <= opts.len(),
            forall|j: int| 0 <= j < i ==> opts@[j] != e,
        decreases opts.len() - i,
    {
        if opts[i] == e {
            return true;
        }
        i = i + 1;
    }
    false
}

/// The effort rows of one model: strongest level first, each inserting
/// `"<token> <level>"`, with a sort key that keeps the matcher in row order.
pub open spec fn effort_row(st: &ModelState, i: int, levels: Seq<ReasoningEffort>, k: int) -> ArgItemView {
    let m = st.models()[i];
    let current = opt_view(st.current) == Some(m.id) && st.reasoning_effort == Some(levels[k]);
    ArgItemView {
        display: if current {
            effort_id(levels[k]) + " (current)"@
        } else {
            effort_id(levels[k])
        },
        match_text: seq![sort_key(k)] + " "@ + effort_id(levels[k]),
        insert_text: completion_token(m) + " "@ + effort_id(levels[k]),
        description: Seq::empty(),
    }
}

fn build_effort_items(st: &ModelState, i: usize) -> (r: Vec<ArgItem>)
    requires
        i < st.available.len(),
    ensures
        ({
            let levels = offered_in_order(effort_order(), st.models()[i as int].effort_options);
            &&& r.len() == levels.len()
            &&& forall|k: int| 0 <= k < r.len() ==> #[trigger] r@[k]@ == effort_row(st, i as int, levels, k)
        }),
{
    let m = &st.available[i];
    assert(st.models()[i as int] == m@);
    let tok = token_chars(m);
    let id = sv(&m.id);
    let is_current_model = is_current_exec(st, &id);
    let mut order: Vec<ReasoningEffort> = Vec::new();
    order.push(ReasoningEffort::Xhigh);
    order.push(ReasoningEffort::High);
    order.push(ReasoningEffort::Medium);
    order.push(ReasoningEffort::Low);
    assert(order@ =~= effort_order());
    let ghost levels = offered_in_order(effort_order(), m@.effort_options);
    let mut out: Vec<ArgItem> = Vec::new();
    let mut j: usize = 0;
    while j < order.len()
        invariant
            order@ == effort_order(),
            j <= order.len(),
            levels == offered_in_order(effort_order(), m@.effort_options),
            out.len() == offered_in_order(order@.take(j as int), m@.effort_options).len(),
            out.len() <= j,
            st.models()[i as int] == m@,
            is_current_model == (opt_view(st.current) == Some(m@.id)),
            tok@ == completion_token(m@),
            forall|k: int|
                0 <= k < out.len() ==> #[trigger] out@[k]@ == effort_row(
                    st,
                    i as int,
                    offered_in_order(order@.take(j as int), m@.effort_options),
                    k,
                ),
        decreases order.len() - j,
    {
        let e = order[j];
        let ghost before = offered_in_order(order@.take(j as int), m@.effort_options);
        assert(order@.take(j + 1).drop_last() =~= order@.take(j as int));
        if offers(&m.effort_options, e) {
            let k = out.len();
            let level = effort_id_chars(e);
            let current = is_current_model && st.reasoning_effort == Some(e);
            let display = if current {
                concat(&level, &chars_of(" (current)"))
            } else {
                slice_chars(&level, 0, level.len())
            };
            assert(level@.subrange(0, level.len() as int) =~= level@);
            let key_code: u8 = 97 + (k as u8);
            let key: char = key_code as char;
            assert(key == sort_key(k as int));
            let mut mt = one_char(key);
            mt = concat(&mt, &chars_of(" "));
            mt = concat(&mt, &level);
            let ins = concat(&concat(&tok, &chars_of(" ")), &level);
            let item = ArgItem {
                display: string_of(&display),
                match_text: string_of(&mt),
                insert_text: string_of(&ins),
                description: string_of(&Vec::new()),
            };
            let ghost after = before.push(e);
            assert(offered_in_order(order@.take(j + 1), m@.effort_options) == after);
            assert(item@ == effort_row(st, i as int, after, k as int));
            out.push(item);
            assert forall|q: int| 0 <= q < out.len() implies #[trigger] out@[q]@ == effort_row(st, i as int, after, q) by {
                if q < k {
                    assert(effort_row(st, i as int, after, q) == effort_row(st, i as int, before, q));
                }
            }
        } else {
            assert(offered_in_order(order@.take(j + 1), m@.effort_options) == before);
        }
        j = j + 1;
    }
    assert(order@.take(4) =~= order@);
    out
}

fn resolve_effort(m: &ModelInfo, tok: &Vec<char>) -> (r: Result<ReasoningEffort, Vec<char>>)
    ensures
        match r {
            Ok(e) => effort_from(m@.effort_options, tok@, 0) == Some(e),
            Err(msg) => effort_from(m@.effort_options, tok@, 0) is None && msg@ == effort_error(
                m@.effort_options,
                tok@,
            ),
        },
{
    let opts = &m.effort_options;
    let mut i: usize = 0;
    while i < opts.len()
        invariant
            i <= opts.len(),
            opts@ == m@.effort_options,
            effort_from(opts@, tok@, 0) == effort_from(opts@, tok@, i as int),
        decreases opts.len() - i,
    {
        if eq_ignore_ascii_case(&effort_id_chars(opts[i]), tok) {
            assert(effort_from(opts@, tok@, i as int) == Some(opts@[i as int]));
            assert(m@.effort_options == opts@);
            let e = opts[i];
            assert(e == opts@[i as int]);
            return Ok(e);
        }
        i = i + 1;
    }
    let ghost ids = opts@.map_values(|e: ReasoningEffort| effort_id(e));
    let sep = chars_of(", ");
    let mut joined: Vec<char> = Vec::new();
    let mut k: usize = 0;
    while k < opts.len()
        invariant
            k <= opts.len(),
            opts@ == m@.effort_options,
            effort_from(opts@, tok@, 0) is None,
            ids == opts@.map_values(|e: ReasoningEffort| effort_id(e)),
            sep@ == ", "@,
            joined@ == join(ids.take(k as int), sep@),
        decreases opts.len() - k,
    {
        let id = effort_id_chars(opts[k]);
        assert(ids.take(k + 1).drop_last() =~= ids.take(k as int));
        if k == 0 {
            joined = id;
            assert(ids.take(1) =~= seq![ids[0]]);
        } else {
            joined = concat(&concat(&joined, &sep), &id);
        }
        k = k + 1;
    }
    assert(ids.take(opts.len() as int) =~= ids);
    let mut msg = concat(&chars_of("unknown effort level '"), tok);
    msg = concat(&msg, &chars_of("'; use one of: "));
    msg = concat(&msg, &joined);
    Err(msg)
}

// ---------------------------------------------------------------------------
// The command
// ---------------------------------------------------------------------------

/// Switch the active model (and optionally its reasoning effort).
pub struct ModelCommand;

impl ModelCommand {
    pub fn name(&self) -> (r: &'static str)
        ensures
            r@ == "model"@,
    {
        "model"
    }

    pub fn aliases(&self) -> (r: Vec<&'static str>)
        ensures
            r.len() == 1,
            r@[0]@ == "m"@,
    {
        let mut v: Vec<&'static str> = Vec::new();
        v.push("m");
        v
    }

    pub fn description(&self) -> (r: &'static str)
        ensures
            r@ == "Switch the active model"@,
    {
        "Switch the active model"
    }

    pub fn session_scoped(&self) -> (r: bool)
        ensures
            r,
    {
        true
    }

    /// The dashboard offers `/model` to pick the model for the next agent.
    pub fn offered_when_session_less(&self) -> (r: bool)
        ensures
            r,
    {
        true
    }

    pub fn usage(&self) -> (r: &'static str)
        ensures
            r@ == "/model <provider/model> [effort]"@,
    {
        "/model <provider/model> [effort]"
    }

    pub fn takes_args(&self) -> (r: bool)
        ensures
            r,
    {
        true
    }

    pub fn args_required(&self) -> (r: bool)
        ensures
            !r,
    {
        false
    }

    pub fn arg_placeholder(&self) -> (r: Option<&'static str>)
        ensures
            r matches Some(p) && p@ == "<provider/model> [effort]"@,
    {
        Some("<provider/model> [effort]")
    }

    /// Argument dropdown: nothing without a catalog; the effort rows of the
    /// model the query names (followed by whitespace); else the model rows.
    pub fn suggest_args(&self, ctx: &AppCtx, args_query: &str) -> (r: Option<Vec<ArgItem>>)
        ensures
            ctx.models.available.len() == 0 ==> r is None,
            ctx.models.available.len() > 0 ==> r is Some,
            ctx.models.available.len() > 0 && no_effort_phase(ctx.models.models(), args_query@) ==> spec_model_items(
                ctx.models,
                r->0@.map_values(|a: ArgItem| a@),
            ),
            ctx.models.available.len() > 0 && !no_effort_phase(ctx.models.models(), args_query@) ==> exists|i: int|
                effort_phase_best(ctx.models.models(), args_query@, i) && ({
                    let levels = offered_in_order(effort_order(), ctx.models.models()[i].effort_options);
                    &&& r->0.len() == levels.len()
                    &&& forall|k: int| 0 <= k < levels.len() ==> #[trigger] r->0@[k]@ == effort_row(ctx.models, i, levels, k)
                }),
    {
        if ctx.models.is_empty() {
            return None;
        }
        match detect_effort_phase(ctx.models, &chars_of(args_query)) {
            Some(i) => Some(build_effort_items(ctx.models, i)),
            None => Some(build_model_items(ctx.models)),
        }
    }

    /// Run `/model <args>`.
    pub fn run(&self, ctx: &CommandExecCtx, args: &str) -> (r: CommandResult)
        ensures
            result_is(r, spec_model_run(ctx.models.models(), args@)),
    {
        let st = ctx.models;
        let trimmed = trim_chars(&chars_of(args));
        if trimmed.len() == 0 {
            return CommandResult::Action(Action::OpenModelPicker);
        }
        if eq_ignore_ascii_case(&trimmed, &chars_of("next")) {
            return CommandResult::Action(Action::NextModel);
        }
        match resolve_idx(st, &trimmed) {
            Some(i) => {
                return CommandResult::Action(Action::SetDefaultModel(string_of(&sv(&st.available[i].id))));
            },
            None => {},
        }
        let unknown = concat(&chars_of("Unknown model: "), &trimmed);
        match split_trailing_chars(&trimmed) {
            Some((prefix, tok)) => match resolve_idx(st, &prefix) {
                Some(i) => {
                    let m = &st.available[i];
                    assert(st.models()[i as int] == m@);
                    if m.supports_reasoning_effort {
                        match resolve_effort(m, &tok) {
                            Ok(e) => CommandResult::Action(
                                Action::SwitchModel { model_id: string_of(&sv(&m.id)), effort: Some(e) },
                            ),
                            Err(msg) => CommandResult::Error(string_of(&msg)),
                        }
                    } else {
                        CommandResult::Error(string_of(&unknown))
                    }
                },
                None => CommandResult::Error(string_of(&unknown)),
            },
            None => CommandResult::Error(string_of(&unknown)),
        }
    }
}

/// Scoping a model only marks its picker row: over the same catalog and
/// current model, the row of a model that one state scopes and the other
/// does not reads the same but for " (scoped)" inserted after its name and
/// provider, and the row is unchanged when both states agree on the model.
pub proof fn law_scoped_mark(st1: ModelState, st2: ModelState, i: int)
    requires
        st1.models() == st2.models(),
        opt_view(st1.current) == opt_view(st2.current),
        0 <= i < st1.available.len(),
    ensures
        ({
            let m = st1.models()[i];
            let d1 = model_rows(&st1)[i].display;
            let d2 = model_rows(&st2)[i].display;
            &&& is_scoped(st1.scoped_ids(), m.id) == is_scoped(st2.scoped_ids(), m.id) ==> d1 == d2
            &&& is_scoped(st1.scoped_ids(), m.id) && !is_scoped(st2.scoped_ids(), m.id) ==> exists|
                base: Seq<char>,
                tail: Seq<char>,
            | d2 == base + tail && d1 == base + " (scoped)"@ + tail
        }),
{
    assert(st1.available.len() == st1.models().len());
    assert(st2.available.len() == st2.models().len());
    let m = st1.models()[i];
    assert(model_rows(&st1)[i] == model_row(&st1, i));
    assert(model_rows(&st2)[i] == model_row(&st2, i));
    let p = provider_text(m);
    let mid = split_provider_model(m).1;
    let base = if p.len() == 0 {
        row_label(m)
    } else {
        row_label(m) + " · "@ + p
    };
    let cur = opt_view(st1.current) == Some(m.id);
    let tail = if cur {
        if row_label(m) == mid {
            " (current)"@
        } else {
            " · "@ + mid + " (current)"@
        }
    } else {
        Seq::<char>::empty()
    };
    if is_scoped(st1.scoped_ids(), m.id) && !is_scoped(st2.scoped_ids(), m.id) {
        assert(model_rows(&st2)[i].display =~= base + tail);
        assert(model_rows(&st1)[i].display =~= base + " (scoped)"@ + tail);
    }
}

/// Making a model current only marks its picker row: over the same catalog
/// and scoped list, the row of the current model reads as the row of the
/// same model when it is not current, followed by " (current)" (with its
/// model id before the mark when its label is not that id).
pub proof fn law_current_mark(st1: ModelState, st2: ModelState, i: int)
    requires
        st1.models() == st2.models(),
        st1.scoped_ids() == st2.scoped_ids(),
        0 <= i < st1.available.len(),
        opt_view(st1.current) == Some(st1.models()[i].id),
        opt_view(st2.current) != Some(st1.models()[i].id),
    ensures
        ({
            let m = st1.models()[i];
            let d1 = model_rows(&st1)[i].display;
            let d2 = model_rows(&st2)[i].display;
            &&& row_label(m) == split_provider_model(m).1 ==> d1 == d2 + " (current)"@
            &&& row_label(m) != split_provider_model(m).1 ==> d1 == d2 + " · "@ + split_provider_model(m).1
                + " (current)"@
        }),
{
    assert(st1.available.len() == st1.models().len());
    assert(st2.available.len() == st2.models().len());
    assert(model_rows(&st1)[i] == model_row(&st1, i));
    assert(model_rows(&st2)[i] == model_row(&st2, i));
}

} // verus!
