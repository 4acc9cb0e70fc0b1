//! Slash commands that an agent advertises: their skill metadata, argument
//! completions and what running them produces.
//!
//! Advertised commands appear in the dropdown but pass through to the shell
//! for execution. Skills are passed through as `/name args` too, but marked
//! for rendering as a skill.
use vstd::prelude::*;
use crate::commands::{ArgItem, ArgItemView, CommandProvenance, CommandResult};
use crate::models::AppCtx;
use crate::text::{
    chars_of, concat, contains, contains_seq, lower_chars, lower_seq, starts_with, str_eq,
    string_of, trim, trim_chars,
};

verus! {

/// A field of an advertised command's `_meta` object.
#[derive(Debug, Clone, PartialEq, Eq)]
pub enum MetaField {
    /// The key is not there.
    Absent,
    /// A JSON string.
    Str(String),
    /// Any other JSON value.
    Other,
}

/// A field by view: missing, a text, or another value.
pub enum MetaFieldView {
    Absent,
    Str(Seq<char>),
    Other,
}

impl View for MetaField {
    type V = MetaFieldView;

    open spec fn view(&self) -> MetaFieldView {
        match self {
            MetaField::Absent => MetaFieldView::Absent,
            MetaField::Str(s) => MetaFieldView::Str(s@),
            MetaField::Other => MetaFieldView::Other,
        }
    }
}

/// One row of `piArgumentCompletions`.
#[derive(Debug, Clone)]
pub struct CompletionRow {
    pub value: MetaField,
    pub label: MetaField,
    pub description: MetaField,
}

/// The `_meta` fields that the command wrapper reads.
#[derive(Debug, Clone)]
pub struct AcpMeta {
    pub path: MetaField,
    pub scope: MetaField,
    pub plugin_name: MetaField,
    pub pi_command_source: MetaField,
    /// `piArgumentCompletions`, when it is an array; its rows in order.
    pub argument_completions: Option<Vec<CompletionRow>>,
}

/// An advertised command.
#[derive(Debug, Clone)]
pub struct AvailableCommandInfo {
    pub name: String,
    pub description: String,
    /// The hint of an unstructured input, if the command declares one.
    pub input_hint: Option<String>,
    pub meta: Option<AcpMeta>,
}

/// Where a skill is installed.
#[derive(Debug, Clone, Copy, PartialEq, Eq, Structural)]
pub enum SkillScope {
    Local,
    User,
    Repo,
    Plugin,
}

impl SkillScope {
    pub open spec fn spec_name(&self) -> Seq<char> {
        match self {
            SkillScope::Local => "local"@,
            SkillScope::User => "user"@,
            SkillScope::Repo => "repo"@,
            SkillScope::Plugin => "plugin"@,
        }
    }

    /// The scope's wire name.
    pub fn as_str(&self) -> (r: &'static str)
        ensures
            r@ == self.spec_name(),
    {
        match self {
            SkillScope::Local => "local",
            SkillScope::User => "user",
            SkillScope::Repo => "repo",
            SkillScope::Plugin => "plugin",
        }
    }

    pub open spec fn spec_from_name(s: Seq<char>) -> Option<SkillScope> {
        if s == "local"@ {
            Some(SkillScope::Local)
        } else if s == "user"@ {
            Some(SkillScope::User)
        } else if s == "repo"@ {
            Some(SkillScope::Repo)
        } else if s == "plugin"@ {
            Some(SkillScope::Plugin)
        } else {
            None
        }
    }

    /// The scope with wire name `s`.
    pub fn from_name(s: &str) -> (r: Option<SkillScope>)
        ensures
            r == SkillScope::spec_from_name(s@),
    {
        if str_eq(s, "local") {
            Some(SkillScope::Local)
        } else if str_eq(s, "user") {
            Some(SkillScope::User)
        } else if str_eq(s, "repo") {
            Some(SkillScope::Repo)
        } else if str_eq(s, "plugin") {
            Some(SkillScope::Plugin)
        } else {
            None
        }
    }
}

/// Identity of a skill as advertised in `_meta`.
#[derive(Debug, Clone, PartialEq, Eq)]
pub struct SkillIdentity {
    pub path: String,
    pub scope: SkillScope,
    /// Plugin install name when present.
    pub plugin_name: Option<String>,
}

impl SkillIdentity {
    pub open spec fn spec_source(&self) -> Seq<char> {
        match self.plugin_name {
            Some(p) => p@,
            None => self.scope.spec_name(),
        }
    }

    /// Plugin install name, else the scope (plugin skills can carry any
    /// scope).
    pub fn source(&self) -> (r: String)
        ensures
            r@ == self.spec_source(),
    {
        match &self.plugin_name {
            Some(p) => p.clone(),
            None => self.scope.as_str().to_owned(),
        }
    }
}

/// Parsed `_meta` skill fields.
#[derive(Debug, Clone, PartialEq, Eq)]
pub enum SkillMeta {
    /// No skill keys.
    Absent,
    Skill(SkillIdentity),
    /// A `scope` text naming no known scope. Passed through, not an error.
    Foreign,
    /// Skill-like keys present but invalid: invoking errors rather than
    /// silently degrading.
    Malformed,
}

/// A field's text with surrounding whitespace removed, when that leaves
/// something.
pub open spec fn spec_trimmed_field(f: MetaFieldView) -> Option<Seq<char>> {
    match f {
        MetaFieldView::Str(s) => if trim(s).len() > 0 {
            Some(trim(s))
        } else {
            None
        },
        _ => None,
    }
}

fn trimmed_string_field(f: &MetaField) -> (r: Option<String>)
    ensures
        match r {
            Some(s) => spec_trimmed_field(f@) == Some(s@),
            None => spec_trimmed_field(f@) is None,
        },
{
    match f {
        MetaField::Str(s) => {
            let t = trim_chars(&chars_of(s.as_str()));
            if t.len() > 0 {
                Some(string_of(&t))
            } else {
                None
            }
        },
        _ => None,
    }
}

/// The skill a `_meta` object describes: nothing without `path` and
/// `scope`; a skill when `path` is a text and `scope` a known scope name;
/// foreign for any other `scope` text; malformed otherwise.
pub open spec fn spec_parse_skill(meta: Option<AcpMeta>) -> SkillMetaView {
    match meta {
        None => SkillMetaView::Absent,
        Some(m) => if m.path is Absent && m.scope is Absent {
            SkillMetaView::Absent
        } else {
            let scope = match m.scope@ {
                MetaFieldView::Str(s) => SkillScope::spec_from_name(s),
                _ => None,
            };
            match (m.path@, scope) {
                (MetaFieldView::Str(p), Some(sc)) => SkillMetaView::Skill(
                    p,
                    sc,
                    spec_trimmed_field(m.plugin_name@),
                ),
                _ => if m.scope is Str && scope is None {
                    SkillMetaView::Foreign
                } else {
                    SkillMetaView::Malformed
                },
            }
        },
    }
}

/// `SkillMeta` by view.
pub enum SkillMetaView {
    Absent,
    Skill(Seq<char>, SkillScope, Option<Seq<char>>),
    Foreign,
    Malformed,
}

impl View for SkillMeta {
    type V = SkillMetaView;

    open spec fn view(&self) -> SkillMetaView {
        match self {
            SkillMeta::Absent => SkillMetaView::Absent,
            SkillMeta::Skill(id) => SkillMetaView::Skill(
                id.path@,
                id.scope,
                match id.plugin_name {
                    Some(p) => Some(p@),
                    None => None,
                },
            ),
            SkillMeta::Foreign => SkillMetaView::Foreign,
            SkillMeta::Malformed => SkillMetaView::Malformed,
        }
    }
}

impl SkillMeta {
    /// Parse the skill fields of a command's `_meta`.
    pub fn parse(meta: Option<&AcpMeta>) -> (r: SkillMeta)
        ensures
            r@ == spec_parse_skill(
                match meta {
                    Some(m) => Some(*m),
                    None => None,
                },
            ),
    {
        let m = match meta {
            Some(m) => m,
            None => return SkillMeta::Absent,
        };
        let path_absent = match &m.path {
            MetaField::Absent => true,
            _ => false,
        };
        let scope_absent = match &m.scope {
            MetaField::Absent => true,
            _ => false,
        };
        if path_absent && scope_absent {
            return SkillMeta::Absent;
        }
        let scope: Option<SkillScope> = match &m.scope {
            MetaField::Str(s) => SkillScope::from_name(s.as_str()),
            _ => None,
        };
        match (&m.path, scope) {
            (MetaField::Str(path), Some(scope)) => SkillMeta::Skill(
                SkillIdentity {
                    path: path.clone(),
                    scope,
                    plugin_name: trimmed_string_field(&m.plugin_name),
                },
            ),
            _ => {
                let scope_is_text = match &m.scope {
                    MetaField::Str(_) => true,
                    _ => false,
                };
                if scope_is_text && scope.is_none() {
                    SkillMeta::Foreign
                } else {
                    SkillMeta::Malformed
                }
            },
        }
    }
}

/// One argument completion advertised by a Pi extension.
#[derive(Debug, Clone)]
pub struct PiArgCompletion {
    pub value: String,
    pub label: String,
    pub description: String,
}

/// A completion by view: value, label, description.
pub open spec fn completion_view(c: PiArgCompletion) -> (Seq<char>, Seq<char>, Seq<char>) {
    (c.value@, c.label@, c.description@)
}

/// The completion a row advertises: it needs a non-empty text `value`; the
/// label defaults to the value, the description to empty.
pub open spec fn spec_completion(row: CompletionRow) -> Option<(Seq<char>, Seq<char>, Seq<char>)> {
    match row.value@ {
        MetaFieldView::Str(v) => if v.len() == 0 {
            None
        } else {
            let label = match row.label@ {
                MetaFieldView::Str(l) => if l.len() > 0 {
                    l
                } else {
                    v
                },
                _ => v,
            };
            let description = match row.description@ {
                MetaFieldView::Str(d) => d,
                _ => Seq::empty(),
            };
            Some((v, label, description))
        },
        _ => None,
    }
}

/// The completions that `rows` advertise, in order.
pub open spec fn spec_completions(rows: Seq<CompletionRow>) -> Seq<(Seq<char>, Seq<char>, Seq<char>)>
    decreases rows.len(),
{
    if rows.len() == 0 {
        Seq::empty()
    } else {
        let rest = spec_completions(rows.drop_last());
        match spec_completion(rows.last()) {
            Some(c) => rest.push(c),
            None => rest,
        }
    }
}

fn field_text(f: &MetaField) -> (r: Option<String>)
    ensures
        match r {
            Some(s) => f@ == MetaFieldView::Str(s@),
            None => !(f is Str),
        },
{
    match f {
        MetaField::Str(s) => Some(s.clone()),
        _ => None,
    }
}

fn completion_of(row: &CompletionRow) -> (r: Option<PiArgCompletion>)
    ensures
        match r {
            Some(c) => spec_completion(*row) == Some(completion_view(c)),
            None => spec_completion(*row) is None,
        },
{
    let value = match field_text(&row.value) {
        Some(v) => v,
        None => return None,
    };
    if chars_of(value.as_str()).len() == 0 {
        return None;
    }
    let label = match field_text(&row.label) {
        Some(l) => if chars_of(l.as_str()).len() > 0 {
            l
        } else {
            value.clone()
        },
        None => value.clone(),
    };
    let description = match field_text(&row.description) {
        Some(d) => d,
        None => String::new(),
    };
    Some(PiArgCompletion { value, label, description })
}

/// A slash command backed by an advertised command.
pub struct AcpSlashCommand {
    pub name: String,
    pub description: String,
    pub has_args: bool,
    pub arg_hint: Option<String>,
    pub skill: SkillMeta,
    /// Pi extension commands execute before Pi's streaming queue semantics.
    pub direct_pi_command: bool,
    /// Host-side argument suggestions from Pi's argument completions.
    pub argument_completions: Vec<PiArgCompletion>,
}

/// The argument-dropdown row of a completion.
pub open spec fn completion_item(c: (Seq<char>, Seq<char>, Seq<char>)) -> ArgItemView {
    ArgItemView {
        display: if c.1.len() == 0 {
            c.0
        } else {
            c.1
        },
        match_text: c.0 + " "@ + c.1 + " "@ + c.2,
        insert_text: c.0,
        description: c.2,
    }
}

/// Whether a completion is offered for the typed `prefix`: its value starts
/// with it, or its label or description contains it ignoring ASCII case.
pub open spec fn completion_matches(c: (Seq<char>, Seq<char>, Seq<char>), prefix: Seq<char>) -> bool {
    prefix.len() == 0 || (prefix.len() <= c.0.len() && c.0.take(prefix.len() as int) == prefix)
        || contains_seq(lower_seq(c.1), lower_seq(prefix)) || contains_seq(
        lower_seq(c.2),
        lower_seq(prefix),
    )
}

/// The dropdown rows for `prefix`, in completion order.
pub open spec fn spec_suggestions(
    cs: Seq<(Seq<char>, Seq<char>, Seq<char>)>,
    prefix: Seq<char>,
) -> Seq<ArgItemView>
    decreases cs.len(),
{
    if cs.len() == 0 {
        Seq::empty()
    } else {
        let rest = spec_suggestions(cs.drop_last(), prefix);
        if completion_matches(cs.last(), prefix) {
            rest.push(completion_item(cs.last()))
        } else {
            rest
        }
    }
}

/// Row `item` offers completion `c`: it inserts the value, shows the label
/// (the value when the label is empty) and describes it by the description.
pub open spec fn offers(item: ArgItemView, c: (Seq<char>, Seq<char>, Seq<char>)) -> bool {
    &&& item.insert_text == c.0
    &&& item.description == c.2
    &&& item.display == if c.1.len() == 0 {
        c.0
    } else {
        c.1
    }
}

/// The suggestions for a typed query offer exactly the completions the query
/// picks out, in completion order: a completion is offered when the query is
/// empty, when its value starts with the query, or when its label or its
/// description contains the query with ASCII case ignored; every row offers
/// such a completion, and rows keep the completions' order.
pub proof fn law_suggestions(cs: Seq<(Seq<char>, Seq<char>, Seq<char>)>, q: Seq<char>)
    ensures
        forall|k: int|
            0 <= k < cs.len() && (q.len() == 0 || (q.len() <= cs[k].0.len() && cs[k].0.take(
                q.len() as int,
            ) == q) || contains_seq(lower_seq(cs[k].1), lower_seq(q)) || contains_seq(
                lower_seq(cs[k].2),
                lower_seq(q),
            )) ==> exists|j: int|
                0 <= j < spec_suggestions(cs, q).len() && offers(
                    #[trigger] spec_suggestions(cs, q)[j],
                    cs[k],
                ),
        forall|j: int|
            0 <= j < spec_suggestions(cs, q).len() ==> exists|k: int|
                0 <= k < cs.len() && offers(#[trigger] spec_suggestions(cs, q)[j], cs[k]) && (q.len()
                    == 0 || (q.len() <= cs[k].0.len() && cs[k].0.take(q.len() as int) == q)
                    || contains_seq(lower_seq(cs[k].1), lower_seq(q)) || contains_seq(
                    lower_seq(cs[k].2),
                    lower_seq(q),
                )),
        spec_suggestions(cs, q).len() <= cs.len(),
    decreases cs.len(),
{
    if cs.len() > 0 {
        let l = cs.drop_last();
        law_suggestions(l, q);
        let rest = spec_suggestions(l, q);
        let r = spec_suggestions(cs, q);
        let n = l.len() as int;
        assert forall|k: int|
            0 <= k < cs.len() && (q.len() == 0 || (q.len() <= cs[k].0.len() && cs[k].0.take(
                q.len() as int,
            ) == q) || contains_seq(lower_seq(cs[k].1), lower_seq(q)) || contains_seq(
                lower_seq(cs[k].2),
                lower_seq(q),
            )) implies exists|j: int| 0 <= j < r.len() && offers(#[trigger] r[j], cs[k]) by {
            if k < n {
                assert(l[k] == cs[k]);
                let j = choose|j: int| 0 <= j < rest.len() && offers(#[trigger] rest[j], l[k]);
                assert(r[j] == rest[j]);
            } else {
                assert(completion_matches(cs.last(), q));
                assert(offers(r[rest.len() as int], cs[k]));
            }
        }
        assert forall|j: int| 0 <= j < r.len() implies exists|k: int|
            0 <= k < cs.len() && offers(#[trigger] r[j], cs[k]) && (q.len() == 0 || (q.len()
                <= cs[k].0.len() && cs[k].0.take(q.len() as int) == q) || contains_seq(
                lower_seq(cs[k].1),
                lower_seq(q),
            ) || contains_seq(lower_seq(cs[k].2), lower_seq(q))) by {
            if j < rest.len() {
                assert(r[j] == rest[j]);
                let k = choose|k: int|
                    0 <= k < l.len() && offers(#[trigger] rest[j], l[k]) && (q.len() == 0 || (q.len()
                        <= l[k].0.len() && l[k].0.take(q.len() as int) == q) || contains_seq(
                        lower_seq(l[k].1),
                        lower_seq(q),
                    ) || contains_seq(lower_seq(l[k].2), lower_seq(q)));
                assert(l[k] == cs[k]);
            } else {
                assert(offers(r[j], cs[n]));
            }
        }
    }
}

/// The text a run sends: `/name`, followed by a space and the arguments
/// when they are not blank.
pub open spec fn spec_run_text(name: Seq<char>, args: Seq<char>) -> Seq<char> {
    if trim(args).len() == 0 {
        "/"@ + name
    } else {
        "/"@ + name + " "@ + args
    }
}

impl AcpSlashCommand {
    /// The wrapper of an advertised command. It always accepts free-form
    /// arguments; a declared input only sets the placeholder.
    pub fn from_available(cmd: &AvailableCommandInfo) -> (r: AcpSlashCommand)
        ensures
            r.name@ == cmd.name@,
            r.description@ == cmd.description@,
            r.has_args,
            match (r.arg_hint, cmd.input_hint) {
                (Some(a), Some(b)) => a@ == b@,
                (None, None) => true,
                _ => false,
            },
            r.skill@ == spec_parse_skill(cmd.meta),
            r.direct_pi_command == (cmd.meta matches Some(m) && m.pi_command_source@
                == MetaFieldView::Str("extension"@)),
            r.argument_completions@.map_values(|c: PiArgCompletion| completion_view(c))
                == match cmd.meta {
                Some(m) => match m.argument_completions {
                    Some(rows) => spec_completions(rows@),
                    None => Seq::empty(),
                },
                None => Seq::empty(),
            },
    {
        let arg_hint = match &cmd.input_hint {
            Some(h) => Some(h.clone()),
            None => None,
        };
        let direct_pi_command = match &cmd.meta {
            Some(m) => match &m.pi_command_source {
                MetaField::Str(s) => str_eq(s.as_str(), "extension"),
                _ => false,
            },
            None => false,
        };
        let mut completions: Vec<PiArgCompletion> = Vec::new();
        match &cmd.meta {
            Some(m) => match &m.argument_completions {
                Some(rows) => {
                    let mut i: usize = 0;
                    while i < rows.len()
                        invariant
                            i <= rows@.len(),
                            completions@.map_values(|c: PiArgCompletion| completion_view(c))
                                == spec_completions(rows@.take(i as int)),
                        decreases rows.len() - i,
                    {
                        assert(rows@.take(i + 1).drop_last() =~= rows@.take(i as int));
                        assert(rows@.take(i + 1).last() == rows@[i as int]);
                        let ghost before = completions@;
                        match completion_of(&rows[i]) {
                            Some(c) => {
                                completions.push(c);
                                assert(completions@.map_values(
                                    |c: PiArgCompletion| completion_view(c),
                                ) =~= before.map_values(|c: PiArgCompletion| completion_view(c)).push(
                                    completion_view(completions@[completions@.len() - 1]),
                                ));
                            },
                            None => {},
                        }
                        i = i + 1;
                    }
                    assert(rows@.take(rows@.len() as int) =~= rows@);
                },
                None => {},
            },
            None => {},
        }
        let skill = match &cmd.meta {
            Some(m) => SkillMeta::parse(Some(m)),
            None => SkillMeta::parse(None),
        };
        AcpSlashCommand {
            name: cmd.name.clone(),
            description: cmd.description.clone(),
            has_args: true,
            arg_hint,
            skill,
            direct_pi_command,
            argument_completions: completions,
        }
    }

    pub fn name(&self) -> (r: &str)
        ensures
            r@ == self.name@,
    {
        self.name.as_str()
    }

    pub fn description(&self) -> (r: &str)
        ensures
            r@ == self.description@,
    {
        self.description.as_str()
    }

    /// Skills carry their source; everything else is a shell command.
    pub fn provenance(&self) -> (r: CommandProvenance)
        ensures
            match self.skill {
                SkillMeta::Skill(id) => r matches CommandProvenance::Skill { source }
                    && source@ == id.spec_source(),
                _ => r is Shell,
            },
    {
        match &self.skill {
            SkillMeta::Skill(identity) => CommandProvenance::Skill { source: identity.source() },
            _ => CommandProvenance::Shell,
        }
    }

    pub fn usage(&self) -> (r: &str)
        ensures
            r@ == self.name@,
    {
        self.name.as_str()
    }

    pub fn takes_args(&self) -> (r: bool)
        ensures
            r == self.has_args,
    {
        self.has_args
    }

    /// Advertised commands always accept Enter: the shell validates the
    /// arguments.
    pub fn args_required(&self) -> (r: bool)
        ensures
            !r,
    {
        false
    }

    pub fn arg_placeholder(&self) -> (r: Option<&str>)
        ensures
            match (r, self.arg_hint) {
                (Some(a), Some(b)) => a@ == b@,
                (None, None) => true,
                _ => false,
            },
    {
        match &self.arg_hint {
            Some(h) => Some(h.as_str()),
            None => None,
        }
    }

    pub fn is_skill(&self) -> (r: bool)
        ensures
            r == (self.skill is Skill),
    {
        match &self.skill {
            SkillMeta::Skill(_) => true,
            _ => false,
        }
    }

    pub fn skill_path(&self) -> (r: Option<&str>)
        ensures
            match self.skill {
                SkillMeta::Skill(id) => r matches Some(p) && p@ == id.path@,
                _ => r is None,
            },
    {
        match &self.skill {
            SkillMeta::Skill(identity) => Some(identity.path.as_str()),
            _ => None,
        }
    }

    /// Dropdown rows from the advertised completions: those offered for
    /// `args_query`, or `None` when there are no completions or none is
    /// offered.
    pub fn suggest_args(&self, ctx: &AppCtx, args_query: &str) -> (r: Option<Vec<ArgItem>>)
        ensures
            ({
                let all = spec_suggestions(
                    self.argument_completions@.map_values(|c: PiArgCompletion| completion_view(c)),
                    args_query@,
                );
                match r {
                    Some(items) => all.len() > 0 && items@.map_values(|a: ArgItem| a@) == all,
                    None => all.len() == 0,
                }
            }),
    {
        let prefix = chars_of(args_query);
        let prefix_lower = lower_chars(&prefix);
        let ghost cs = self.argument_completions@.map_values(|c: PiArgCompletion| completion_view(c));
        let mut items: Vec<ArgItem> = Vec::new();
        let mut i: usize = 0;
        while i < self.argument_completions.len()
            invariant
                i <= self.argument_completions@.len(),
                prefix@ == args_query@,
                prefix_lower@ == lower_seq(args_query@),
                cs == self.argument_completions@.map_values(|c: PiArgCompletion| completion_view(c)),
                items@.map_values(|a: ArgItem| a@) == spec_suggestions(cs.take(i as int), args_query@),
            decreases self.argument_completions.len() - i,
        {
            let item = &self.argument_completions[i];
            assert(cs.take(i + 1).drop_last() =~= cs.take(i as int));
            assert(cs.take(i + 1).last() == completion_view(*item));
            let value = chars_of(item.value.as_str());
            let label = chars_of(item.label.as_str());
            let description = chars_of(item.description.as_str());
            let offered = prefix.len() == 0 || starts_with(&value, &prefix) || contains(
                &lower_chars(&label),
                &prefix_lower,
            ) || contains(&lower_chars(&description), &prefix_lower);
            if offered {
                let display = if label.len() == 0 {
                    item.value.clone()
                } else {
                    item.label.clone()
                };
                let space = chars_of(" ");
                let match_text = concat(
                    &concat(&concat(&concat(&value, &space), &label), &space),
                    &description,
                );
                let ghost before = items@;
                items.push(
                    ArgItem {
                        display,
                        match_text: string_of(&match_text),
                        insert_text: item.value.clone(),
                        description: item.description.clone(),
                    },
                );
                assert(items@.map_values(|a: ArgItem| a@) =~= before.map_values(|a: ArgItem| a@).push(
                    completion_item(completion_view(*item)),
                ));
            }
            i = i + 1;
        }
        assert(cs.take(cs.len() as int) =~= cs);
        if items.len() == 0 {
            None
        } else {
            Some(items)
        }
    }

    /// Run the command with `args`: a direct Pi command for extension
    /// commands; an error for malformed skill metadata; the skill's raw
    /// slash text for skills; the text unchanged for everything else.
    pub fn run(&self, args: &str) -> (r: CommandResult)
        ensures
            ({
                let text = spec_run_text(self.name@, args@);
                if self.direct_pi_command {
                    r matches CommandResult::DirectPiCommand(t) && t@ == text
                } else {
                    match self.skill {
                        SkillMeta::Malformed => r matches CommandResult::Error(m) && m@
                            == "Malformed skill metadata for /"@ + self.name@,
                        SkillMeta::Skill(_) => r matches CommandResult::InjectSkill {
                            display_text,
                            prompt_text,
                            display_as_skill,
                        } && display_text@ == text && prompt_text@ == text && display_as_skill,
                        _ => r matches CommandResult::PassThrough(t) && t@ == text,
                    }
                }
            }),
    {
        let a = chars_of(args);
        let name = chars_of(self.name.as_str());
        let slash = chars_of("/");
        let head = concat(&slash, &name);
        let text_chars = if trim_chars(&a).len() == 0 {
            head
        } else {
            concat(&concat(&head, &chars_of(" ")), &a)
        };
        let text = string_of(&text_chars);
        if self.direct_pi_command {
            return CommandResult::DirectPiCommand(text);
        }
        match &self.skill {
            SkillMeta::Malformed => {
                let msg = concat(&chars_of("Malformed skill metadata for /"), &name);
                CommandResult::Error(string_of(&msg))
            },
            SkillMeta::Absent | SkillMeta::Foreign => CommandResult::PassThrough(text),
            SkillMeta::Skill(_) => {
                let prompt = text.clone();
                CommandResult::InjectSkill {
                    display_text: text,
                    prompt_text: prompt,
                    display_as_skill: true,
                }
            },
        }
    }
}

} // verus!
