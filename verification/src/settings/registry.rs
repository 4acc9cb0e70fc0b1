//! Setting metadata: categories, kinds, values, and the registry that the
//! settings panel reads.
use vstd::prelude::*;
use crate::text::{contains_lowered, contains_seq, lower_chars, lower_seq, chars_of, str_eq};
use crate::ui_config::PiBuiltinTools;

verus! {

/// Top-level grouping of the settings page.
#[derive(Debug, Clone, Copy, PartialEq, Eq, Structural)]
pub enum SettingCategory {
    Appearance,
    Editor,
    Agent,
    Models,
    Popups,
    Mouse,
    Privacy,
    Advanced,
}

/// The categories in page order.
pub open spec fn spec_all_categories() -> Seq<SettingCategory> {
    seq![
        SettingCategory::Appearance,
        SettingCategory::Editor,
        SettingCategory::Agent,
        SettingCategory::Models,
        SettingCategory::Popups,
        SettingCategory::Mouse,
        SettingCategory::Privacy,
        SettingCategory::Advanced,
    ]
}

impl SettingCategory {
    /// Every category, in page order.
    pub fn all() -> (r: Vec<SettingCategory>)
        ensures
            r@ == spec_all_categories(),
    {
        let r = vec![
            SettingCategory::Appearance,
            SettingCategory::Editor,
            SettingCategory::Agent,
            SettingCategory::Models,
            SettingCategory::Popups,
            SettingCategory::Mouse,
            SettingCategory::Privacy,
            SettingCategory::Advanced,
        ];
        assert(r@ =~= spec_all_categories());
        r
    }

    pub open spec fn spec_label(&self) -> Seq<char> {
        match self {
            SettingCategory::Appearance => "Appearance"@,
            SettingCategory::Editor => "Editor"@,
            SettingCategory::Agent => "Agent"@,
            SettingCategory::Models => "Models"@,
            SettingCategory::Popups => "Popups"@,
            SettingCategory::Mouse => "Mouse"@,
            SettingCategory::Privacy => "Privacy"@,
            SettingCategory::Advanced => "Advanced"@,
        }
    }

    /// Heading text.
    pub fn label(&self) -> (r: &'static str)
        ensures
            r@ == self.spec_label(),
    {
        match self {
            SettingCategory::Appearance => "Appearance",
            SettingCategory::Editor => "Editor",
            SettingCategory::Agent => "Agent",
            SettingCategory::Models => "Models",
            SettingCategory::Popups => "Popups",
            SettingCategory::Mouse => "Mouse",
            SettingCategory::Privacy => "Privacy",
            SettingCategory::Advanced => "Advanced",
        }
    }
}

/// Which layer persists a setting.
#[derive(Debug, Clone, Copy, PartialEq, Eq, Structural)]
pub enum SettingOwner {
    Shared,
    Shell,
    Pager,
}

/// Validation applied to a String setting's buffer.
#[derive(Debug, Clone, Copy, PartialEq, Eq, Structural)]
pub enum StringValidator {
    Any,
    PromptCursor,
    NonEmptyToken,
    KnownModel,
}

/// Where a DynamicEnum setting's choices come from at runtime.
#[derive(Debug, Clone, Copy, PartialEq, Eq, Structural)]
pub enum DynamicEnumSource {
    ActiveModelCatalog,
}

/// One static choice of an Enum setting.
#[derive(Debug, Clone, Copy)]
pub struct EnumChoice {
    pub canonical: &'static str,
    pub display: &'static str,
    pub description: &'static str,
}

/// A choice with owned text, as offered by a chooser.
#[derive(Debug, Clone)]
pub struct OwnedEnumChoice {
    pub canonical: String,
    pub display: String,
    pub description: String,
}

/// The canonical names of a list of static choices.
pub open spec fn canonicals(choices: Seq<EnumChoice>) -> Seq<Seq<char>> {
    choices.map_values(|c: EnumChoice| c.canonical@)
}

/// The shape of a setting as a value: its default, and its range, choices
/// (by canonical name) or children.
pub enum KindSpec {
    Bool(bool),
    /// Default, choices, live preview.
    Enum(Seq<char>, Seq<Seq<char>>, bool),
    /// Default, source, live preview.
    DynamicEnum(Seq<char>, DynamicEnumSource, bool),
    /// Default, validator.
    String(Seq<char>, StringValidator),
    /// Default, minimum, maximum.
    Int(i64, i64, i64),
    /// Children's keys.
    Group(Seq<Seq<char>>),
}

/// `k` as a value.
pub open spec fn kind_spec(k: SettingKind) -> KindSpec {
    match k {
        SettingKind::Bool { default } => KindSpec::Bool(default),
        SettingKind::Enum { default, choices, supports_preview } => KindSpec::Enum(
            default@,
            canonicals(choices@),
            supports_preview,
        ),
        SettingKind::DynamicEnum { default, source, supports_preview } => KindSpec::DynamicEnum(
            default@,
            source,
            supports_preview,
        ),
        SettingKind::String { default, validator } => KindSpec::String(default@, validator),
        SettingKind::Int { default, min, max } => KindSpec::Int(default, min, max),
        SettingKind::Group { children } => KindSpec::Group(
            children@.map_values(|c: &'static str| c@),
        ),
    }
}

/// Shape and default of a setting.
#[derive(Debug, Clone)]
pub enum SettingKind {
    Bool { default: bool },
    Enum { default: &'static str, choices: Vec<EnumChoice>, supports_preview: bool },
    DynamicEnum { default: &'static str, source: DynamicEnumSource, supports_preview: bool },
    String { default: &'static str, validator: StringValidator },
    Int { default: i64, min: i64, max: i64 },
    /// Opens a sub-sheet of the listed child toggles.
    Group { children: Vec<&'static str> },
}

/// One registered setting.
#[derive(Debug, Clone)]
pub struct SettingMeta {
    pub key: &'static str,
    pub category: SettingCategory,
    pub owner: SettingOwner,
    pub label: &'static str,
    pub description: &'static str,
    pub keywords: Vec<&'static str>,
    pub kind: SettingKind,
    pub restart_required: bool,
    pub hidden_in_minimal: bool,
    pub external_only: bool,
}

impl SettingMeta {
    /// An Int's bounds hold its default; an Enum's default is one of its
    /// choices.
    pub open spec fn wf(&self) -> bool {
        match self.kind {
            SettingKind::Int { default, min, max } => min <= default <= max,
            SettingKind::Enum { default, choices, .. } => canonicals(choices@).contains(default@),
            _ => true,
        }
    }

    /// Whether the ASCII-lower-cased query `q` occurs in the key, the label
    /// or a keyword.
    pub open spec fn matches(&self, q: Seq<char>) -> bool {
        ||| contains_seq(lower_seq(self.key@), q)
        ||| contains_seq(lower_seq(self.label@), q)
        ||| exists|j: int|
            0 <= j < self.keywords@.len() && contains_seq(
                lower_seq(#[trigger] self.keywords@[j]@),
                q,
            )
    }

    /// `matches`, computed.
    pub fn matches_lowered(&self, q: &Vec<char>) -> (r: bool)
        ensures
            r == self.matches(q@),
    {
        if contains_lowered(self.key, q) || contains_lowered(self.label, q) {
            return true;
        }
        let mut j: usize = 0;
        while j < self.keywords.len()
            invariant
                j <= self.keywords@.len(),
                forall|k: int|
                    0 <= k < j ==> !contains_seq(lower_seq(#[trigger] self.keywords@[k]@), q@),
            decreases self.keywords.len() - j,
        {
            if contains_lowered(self.keywords[j], q) {
                return true;
            }
            j = j + 1;
        }
        false
    }
}

/// A live or default setting value.
#[derive(Debug, Clone, PartialEq)]
pub enum SettingValue {
    Bool(bool),
    Enum(String),
    String(String),
    Int(i64),
    PiBuiltinTools(PiBuiltinTools),
}

/// A setting value with its text taken by view.
pub enum ValueView {
    Bool(bool),
    Enum(Seq<char>),
    String(Seq<char>),
    Int(i64),
    PiBuiltinTools(PiBuiltinTools),
}

impl View for SettingValue {
    type V = ValueView;

    open spec fn view(&self) -> ValueView {
        match self {
            SettingValue::Bool(b) => ValueView::Bool(*b),
            SettingValue::Enum(s) => ValueView::Enum(s@),
            SettingValue::String(s) => ValueView::String(s@),
            SettingValue::Int(v) => ValueView::Int(*v),
            SettingValue::PiBuiltinTools(t) => ValueView::PiBuiltinTools(*t),
        }
    }
}

/// An optional value, taken by view.
pub open spec fn opt_view(v: Option<SettingValue>) -> Option<ValueView> {
    match v {
        Some(x) => Some(x@),
        None => None,
    }
}

/// The registered default of a setting; `None` for a Group.
pub open spec fn spec_default_value(kind: SettingKind) -> Option<ValueView> {
    match kind {
        SettingKind::Bool { default } => Some(ValueView::Bool(default)),
        SettingKind::Enum { default, .. } => Some(ValueView::Enum(default@)),
        SettingKind::DynamicEnum { default, .. } => Some(ValueView::String(default@)),
        SettingKind::String { default, .. } => Some(ValueView::String(default@)),
        SettingKind::Int { default, .. } => Some(ValueView::Int(default)),
        SettingKind::Group { .. } => None,
    }
}

/// The registered default of `meta`.
pub fn default_value_for(meta: &SettingMeta) -> (r: Option<SettingValue>)
    ensures
        opt_view(r) == spec_default_value(meta.kind),
{
    match &meta.kind {
        SettingKind::Bool { default } => Some(SettingValue::Bool(*default)),
        SettingKind::Enum { default, .. } => Some(SettingValue::Enum((*default).to_owned())),
        SettingKind::DynamicEnum { default, .. } => Some(SettingValue::String((*default).to_owned())),
        SettingKind::String { default, .. } => Some(SettingValue::String((*default).to_owned())),
        SettingKind::Int { default, .. } => Some(SettingValue::Int(*default)),
        SettingKind::Group { .. } => None,
    }
}

/// Index of the first of `entries` with `key`.
pub open spec fn first_with_key(entries: Seq<SettingMeta>, key: Seq<char>) -> Option<int>
    decreases entries.len(),
{
    if entries.len() == 0 {
        None
    } else if entries[0].key@ == key {
        Some(0)
    } else {
        match first_with_key(entries.skip(1), key) {
            Some(j) => Some(j + 1),
            None => None,
        }
    }
}

/// The catalog of registered settings, in declaration order.
pub struct SettingsRegistry {
    pub entries: Vec<SettingMeta>,
}

impl SettingsRegistry {
    pub open spec fn wf(&self) -> bool {
        forall|i: int| 0 <= i < self.entries@.len() ==> (#[trigger] self.entries@[i]).wf()
    }

    /// A registry over `entries`.
    pub fn new(entries: Vec<SettingMeta>) -> (r: SettingsRegistry)
        ensures
            r.entries@ == entries@,
    {
        SettingsRegistry { entries }
    }

    /// Every entry, in declaration order.
    pub fn all(&self) -> (r: &Vec<SettingMeta>)
        ensures
            r@ == self.entries@,
    {
        &self.entries
    }

    /// Index of the first entry with `key`.
    pub open spec fn find_spec(&self, key: Seq<char>) -> Option<int> {
        first_with_key(self.entries@, key)
    }

    /// Position of the first entry with `key`.
    pub fn position(&self, key: &str) -> (r: Option<usize>)
        ensures
            match r {
                Some(i) => i < self.entries@.len() && self.entries@[i as int].key@ == key@
                    && forall|j: int| 0 <= j < i ==> (#[trigger] self.entries@[j]).key@ != key@,
                None => forall|j: int|
                    0 <= j < self.entries@.len() ==> (#[trigger] self.entries@[j]).key@ != key@,
            },
            match r {
                Some(i) => self.find_spec(key@) == Some(i as int),
                None => self.find_spec(key@) is None,
            },
    {
        let mut i: usize = 0;
        assert(self.entries@.skip(0) =~= self.entries@);
        while i < self.entries.len()
            invariant
                i <= self.entries@.len(),
                forall|j: int| 0 <= j < i ==> (#[trigger] self.entries@[j]).key@ != key@,
                first_with_key(self.entries@, key@) == match first_with_key(
                    self.entries@.skip(i as int),
                    key@,
                ) {
                    Some(j) => Some(j + i),
                    None => None,
                },
            decreases self.entries.len() - i,
        {
            assert(self.entries@.skip(i as int).skip(1) =~= self.entries@.skip(i + 1));
            if str_eq(self.entries[i].key, key) {
                return Some(i);
            }
            i = i + 1;
        }
        None
    }

    /// Metadata for `key`: the first entry registered under it.
    pub fn find(&self, key: &str) -> (r: Option<&SettingMeta>)
        ensures
            match r {
                Some(m) => exists|i: int|
                    0 <= i < self.entries@.len() && self.entries@[i] == *m && m.key@ == key@
                        && forall|j: int| 0 <= j < i ==> (#[trigger] self.entries@[j]).key@ != key@,
                None => forall|j: int|
                    0 <= j < self.entries@.len() ==> (#[trigger] self.entries@[j]).key@ != key@,
            },
    {
        match self.position(key) {
            Some(i) => Some(&self.entries[i]),
            None => None,
        }
    }

    /// The entries whose key, label or a keyword contains `query`, ignoring
    /// ASCII case, in declaration order.
    pub fn search(&self, query: &str) -> (r: Vec<usize>)
        ensures
            forall|k: int| 0 <= k < r@.len() ==> (#[trigger] r@[k]) < self.entries@.len(),
            forall|k: int, l: int| 0 <= k < l < r@.len() ==> r@[k] < r@[l],
            forall|i: int|
                0 <= i < self.entries@.len() ==> (r@.contains(i as usize) <==> (
                #[trigger] self.entries@[i]).matches(lower_seq(query@))),
    {
        let q = lower_chars(&chars_of(query));
        let mut out: Vec<usize> = Vec::new();
        let mut i: usize = 0;
        while i < self.entries.len()
            invariant
                i <= self.entries@.len(),
                q@ == lower_seq(query@),
                forall|k: int| 0 <= k < out@.len() ==> (#[trigger] out@[k]) < i,
                forall|k: int, l: int| 0 <= k < l < out@.len() ==> out@[k] < out@[l],
                forall|j: int|
                    0 <= j < i ==> (out@.contains(j as usize) <==> (
                    #[trigger] self.entries@[j]).matches(q@)),
            decreases self.entries.len() - i,
        {
            let ghost before = out@;
            if self.entries[i].matches_lowered(&q) {
                out.push(i);
            }
            assert forall|j: int| 0 <= j <= i implies (out@.contains(j as usize) <==> (
            #[trigger] self.entries@[j]).matches(q@)) by {
                if j < i {
                    if before.contains(j as usize) {
                        let k = choose|k: int| 0 <= k < before.len() && before[k] == j as usize;
                        assert(out@[k] == j as usize);
                    }
                    if out@.contains(j as usize) {
                        let k = choose|k: int| 0 <= k < out@.len() && out@[k] == j as usize;
                        assert(k < before.len());
                        assert(before[k] == j as usize);
                    }
                } else {
                    if out@.contains(j as usize) {
                        let k = choose|k: int| 0 <= k < out@.len() && out@[k] == j as usize;
                        assert(k == before.len());
                    }
                    if self.entries@[j].matches(q@) {
                        assert(out@[out@.len() - 1] == i);
                    }
                }
            }
            i = i + 1;
        }
        out
    }
}

/// A setting matches a query, with ASCII case ignored, exactly when the
/// query occurs in its key, its label or one of its search keywords; so
/// `SettingsRegistry::search` lists every setting that has the query in a
/// keyword, and only settings that have it somewhere.
pub proof fn law_setting_matches(m: SettingMeta, query: Seq<char>)
    ensures
        contains_seq(lower_seq(m.key@), lower_seq(query)) ==> m.matches(lower_seq(query)),
        contains_seq(lower_seq(m.label@), lower_seq(query)) ==> m.matches(lower_seq(query)),
        forall|j: int|
            0 <= j < m.keywords@.len() && contains_seq(lower_seq(#[trigger] m.keywords@[j]@), lower_seq(query))
                ==> m.matches(lower_seq(query)),
        m.matches(lower_seq(query)) ==> contains_seq(lower_seq(m.key@), lower_seq(query))
            || contains_seq(lower_seq(m.label@), lower_seq(query)) || exists|j: int|
            0 <= j < m.keywords@.len() && contains_seq(lower_seq(#[trigger] m.keywords@[j]@), lower_seq(query)),
{
}

} // verus!
