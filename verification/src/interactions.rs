//! Decisions taken on agent requests: the Pi resource-picker envelope of an
//! ask-user-question request, and where a plan review comes from.
use vstd::prelude::*;
use crate::text::{chars_of, concat, lower_chars, lower_seq, str_eq, string_of, trim, trim_chars};

verus! {

/// A JSON value.
#[derive(Debug)]
pub enum Json {
    Null,
    Bool(bool),
    /// A number, by its text.
    Number(String),
    Str(String),
    Array(Vec<Json>),
    /// Members in order; keys are distinct.
    Object(Vec<(String, Json)>),
}

/// The value of the first member named `key` among `members`.
pub open spec fn member(members: Seq<(String, Json)>, key: Seq<char>) -> Option<Json>
    decreases members.len(),
{
    if members.len() == 0 {
        None
    } else if members[0].0@ == key {
        Some(members[0].1)
    } else {
        member(members.skip(1), key)
    }
}

/// `value[key]` when `value` is an object holding `key`.
pub open spec fn get(value: Json, key: Seq<char>) -> Option<Json> {
    match value {
        Json::Object(m) => member(m@, key),
        _ => None,
    }
}

/// The member named `key` of an object's members.
pub fn member_of<'a>(members: &'a Vec<(String, Json)>, key: &str) -> (r: Option<&'a Json>)
    ensures
        match r {
            Some(v) => member(members@, key@) == Some(*v),
            None => member(members@, key@) is None,
        },
{
    let mut i: usize = 0;
    assert(members@.skip(0) =~= members@);
    while i < members.len()
        invariant
            i <= members@.len(),
            member(members@, key@) == member(members@.skip(i as int), key@),
        decreases members.len() - i,
    {
        assert(members@.skip(i as int).skip(1) =~= members@.skip(i + 1));
        if str_eq(members[i].0.as_str(), key) {
            return Some(&members[i].1);
        }
        i = i + 1;
    }
    None
}

/// `value[key]`.
pub fn get_of<'a>(value: &'a Json, key: &str) -> (r: Option<&'a Json>)
    ensures
        match r {
            Some(v) => get(*value, key@) == Some(*v),
            None => get(*value, key@) is None,
        },
{
    match value {
        Json::Object(m) => member_of(m, key),
        _ => None,
    }
}

/// Kinds of Pi resources the picker can show.
#[derive(Debug, Clone, Copy, PartialEq, Eq, Structural)]
pub enum PiResourceType {
    Extensions,
    Skills,
}

/// An extra resource the picker lists besides the discovered ones.
#[derive(Debug, Clone, PartialEq, Eq)]
pub struct PiResourcePickerExtra {
    pub path: String,
    pub label: String,
    pub resource_type: PiResourceType,
}

/// What the picker envelope asks for.
#[derive(Debug, Clone, PartialEq, Eq)]
pub struct PiResourcePickerRequest {
    pub title: String,
    pub resource_types: Vec<PiResourceType>,
    pub initial_paths: Vec<String>,
    pub extra_resources: Vec<PiResourcePickerExtra>,
}

/// A resource type named in any ASCII case, singular or plural.
pub open spec fn spec_parse_type(s: Seq<char>) -> Option<PiResourceType> {
    let l = lower_seq(s);
    if l == "extensions"@ || l == "extension"@ {
        Some(PiResourceType::Extensions)
    } else if l == "skills"@ || l == "skill"@ {
        Some(PiResourceType::Skills)
    } else {
        None
    }
}

fn parse_type(s: &str) -> (r: Option<PiResourceType>)
    ensures
        r == spec_parse_type(s@),
{
    let l = string_of(&lower_chars(&chars_of(s)));
    let ls = l.as_str();
    if str_eq(ls, "extensions") || str_eq(ls, "extension") {
        Some(PiResourceType::Extensions)
    } else if str_eq(ls, "skills") || str_eq(ls, "skill") {
        Some(PiResourceType::Skills)
    } else {
        None
    }
}

/// The resource types of a `resourceTypes` array, or the error of its first
/// item that is not a text or names no type.
pub open spec fn spec_types(items: Seq<Json>) -> Result<Seq<PiResourceType>, Seq<char>>
    decreases items.len(),
{
    if items.len() == 0 {
        Ok(Seq::empty())
    } else {
        match spec_types(items.drop_last()) {
            Err(e) => Err(e),
            Ok(ts) => match items.last() {
                Json::Str(s) => match spec_parse_type(s@) {
                    Some(t) => Ok(ts.push(t)),
                    None => Err("unsupported Pi resource type: "@ + s@),
                },
                _ => Err("piGrokResourcePicker.resourceTypes must contain strings"@),
            },
        }
    }
}

/// The initial paths: the texts of the array that are not blank.
pub open spec fn spec_paths(items: Seq<Json>) -> Seq<Seq<char>>
    decreases items.len(),
{
    if items.len() == 0 {
        Seq::empty()
    } else {
        let rest = spec_paths(items.drop_last());
        match items.last() {
            Json::Str(s) => if trim(s@).len() > 0 {
                rest.push(s@)
            } else {
                rest
            },
            _ => rest,
        }
    }
}

/// An extra resource by view: path, label and type.
pub open spec fn extra_view(e: PiResourcePickerExtra) -> (Seq<char>, Seq<char>, PiResourceType) {
    (e.path@, e.label@, e.resource_type)
}

/// The extra resource an entry describes: an object whose `path`, `label`
/// and `type` are texts, the type known, and the trimmed path and label not
/// empty.
pub open spec fn spec_extra(entry: Json) -> Option<(Seq<char>, Seq<char>, PiResourceType)> {
    match (get(entry, "path"@), get(entry, "label"@), get(entry, "type"@)) {
        (Some(Json::Str(p)), Some(Json::Str(l)), Some(Json::Str(t))) => match spec_parse_type(t@) {
            Some(ty) => if trim(p@).len() > 0 && trim(l@).len() > 0 {
                Some((trim(p@), trim(l@), ty))
            } else {
                None
            },
            None => None,
        },
        _ => None,
    }
}

/// The extra resources the entries describe, in order.
pub open spec fn spec_extras(items: Seq<Json>) -> Seq<(Seq<char>, Seq<char>, PiResourceType)>
    decreases items.len(),
{
    if items.len() == 0 {
        Seq::empty()
    } else {
        let rest = spec_extras(items.drop_last());
        match spec_extra(items.last()) {
            Some(e) => rest.push(e),
            None => rest,
        }
    }
}

/// The items of an array, or none for any other value.
pub open spec fn array_items(v: Option<Json>) -> Seq<Json> {
    match v {
        Some(Json::Array(items)) => items@,
        _ => Seq::empty(),
    }
}

/// A picker request by view.
pub struct RequestView {
    pub title: Seq<char>,
    pub resource_types: Seq<PiResourceType>,
    pub initial_paths: Seq<Seq<char>>,
    pub extra_resources: Seq<(Seq<char>, Seq<char>, PiResourceType)>,
}

pub open spec fn request_view(r: PiResourcePickerRequest) -> RequestView {
    RequestView {
        title: r.title@,
        resource_types: r.resource_types@,
        initial_paths: r.initial_paths@.map_values(|p: String| p@),
        extra_resources: r.extra_resources@.map_values(|e: PiResourcePickerExtra| extra_view(e)),
    }
}

/// What the `piGrokResourcePicker` envelope of request parameters asks for:
/// nothing without it; an error naming the first problem in order (not an
/// object, no title, no `resourceTypes` array, a bad type, no type); else
/// the request.
pub open spec fn spec_picker_request(params: Json) -> Result<Option<RequestView>, Seq<char>> {
    match get(params, "piGrokResourcePicker"@) {
        None => Ok(None),
        Some(envelope) => if !(envelope is Object) {
            Err("piGrokResourcePicker must be an object"@)
        } else {
            match get(envelope, "title"@) {
                Some(Json::Str(t)) if trim(t@).len() > 0 => match get(envelope, "resourceTypes"@) {
                    Some(Json::Array(items)) => match spec_types(items@) {
                        Err(e) => Err(e),
                        Ok(types) => if types.len() == 0 {
                            Err("piGrokResourcePicker.resourceTypes must not be empty"@)
                        } else {
                            Ok(
                                Some(
                                    RequestView {
                                        title: trim(t@),
                                        resource_types: types,
                                        initial_paths: spec_paths(
                                            array_items(get(envelope, "initialPaths"@)),
                                        ),
                                        extra_resources: spec_extras(
                                            array_items(get(envelope, "extraResources"@)),
                                        ),
                                    },
                                ),
                            )
                        },
                    },
                    _ => Err("piGrokResourcePicker.resourceTypes is required"@),
                },
                _ => Err("piGrokResourcePicker.title is required"@),
            }
        },
    }
}

fn err_text(s: &str) -> (r: Result<Option<PiResourcePickerRequest>, String>)
    ensures
        r matches Err(e) && e@ == s@,
{
    Err(s.to_owned())
}

fn collect_types(items: &Vec<Json>) -> (r: Result<Vec<PiResourceType>, String>)
    ensures
        match (r, spec_types(items@)) {
            (Ok(ts), Ok(s)) => ts@ == s,
            (Err(e), Err(s)) => e@ == s,
            _ => false,
        },
{
    let mut out: Vec<PiResourceType> = Vec::new();
    let mut i: usize = 0;
    while i < items.len()
        invariant
            i <= items@.len(),
            spec_types(items@.take(i as int)) == Ok::<Seq<PiResourceType>, Seq<char>>(out@),
        decreases items.len() - i,
    {
        assert(items@.take(i + 1).drop_last() =~= items@.take(i as int));
        assert(items@.take(i + 1).last() == items@[i as int]);
        match &items[i] {
            Json::Str(s) => match parse_type(s.as_str()) {
                Some(t) => {
                    out.push(t);
                },
                None => {
                    proof {
                        lemma_types_err_stays(items@, i as int + 1);
                    }
                    let msg = concat(&chars_of("unsupported Pi resource type: "), &chars_of(s.as_str()));
                    return Err(string_of(&msg));
                },
            },
            _ => {
                proof {
                    lemma_types_err_stays(items@, i as int + 1);
                }
                return Err("piGrokResourcePicker.resourceTypes must contain strings".to_owned());
            },
        }
        i = i + 1;
    }
    assert(items@.take(items@.len() as int) =~= items@);
    Ok(out)
}

/// Once a prefix of the items holds an error, the whole array does, with
/// the same error.
proof fn lemma_types_err_stays(items: Seq<Json>, k: int)
    requires
        0 <= k <= items.len(),
        spec_types(items.take(k)) is Err,
    ensures
        spec_types(items) == spec_types(items.take(k)),
    decreases items.len() - k,
{
    if k < items.len() {
        assert(items.take(k + 1).drop_last() =~= items.take(k));
        lemma_types_err_stays(items, k + 1);
    } else {
        assert(items.take(k) =~= items);
    }
}

fn collect_paths(v: Option<&Json>) -> (r: Vec<String>)
    ensures
        r@.map_values(|p: String| p@) == spec_paths(
            array_items(
                match v {
                    Some(j) => Some(*j),
                    None => None,
                },
            ),
        ),
{
    let mut out: Vec<String> = Vec::new();
    match v {
        Some(Json::Array(items)) => {
            let mut i: usize = 0;
            while i < items.len()
                invariant
                    i <= items@.len(),
                    out@.map_values(|p: String| p@) == spec_paths(items@.take(i as int)),
                decreases items.len() - i,
            {
                assert(items@.take(i + 1).drop_last() =~= items@.take(i as int));
                assert(items@.take(i + 1).last() == items@[i as int]);
                match &items[i] {
                    Json::Str(s) => {
                        if trim_chars(&chars_of(s.as_str())).len() > 0 {
                            let ghost before = out@;
                            out.push(s.clone());
                            assert(out@.map_values(|p: String| p@) =~= before.map_values(
                                |p: String| p@,
                            ).push(s@));
                        }
                    },
                    _ => {},
                }
                i = i + 1;
            }
            assert(items@.take(items@.len() as int) =~= items@);
        },
        _ => {},
    }
    out
}

fn extra_of(entry: &Json) -> (r: Option<PiResourcePickerExtra>)
    ensures
        match r {
            Some(e) => spec_extra(*entry) == Some(extra_view(e)),
            None => spec_extra(*entry) is None,
        },
{
    let path = match get_of(entry, "path") {
        Some(Json::Str(p)) => p,
        _ => return None,
    };
    let label = match get_of(entry, "label") {
        Some(Json::Str(l)) => l,
        _ => return None,
    };
    let ty = match get_of(entry, "type") {
        Some(Json::Str(t)) => t,
        _ => return None,
    };
    let resource_type = match parse_type(ty.as_str()) {
        Some(t) => t,
        None => return None,
    };
    let p = trim_chars(&chars_of(path.as_str()));
    let l = trim_chars(&chars_of(label.as_str()));
    if p.len() == 0 || l.len() == 0 {
        return None;
    }
    Some(PiResourcePickerExtra { path: string_of(&p), label: string_of(&l), resource_type })
}

fn collect_extras(v: Option<&Json>) -> (r: Vec<PiResourcePickerExtra>)
    ensures
        r@.map_values(|e: PiResourcePickerExtra| extra_view(e)) == spec_extras(
            array_items(
                match v {
                    Some(j) => Some(*j),
                    None => None,
                },
            ),
        ),
{
    let mut out: Vec<PiResourcePickerExtra> = Vec::new();
    match v {
        Some(Json::Array(items)) => {
            let mut i: usize = 0;
            while i < items.len()
                invariant
                    i <= items@.len(),
                    out@.map_values(|e: PiResourcePickerExtra| extra_view(e)) == spec_extras(
                        items@.take(i as int),
                    ),
                decreases items.len() - i,
            {
                assert(items@.take(i + 1).drop_last() =~= items@.take(i as int));
                assert(items@.take(i + 1).last() == items@[i as int]);
                match extra_of(&items[i]) {
                    Some(e) => {
                        let ghost before = out@;
                        out.push(e);
                        assert(out@.map_values(|e: PiResourcePickerExtra| extra_view(e))
                            =~= before.map_values(|e: PiResourcePickerExtra| extra_view(e)).push(
                            extra_view(out@[out@.len() - 1]),
                        ));
                    },
                    None => {},
                }
                i = i + 1;
            }
            assert(items@.take(items@.len() as int) =~= items@);
        },
        _ => {},
    }
    out
}

/// Decode the resource-picker envelope that the grok-pi subagent extension
/// puts on an ask-user-question request. It only selects the native Pi
/// resource manager as the question's presentation.
pub fn pi_grok_resource_picker_request(raw_params: &Json) -> (r: Result<
    Option<PiResourcePickerRequest>,
    String,
>)
    ensures
        match (r, spec_picker_request(*raw_params)) {
            (Ok(None), Ok(None)) => true,
            (Ok(Some(q)), Ok(Some(v))) => request_view(q) == v,
            (Err(e), Err(s)) => e@ == s,
            _ => false,
        },
{
    let value = match get_of(raw_params, "piGrokResourcePicker") {
        Some(v) => v,
        None => return Ok(None),
    };
    match value {
        Json::Object(_) => {},
        _ => return err_text("piGrokResourcePicker must be an object"),
    }
    let title = match get_of(value, "title") {
        Some(Json::Str(t)) => {
            let tt = trim_chars(&chars_of(t.as_str()));
            if tt.len() == 0 {
                return err_text("piGrokResourcePicker.title is required");
            }
            string_of(&tt)
        },
        _ => return err_text("piGrokResourcePicker.title is required"),
    };
    let items = match get_of(value, "resourceTypes") {
        Some(Json::Array(items)) => items,
        _ => return err_text("piGrokResourcePicker.resourceTypes is required"),
    };
    let resource_types = match collect_types(items) {
        Ok(ts) => ts,
        Err(e) => return Err(e),
    };
    if resource_types.len() == 0 {
        return err_text("piGrokResourcePicker.resourceTypes must not be empty");
    }
    let initial_paths = collect_paths(get_of(value, "initialPaths"));
    let extra_resources = collect_extras(get_of(value, "extraResources"));
    let r = PiResourcePickerRequest { title, resource_types, initial_paths, extra_resources };
    Ok(Some(r))
}

/// Where a plan under review lives.
#[derive(Debug, Clone, Copy, PartialEq, Eq, Structural)]
pub enum PlanReviewSource {
    /// In a plan file on disk.
    FileBacked,
    /// In the tool call itself.
    Inline,
}

pub open spec fn spec_plan_review_source(title: Option<Seq<char>>) -> PlanReviewSource {
    match title {
        Some(t) => if t == "CreatePlan"@ || t == "Plan: Submit for approval"@ {
            PlanReviewSource::Inline
        } else {
            PlanReviewSource::FileBacked
        },
        None => PlanReviewSource::FileBacked,
    }
}

/// The plan of a tool call titled `CreatePlan` or `Plan: Submit for
/// approval` is inline; any other, or an unknown call, is file-backed.
pub fn plan_review_source_for_title(title: Option<&str>) -> (r: PlanReviewSource)
    ensures
        r == spec_plan_review_source(
            match title {
                Some(t) => Some(t@),
                None => None,
            },
        ),
{
    match title {
        Some(t) => if str_eq(t, "CreatePlan") || str_eq(t, "Plan: Submit for approval") {
            PlanReviewSource::Inline
        } else {
            PlanReviewSource::FileBacked
        },
        None => PlanReviewSource::FileBacked,
    }
}


/// What the typed ask-user-question request gave: whether a session view
/// was found for it, how many questions it holds, and how many options the
/// first one offers.
#[derive(Debug, Clone, Copy, PartialEq, Eq, Structural)]
pub struct AskRouting {
    pub routed: bool,
    pub question_count: usize,
    pub first_option_count: usize,
}

/// What to do with an ask-user-question request.
#[derive(Debug)]
pub enum AskPlan {
    /// Answer the request with an invalid-params error carrying this text.
    RespondError(String),
    /// No local view for the session: leave the request unanswered, so the
    /// agent keeps waiting and the question is replayed on attach.
    Park,
    /// Present the question as the Pi resource picker.
    OpenPicker(PiResourcePickerRequest),
    /// Open the question view.
    OpenQuestion {
        /// Text and cursor that seed the first question's freeform row.
        seed: Option<(String, usize)>,
        no_freeform: bool,
        /// Raise a desktop notification.
        notify: bool,
    },
}

/// The text of `value[key]` when it is a text.
pub open spec fn str_field(value: Json, key: Seq<char>) -> Option<Seq<char>> {
    match get(value, key) {
        Some(Json::Str(s)) => Some(s@),
        _ => None,
    }
}

/// `value[key]` when it is a boolean, else `false`.
pub open spec fn bool_field(value: Json, key: Seq<char>) -> bool {
    match get(value, key) {
        Some(Json::Bool(b)) => b,
        _ => false,
    }
}

/// Decide how to answer an ask-user-question request from its raw `params`
/// and what its typed form gave (`Err` holds the parse error). A bad picker
/// envelope or typed request is answered with an error; an unrouted request
/// is parked; a picker envelope opens the picker; otherwise the question
/// view opens, seeding the first question's freeform row with `initialText`
/// unless `noFreeform` is set, and notifying when notifications are on and
/// the terminal is not focused.
pub fn decide_ask_user_question(
    params: &Json,
    typed: &Result<AskRouting, String>,
    notifications_enabled: bool,
    focused: bool,
) -> (r: AskPlan)
    ensures
        match spec_picker_request(*params) {
            Err(e) => r matches AskPlan::RespondError(m) && m@ == e,
            Ok(picker) => match typed {
                Err(e) => r matches AskPlan::RespondError(m) && m@ == "Invalid params: "@ + e@,
                Ok(t) => if !t.routed {
                    r is Park
                } else {
                    match picker {
                        Some(v) => r matches AskPlan::OpenPicker(q) && request_view(q) == v,
                        None => r matches AskPlan::OpenQuestion { seed, no_freeform, notify }
                            && no_freeform == bool_field(*params, "noFreeform"@) && notify == (
                        notifications_enabled && !focused) && match (
                            seed,
                            str_field(*params, "initialText"@),
                        ) {
                            (Some((text, cursor)), Some(init)) => !no_freeform && t.question_count
                                > 0 && text@ == init && cursor == t.first_option_count,
                            (None, init) => no_freeform || init is None || t.question_count == 0,
                            _ => false,
                        },
                    }
                },
            },
        },
{
    let initial_text: Option<String> = match get_of(params, "initialText") {
        Some(Json::Str(s)) => Some(s.clone()),
        _ => None,
    };
    let no_freeform = match get_of(params, "noFreeform") {
        Some(Json::Bool(b)) => *b,
        _ => false,
    };
    let picker = match pi_grok_resource_picker_request(params) {
        Ok(p) => p,
        Err(e) => return AskPlan::RespondError(e),
    };
    let routing = match typed {
        Ok(t) => *t,
        Err(e) => {
            let msg = concat(&chars_of("Invalid params: "), &chars_of(e.as_str()));
            return AskPlan::RespondError(string_of(&msg));
        },
    };
    if !routing.routed {
        return AskPlan::Park;
    }
    match picker {
        Some(request) => AskPlan::OpenPicker(request),
        None => {
            let seed = match initial_text {
                Some(text) => if !no_freeform && routing.question_count > 0 {
                    Some((text, routing.first_option_count))
                } else {
                    None
                },
                None => None,
            };
            AskPlan::OpenQuestion { seed, no_freeform, notify: notifications_enabled && !focused }
        },
    }
}

/// Local questions that an agent question can displace.
#[derive(Debug, Clone, Copy, PartialEq, Eq, Structural)]
pub enum LocalQuestionTag {
    Fork,
    NewSession,
    CreditLimitUpsell,
    FreeUsageUpsell,
    AgentTypeMismatch,
    DeleteCurrentSession,
    Feedback,
    FeedbackTrace,
    DoctorFix,
}

pub open spec fn spec_displaced_notice(tag: LocalQuestionTag) -> Seq<char> {
    match tag {
        LocalQuestionTag::DoctorFix => "/doctor fix was cancelled because another question opened."@,
        LocalQuestionTag::Fork => "/fork cancelled because another question opened."@,
        LocalQuestionTag::NewSession => "/new cancelled because another question opened."@,
        LocalQuestionTag::CreditLimitUpsell => "credit-limit upsell cancelled because another question opened."@,
        LocalQuestionTag::FreeUsageUpsell => "SuperGrok upsell cancelled because another question opened."@,
        LocalQuestionTag::AgentTypeMismatch => "model switch cancelled because another question opened."@,
        LocalQuestionTag::DeleteCurrentSession => "/delete cancelled because another question opened."@,
        LocalQuestionTag::Feedback | LocalQuestionTag::FeedbackTrace => "/feedback cancelled because another question opened."@,
    }
}

/// The scrollback notice that explains why a displaced local question
/// vanished. (A trace-consent card with a session commits its report
/// instead; this is its notice when there is no session to send through.)
pub fn displaced_question_notice(tag: LocalQuestionTag) -> (r: String)
    ensures
        r@ == spec_displaced_notice(tag),
{
    let text = match tag {
        LocalQuestionTag::DoctorFix => "/doctor fix was cancelled because another question opened.",
        LocalQuestionTag::Fork => "/fork cancelled because another question opened.",
        LocalQuestionTag::NewSession => "/new cancelled because another question opened.",
        LocalQuestionTag::CreditLimitUpsell => "credit-limit upsell cancelled because another question opened.",
        LocalQuestionTag::FreeUsageUpsell => "SuperGrok upsell cancelled because another question opened.",
        LocalQuestionTag::AgentTypeMismatch => "model switch cancelled because another question opened.",
        LocalQuestionTag::DeleteCurrentSession => "/delete cancelled because another question opened.",
        LocalQuestionTag::Feedback | LocalQuestionTag::FeedbackTrace => "/feedback cancelled because another question opened.",
    };
    text.to_owned()
}

/// How a new plan approval takes over the composer.
#[derive(Debug, Clone, Copy, PartialEq, Eq, Structural)]
pub struct PlanApprovalPrompt {
    /// Put the session draft back into the live composer now.
    pub prefill_now: bool,
    /// Prefill once the open permission prompts drain.
    pub prefill_deferred: bool,
    /// Give the keyboard to the approval's prompt.
    pub focus_prompt: bool,
}

/// The composer decisions of a new plan approval. The draft is never
/// prefilled while a permission prompt owns the keyboard (it is deferred
/// until the queue drains); the approval's prompt takes the focus when no
/// permission is open, and, while the plan preview is shown, only when
/// there was a draft to continue.
pub fn plan_approval_prompt(had_session_draft: bool, permission_open: bool, preview_shown: bool) -> (r:
    PlanApprovalPrompt)
    ensures
        r.prefill_now == (had_session_draft && !permission_open),
        r.prefill_deferred == (!(had_session_draft && !permission_open) && permission_open),
        r.focus_prompt == if preview_shown {
            had_session_draft && !permission_open
        } else {
            !permission_open
        },
        r.prefill_now ==> !permission_open,
{
    let prefill_now = had_session_draft && !permission_open;
    let prefill_deferred = if prefill_now {
        false
    } else {
        permission_open
    };
    let focus_prompt = if preview_shown {
        had_session_draft && !permission_open
    } else {
        !permission_open
    };
    PlanApprovalPrompt { prefill_now, prefill_deferred, focus_prompt }
}

} // verus!
