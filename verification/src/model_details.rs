//! Short capability labels of the `/model` picker's detail pane.
use vstd::prelude::*;
use crate::interactions::{get, get_of, Json};
use crate::models::{detail_title, model_detail_title, opt_view, ModelInfo};
use crate::text::{
    chars_of, concat, eq_ignore_ascii_case, eq_ignore_case, str_eq, string_of, trim, trim_chars,
};

verus! {

pub open spec fn spec_protocol_short(api: Seq<char>) -> Option<Seq<char>> {
    if api == "openai-responses"@ || api == "openai-codex-responses"@ {
        Some("resp"@)
    } else if api == "openai-completions"@ {
        Some("comp"@)
    } else if api == "anthropic-messages"@ {
        Some("anth"@)
    } else if api == "google-generative-ai"@ {
        Some("goog"@)
    } else {
        None
    }
}

/// Short name of a model API protocol, for the detail pane.
pub fn format_protocol_short(api: &str) -> (r: Option<&'static str>)
    ensures
        match r {
            Some(s) => spec_protocol_short(api@) == Some(s@),
            None => spec_protocol_short(api@) is None,
        },
{
    if str_eq(api, "openai-responses") || str_eq(api, "openai-codex-responses") {
        Some("resp")
    } else if str_eq(api, "openai-completions") {
        Some("comp")
    } else if str_eq(api, "anthropic-messages") {
        Some("anth")
    } else if str_eq(api, "google-generative-ai") {
        Some("goog")
    } else {
        None
    }
}

/// Whether some item of `items` is a text equal to `name` ignoring ASCII
/// case.
pub open spec fn lists_modality(items: Seq<Json>, name: Seq<char>) -> bool {
    exists|i: int|
        0 <= i < items.len() && (#[trigger] items[i] matches Json::Str(s) && eq_ignore_case(s@, name))
}

fn has_modality(items: &Vec<Json>, name: &str) -> (r: bool)
    ensures
        r == lists_modality(items@, name@),
{
    let n = chars_of(name);
    let mut i: usize = 0;
    while i < items.len()
        invariant
            n@ == name@,
            i <= items@.len(),
            forall|j: int|
                0 <= j < i ==> !(#[trigger] items@[j] matches Json::Str(s) && eq_ignore_case(s@, name@)),
        decreases items.len() - i,
    {
        match &items[i] {
            Json::Str(s) => {
                if eq_ignore_ascii_case(&chars_of(s.as_str()), &n) {
                    return true;
                }
            },
            _ => {},
        }
        i = i + 1;
    }
    false
}

/// The `+`-joined input modalities of a model's metadata: text, image and
/// audio as listed in `inputModalities`, else from `acceptsImages`, else
/// nothing.
pub open spec fn spec_input_short(meta: Option<Json>) -> Seq<char> {
    let listed = match meta {
        Some(m) => match get(m, "inputModalities"@) {
            Some(Json::Array(items)) => {
                let parts = (if lists_modality(items@, "text"@) {
                    seq!["txt"@]
                } else {
                    Seq::empty()
                }) + (if lists_modality(items@, "image"@) {
                    seq!["img"@]
                } else {
                    Seq::empty()
                }) + (if lists_modality(items@, "audio"@) {
                    seq!["aud"@]
                } else {
                    Seq::empty()
                });
                parts
            },
            _ => Seq::empty(),
        },
        None => Seq::empty(),
    };
    if listed.len() > 0 {
        join_plus(listed)
    } else {
        match meta {
            Some(m) => match get(m, "acceptsImages"@) {
                Some(Json::Bool(true)) => "txt+img"@,
                Some(Json::Bool(false)) => "txt"@,
                _ => Seq::empty(),
            },
            None => Seq::empty(),
        }
    }
}

/// Parts joined with `+`.
pub open spec fn join_plus(parts: Seq<Seq<char>>) -> Seq<char>
    decreases parts.len(),
{
    if parts.len() == 0 {
        Seq::empty()
    } else if parts.len() == 1 {
        parts[0]
    } else {
        join_plus(parts.drop_last()) + "+"@ + parts.last()
    }
}

/// The joined texts of every combination of the three modalities.
proof fn lemma_joins()
    ensures
        join_plus(seq!["txt"@, "img"@, "aud"@]) == "txt+img+aud"@,
        join_plus(seq!["txt"@, "img"@]) == "txt+img"@,
        join_plus(seq!["txt"@, "aud"@]) == "txt+aud"@,
        join_plus(seq!["img"@, "aud"@]) == "img+aud"@,
        join_plus(seq!["txt"@]) == "txt"@,
        join_plus(seq!["img"@]) == "img"@,
        join_plus(seq!["aud"@]) == "aud"@,
        seq!["txt"@] + seq!["img"@] + seq!["aud"@] == seq!["txt"@, "img"@, "aud"@],
        seq!["txt"@] + seq!["img"@] + Seq::<Seq<char>>::empty() == seq!["txt"@, "img"@],
        seq!["txt"@] + Seq::<Seq<char>>::empty() + seq!["aud"@] == seq!["txt"@, "aud"@],
        Seq::<Seq<char>>::empty() + seq!["img"@] + seq!["aud"@] == seq!["img"@, "aud"@],
        seq!["txt"@] + Seq::<Seq<char>>::empty() + Seq::<Seq<char>>::empty() == seq!["txt"@],
        Seq::<Seq<char>>::empty() + seq!["img"@] + Seq::<Seq<char>>::empty() == seq!["img"@],
        Seq::<Seq<char>>::empty() + Seq::<Seq<char>>::empty() + seq!["aud"@] == seq!["aud"@],
{
    reveal_strlit("txt");
    reveal_strlit("img");
    reveal_strlit("aud");
    reveal_strlit("+");
    reveal_strlit("txt+img+aud");
    reveal_strlit("txt+img");
    reveal_strlit("txt+aud");
    reveal_strlit("img+aud");
    reveal_with_fuel(join_plus, 4);
    assert(seq!["txt"@, "img"@, "aud"@].drop_last() =~= seq!["txt"@, "img"@]);
    assert(seq!["txt"@, "img"@].drop_last() =~= seq!["txt"@]);
    assert(seq!["txt"@, "aud"@].drop_last() =~= seq!["txt"@]);
    assert(seq!["img"@, "aud"@].drop_last() =~= seq!["img"@]);
    assert(seq!["txt"@] + seq!["img"@] + seq!["aud"@] =~= seq!["txt"@, "img"@, "aud"@]);
    assert(seq!["txt"@] + seq!["img"@] + Seq::<Seq<char>>::empty() =~= seq!["txt"@, "img"@]);
    assert(seq!["txt"@] + Seq::<Seq<char>>::empty() + seq!["aud"@] =~= seq!["txt"@, "aud"@]);
    assert(Seq::<Seq<char>>::empty() + seq!["img"@] + seq!["aud"@] =~= seq!["img"@, "aud"@]);
    assert(seq!["txt"@] + Seq::<Seq<char>>::empty() + Seq::<Seq<char>>::empty() =~= seq!["txt"@]);
    assert(Seq::<Seq<char>>::empty() + seq!["img"@] + Seq::<Seq<char>>::empty() =~= seq!["img"@]);
    assert(Seq::<Seq<char>>::empty() + Seq::<Seq<char>>::empty() + seq!["aud"@] =~= seq!["aud"@]);
    assert("txt"@ + "+"@ + "img"@ + "+"@ + "aud"@ =~= "txt+img+aud"@);
    assert("txt"@ + "+"@ + "img"@ =~= "txt+img"@);
    assert("txt"@ + "+"@ + "aud"@ =~= "txt+aud"@);
    assert("img"@ + "+"@ + "aud"@ =~= "img+aud"@);
}

/// Input modalities of a model, shortened for the detail pane.
pub fn format_input_short(meta: Option<&Json>) -> (r: String)
    ensures
        r@ == spec_input_short(
            match meta {
                Some(m) => Some(*m),
                None => None,
            },
        ),
{
    let listed = match meta {
        Some(m) => match get_of(m, "inputModalities") {
            Some(Json::Array(items)) => {
                let t = has_modality(items, "text");
                let i = has_modality(items, "image");
                let a = has_modality(items, "audio");
                Some((t, i, a))
            },
            _ => None,
        },
        None => None,
    };
    match listed {
        Some((t, i, a)) => {
            let text: Option<&'static str> = if t && i && a {
                Some("txt+img+aud")
            } else if t && i {
                Some("txt+img")
            } else if t && a {
                Some("txt+aud")
            } else if i && a {
                Some("img+aud")
            } else if t {
                Some("txt")
            } else if i {
                Some("img")
            } else if a {
                Some("aud")
            } else {
                None
            };
            proof {
                lemma_joins();
            }
            match text {
                Some(s) => return s.to_owned(),
                None => {},
            }
        },
        None => {},
    }
    match meta {
        Some(m) => match get_of(m, "acceptsImages") {
            Some(Json::Bool(true)) => "txt+img".to_owned(),
            Some(Json::Bool(false)) => "txt".to_owned(),
            _ => String::new(),
        },
        None => String::new(),
    }
}

/// What the detail pane shows of a model's metadata, its numbers already
/// formatted for display: context size, output cap, the raw `api` field,
/// the shortened input modalities, the reasoning flag, the cost line and
/// the base URL.
pub struct DetailFacts {
    pub context: Option<String>,
    pub max_out: Option<String>,
    pub api: Option<String>,
    pub input: String,
    pub reasoning: bool,
    pub cost: Option<String>,
    pub base_url: Option<String>,
}

/// `[x]` when `o` holds `x`, else nothing.
pub open spec fn opt_line(o: Option<Seq<char>>) -> Seq<Seq<char>> {
    match o {
        Some(x) => seq![x],
        None => Seq::empty(),
    }
}

/// The capability labels of the detail pane, in order.
pub open spec fn detail_caps(f: DetailFacts, supports_effort: bool) -> Seq<Seq<char>> {
    opt_line(
        match f.context {
            Some(c) => Some("Context "@ + c@),
            None => None,
        },
    ) + opt_line(
        match f.max_out {
            Some(m) => Some("MaxOut "@ + m@),
            None => None,
        },
    ) + opt_line(
        match f.api {
            Some(a) => match spec_protocol_short(a@) {
                Some(x) => Some("API "@ + x),
                None => None,
            },
            None => None,
        },
    ) + opt_line(if f.input@.len() > 0 {
        Some("Input "@ + f.input@)
    } else {
        None
    }) + opt_line(if f.reasoning || supports_effort {
        Some("\u{26A1} reasoning"@)
    } else {
        None
    })
}

/// Parts joined with `"  ·  "`.
pub open spec fn join_dots(parts: Seq<Seq<char>>) -> Seq<char>
    decreases parts.len(),
{
    if parts.len() == 0 {
        Seq::empty()
    } else if parts.len() == 1 {
        parts[0]
    } else {
        join_dots(parts.drop_last()) + "  \u{00B7}  "@ + parts.last()
    }
}

/// The base URL line, when the URL is not empty.
pub open spec fn spec_base_line(f: DetailFacts) -> Option<Seq<char>> {
    match f.base_url {
        Some(b) => if b@.len() > 0 {
            Some("BaseURL "@ + b@)
        } else {
            None
        },
        None => None,
    }
}

/// The detail pane's lines: the title; the capability labels on one line
/// when there are any; the cost line; the base URL when it is not empty;
/// and, when nothing follows the title, the trimmed description if any.
pub open spec fn spec_detail_lines(
    title: Seq<char>,
    f: DetailFacts,
    supports_effort: bool,
    description: Option<Seq<char>>,
) -> Seq<Seq<char>> {
    let caps = detail_caps(f, supports_effort);
    let lines = seq![title] + (if caps.len() > 0 {
        seq![join_dots(caps)]
    } else {
        Seq::empty()
    }) + opt_line(opt_view(f.cost)) + opt_line(spec_base_line(f));
    match description {
        Some(d) => if lines.len() == 1 && trim(d).len() > 0 {
            lines.push(trim(d))
        } else {
            lines
        },
        None => lines,
    }
}

/// The texts of `v`.
pub open spec fn texts(v: Seq<Vec<char>>) -> Seq<Seq<char>> {
    v.map_values(|x: Vec<char>| x@)
}

fn push_opt(v: &mut Vec<Vec<char>>, o: Option<Vec<char>>)
    ensures
        texts(final(v)@) == texts(old(v)@) + opt_line(
            match o {
                Some(x) => Some(x@),
                None => None,
            },
        ),
{
    match o {
        Some(x) => {
            v.push(x);
        },
        None => {},
    }
    proof {
        assert(texts(v@) =~= texts(old(v)@) + opt_line(
            match o {
                Some(x) => Some(x@),
                None => None,
            },
        ));
    }
}

/// The capability labels of the detail pane.
fn cap_labels(info: &ModelInfo, facts: &DetailFacts) -> (r: Vec<Vec<char>>)
    ensures
        texts(r@) == detail_caps(*facts, info.supports_reasoning_effort),
{
    let mut caps: Vec<Vec<char>> = Vec::new();
    let ctx = match &facts.context {
        Some(c) => Some(concat(&chars_of("Context "), &chars_of(c.as_str()))),
        None => None,
    };
    let mo = match &facts.max_out {
        Some(m) => Some(concat(&chars_of("MaxOut "), &chars_of(m.as_str()))),
        None => None,
    };
    let api = match &facts.api {
        Some(a) => match format_protocol_short(a.as_str()) {
            Some(x) => Some(concat(&chars_of("API "), &chars_of(x))),
            None => None,
        },
        None => None,
    };
    let input_text = chars_of(facts.input.as_str());
    let inp = if input_text.len() > 0 {
        Some(concat(&chars_of("Input "), &input_text))
    } else {
        None
    };
    let rsn = if facts.reasoning || info.supports_reasoning_effort {
        Some(chars_of("\u{26A1} reasoning"))
    } else {
        None
    };
    push_opt(&mut caps, ctx);
    push_opt(&mut caps, mo);
    push_opt(&mut caps, api);
    push_opt(&mut caps, inp);
    push_opt(&mut caps, rsn);
    assert(texts(caps@) =~= detail_caps(*facts, info.supports_reasoning_effort));
    caps
}

/// `join_dots` of the texts of `parts`.
fn join_dots_exec(parts: &Vec<Vec<char>>) -> (r: Vec<char>)
    requires
        parts@.len() > 0,
    ensures
        r@ == join_dots(texts(parts@)),
{
    let mut joined = parts[0].clone();
    let mut i: usize = 1;
    assert(texts(parts@).take(1).drop_last() =~= Seq::<Seq<char>>::empty());
    assert(texts(parts@).take(1)[0] == parts@[0]@);
    while i < parts.len()
        invariant
            1 <= i <= parts@.len(),
            joined@ == join_dots(texts(parts@).take(i as int)),
        decreases parts.len() - i,
    {
        assert(texts(parts@).take(i + 1).drop_last() =~= texts(parts@).take(i as int));
        assert(texts(parts@).take(i + 1).last() == parts@[i as int]@);
        joined = concat(&concat(&joined, &chars_of("  \u{00B7}  ")), &parts[i]);
        i = i + 1;
    }
    assert(texts(parts@).take(parts@.len() as int) =~= texts(parts@));
    joined
}

/// The texts of `v`.
pub open spec fn string_texts(v: Seq<String>) -> Seq<Seq<char>> {
    v.map_values(|x: String| x@)
}

/// Bottom detail pane for the selected `/model` row: title, capabilities,
/// cost, base URL; the description when the metadata says nothing more.
pub fn model_picker_detail_lines(info: &ModelInfo, facts: &DetailFacts, description: Option<&str>) -> (r:
    Vec<String>)
    ensures
        string_texts(r@) == spec_detail_lines(
            detail_title(info@),
            *facts,
            info.supports_reasoning_effort,
            match description {
                Some(d) => Some(d@),
                None => None,
            },
        ),
{
    let caps = cap_labels(info, facts);
    let ghost caps_spec = detail_caps(*facts, info.supports_reasoning_effort);
    let mut lines: Vec<String> = Vec::new();
    lines.push(model_detail_title(info));
    let ghost mut want: Seq<Seq<char>> = seq![detail_title(info@)];
    assert(string_texts(lines@) =~= want);
    if caps.len() > 0 {
        let joined = join_dots_exec(&caps);
        lines.push(string_of(&joined));
        proof {
            want = want + seq![join_dots(caps_spec)];
        }
    } else {
        proof {
            want = want + Seq::<Seq<char>>::empty();
        }
    }
    assert(string_texts(lines@) =~= want);
    match &facts.cost {
        Some(c) => lines.push(c.clone()),
        None => {},
    }
    proof {
        want = want + opt_line(opt_view(facts.cost));
    }
    assert(string_texts(lines@) =~= want);
    let ghost base_line = spec_base_line(*facts);
    match &facts.base_url {
        Some(b) => {
            let bt = chars_of(b.as_str());
            if bt.len() > 0 {
                lines.push(string_of(&concat(&chars_of("BaseURL "), &bt)));
            }
        },
        None => {},
    }
    proof {
        want = want + opt_line(base_line);
    }
    assert(string_texts(lines@) =~= want);
    if lines.len() == 1 {
        match description {
            Some(d) => {
                let t = trim_chars(&chars_of(d));
                if t.len() > 0 {
                    lines.push(string_of(&t));
                    assert(string_texts(lines@) =~= want.push(trim(d@)));
                }
            },
            None => {},
        }
    }
    lines
}

} // verus!
