//! The system prompt a session starts with: who the assistant is, which
//! model answers, where it works, and the project's own instructions and
//! memory.

use vstd::prelude::*;
use crate::api_config::{effective_provider, env_view, label_spec, EnvSnapshot};
use crate::settings::Settings;
use crate::text::{opt_view, trim, trim_str};

verus! {

/// The opening line of every system prompt.
pub open spec fn identity_line() -> Seq<char> {
    "You are RustCode, a pragmatic coding assistant operating inside the user's workspace. Make minimal correct changes, verify important behavior, and be explicit about uncertainty."@
}

/// The first memory file, in the order given, whose content is not blank:
/// its name and its content, trimmed.
pub open spec fn first_memory(ms: Seq<(Seq<char>, Option<Seq<char>>)>) -> Option<(Seq<char>, Seq<char>)>
    decreases ms.len(),
{
    if ms.len() == 0 {
        None
    } else {
        match ms[0].1 {
            Some(c) if trim(c).len() > 0 => Some((ms[0].0, trim(c))),
            _ => first_memory(ms.drop_first()),
        }
    }
}

/// The system prompt: the identity line, the provider label and model, the
/// working directory, then the project instructions (`AGENTS.md`) when not
/// blank, then the first non-blank project memory, each section separated
/// by a blank line.
pub open spec fn system_prompt_spec(
    label: Seq<char>,
    model: Seq<char>,
    cwd: Seq<char>,
    agents: Option<Seq<char>>,
    memories: Seq<(Seq<char>, Option<Seq<char>>)>,
) -> Seq<char> {
    identity_line() + "\n\nCurrent provider/model: "@ + label + "/"@ + model + "."@
        + "\n\nWorking directory: "@ + cwd + "."@ + match agents {
        Some(a) if trim(a).len() > 0 => "\n\nProject instructions:\n"@ + trim(a),
        _ => Seq::empty(),
    } + match first_memory(memories) {
        Some((name, content)) => "\n\nProject memory from "@ + name + ":\n"@ + content,
        None => Seq::empty(),
    }
}

/// The views of the memory files offered: each name with its content, if
/// it could be read.
pub open spec fn memories_view(v: Seq<(String, Option<String>)>) -> Seq<(Seq<char>, Option<Seq<char>>)> {
    v.map_values(|m: (String, Option<String>)| (m.0@, opt_view(m.1)))
}

fn memory_section(memories: &Vec<(String, Option<String>)>) -> (r: Option<(String, String)>)
    ensures
        match r {
            Some((n, c)) => first_memory(memories_view(memories@)) == Some((n@, c@)),
            None => first_memory(memories_view(memories@)) is None,
        },
{
    let ghost mv = memories_view(memories@);
    assert(mv.skip(0) =~= mv);
    let mut i: usize = 0;
    while i < memories.len()
        invariant
            i <= memories.len(),
            mv == memories_view(memories@),
            first_memory(mv) == first_memory(mv.skip(i as int)),
        decreases memories.len() - i,
    {
        let ghost rest = mv.skip(i as int);
        assert(rest[0] == (memories@[i as int].0@, opt_view(memories@[i as int].1)));
        assert(rest.drop_first() =~= mv.skip(i + 1));
        match &memories[i].1 {
            Some(c) => {
                if !crate::text::is_blank_str(c.as_str()) {
                    return Some((memories[i].0.clone(), trim_str(c.as_str())));
                }
            },
            None => {},
        }
        i = i + 1;
    }
    assert(mv.skip(memories.len() as int) =~= Seq::<(Seq<char>, Option<Seq<char>>)>::empty());
    None
}

/// The system prompt for `settings` in the working directory `cwd`, given
/// the project instructions found (the text of the nearest `AGENTS.md`,
/// if any) and the memory files in the order they are looked for, each
/// with its text if one was found.
pub fn build_system_prompt(
    settings: &Settings,
    env: &EnvSnapshot,
    cwd: &str,
    agents: Option<String>,
    memories: &Vec<(String, Option<String>)>,
) -> (r: String)
    ensures
        r@ == system_prompt_spec(
            label_spec(effective_provider(settings.api, env_view(*env)), opt_view(settings.api.custom_provider_name)),
            settings.model@,
            cwd@,
            opt_view(agents),
            memories_view(memories@),
        ),
{
    let mut out = String::from_str(
        "You are RustCode, a pragmatic coding assistant operating inside the user's workspace. Make minimal correct changes, verify important behavior, and be explicit about uncertainty.",
    );
    out.append("\n\nCurrent provider/model: ");
    out.append(settings.api.provider_label(env).as_str());
    out.append("/");
    out.append(settings.model.as_str());
    out.append(".");
    out.append("\n\nWorking directory: ");
    out.append(cwd);
    out.append(".");
    match &agents {
        Some(a) => {
            if !crate::text::is_blank_str(a.as_str()) {
                out.append("\n\nProject instructions:\n");
                out.append(trim_str(a.as_str()).as_str());
            }
        },
        None => {},
    }
    match memory_section(memories) {
        Some((name, content)) => {
            out.append("\n\nProject memory from ");
            out.append(name.as_str());
            out.append(":\n");
            out.append(content.as_str());
        },
        None => {},
    }
    out
}

} // verus!
