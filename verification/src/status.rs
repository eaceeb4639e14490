//! The texts of `/help`, `/status` and the compaction status line.

use vstd::prelude::*;
use crate::api_config::{
    EnvSnapshot, effective_protocol, effective_provider, env_view, label_spec, protocol_name,
};
use crate::commands::{KindView, SlashCommandKind, SlashCommandRegistry, SlashCommandSource, SpecView, specs_view};
use crate::compact::CompactSettings;
use crate::numbers::{decimal, usize_to_string};
use crate::settings::Settings;
use crate::text::{join, join_strs, opt_view, views};

verus! {

/// `true` or `false`, as `bool` displays.
pub open spec fn bool_text(b: bool) -> Seq<char> {
    if b {
        "true"@
    } else {
        "false"@
    }
}

pub fn bool_str(b: bool) -> (s: &'static str)
    ensures
        s@ == bool_text(b),
{
    if b {
        "true"
    } else {
        "false"
    }
}

/// The compaction settings as one status line.
pub open spec fn compact_status_spec(s: CompactSettings) -> Seq<char> {
    "Compact settings: enabled="@ + bool_text(s.enabled) + " auto="@ + bool_text(s.auto_compact)
        + " reactive="@ + bool_text(s.reactive_compact) + " micro="@ + bool_text(
        s.enable_microcompact,
    ) + " turns="@ + decimal(s.max_turns_before_compact as nat) + " tokens="@ + decimal(
        s.max_tokens_before_compact as nat,
    ) + " preserve_recent_turns="@ + decimal(s.preserve_recent_turns as nat) + " reserve="@
        + decimal(s.reserved_completion_budget as nat)
}

/// The compaction settings as one status line.
pub fn format_compact_status(settings: &CompactSettings) -> (r: String)
    ensures
        r@ == compact_status_spec(*settings),
{
    let mut r = String::from_str("Compact settings: enabled=");
    r.append(bool_str(settings.enabled));
    r.append(" auto=");
    r.append(bool_str(settings.auto_compact));
    r.append(" reactive=");
    r.append(bool_str(settings.reactive_compact));
    r.append(" micro=");
    r.append(bool_str(settings.enable_microcompact));
    r.append(" turns=");
    r.append(usize_to_string(settings.max_turns_before_compact).as_str());
    r.append(" tokens=");
    r.append(usize_to_string(settings.max_tokens_before_compact).as_str());
    r.append(" preserve_recent_turns=");
    r.append(usize_to_string(settings.preserve_recent_turns).as_str());
    r.append(" reserve=");
    r.append(usize_to_string(settings.reserved_completion_budget).as_str());
    r
}

/// How `/help` names where a command comes from.
pub open spec fn source_label(s: SlashCommandSource) -> Seq<char> {
    match s {
        SlashCommandSource::Builtin => "builtin"@,
        SlashCommandSource::Project => "project"@,
        SlashCommandSource::User => "user"@,
        SlashCommandSource::ClaudeCompat => "compat"@,
        SlashCommandSource::VendoredPrompt => "prompt"@,
    }
}

/// How `/help` names how a command is carried out.
pub open spec fn kind_label(k: KindView) -> Seq<char> {
    match k {
        KindView::Native => "native"@,
        KindView::Prompt => "prompt"@,
        KindView::FileBacked(_) => "markdown"@,
    }
}

/// The `/help` line of one command.
pub open spec fn help_line(c: SpecView) -> Seq<char> {
    "/"@ + c.name + match c.argument_hint {
        Some(h) => " "@ + h,
        None => Seq::empty(),
    } + "  "@ + c.description + " ["@ + source_label(c.source) + ":"@ + kind_label(c.kind) + "]"@
}

/// The `/help` text for a list of commands.
pub open spec fn help_text_spec(cmds: Seq<SpecView>) -> Seq<char> {
    join(seq!["Available slash commands:"@] + cmds.map_values(|c: SpecView| help_line(c)), "\n"@)
}

fn help_line_exec(c: &crate::commands::SlashCommandSpec) -> (r: String)
    ensures
        r@ == help_line(c@),
{
    let source = match c.source {
        SlashCommandSource::Builtin => "builtin",
        SlashCommandSource::Project => "project",
        SlashCommandSource::User => "user",
        SlashCommandSource::ClaudeCompat => "compat",
        SlashCommandSource::VendoredPrompt => "prompt",
    };
    let kind = match &c.kind {
        SlashCommandKind::Native => "native",
        SlashCommandKind::Prompt => "prompt",
        SlashCommandKind::FileBacked { .. } => "markdown",
    };
    let mut r = String::from_str("/");
    r.append(c.name.as_str());
    match &c.argument_hint {
        Some(h) => {
            r.append(" ");
            r.append(h.as_str());
        },
        None => {},
    }
    r.append("  ");
    r.append(c.description.as_str());
    r.append(" [");
    r.append(source);
    r.append(":");
    r.append(kind);
    r.append("]");
    proof {
        let hint = match c@.argument_hint {
            Some(h) => " "@ + h,
            None => Seq::<char>::empty(),
        };
        assert(r@ =~= help_line(c@));
    }
    r
}

/// The `/help` text: a heading, then one line per command of the registry.
pub fn format_help_text(registry: &SlashCommandRegistry) -> (r: String)
    ensures
        r@ == help_text_spec(registry@),
{
    let all = registry.all();
    let ghost cmds = specs_view(all@);
    let ghost f = |c: SpecView| help_line(c);
    let mut lines: Vec<String> = Vec::new();
    lines.push(String::from_str("Available slash commands:"));
    let mut i: usize = 0;
    while i < all.len()
        invariant
            i <= all.len(),
            cmds == specs_view(all@),
            f == (|c: SpecView| help_line(c)),
            views(lines@) == seq!["Available slash commands:"@] + cmds.subrange(0, i as int).map_values(f),
        decreases all.len() - i,
    {
        let ghost before = views(lines@);
        let line = help_line_exec(&all[i]);
        lines.push(line);
        assert(cmds[i as int] == all@[i as int]@);
        assert(views(lines@) =~= before.push(f(cmds[i as int])));
        assert(cmds.subrange(0, i + 1).map_values(f) =~= cmds.subrange(0, i as int).map_values(f).push(
            f(cmds[i as int]),
        ));
        i = i + 1;
    }
    assert(cmds.subrange(0, all.len() as int) =~= cmds);
    join_strs(&lines, "\n")
}

/// `yes`/`no`.
pub open spec fn yes_no(b: bool) -> Seq<char> {
    if b {
        "yes"@
    } else {
        "no"@
    }
}

/// `on`/`off`.
pub open spec fn on_off(b: bool) -> Seq<char> {
    if b {
        "on"@
    } else {
        "off"@
    }
}

/// The `/status` text.
pub open spec fn status_text_spec(
    s: Settings,
    env: Seq<(Seq<char>, Seq<char>)>,
    session_id: Option<Seq<char>>,
    message_count: usize,
    pending_approval: bool,
    usage_total_tokens: Option<usize>,
    plan_mode: bool,
    has_plan: bool,
) -> Seq<char> {
    "Provider: "@ + label_spec(effective_provider(s.api, env), opt_view(s.api.custom_provider_name))
        + "\nModel: "@ + s.model@ + "\nProtocol: "@ + protocol_name(effective_protocol(s.api, env))
        + "\nFallback: "@ + on_off(s.api.fallback.enabled) + " ("@ + decimal(
        s.api.fallback.chain@.len(),
    ) + ")\nSession: "@ + match session_id {
        Some(id) => id,
        None => "none"@,
    } + "\nMessages: "@ + decimal(message_count as nat) + "\nPending approval: "@ + yes_no(
        pending_approval,
    ) + "\nPlan mode: "@ + on_off(plan_mode) + "\nCurrent plan: "@ + (if has_plan {
        "available"@
    } else {
        "none"@
    }) + "\nCompact: enabled="@ + bool_text(s.compact.enabled) + " auto="@ + bool_text(
        s.compact.auto_compact,
    ) + " reactive="@ + bool_text(s.compact.reactive_compact) + " micro="@ + bool_text(
        s.compact.enable_microcompact,
    ) + " turns="@ + decimal(s.compact.max_turns_before_compact as nat) + " tokens="@ + decimal(
        s.compact.max_tokens_before_compact as nat,
    ) + " reserve="@ + decimal(s.compact.reserved_completion_budget as nat) + " current_tokens="@
        + match usage_total_tokens {
        Some(n) => decimal(n as nat),
        None => "unknown"@,
    }
}

/// The `/status` text for the settings in effect under `env`, the current
/// session and its plan.
pub fn format_status_text(
    settings: &Settings,
    env: &EnvSnapshot,
    session_id: Option<&str>,
    message_count: usize,
    pending_approval: bool,
    usage_total_tokens: Option<usize>,
    plan_mode: bool,
    active_plan: Option<&String>,
) -> (r: String)
    ensures
        r@ == status_text_spec(
            *settings,
            env_view(*env),
            match session_id {
                Some(id) => Some(id@),
                None => None::<Seq<char>>,
            },
            message_count,
            pending_approval,
            usage_total_tokens,
            plan_mode,
            active_plan is Some,
        ),
{
    let mut r = String::from_str("Provider: ");
    r.append(settings.api.provider_label(env).as_str());
    r.append("\nModel: ");
    r.append(settings.model.as_str());
    r.append("\nProtocol: ");
    r.append(settings.api.protocol(env).as_str());
    r.append("\nFallback: ");
    r.append(if settings.api.fallback.enabled { "on" } else { "off" });
    r.append(" (");
    r.append(usize_to_string(settings.api.fallback.chain.len()).as_str());
    r.append(")\nSession: ");
    r.append(
        match session_id {
            Some(id) => id,
            None => "none",
        },
    );
    r.append("\nMessages: ");
    r.append(usize_to_string(message_count).as_str());
    r.append("\nPending approval: ");
    r.append(if pending_approval { "yes" } else { "no" });
    r.append("\nPlan mode: ");
    r.append(if plan_mode { "on" } else { "off" });
    r.append("\nCurrent plan: ");
    r.append(if active_plan.is_some() { "available" } else { "none" });
    r.append("\nCompact: enabled=");
    r.append(bool_str(settings.compact.enabled));
    r.append(" auto=");
    r.append(bool_str(settings.compact.auto_compact));
    r.append(" reactive=");
    r.append(bool_str(settings.compact.reactive_compact));
    r.append(" micro=");
    r.append(bool_str(settings.compact.enable_microcompact));
    r.append(" turns=");
    r.append(usize_to_string(settings.compact.max_turns_before_compact).as_str());
    r.append(" tokens=");
    r.append(usize_to_string(settings.compact.max_tokens_before_compact).as_str());
    r.append(" reserve=");
    r.append(usize_to_string(settings.compact.reserved_completion_budget).as_str());
    r.append(" current_tokens=");
    match usage_total_tokens {
        Some(n) => r.append(usize_to_string(n).as_str()),
        None => r.append("unknown"),
    }
    r
}

} // verus!
