//! The line-based onboarding prompts: how each prompt is worded and what
//! a typed answer means.

use vstd::prelude::*;
use crate::api_config::{provider_name, provider_named, ApiProvider};
use crate::numbers::{decimal, parse_unsigned, parse_usize, usize_to_string};
use crate::text::{concat, is_blank_str, lower, normalized_key, trim, trim_str, vec_is};

verus! {

/// The providers offered, in menu order.
pub open spec fn menu_providers() -> Seq<ApiProvider> {
    seq![
        ApiProvider::DeepSeek,
        ApiProvider::OpenAI,
        ApiProvider::Anthropic,
        ApiProvider::XAI,
        ApiProvider::Gemini,
        ApiProvider::DashScope,
        ApiProvider::OpenRouter,
        ApiProvider::Ollama,
        ApiProvider::Custom,
    ]
}

/// The providers offered, in menu order.
pub fn provider_menu() -> (v: Vec<ApiProvider>)
    ensures
        v@ == menu_providers(),
{
    let v = vec![
        ApiProvider::DeepSeek,
        ApiProvider::OpenAI,
        ApiProvider::Anthropic,
        ApiProvider::XAI,
        ApiProvider::Gemini,
        ApiProvider::DashScope,
        ApiProvider::OpenRouter,
        ApiProvider::Ollama,
        ApiProvider::Custom,
    ];
    assert(v@ =~= menu_providers());
    v
}

/// One menu line: the provider's number and name, marked when it is the
/// default.
pub open spec fn menu_line_spec(index: nat, p: ApiProvider, default: ApiProvider) -> Seq<char> {
    "  "@ + decimal(index + 1) + ". "@ + provider_name(p) + if p == default {
        " (default)"@
    } else {
        Seq::empty()
    }
}

/// The lines of the provider menu.
pub fn provider_menu_lines(default: ApiProvider) -> (lines: Vec<String>)
    ensures
        lines@.len() == menu_providers().len(),
        forall|i: int| 0 <= i < lines@.len() ==> #[trigger] lines@[i]@ == menu_line_spec(i as nat, menu_providers()[i], default),
{
    let menu = provider_menu();
    let mut lines: Vec<String> = Vec::new();
    let mut i: usize = 0;
    while i < menu.len()
        invariant
            i <= menu.len(),
            menu@ == menu_providers(),
            lines@.len() == i,
            forall|k: int| 0 <= k < i ==> #[trigger] lines@[k]@ == menu_line_spec(k as nat, menu_providers()[k], default),
        decreases menu.len() - i,
    {
        let p = menu[i];
        let mut line = concat("  ", usize_to_string(i + 1).as_str());
        line.append(". ");
        line.append(p.as_str());
        if p == default {
            line.append(" (default)");
        }
        lines.push(line);
        i = i + 1;
    }
    lines
}

/// The provider an answer picks: a menu number (zero counts as the first
/// entry), else a provider name.
pub open spec fn provider_choice_spec(input: Seq<char>) -> Option<ApiProvider> {
    match parse_unsigned(input, usize::MAX as int) {
        Some(n) if (if n == 0 { 0 } else { n - 1 }) < menu_providers().len() => Some(
            menu_providers()[if n == 0 { 0 } else { n - 1 }],
        ),
        _ => provider_named(lower(trim(input))),
    }
}

/// The provider an answer picks, if any.
pub fn provider_choice(input: &str) -> (r: Option<ApiProvider>)
    ensures
        r == provider_choice_spec(input@),
{
    let menu = provider_menu();
    match parse_usize(input) {
        Some(n) => {
            let index = if n == 0 { 0 } else { n - 1 };
            if index < menu.len() {
                return Some(menu[index]);
            }
        },
        None => {},
    }
    ApiProvider::parse(input)
}

/// The hint after a yes/no question, showing its default.
pub open spec fn yes_no_suffix_spec(default: bool) -> Seq<char> {
    if default {
        "[Y/n]"@
    } else {
        "[y/N]"@
    }
}

/// The hint after a yes/no question, showing its default.
pub fn yes_no_suffix(default: bool) -> (s: &'static str)
    ensures
        s@ == yes_no_suffix_spec(default),
{
    if default {
        "[Y/n]"
    } else {
        "[y/N]"
    }
}

/// What a yes/no answer means: blank takes the default; `y`/`yes` and
/// `n`/`no` in any ASCII case; anything else asks again.
pub open spec fn yes_no_spec(input: Seq<char>, default: bool) -> Option<bool> {
    let k = lower(trim(input));
    if k.len() == 0 {
        Some(default)
    } else if k == "y"@ || k == "yes"@ {
        Some(true)
    } else if k == "n"@ || k == "no"@ {
        Some(false)
    } else {
        None
    }
}

/// What a yes/no answer means (`None`: ask again).
pub fn interpret_yes_no(input: &str, default: bool) -> (r: Option<bool>)
    ensures
        r == yes_no_spec(input@, default),
{
    let k = normalized_key(input);
    if k.len() == 0 {
        Some(default)
    } else if vec_is(&k, "y") || vec_is(&k, "yes") {
        Some(true)
    } else if vec_is(&k, "n") || vec_is(&k, "no") {
        Some(false)
    } else {
        None
    }
}

/// What a line answer means: blank takes the default, else the trimmed
/// text.
pub open spec fn line_answer_spec(input: Seq<char>, default: Seq<char>) -> Seq<char> {
    if trim(input).len() == 0 {
        default
    } else {
        trim(input)
    }
}

/// What a line answer means.
pub fn interpret_line(input: &str, default: &str) -> (r: String)
    ensures
        r@ == line_answer_spec(input@, default@),
{
    if is_blank_str(input) {
        String::from_str(default)
    } else {
        trim_str(input)
    }
}

/// How a secret is asked for: whether one is kept already, and whether a
/// blank answer is fine.
pub open spec fn secret_prompt_spec(label: Seq<char>, has_existing: bool, allow_blank: bool) -> Seq<char> {
    label + if has_existing {
        if allow_blank {
            " [press Enter to keep current, type '-' to clear, blank allowed]"@
        } else {
            " [press Enter to keep current, type '-' to clear]"@
        }
    } else if allow_blank {
        " [leave blank to skip]"@
    } else {
        " [leave blank to use env var if available]"@
    }
}

/// How a secret is asked for.
pub fn secret_prompt(label: &str, has_existing: bool, allow_blank: bool) -> (r: String)
    ensures
        r@ == secret_prompt_spec(label@, has_existing, allow_blank),
{
    let tail = if has_existing {
        if allow_blank {
            " [press Enter to keep current, type '-' to clear, blank allowed]"
        } else {
            " [press Enter to keep current, type '-' to clear]"
        }
    } else if allow_blank {
        " [leave blank to skip]"
    } else {
        " [leave blank to use env var if available]"
    };
    concat(label, tail)
}

/// What a secret answer means: `-` clears it, blank keeps the current
/// one, anything else is the new secret, trimmed.
pub open spec fn secret_answer_spec(input: Seq<char>, existing: Option<Seq<char>>) -> Option<Seq<char>> {
    if trim(input) == "-"@ {
        None
    } else if trim(input).len() == 0 {
        existing
    } else {
        Some(trim(input))
    }
}

/// What a secret answer means.
pub fn interpret_secret(input: &str, existing: Option<&String>) -> (r: Option<String>)
    ensures
        crate::text::opt_view(r) == secret_answer_spec(
            input@,
            match existing {
                Some(s) => Some(s@),
                None => None,
            },
        ),
{
    let t = trim_str(input);
    if crate::text::str_eq(t.as_str(), "-") {
        None
    } else if t.as_str().unicode_len() == 0 {
        match existing {
            Some(s) => Some(s.clone()),
            None => None,
        }
    } else {
        Some(t)
    }
}

} // verus!
