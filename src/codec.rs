use vstd::prelude::*;
use vstd::std_specs::iter::IteratorSpec;

use crate::plugin::HookPoint;

verus! {

/// What handlebars renders from a template and a context of named strings, where
/// the render succeeds.
pub uninterp spec fn rendered_template(
    template: Seq<char>,
    context: Seq<(Seq<char>, Seq<char>)>,
) -> Seq<char>;

/// What serde_json reads from a text as an array of strings.
pub uninterp spec fn json_string_list(text: Seq<char>) -> Option<Seq<Seq<char>>>;

pub open spec fn opt_view(o: Option<String>) -> Option<Seq<char>> {
    match o {
        Some(s) => Some(s@),
        None => None,
    }
}

pub open spec fn strings_view(v: Seq<String>) -> Seq<Seq<char>> {
    v.map_values(|s: String| s@)
}

pub open spec fn opt_strings_view(o: Option<Vec<String>>) -> Option<Seq<Seq<char>>> {
    match o {
        Some(v) => Some(strings_view(v@)),
        None => None,
    }
}

pub open spec fn pairs_view(v: Seq<(String, String)>) -> Seq<(Seq<char>, Seq<char>)> {
    v.map_values(|p: (String, String)| (p.0@, p.1@))
}

/// Characters that may stand between `{{` and `>` in a partial call: blanks, the
/// whitespace-trim mark `~` and the block mark `#`.
pub open spec fn partial_lead(c: char) -> bool {
    c == ' ' || c == '\t' || c == '\n' || c == '\r' || c == '~' || c == '#'
}

/// `{{` at `i`, then only lead characters, then `>` at `j`: a partial call such as
/// `{{> name}}`, `{{~> name}}` or `{{#> name}}`.
pub open spec fn partial_call_at(t: Seq<char>, i: int, j: int) -> bool {
    &&& 0 <= i
    &&& i + 2 <= j < t.len()
    &&& t[i] == '{'
    &&& t[i + 1] == '{'
    &&& t[j] == '>'
    &&& forall|k: int| i + 2 <= k < j ==> partial_lead(#[trigger] t[k])
}

/// Whether a template calls a partial anywhere. Such a template can call itself
/// without end, so the library does not render it.
pub open spec fn has_partial_call(t: Seq<char>) -> bool {
    exists|i: int, j: int| partial_call_at(t, i, j)
}

fn is_partial_lead(c: char) -> (r: bool)
    ensures
        r == partial_lead(c),
{
    c == ' ' || c == '\t' || c == '\n' || c == '\r' || c == '~' || c == '#'
}

/// Whether `template` holds a partial call.
pub fn holds_partial_call(template: &String) -> (r: bool)
    ensures
        r == has_partial_call(template@),
{
    let t = chars_of(template.as_str());
    let n = t.len();
    let mut i: usize = 0;
    while i < n && i + 1 < n
        invariant
            n == t@.len(),
            t@ == template@,
            i <= n,
            forall|a: int, b: int| 0 <= a < i ==> !partial_call_at(t@, a, b),
        decreases n - i,
    {
        if t[i] == '{' && t[i + 1] == '{' {
            let mut j: usize = i + 2;
            while j < n && is_partial_lead(t[j])
                invariant
                    n == t@.len(),
                    i + 2 <= j <= n,
                    forall|k: int| i + 2 <= k < j ==> partial_lead(#[trigger] t@[k]),
                decreases n - j,
            {
                j = j + 1;
            }
            if j < n && t[j] == '>' {
                assert(partial_call_at(t@, i as int, j as int));
                return true;
            }
            assert forall|b: int| !partial_call_at(t@, i as int, b) by {
                if partial_call_at(t@, i as int, b) {
                    if b < j {
                        assert(partial_lead(t@[b]));
                    } else if b > j {
                        assert(partial_lead(t@[j as int]));
                    }
                }
            }
        }
        i = i + 1;
    }
    assert forall|a: int, b: int| !partial_call_at(t@, a, b) by {
        if a >= i && partial_call_at(t@, a, b) {
            assert(a + 2 < n);
        }
    }
    false
}

/// Relies on handlebars::Handlebars::render_template on a fresh registry: the
/// a successful render depends on the template and the context alone. A render may
/// fail on any input (the template parser gives up when the native stack runs
/// low), giving `None`. A partial call is left out: a partial that calls itself
/// recurses until the stack overflows.
#[verifier::external_body]
pub(crate) fn render_template(template: &String, context: &Vec<(String, String)>) -> (r: Option<
    String,
>)
    requires
        !has_partial_call(template@),
    ensures
        r matches Some(s) ==> s@ == rendered_template(template@, pairs_view(context@)),
{
    let data: std::collections::BTreeMap<String, String> = context.iter().cloned().collect();
    handlebars::Handlebars::new().render_template(template, &data).ok()
}

/// Relies on serde_json::from_str::<Vec<String>>: the array read from the text,
/// `None` where the text is not a JSON array of strings.
#[verifier::external_body]
fn parse_string_list(text: &String) -> (r: Option<Vec<String>>)
    ensures
        opt_strings_view(r) == json_string_list(text@),
{
    serde_json::from_str::<Vec<String>>(text).ok()
}

/// The characters of a text, in order.
pub fn chars_of(s: &str) -> (r: Vec<char>)
    ensures
        r@ == s@,
{
    broadcast use vstd::string::axiom_spec_iter, vstd::string::next_postcondition;

    let mut it = s.chars();
    let mut r: Vec<char> = Vec::new();
    loop
        invariant
            it.obeys_prophetic_iter_laws(),
            r@ + it.remaining() == s@,
        decreases s@.len() - r@.len(),
    {
        match it.next() {
            Some(c) => {
                r.push(c);
            },
            None => {
                assert(r@ =~= s@);
                return r;
            },
        }
    }
}

/// The escape of one character inside a JSON string literal.
pub open spec fn escape_char(c: char) -> Seq<char> {
    if c == '"' {
        seq!['\\', '"']
    } else if c == '\\' {
        seq!['\\', '\\']
    } else if c == '\n' {
        seq!['\\', 'n']
    } else if c == '\r' {
        seq!['\\', 'r']
    } else if c == '\t' {
        seq!['\\', 't']
    } else {
        seq![c]
    }
}

/// A text escaped so that it can stand between the quotes of a JSON string.
pub open spec fn json_escaped(s: Seq<char>) -> Seq<char>
    decreases s.len(),
{
    if s.len() == 0 {
        Seq::empty()
    } else {
        json_escaped(s.drop_last()) + escape_char(s.last())
    }
}

/// Escapes quotes, backslashes and line controls for use inside a JSON string.
pub fn escape_json(s: &String) -> (r: String)
    ensures
        r@ == json_escaped(s@),
{
    let n = s.as_str().unicode_len();
    let mut out = String::new();
    let mut i: usize = 0;
    while i < n
        invariant
            n == s@.len(),
            i <= n,
            out@ == json_escaped(s@.subrange(0, i as int)),
        decreases n - i,
    {
        let c = s.as_str().get_char(i);
        proof {
            reveal_strlit("\\\"");
            reveal_strlit("\\\\");
            reveal_strlit("\\n");
            reveal_strlit("\\r");
            reveal_strlit("\\t");
        }
        if c == '"' {
            out.append("\\\"");
        } else if c == '\\' {
            out.append("\\\\");
        } else if c == '\n' {
            out.append("\\n");
        } else if c == '\r' {
            out.append("\\r");
        } else if c == '\t' {
            out.append("\\t");
        } else {
            out.append(s.as_str().substring_char(i, i + 1));
        }
        assert(s@.subrange(0, i + 1).drop_last() =~= s@.subrange(0, i as int));
        i = i + 1;
    }
    assert(s@.subrange(0, n as int) =~= s@);
    out
}

/// The placeholder that stands for the current content in a hook's command list.
pub open spec fn sentinel_of(point: HookPoint) -> Option<Seq<char>> {
    match point {
        HookPoint::Body => Some("kamkdxcvjgCVJGVvdbvcgcvgdvd"@),
        HookPoint::Head => None,
        HookPoint::Output => Some("kamdlnjnjnsjkanj"@),
    }
}

/// The placeholder of a point, where it has one.
pub fn sentinel(point: HookPoint) -> (r: Option<String>)
    ensures
        opt_view(r) == sentinel_of(point),
{
    match point {
        HookPoint::Body => Some(String::from_str("kamkdxcvjgCVJGVvdbvcgcvgdvd")),
        HookPoint::Head => None,
        HookPoint::Output => Some(String::from_str("kamdlnjnjnsjkanj")),
    }
}

/// The value bound to `input` when a hook's template is rendered: the placeholder,
/// or for the head the escaped head itself.
pub open spec fn input_of(point: HookPoint, current: Seq<char>) -> Seq<char> {
    match sentinel_of(point) {
        Some(s) => s,
        None => json_escaped(current),
    }
}

/// Each command equal to the placeholder replaced by the current content.
pub open spec fn substituted(cmds: Seq<Seq<char>>, point: HookPoint, current: Seq<char>) -> Seq<
    Seq<char>,
> {
    cmds.map_values(|c: Seq<char>| if sentinel_of(point) == Some(c) { current } else { c })
}

/// The argument handed on where a command list cannot be read.
pub open spec fn fallback_arg(point: HookPoint, current: Seq<char>) -> Seq<char> {
    match point {
        HookPoint::Head => json_escaped(current),
        _ => current,
    }
}

pub open spec fn args_from(
    point: HookPoint,
    parsed: Option<Seq<Seq<char>>>,
    current: Seq<char>,
) -> Seq<Seq<char>> {
    match parsed {
        Some(cmds) => substituted(cmds, point, current),
        None => seq!["returndirect"@, fallback_arg(point, current)],
    }
}

/// The argument vector built from a rendered template (`None`: the render failed).
pub open spec fn command_args(point: HookPoint, rendered: Option<Seq<char>>, current: Seq<char>) -> Seq<
    Seq<char>,
> {
    match rendered {
        Some(text) => args_from(point, json_string_list(text), current),
        None => seq!["returndirect"@, seq!['f'] + current],
    }
}

/// The context a hook's template is rendered with.
pub open spec fn hook_context(point: HookPoint, current: Seq<char>) -> Seq<(Seq<char>, Seq<char>)> {
    seq![("input"@, input_of(point, current))]
}

/// What a hook with template `template` on `current` may give: the arguments of a
/// failed render, flagged as a fallback; or, for a template without a partial call,
/// those of its rendered command list, flagged where that list cannot be read.
pub open spec fn hook_result(
    point: HookPoint,
    template: Seq<char>,
    current: Seq<char>,
    args: Seq<Seq<char>>,
    fell_back: bool,
) -> bool {
    let text = rendered_template(template, hook_context(point, current));
    ||| args == command_args(point, None, current) && fell_back
    ||| !has_partial_call(template) && args == command_args(point, Some(text), current)
        && fell_back == (json_string_list(text) is None)
}

/// Replaces each command equal to the point's placeholder by `current`.
pub fn substitute_commands(cmds: Vec<String>, point: HookPoint, current: &String) -> (r: Vec<
    String,
>)
    ensures
        strings_view(r@) == substituted(strings_view(cmds@), point, current@),
{
    let sent = sentinel(point);
    let mut out: Vec<String> = Vec::new();
    let mut i: usize = 0;
    while i < cmds.len()
        invariant
            i <= cmds.len(),
            opt_view(sent) == sentinel_of(point),
            out@.len() == i,
            forall|j: int|
                0 <= j < i ==> #[trigger] out@[j]@ == (if sentinel_of(point) == Some(cmds@[j]@) {
                    current@
                } else {
                    cmds@[j]@
                }),
        decreases cmds.len() - i,
    {
        let is_placeholder = match &sent {
            Some(s) => cmds[i] == *s,
            None => false,
        };
        if is_placeholder {
            out.push(current.clone());
        } else {
            out.push(cmds[i].clone());
        }
        i = i + 1;
    }
    assert(strings_view(out@) =~= substituted(strings_view(cmds@), point, current@));
    out
}

/// The argument vector from a command list as read (`None`: it could not be read).
pub fn args_from_parsed(point: HookPoint, parsed: Option<Vec<String>>, current: &String) -> (r: Vec<
    String,
>)
    ensures
        strings_view(r@) == args_from(point, opt_strings_view(parsed), current@),
{
    match parsed {
        Some(cmds) => substitute_commands(cmds, point, current),
        None => {
            let arg = match point {
                HookPoint::Head => escape_json(current),
                _ => current.clone(),
            };
            let r = vec![String::from_str("returndirect"), arg];
            assert(strings_view(r@) =~= args_from(point, opt_strings_view(parsed), current@));
            r
        },
    }
}

/// The argument vector from a rendered template (`None`: the render failed).
pub fn args_from_rendered(point: HookPoint, rendered: Option<String>, current: &String) -> (r: Vec<
    String,
>)
    ensures
        strings_view(r@) == command_args(point, opt_view(rendered), current@),
{
    match rendered {
        Some(text) => {
            let parsed = parse_string_list(&text);
            args_from_parsed(point, parsed, current)
        },
        None => {
            let mut arg = String::from_str("f");
            arg.append(current.as_str());
            proof {
                reveal_strlit("f");
                assert("f"@ =~= seq!['f']);
            }
            let r = vec![String::from_str("returndirect"), arg];
            assert(strings_view(r@) =~= command_args(point, opt_view(rendered), current@));
            r
        },
    }
}

/// Builds the argument vector of a hook: renders its template with `input` bound,
/// reads the command list, and puts the current content in place of the placeholder.
/// The flag says whether the arguments are a fallback.
pub fn hook_command(point: HookPoint, template: &String, current: &String) -> (r: (Vec<String>, bool))
    ensures
        hook_result(point, template@, current@, strings_view(r.0@), r.1),
{
    let input = match sentinel(point) {
        Some(s) => s,
        None => escape_json(current),
    };
    let context = vec![(String::from_str("input"), input)];
    assert(pairs_view(context@) =~= hook_context(point, current@));
    let rendered = if holds_partial_call(template) {
        None
    } else {
        render_template(template, &context)
    };
    match rendered {
        Some(text) => {
            let parsed = parse_string_list(&text);
            let fell_back = parsed.is_none();
            (args_from_parsed(point, parsed, current), fell_back)
        },
        None => (args_from_rendered(point, None, current), true),
    }
}

} // verus!
