use vstd::prelude::*;

verus! {

/// A hook that rewrites the page body.
#[derive(Clone, Debug)]
pub struct ModifyBodyHtml {
    pub type_field: String,
    pub execute: String,
}

/// A child process that a plugin asks to have started.
#[derive(Clone, Debug)]
pub struct PluginChildExecute {
    pub type_field: String,
    pub execute: String,
}

/// A hook that rewrites the page head.
#[derive(Clone, Debug)]
pub struct ModifyHeadHtml {
    pub type_field: String,
    pub execute: String,
}

/// A hook that rewrites the finished document.
#[derive(Clone, Debug)]
pub struct ModifyOutputHtml {
    pub type_field: String,
    pub execute: String,
}

/// The hooks and services that one plugin declares.
#[derive(Clone, Debug)]
pub struct PluginRunners {
    pub modify_body_html: Option<ModifyBodyHtml>,
    pub modify_head_html: Option<ModifyHeadHtml>,
    pub modify_output_html: Option<ModifyOutputHtml>,
    pub plugin_children: Option<PluginChildExecute>,
    pub hostedfolders: Option<Vec<Vec<String>>>,
}

/// A plugin as its manifest describes it. `name` is also its directory.
#[derive(Clone, Debug)]
pub struct PluginMeta {
    pub cyntia_plugin_compat: String,
    pub runners: PluginRunners,
    pub name: String,
}

/// The plugin name used when a manifest gives none.
pub fn nonestring() -> (r: String)
    ensures
        r@ == "none"@,
{
    String::from_str("none")
}

/// The point of the pipeline at which a hook runs.
#[derive(Clone, Copy, Debug, PartialEq, Eq, Structural)]
pub enum HookPoint {
    Body,
    Head,
    Output,
}

/// The runner kinds this library knows how to hand to a script runner.
#[derive(Clone, Copy, Debug, PartialEq, Eq, Structural)]
pub enum RunnerKind {
    Js,
    Unsupported,
}

pub open spec fn runner_kind_of(kind: Seq<char>) -> RunnerKind {
    if kind == "js"@ {
        RunnerKind::Js
    } else {
        RunnerKind::Unsupported
    }
}

/// Classifies a hook's declared `type`.
pub fn runner_kind(kind: &String) -> (r: RunnerKind)
    ensures
        r == runner_kind_of(kind@),
{
    let js = String::from_str("js");
    if *kind == js {
        RunnerKind::Js
    } else {
        RunnerKind::Unsupported
    }
}

/// The hook (kind, template) that a plugin declares at a point, if any.
pub open spec fn hook_of(p: PluginMeta, point: HookPoint) -> Option<(Seq<char>, Seq<char>)> {
    match point {
        HookPoint::Body => match p.runners.modify_body_html {
            Some(h) => Some((h.type_field@, h.execute@)),
            None => None,
        },
        HookPoint::Head => match p.runners.modify_head_html {
            Some(h) => Some((h.type_field@, h.execute@)),
            None => None,
        },
        HookPoint::Output => match p.runners.modify_output_html {
            Some(h) => Some((h.type_field@, h.execute@)),
            None => None,
        },
    }
}

/// The kind and template of the plugin's hook at `point`.
pub fn hook_for(p: &PluginMeta, point: HookPoint) -> (r: Option<(String, String)>)
    ensures
        match r {
            Some(h) => hook_of(*p, point) == Some((h.0@, h.1@)),
            None => hook_of(*p, point) is None,
        },
{
    match point {
        HookPoint::Body => match &p.runners.modify_body_html {
            Some(h) => Some((h.type_field.clone(), h.execute.clone())),
            None => None,
        },
        HookPoint::Head => match &p.runners.modify_head_html {
            Some(h) => Some((h.type_field.clone(), h.execute.clone())),
            None => None,
        },
        HookPoint::Output => match &p.runners.modify_output_html {
            Some(h) => Some((h.type_field.clone(), h.execute.clone())),
            None => None,
        },
    }
}

} // verus!
