use vstd::prelude::*;

use crate::codec::{hook_command, hook_result, strings_view};
use crate::plugin::{hook_for, hook_of, runner_kind, runner_kind_of, HookPoint, PluginMeta, RunnerKind};

verus! {

/// What a hook chain asks of its driver next.
#[derive(Debug)]
pub enum HookAction {
    /// Run the plugin script with these arguments in this directory, then `feed`
    /// its output back. `fell_back` says that the hook's command list could not be
    /// rendered or read, so the arguments are the fallback ones.
    Run { args: Vec<String>, dir: String, fell_back: bool },
    /// The plugin's hook has a kind that no runner handles; it was skipped.
    Unsupported { plugin: String, kind: String },
    /// Every plugin has had its turn; this is the resulting content.
    Finished(String),
}

/// The hooks of one pipeline point, applied in plugin order to an accumulating
/// content. Each script's output is the next hook's input.
#[derive(Debug)]
pub struct HookRun {
    pub point: HookPoint,
    pub plugins: Vec<PluginMeta>,
    pub index: usize,
    pub content: String,
    pub awaiting: bool,
}

/// The first plugin at or after `from` that declares a hook at `point`, or the
/// length of the list when none does.
pub open spec fn next_hooked(plugins: Seq<PluginMeta>, point: HookPoint, from: int) -> int
    decreases plugins.len() - from,
{
    if from >= plugins.len() {
        plugins.len() as int
    } else if hook_of(plugins[from], point) is Some {
        from
    } else {
        next_hooked(plugins, point, from + 1)
    }
}

/// The working directory of a plugin's scripts.
pub open spec fn plugin_dir(name: Seq<char>) -> Seq<char> {
    "./plugins/"@ + name + "/"@
}

proof fn lemma_next_hooked(plugins: Seq<PluginMeta>, point: HookPoint, from: int)
    requires
        0 <= from <= plugins.len(),
    ensures
        from <= next_hooked(plugins, point, from) <= plugins.len(),
        next_hooked(plugins, point, from) < plugins.len() ==> hook_of(
            plugins[next_hooked(plugins, point, from)],
            point,
        ) is Some,
        forall|j: int|
            from <= j < next_hooked(plugins, point, from) ==> hook_of(#[trigger] plugins[j], point) is None,
    decreases plugins.len() - from,
{
    if from < plugins.len() && hook_of(plugins[from], point) is None {
        lemma_next_hooked(plugins, point, from + 1);
    }
}

/// Where no plugin from `from` on declares a hook at `point` (an empty list among
/// them), the chain has nothing left to run: its next action is `Finished` with
/// the content it holds.
pub proof fn law_unhooked_plugins_finish(plugins: Seq<PluginMeta>, point: HookPoint, from: int)
    requires
        0 <= from <= plugins.len(),
        forall|j: int| from <= j < plugins.len() ==> hook_of(#[trigger] plugins[j], point) is None,
    ensures
        next_hooked(plugins, point, from) == plugins.len(),
    decreases plugins.len() - from,
{
    if from < plugins.len() {
        law_unhooked_plugins_finish(plugins, point, from + 1);
    }
}

/// One step of a chain: past the plugins without the hook, a `js` hook is to be
/// run on the current content; a hook of another kind is skipped with the content
/// unchanged; with no hook left the content is final.
pub open spec fn chain_step(before: HookRun, after: HookRun, r: HookAction) -> bool {
    let k = next_hooked(before.plugins@, before.point, before.index as int);
    &&& after.point == before.point
    &&& after.plugins == before.plugins
    &&& after.content == before.content
    &&& if k >= before.plugins@.len() {
        &&& r == HookAction::Finished(before.content)
        &&& after.index == before.plugins@.len()
        &&& !after.awaiting
    } else {
        let p = before.plugins@[k];
        let h = hook_of(p, before.point)->Some_0;
        if runner_kind_of(h.0) == RunnerKind::Js {
            &&& (r matches HookAction::Run { args, dir, fell_back } && hook_result(
                before.point,
                h.1,
                before.content@,
                strings_view(args@),
                fell_back,
            ) && dir@ == plugin_dir(p.name@))
            &&& after.index == k
            &&& after.awaiting
        } else {
            &&& (r matches HookAction::Unsupported { plugin, kind } && plugin@ == p.name@ && kind@
                == h.0)
            &&& after.index == k + 1
            &&& !after.awaiting
        }
    }
}

impl HookRun {
    pub open spec fn wf(&self) -> bool {
        &&& self.index <= self.plugins.len()
        &&& self.awaiting ==> self.index < self.plugins.len()
    }

    /// A chain at its first plugin, holding `content`.
    pub fn new(point: HookPoint, plugins: Vec<PluginMeta>, content: String) -> (r: HookRun)
        ensures
            r.wf(),
            r.point == point,
            r.plugins@ == plugins@,
            r.index == 0,
            r.content == content,
            !r.awaiting,
    {
        HookRun { point, plugins, index: 0, content, awaiting: false }
    }

    /// Moves to the next plugin with a hook at this point and says what to do
    /// with it. A `js` hook gives `Run` and waits for its output; another kind is
    /// skipped with content unchanged; past the last plugin the content is final.
    pub fn next_action(&mut self) -> (r: HookAction)
        requires
            old(self).wf(),
            !old(self).awaiting,
        ensures
            final(self).wf(),
            chain_step(*old(self), *final(self), r),
    {
        proof {
            lemma_next_hooked(self.plugins@, self.point, self.index as int);
        }
        let ghost k = next_hooked(self.plugins@, self.point, self.index as int);
        while self.index < self.plugins.len() && hook_for(&self.plugins[self.index], self.point).is_none()
            invariant
                self.point == old(self).point,
                self.plugins == old(self).plugins,
                self.content == old(self).content,
                !self.awaiting,
                old(self).index <= self.index <= self.plugins.len(),
                self.index <= k,
                k == next_hooked(self.plugins@, self.point, self.index as int),
                k <= self.plugins.len(),
            decreases self.plugins.len() - self.index,
        {
            proof {
                lemma_next_hooked(self.plugins@, self.point, self.index + 1);
            }
            self.index = self.index + 1;
        }
        if self.index >= self.plugins.len() {
            return HookAction::Finished(self.content.clone());
        }
        let i = self.index;
        let hook = hook_for(&self.plugins[i], self.point);
        match hook {
            Some((kind, template)) => match runner_kind(&kind) {
                RunnerKind::Js => {
                    let (args, fell_back) = hook_command(self.point, &template, &self.content);
                    let mut dir = String::from_str("./plugins/");
                    dir.append(self.plugins[i].name.as_str());
                    dir.append("/");
                    self.awaiting = true;
                    HookAction::Run { args, dir, fell_back }
                },
                RunnerKind::Unsupported => {
                    self.index = i + 1;
                    HookAction::Unsupported { plugin: self.plugins[i].name.clone(), kind }
                },
            },
            None => {
                HookAction::Finished(self.content.clone())
            },
        }
    }

    /// Takes the output of the script that `next_action` asked for: it replaces
    /// the content, and the chain moves past that plugin.
    pub fn feed(&mut self, output: String)
        requires
            old(self).wf(),
            old(self).awaiting,
        ensures
            final(self).wf(),
            final(self).point == old(self).point,
            final(self).plugins == old(self).plugins,
            final(self).content == output,
            final(self).index == old(self).index + 1,
            !final(self).awaiting,
    {
        self.content = output;
        self.index = self.index + 1;
        self.awaiting = false;
    }
}

} // verus!
