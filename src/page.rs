use vstd::prelude::*;

use crate::assemble::{
    banner_text, head_text, page_document, begin, bypass_marker, head_hooks, mode_name_of, mode_to_load, output_hooks,
    page_or_body, stylesheet_path, template_name_of, template_path, with_banner, Config, Menulist,
    PageRecord,
};
use crate::codec::{has_partial_call, hook_result, strings_view};
use crate::dispatch::{next_hooked, plugin_dir, HookAction, HookRun};
use crate::plugin::{hook_of, runner_kind_of, HookPoint, PluginMeta, RunnerKind};

verus! {

/// The stages of assembling one page, in the order they run.
#[derive(Clone, Copy, Debug, PartialEq, Eq, Structural)]
pub enum Stage {
    BodyHooks,
    Records,
    Mode,
    Assets,
    HeadHooks,
    OutputHooks,
    Done,
}

/// Why a page could not be assembled.
#[derive(Clone, Copy, Debug, PartialEq, Eq, Structural)]
pub enum AssemblyError {
    MissingClientScript,
    MissingTemplate,
    TemplateRender,
}

/// What an assembly asks of its driver next.
#[derive(Debug)]
pub enum PageStep {
    /// Run a plugin script, then hand its output to `feed_script`.
    RunScript { args: Vec<String>, dir: String, fell_back: bool },
    /// A hook of an unsupported kind was skipped.
    Unsupported { plugin: String, kind: String },
    /// Hand the page records to `give_records`.
    ReadRecords,
    /// Resolve this mode and hand it to `give_mode`.
    LoadMode(String),
    /// Read these files and the client script, and hand them to `give_assets`.
    ReadAssets { stylesheet: String, template: String },
    /// The assembly moved on to its next stage; ask for the next step.
    Continue,
    /// The assembly is over.
    Finished(Result<String, AssemblyError>),
}

/// One page being assembled: body hooks, record lookup, mode, assets, head hooks,
/// template, output hooks and banner, each stage after the one before.
#[derive(Debug)]
pub struct PageAssembly {
    pub stage: Stage,
    pub page_id: String,
    pub version: String,
    pub plugins: Vec<PluginMeta>,
    pub menus: Option<Menulist>,
    pub chain: HookRun,
    pub body: String,
    pub record: Option<PageRecord>,
    pub mode: Option<Config>,
    pub clientjs: String,
    pub source: String,
    pub result: Option<Result<String, AssemblyError>>,
}

pub open spec fn hook_stage(s: Stage) -> bool {
    s == Stage::BodyHooks || s == Stage::HeadHooks || s == Stage::OutputHooks
}

/// The request and the data stay as they were.
pub open spec fn keeps_inputs(before: PageAssembly, after: PageAssembly) -> bool {
    &&& after.page_id == before.page_id
    &&& after.version == before.version
}

/// Everything but the stage, the chain and the mode stays as it was.
pub open spec fn keeps_but_mode(before: PageAssembly, after: PageAssembly) -> bool {
    &&& keeps_inputs(before, after)
    &&& after.plugins == before.plugins
    &&& after.menus == before.menus
    &&& after.body == before.body
    &&& after.record == before.record
    &&& after.clientjs == before.clientjs
    &&& after.source == before.source
    &&& after.result == before.result
}

/// Everything but the stage, the chain and the record stays as it was.
pub open spec fn keeps_but_record(before: PageAssembly, after: PageAssembly) -> bool {
    &&& keeps_inputs(before, after)
    &&& after.plugins == before.plugins
    &&& after.menus == before.menus
    &&& after.body == before.body
    &&& after.mode == before.mode
    &&& after.clientjs == before.clientjs
    &&& after.source == before.source
    &&& after.result == before.result
}

/// Everything but the stage and the chain stays as it was.
pub open spec fn keeps_data(before: PageAssembly, after: PageAssembly) -> bool {
    &&& keeps_but_mode(before, after)
    &&& after.mode == before.mode
}

/// Leaving the head hooks with head `head`: the output hooks start from the page
/// document; or the template did not render and the assembly ends with that error
/// (always so for a template with a partial call).
pub open spec fn output_started(
    before: PageAssembly,
    after: PageAssembly,
    r: PageStep,
    head: Seq<char>,
) -> bool {
    let doc = page_document(
        before.source@,
        head,
        before.record->Some_0.meta_json@,
        before.body@,
        before.menus->Some_0,
        before.clientjs@,
    );
    &&& keeps_inputs(before, after)
    &&& {
        ||| {
            &&& after.stage == Stage::OutputHooks
            &&& r == PageStep::Continue
            &&& !has_partial_call(before.source@)
            &&& after.chain.point == HookPoint::Output
            &&& after.chain.plugins@ == before.chain.plugins@
            &&& after.chain.index == 0
            &&& !after.chain.awaiting
            &&& after.chain.content@ == doc
        }
        ||| {
            &&& after.stage == Stage::Done
            &&& after.result == Some(Err::<String, AssemblyError>(AssemblyError::TemplateRender))
            &&& r == PageStep::Finished(Err(AssemblyError::TemplateRender))
        }
    }
}

/// One step in a hook stage. While a plugin with the hook is left, the step is
/// that plugin's: a `js` hook is to be run on the current content, another kind is
/// skipped with the content unchanged, and the stage stays. Past the last one the
/// stage ends: the body goes on to the record lookup, the head to the page
/// document, and the output document, under the banner, is the page.
pub open spec fn hook_stage_step(before: PageAssembly, after: PageAssembly, r: PageStep) -> bool {
    let c = before.chain;
    let k = next_hooked(c.plugins@, c.point, c.index as int);
    if k < c.plugins@.len() {
        let p = c.plugins@[k];
        let h = hook_of(p, c.point)->Some_0;
        &&& after.stage == before.stage
        &&& keeps_data(before, after)
        &&& after.chain.point == c.point
        &&& after.chain.plugins == c.plugins
        &&& after.chain.content == c.content
        &&& if runner_kind_of(h.0) == RunnerKind::Js {
            &&& (r matches PageStep::RunScript { args, dir, fell_back } && hook_result(
                c.point,
                h.1,
                c.content@,
                strings_view(args@),
                fell_back,
            ) && dir@ == plugin_dir(p.name@))
            &&& after.chain.index == k
            &&& after.chain.awaiting
        } else {
            &&& (r matches PageStep::Unsupported { plugin, kind } && plugin@ == p.name@ && kind@
                == h.0)
            &&& after.chain.index == k + 1
            &&& !after.chain.awaiting
        }
    } else if before.stage == Stage::BodyHooks {
        &&& after.stage == Stage::Records
        &&& r == PageStep::ReadRecords
        &&& after.body == c.content
        &&& after.plugins == c.plugins
        &&& keeps_inputs(before, after)
        &&& after.menus == before.menus
        &&& after.record == before.record
        &&& after.mode == before.mode
    } else if before.stage == Stage::HeadHooks {
        output_started(before, after, r, c.content@)
    } else {
        &&& after.stage == Stage::Done
        &&& keeps_inputs(before, after)
        &&& (after.result matches Some(Ok(s)) && s@ == banner_text(c.content@, before.version@))
        &&& r == PageStep::Finished(after.result->Some_0)
    }
}

/// A hook stage in which no plugin left declares the stage's hook (an empty plugin
/// list among them) ends at its next step with its content unchanged: the body goes
/// to the record lookup as it is, the head into the page document as it is, and the
/// output document becomes the page under the banner.
pub proof fn law_unhooked_stage_passes_content(
    before: PageAssembly,
    after: PageAssembly,
    r: PageStep,
)
    requires
        before.wf(),
        hook_stage(before.stage),
        forall|j: int|
            before.chain.index <= j < before.chain.plugins@.len() ==> hook_of(
                #[trigger] before.chain.plugins@[j],
                before.chain.point,
            ) is None,
        hook_stage_step(before, after, r),
    ensures
        after.stage != before.stage,
        before.stage == Stage::BodyHooks ==> after.stage == Stage::Records && after.body
            == before.chain.content,
        before.stage == Stage::HeadHooks ==> output_started(before, after, r, before.chain.content@),
        before.stage == Stage::OutputHooks ==> (after.result matches Some(Ok(s)) && s@
            == banner_text(before.chain.content@, before.version@)),
{
    crate::dispatch::law_unhooked_plugins_finish(
        before.chain.plugins@,
        before.chain.point,
        before.chain.index as int,
    );
}

/// Entering the head hooks: they start from the initial head (a missing stylesheet
/// read as empty), and the client script and template source are kept.
pub open spec fn head_started(
    before: PageAssembly,
    after: PageAssembly,
    stylesheet: Option<String>,
    clientjs: String,
    source: String,
) -> bool {
    let style = match stylesheet {
        Some(s) => s@,
        None => Seq::<char>::empty(),
    };
    &&& after.stage == Stage::HeadHooks
    &&& keeps_inputs(before, after)
    &&& after.chain.index == 0
    &&& !after.chain.awaiting
    &&& after.chain.plugins@ == before.plugins@
    &&& after.chain.content@ == head_text(
        style,
        before.record->Some_0.title@,
        before.mode->Some_0.sitename@,
    )
    &&& after.clientjs == clientjs
    &&& after.source == source
    &&& after.body == before.body
    &&& after.menus == before.menus
    &&& after.record == before.record
    &&& after.mode == before.mode
}

impl PageAssembly {
    pub open spec fn wf(&self) -> bool {
        &&& self.chain.wf()
        &&& self.stage == Stage::BodyHooks ==> self.chain.point == HookPoint::Body
        &&& self.stage == Stage::HeadHooks ==> self.chain.point == HookPoint::Head
        &&& self.stage == Stage::OutputHooks ==> self.chain.point == HookPoint::Output
        &&& !hook_stage(self.stage) ==> !self.chain.awaiting
        &&& (self.stage == Stage::BodyHooks || self.stage == Stage::Records || self.stage
            == Stage::Mode || self.stage == Stage::Assets || self.stage == Stage::HeadHooks)
            ==> self.menus is Some
        &&& (self.stage == Stage::Mode || self.stage == Stage::Assets || self.stage
            == Stage::HeadHooks) ==> self.record is Some
        &&& (self.stage == Stage::Assets || self.stage == Stage::HeadHooks) ==> self.mode is Some
        &&& self.stage == Stage::Done ==> self.result is Some
    }

    /// Starts a page. An error marker ends the assembly at once with the marker
    /// itself, whatever the plugins; other content goes to the body hooks.
    pub fn new(
        page_id: String,
        content: String,
        menus: Menulist,
        plugins: Vec<PluginMeta>,
        version: String,
    ) -> (r: PageAssembly)
        ensures
            r.wf(),
            r.page_id == page_id,
            r.version == version,
            r.menus == Some(menus),
            r.record is None,
            r.mode is None,
            bypass_marker(content@) ==> r.stage == Stage::Done && r.result == Some(
                Ok::<String, AssemblyError>(content),
            ),
            !bypass_marker(content@) ==> r.stage == Stage::BodyHooks && r.chain.content == content
                && r.chain.plugins@ == plugins@ && r.chain.index == 0 && !r.chain.awaiting,
    {
        let empty = HookRun::new(HookPoint::Body, Vec::new(), String::new());
        let mut r = PageAssembly {
            stage: Stage::BodyHooks,
            page_id,
            version,
            plugins: Vec::new(),
            menus: Some(menus),
            chain: empty,
            body: String::new(),
            record: None,
            mode: None,
            clientjs: String::new(),
            source: String::new(),
            result: None,
        };
        match begin(content, plugins) {
            Err(marker) => {
                r.stage = Stage::Done;
                r.result = Some(Ok(marker));
            },
            Ok(chain) => {
                r.chain = chain;
            },
        }
        r
    }

    /// The next thing to do. In a hook stage this steps the chain, and moves to the
    /// next stage when the chain is done. Outside the hook stages it changes
    /// nothing and repeats what the stage waits for.
    pub fn next_step(&mut self) -> (r: PageStep)
        requires
            old(self).wf(),
            !old(self).chain.awaiting,
        ensures
            final(self).wf(),
            hook_stage(old(self).stage) ==> hook_stage_step(*old(self), *final(self), r),
            !hook_stage(old(self).stage) ==> *final(self) == *old(self),
            old(self).stage == Stage::Records ==> r == PageStep::ReadRecords,
            old(self).stage == Stage::Mode ==> (r matches PageStep::LoadMode(m) && m@
                == mode_name_of(old(self).record->Some_0)),
            old(self).stage == Stage::Assets ==> (r matches PageStep::ReadAssets {
                stylesheet,
                template,
            } && stylesheet@ == "./cynthiaFiles/styles/"@ + old(self).mode->Some_0.stylefile@
                && template@ == "./cynthiaFiles/templates/"@ + template_name_of(
                old(self).record->Some_0,
                old(self).mode->Some_0,
            ) + ".handlebars"@),
            old(self).stage == Stage::Done ==> r == PageStep::Finished(old(self).result->Some_0),
    {
        match self.stage {
            Stage::BodyHooks => match self.chain.next_action() {
                HookAction::Run { args, dir, fell_back } => PageStep::RunScript { args, dir, fell_back },
                HookAction::Unsupported { plugin, kind } => PageStep::Unsupported { plugin, kind },
                HookAction::Finished(body) => {
                    self.body = body;
                    let mut done = HookRun::new(HookPoint::Body, Vec::new(), String::new());
                    core::mem::swap(&mut done, &mut self.chain);
                    self.plugins = done.plugins;
                    self.stage = Stage::Records;
                    PageStep::ReadRecords
                },
            },
            Stage::Records => PageStep::ReadRecords,
            Stage::Mode => match &self.record {
                Some(rec) => PageStep::LoadMode(mode_to_load(rec)),
                None => PageStep::ReadRecords,
            },
            Stage::Assets => match (&self.record, &self.mode) {
                (Some(rec), Some(mode)) => PageStep::ReadAssets {
                    stylesheet: stylesheet_path(mode),
                    template: template_path(rec, mode),
                },
                _ => PageStep::ReadRecords,
            },
            Stage::HeadHooks => match self.chain.next_action() {
                HookAction::Run { args, dir, fell_back } => PageStep::RunScript { args, dir, fell_back },
                HookAction::Unsupported { plugin, kind } => PageStep::Unsupported { plugin, kind },
                HookAction::Finished(head) => self.start_output(head),
            },
            Stage::OutputHooks => match self.chain.next_action() {
                HookAction::Run { args, dir, fell_back } => PageStep::RunScript { args, dir, fell_back },
                HookAction::Unsupported { plugin, kind } => PageStep::Unsupported { plugin, kind },
                HookAction::Finished(doc) => {
                    let page = with_banner(&doc, &self.version);
                    self.stage = Stage::Done;
                    self.result = Some(Ok(page.clone()));
                    PageStep::Finished(Ok(page))
                },
            },
            Stage::Done => match &self.result {
                Some(Ok(s)) => PageStep::Finished(Ok(s.clone())),
                Some(Err(e)) => PageStep::Finished(Err(*e)),
                None => PageStep::ReadRecords,
            },
        }
    }

    fn start_output(&mut self, head: String) -> (r: PageStep)
        requires
            old(self).wf(),
            old(self).stage == Stage::HeadHooks,
            !old(self).chain.awaiting,
        ensures
            final(self).wf(),
            output_started(*old(self), *final(self), r, head@),
    {
        let mut done = HookRun::new(HookPoint::Output, Vec::new(), String::new());
        core::mem::swap(&mut done, &mut self.chain);
        let plugins = done.plugins;
        let menus = match self.menus.take() {
            Some(m) => m,
            None => Menulist { menu1: String::new(), menu2: String::new() },
        };
        let mut body = String::new();
        core::mem::swap(&mut body, &mut self.body);
        let run = match &self.record {
            Some(rec) => output_hooks(head, rec, body, menus, &self.source, &self.clientjs, plugins),
            None => None,
        };
        match run {
            Some(chain) => {
                self.chain = chain;
                self.stage = Stage::OutputHooks;
                PageStep::Continue
            },
            None => {
                self.stage = Stage::Done;
                self.result = Some(Err(AssemblyError::TemplateRender));
                PageStep::Finished(Err(AssemblyError::TemplateRender))
            },
        }
    }

    /// The output of the script that the last `RunScript` asked for: it becomes the
    /// chain's content, and the chain moves past that plugin.
    pub fn feed_script(&mut self, output: String)
        requires
            old(self).wf(),
            hook_stage(old(self).stage),
            old(self).chain.awaiting,
        ensures
            final(self).wf(),
            final(self).stage == old(self).stage,
            keeps_data(*old(self), *final(self)),
            final(self).chain.point == old(self).chain.point,
            final(self).chain.plugins == old(self).chain.plugins,
            final(self).chain.index == old(self).chain.index + 1,
            final(self).chain.content == output,
            !final(self).chain.awaiting,
    {
        self.chain.feed(output);
    }

    /// The page records. The first with the page's identifier is the page's; where
    /// none has it the body is the final answer, and no mode, stylesheet or template
    /// is asked for.
    pub fn give_records(&mut self, records: Vec<PageRecord>)
        requires
            old(self).wf(),
            old(self).stage == Stage::Records,
        ensures
            final(self).wf(),
            keeps_inputs(*old(self), *final(self)),
            (forall|j: int| 0 <= j < records@.len() ==> (#[trigger] records@[j]).id@
                != old(self).page_id@) ==> final(self).stage == Stage::Done && final(self).result
                == Some(Ok::<String, AssemblyError>(old(self).body)),
            (exists|j: int| 0 <= j < records@.len() && (#[trigger] records@[j]).id@
                == old(self).page_id@) ==> (final(self).stage == Stage::Mode && keeps_but_record(*old(self), *final(self)) && exists|i: int|
                0 <= i < records@.len() && (#[trigger] records@[i]).id@ == old(self).page_id@
                    && final(self).record == Some(records@[i]) && forall|j: int|
                    0 <= j < i ==> (#[trigger] records@[j]).id@ != old(self).page_id@),
    {
        let ghost rs = records@;
        let mut records = records;
        match page_or_body(&records, &self.page_id, self.body.clone()) {
            Err(body) => {
                self.stage = Stage::Done;
                self.result = Some(Ok(body));
            },
            Ok(i) => {
                let rec = records.remove(i);
                assert(rec == rs[i as int]);
                self.record = Some(rec);
                self.stage = Stage::Mode;
            },
        }
    }

    /// The page's mode, as resolved from the name `LoadMode` gave.
    pub fn give_mode(&mut self, mode: Config)
        requires
            old(self).wf(),
            old(self).stage == Stage::Mode,
        ensures
            final(self).wf(),
            final(self).stage == Stage::Assets,
            keeps_but_mode(*old(self), *final(self)),
            final(self).mode == Some(mode),
    {
        self.mode = Some(mode);
        self.stage = Stage::Assets;
    }

    /// The stylesheet (`None`: missing, read as empty), the client script and the
    /// template source. A missing client script or template ends the assembly with
    /// an error; otherwise the head hooks start.
    pub fn give_assets(
        &mut self,
        stylesheet: Option<String>,
        clientjs: Option<String>,
        source: Option<String>,
    )
        requires
            old(self).wf(),
            old(self).stage == Stage::Assets,
        ensures
            final(self).wf(),
            keeps_inputs(*old(self), *final(self)),
            clientjs is None ==> final(self).stage == Stage::Done && final(self).result == Some(
                Err::<String, AssemblyError>(AssemblyError::MissingClientScript),
            ),
            clientjs is Some && source is None ==> final(self).stage == Stage::Done
                && final(self).result == Some(
                Err::<String, AssemblyError>(AssemblyError::MissingTemplate),
            ),
            clientjs is Some && source is Some ==> head_started(
                *old(self),
                *final(self),
                stylesheet,
                clientjs->Some_0,
                source->Some_0,
            ),
    {
        let js = match clientjs {
            Some(js) => js,
            None => {
                self.stage = Stage::Done;
                self.result = Some(Err(AssemblyError::MissingClientScript));
                return;
            },
        };
        let src = match source {
            Some(s) => s,
            None => {
                self.stage = Stage::Done;
                self.result = Some(Err(AssemblyError::MissingTemplate));
                return;
            },
        };
        let style = match stylesheet {
            Some(s) => s,
            None => String::new(),
        };
        self.clientjs = js;
        self.source = src;
        let mut plugins: Vec<PluginMeta> = Vec::new();
        core::mem::swap(&mut plugins, &mut self.plugins);
        match (&self.record, &self.mode) {
            (Some(rec), Some(mode)) => {
                self.chain = head_hooks(&style, rec, mode, plugins);
                self.stage = Stage::HeadHooks;
            },
            _ => {},
        }
    }
}

} // verus!
