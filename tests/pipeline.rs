use cynthia_combiner::assemble::{
    begin, find_page, head_hooks, is_bypass_marker, mode_to_load, output_hooks, page_or_body,
    render_page, stylesheet_path, template_path, with_banner, with_page_meta, wrap_document,
    Config, Handlebar, Menulist, PageRecord,
};
use cynthia_combiner::codec::{
    args_from_parsed, args_from_rendered, escape_json, hook_command, substitute_commands,
};
use cynthia_combiner::dispatch::{HookAction, HookRun};
use cynthia_combiner::plugin::{
    hook_for, nonestring, runner_kind, HookPoint, ModifyBodyHtml, ModifyHeadHtml,
    ModifyOutputHtml, PluginMeta, PluginRunners, RunnerKind,
};

const BODY_MARK: &str = "kamkdxcvjgCVJGVvdbvcgcvgdvd";
const OUTPUT_MARK: &str = "kamdlnjnjnsjkanj";

fn no_runners() -> PluginRunners {
    PluginRunners {
        modify_body_html: None,
        modify_head_html: None,
        modify_output_html: None,
        plugin_children: None,
        hostedfolders: None,
    }
}

fn plugin(name: &str, runners: PluginRunners) -> PluginMeta {
    PluginMeta { cyntia_plugin_compat: "2".to_string(), runners, name: name.to_string() }
}

fn body_plugin(name: &str, kind: &str, template: &str) -> PluginMeta {
    let mut r = no_runners();
    r.modify_body_html =
        Some(ModifyBodyHtml { type_field: kind.to_string(), execute: template.to_string() });
    plugin(name, r)
}

fn output_plugin(name: &str, template: &str) -> PluginMeta {
    let mut r = no_runners();
    r.modify_output_html =
        Some(ModifyOutputHtml { type_field: "js".to_string(), execute: template.to_string() });
    plugin(name, r)
}

fn strings(v: &[&str]) -> Vec<String> {
    v.iter().map(|s| s.to_string()).collect()
}

/// Drives a chain to its end, standing in for the script runner with `run`.
fn drive(mut chain: HookRun, run: &dyn Fn(&Vec<String>, &String) -> String) -> (String, usize) {
    let mut calls = 0;
    loop {
        match chain.next_action() {
            HookAction::Run { args, dir, .. } => {
                calls += 1;
                let out = run(&args, &dir);
                chain.feed(out);
            }
            HookAction::Unsupported { .. } => {}
            HookAction::Finished(c) => return (c, calls),
        }
    }
}

fn record(id: &str, kind: &str, mode: Option<&str>) -> PageRecord {
    PageRecord {
        id: id.to_string(),
        title: "T".to_string(),
        kind: kind.to_string(),
        mode: mode.map(|m| m.to_string()),
        meta_json: format!("{{\"id\":\"{}\"}}", id),
    }
}

fn mode(post: &str, page: &str) -> Config {
    Config {
        sitename: "Site".to_string(),
        stylefile: "s.css".to_string(),
        handlebar: Handlebar { post: post.to_string(), page: page.to_string() },
        menulinks: vec![],
        menu2links: vec![],
    }
}

fn menus() -> Menulist {
    Menulist { menu1: "<nav>1</nav>".to_string(), menu2: "<nav>2</nav>".to_string() }
}

#[test]
fn bypass_markers_are_returned_whatever_the_plugins() {
    let plugins = vec![body_plugin("a", "js", "[\"x\"]"), output_plugin("b", "[\"y\"]")];
    for m in ["contentlocationerror", "404error", "contenttypeerror"] {
        assert!(is_bypass_marker(&m.to_string()));
        match begin(m.to_string(), plugins.clone()) {
            Err(c) => assert_eq!(c, m),
            Ok(_) => panic!("marker went into the pipeline"),
        }
    }
    assert!(!is_bypass_marker(&"404".to_string()));
    assert!(begin("<p>hi</p>".to_string(), plugins).is_ok());
}

#[test]
fn escape_json_escapes_quotes_backslashes_and_controls() {
    let s = "a\"b\\c\nd\re\tf<é>".to_string();
    assert_eq!(escape_json(&s), "a\\\"b\\\\c\\nd\\re\\tf<é>");
    assert_eq!(escape_json(&String::new()), "");
}

#[test]
fn body_placeholder_is_replaced_by_content_verbatim() {
    let content = "<p class=\"x\">a\\b</p>".to_string();
    let template = "[\"returndirect\", \"{{input}}\"]".to_string();
    let args = hook_command(HookPoint::Body, &template, &content).0;
    assert_eq!(args, vec!["returndirect".to_string(), content.clone()]);
    let args = hook_command(HookPoint::Output, &"[\"a\", \"{{input}}\", \"b\"]".to_string(), &content).0;
    assert_eq!(args, vec!["a".to_string(), content, "b".to_string()]);
}

#[test]
fn head_input_is_the_escaped_head() {
    let head = "<title>\"T\"</title>".to_string();
    let template = "[\"returndirect\", \"{{{input}}}\"]".to_string();
    let args = hook_command(HookPoint::Head, &template, &head).0;
    assert_eq!(args, vec!["returndirect".to_string(), head]);
}

#[test]
fn render_failure_falls_back_to_prefixed_content() {
    let content = "body".to_string();
    let args = hook_command(HookPoint::Body, &"{{#if}}".to_string(), &content).0;
    assert_eq!(args, strings(&["returndirect", "fbody"]));
    assert_eq!(args_from_rendered(HookPoint::Head, None, &content), strings(&["returndirect", "fbody"]));
}

#[test]
fn unreadable_command_list_falls_back_to_content() {
    let content = "a\"b".to_string();
    let args = hook_command(HookPoint::Body, &"not json".to_string(), &content).0;
    assert_eq!(args, strings(&["returndirect", "a\"b"]));
    let args = args_from_rendered(HookPoint::Head, Some("{\"a\":1}".to_string()), &content);
    assert_eq!(args, strings(&["returndirect", "a\\\"b"]));
    assert_eq!(args_from_parsed(HookPoint::Output, None, &content), strings(&["returndirect", "a\"b"]));
}

#[test]
fn substitution_replaces_only_the_point_placeholder() {
    let cur = "C".to_string();
    let cmds = strings(&["x", BODY_MARK, OUTPUT_MARK]);
    assert_eq!(substitute_commands(cmds.clone(), HookPoint::Body, &cur), strings(&["x", "C", OUTPUT_MARK]));
    assert_eq!(substitute_commands(cmds.clone(), HookPoint::Output, &cur), strings(&["x", BODY_MARK, "C"]));
    assert_eq!(substitute_commands(cmds.clone(), HookPoint::Head, &cur), cmds);
    let parsed = args_from_rendered(HookPoint::Body, Some(format!("[\"go\", \"{}\"]", BODY_MARK)), &cur);
    assert_eq!(parsed, strings(&["go", "C"]));
}

#[test]
fn unsupported_kind_is_skipped_with_content_unchanged() {
    let plugins = vec![body_plugin("lua-plugin", "lua", "[\"returndirect\", \"{{input}}\"]")];
    let mut chain = HookRun::new(HookPoint::Body, plugins, "<p>x</p>".to_string());
    match chain.next_action() {
        HookAction::Unsupported { plugin, kind } => {
            assert_eq!(plugin, "lua-plugin");
            assert_eq!(kind, "lua");
        }
        other => panic!("unexpected {:?}", other),
    }
    assert_eq!(chain.content, "<p>x</p>");
    match chain.next_action() {
        HookAction::Finished(c) => assert_eq!(c, "<p>x</p>"),
        other => panic!("unexpected {:?}", other),
    }
    assert_eq!(runner_kind(&"lua".to_string()), RunnerKind::Unsupported);
    assert_eq!(runner_kind(&"js".to_string()), RunnerKind::Js);
}

#[test]
fn js_hook_runs_in_the_plugin_directory() {
    let plugins = vec![
        plugin("idle", no_runners()),
        body_plugin("up", "js", "[\"upper.js\", \"{{input}}\"]"),
    ];
    let mut chain = HookRun::new(HookPoint::Body, plugins, "hi".to_string());
    match chain.next_action() {
        HookAction::Run { args, dir, .. } => {
            assert_eq!(args, strings(&["upper.js", "hi"]));
            assert_eq!(dir, "./plugins/up/");
        }
        other => panic!("unexpected {:?}", other),
    }
    assert_eq!(chain.index, 1);
    chain.feed("HI".to_string());
    match chain.next_action() {
        HookAction::Finished(c) => assert_eq!(c, "HI"),
        other => panic!("unexpected {:?}", other),
    }
}

#[test]
fn output_hooks_apply_in_plugin_order() {
    let plugins = vec![
        output_plugin("A", "[\"append\", \"{{input}}\", \"A\"]"),
        output_plugin("B", "[\"append\", \"{{input}}\", \"B\"]"),
    ];
    let chain = HookRun::new(HookPoint::Output, plugins, "<html></html>".to_string());
    let (out, calls) = drive(chain, &|args, _dir| format!("{}{}", args[1], args[2]));
    assert_eq!(calls, 2);
    assert_eq!(out, "<html></html>AB");
    assert!(out.contains("AB"));
}

#[test]
fn missing_page_returns_body_unchanged() {
    let records = vec![record("p1", "post", None)];
    assert_eq!(page_or_body(&records, &"nope".to_string(), "B".to_string()), Err("B".to_string()));
    assert_eq!(page_or_body(&records, &"p1".to_string(), "B".to_string()), Ok(0));
    let twice = vec![record("a", "page", None), record("b", "page", None), record("b", "post", None)];
    assert_eq!(find_page(&twice, &"b".to_string()), Some(1));
    assert_eq!(find_page(&vec![], &"b".to_string()), None);
}

#[test]
fn mode_and_template_selection() {
    assert_eq!(mode_to_load(&record("p", "post", None)), "default");
    assert_eq!(mode_to_load(&record("p", "post", Some("dark"))), "dark");
    let m = mode("postt", "paget");
    assert_eq!(stylesheet_path(&m), "./cynthiaFiles/styles/s.css");
    assert_eq!(template_path(&record("p", "post", None), &m), "./cynthiaFiles/templates/postt.handlebars");
    assert_eq!(template_path(&record("p", "page", None), &m), "./cynthiaFiles/templates/paget.handlebars");
}

#[test]
fn page_template_sees_head_content_and_menus() {
    let r = render_page(
        &"{{{head}}}|{{{content}}}|{{{menu1}}}|{{{menu2}}}|{{infoshow}}.".to_string(),
        "H".to_string(),
        "<b>C</b>".to_string(),
        menus(),
    );
    assert_eq!(r, Some("H|<b>C</b>|<nav>1</nav>|<nav>2</nav>|.".to_string()));
    assert_eq!(render_page(&"{{#each}}".to_string(), String::new(), String::new(), menus()), None);
}

#[test]
fn page_meta_document_and_banner_text() {
    let h = with_page_meta("<h>".to_string(), &"{}".to_string());
    assert_eq!(h, "<h><script>\n\t\tconst pagemetainfo = JSON.parse(\\`{}\\`);\n\t</script>");
    assert_eq!(wrap_document(&"R".to_string(), &"J".to_string()), "<html>\nR\n\n\n\n<script>J</script>\n\n</html>");
    let b = with_banner(&"D".to_string(), &"1.2.3".to_string());
    assert!(b.starts_with("<!--\n\nGenerated and hosted through Cynthia v1.2.3, by Strawmelonjuice."));
    assert!(b.ends_with("-->\n\n\n\n\rD"));
    assert_eq!(nonestring(), "none");
}

#[test]
fn no_plugins_gives_the_plain_rendered_page() {
    let rec = record("p1", "post", None);
    let m = mode("post", "page");
    let body = match begin("<p>hi</p>".to_string(), vec![]) {
        Ok(chain) => drive(chain, &|_, _| panic!("no hook should run")).0,
        Err(_) => panic!("not a marker"),
    };
    assert_eq!(body, "<p>hi</p>");
    let head = drive(head_hooks(&"body{}".to_string(), &rec, &m, vec![]), &|_, _| panic!("no hook")).0;
    let source = "<head>{{{head}}}</head><div>{{{content}}}</div>{{{menu1}}}{{{menu2}}}".to_string();
    let js = "client()".to_string();
    let chain = output_hooks(head.clone(), &rec, body.clone(), menus(), &source, &js, vec![]).unwrap();
    let doc = drive(chain, &|_, _| panic!("no hook")).0;
    let rendered = render_page(&source, with_page_meta(head, &rec.meta_json), body, menus()).unwrap();
    assert_eq!(doc, wrap_document(&rendered, &js));
}

#[test]
fn end_to_end_post_page() {
    let records = vec![record("p1", "post", None)];
    let m = mode("post", "page");
    let body = match begin("<p>hi</p>".to_string(), vec![]) {
        Ok(chain) => drive(chain, &|_, _| String::new()).0,
        Err(_) => panic!("not a marker"),
    };
    let i = page_or_body(&records, &"p1".to_string(), body.clone()).unwrap();
    let rec = &records[i];
    assert_eq!(mode_to_load(rec), "default");
    assert_eq!(template_path(rec, &m), "./cynthiaFiles/templates/post.handlebars");
    let head = drive(head_hooks(&"body{}".to_string(), rec, &m, vec![]), &|_, _| String::new()).0;
    assert!(head.contains("<style>\n\tbody{}\n\t</style>"));
    assert!(head.contains("<title>T &ndash; Site</title>"));
    let chain = output_hooks(head, rec, body, menus(), &"<div>{{{content}}}</div>".to_string(), &"cjs()".to_string(), vec![]).unwrap();
    let doc = drive(chain, &|_, _| String::new()).0;
    let page = with_banner(&doc, &"3.0.0".to_string());
    let banner = page.find("Generated and hosted through Cynthia v3.0.0").unwrap();
    let div = page.find("<div><p>hi</p></div>").unwrap();
    let script = page.find("<script>cjs()</script>").unwrap();
    assert!(banner < div && div < script);
    assert!(page.ends_with("</html>"));
}

#[test]
fn hook_lookup_by_point() {
    let mut r = no_runners();
    r.modify_head_html = Some(ModifyHeadHtml { type_field: "js".to_string(), execute: "t".to_string() });
    let p = plugin("h", r);
    assert_eq!(hook_for(&p, HookPoint::Head), Some(("js".to_string(), "t".to_string())));
    assert_eq!(hook_for(&p, HookPoint::Body), None);
    assert_eq!(hook_for(&p, HookPoint::Output), None);
}
