use vstd::prelude::*;

use crate::codec::{has_partial_call, holds_partial_call, pairs_view, render_template, rendered_template};
use crate::dispatch::HookRun;
use crate::plugin::{HookPoint, PluginMeta};

verus! {

/// The two pre-rendered menus of a page.
#[derive(Clone, Debug)]
pub struct Menulist {
    pub menu1: String,
    pub menu2: String,
}

/// One link of a menu.
#[derive(Clone, Debug)]
pub struct Menulink {
    pub name: String,
    pub href: String,
}

/// The menu a mode has when its configuration lists none.
pub fn empty_menulist() -> (r: Vec<Menulink>)
    ensures
        r@.len() == 0,
{
    Vec::new()
}

/// The template files of a mode, for posts and for pages.
#[derive(Clone, Debug)]
pub struct Handlebar {
    pub post: String,
    pub page: String,
}

/// A presentation mode: site name, stylesheet and templates.
#[derive(Clone, Debug)]
pub struct Config {
    pub sitename: String,
    pub stylefile: String,
    pub handlebar: Handlebar,
    pub menulinks: Vec<Menulink>,
    pub menu2links: Vec<Menulink>,
}

/// A page's metadata. `meta_json` is the record in its JSON form, with the mode
/// filled in, as it is handed to the page's scripts.
#[derive(Clone, Debug)]
pub struct PageRecord {
    pub id: String,
    pub title: String,
    pub kind: String,
    pub mode: Option<String>,
    pub meta_json: String,
}

pub open spec fn bypass_marker(content: Seq<char>) -> bool {
    content == "contentlocationerror"@ || content == "404error"@ || content == "contenttypeerror"@
}

/// Whether `content` is one of the error markers that skip the pipeline.
pub fn is_bypass_marker(content: &String) -> (r: bool)
    ensures
        r == bypass_marker(content@),
{
    *content == String::from_str("contentlocationerror") || *content == String::from_str("404error")
        || *content == String::from_str("contenttypeerror")
}

/// Starts a render: an error marker is handed back as it is, whatever the plugins;
/// any other content goes to the body hooks.
pub fn begin(content: String, plugins: Vec<PluginMeta>) -> (r: Result<HookRun, String>)
    ensures
        bypass_marker(content@) ==> r == Err::<HookRun, String>(content),
        !bypass_marker(content@) ==> (r matches Ok(run) && run.wf() && run.point == HookPoint::Body
            && run.plugins@ == plugins@ && run.index == 0 && run.content == content
            && !run.awaiting),
{
    if is_bypass_marker(&content) {
        Err(content)
    } else {
        Ok(HookRun::new(HookPoint::Body, plugins, content))
    }
}

/// The position of the first record with identifier `pgid`.
pub fn find_page(records: &Vec<PageRecord>, pgid: &String) -> (r: Option<usize>)
    ensures
        match r {
            Some(i) => i < records@.len() && records@[i as int].id@ == pgid@ && forall|j: int|
                0 <= j < i ==> (#[trigger] records@[j]).id@ != pgid@,
            None => forall|j: int| 0 <= j < records@.len() ==> (#[trigger] records@[j]).id@ != pgid@,
        },
{
    let mut i: usize = 0;
    while i < records.len()
        invariant
            i <= records@.len(),
            forall|j: int| 0 <= j < i ==> (#[trigger] records@[j]).id@ != pgid@,
        decreases records.len() - i,
    {
        if records[i].id == *pgid {
            return Some(i);
        }
        i = i + 1;
    }
    None
}

/// After the body hooks: the record of the page, or, where no record has its
/// identifier, the body itself as the final answer.
pub fn page_or_body(records: &Vec<PageRecord>, pgid: &String, body: String) -> (r: Result<
    usize,
    String,
>)
    ensures
        (forall|j: int| 0 <= j < records@.len() ==> (#[trigger] records@[j]).id@ != pgid@) ==> r
            == Err::<usize, String>(body),
        (exists|j: int| 0 <= j < records@.len() && (#[trigger] records@[j]).id@ == pgid@) ==> (r matches Ok(
            i,
        ) && i < records@.len() && records@[i as int].id@ == pgid@ && forall|j: int|
            0 <= j < i ==> (#[trigger] records@[j]).id@ != pgid@),
{
    match find_page(records, pgid) {
        Some(i) => Ok(i),
        None => Err(body),
    }
}

pub open spec fn mode_name_of(record: PageRecord) -> Seq<char> {
    match record.mode {
        Some(m) => m@,
        None => "default"@,
    }
}

/// The mode a page is shown in: its own, else `default`.
pub fn mode_to_load(record: &PageRecord) -> (r: String)
    ensures
        r@ == mode_name_of(*record),
{
    match &record.mode {
        Some(m) => m.clone(),
        None => String::from_str("default"),
    }
}

/// The stylesheet file of a mode.
pub fn stylesheet_path(mode: &Config) -> (r: String)
    ensures
        r@ == "./cynthiaFiles/styles/"@ + mode.stylefile@,
{
    let mut r = String::from_str("./cynthiaFiles/styles/");
    r.append(mode.stylefile.as_str());
    r
}

pub open spec fn template_name_of(record: PageRecord, mode: Config) -> Seq<char> {
    if record.kind@ == "post"@ {
        mode.handlebar.post@
    } else {
        mode.handlebar.page@
    }
}

/// The template file for a page: the mode's post template for posts, its page
/// template for anything else.
pub fn template_path(record: &PageRecord, mode: &Config) -> (r: String)
    ensures
        r@ == "./cynthiaFiles/templates/"@ + template_name_of(*record, *mode) + ".handlebars"@,
{
    let mut r = String::from_str("./cynthiaFiles/templates/");
    if record.kind == String::from_str("post") {
        r.append(mode.handlebar.post.as_str());
    } else {
        r.append(mode.handlebar.page.as_str());
    }
    r.append(".handlebars");
    r
}

pub open spec fn head_text(stylesheet: Seq<char>, title: Seq<char>, sitename: Seq<char>) -> Seq<
    char,
> {
    "\n            <style>\n\t"@ + stylesheet + "\n\t</style>\n\t<script src=\"/jquery/jquery.min.js\"></script>\n\t<title>"@
        + title + " &ndash; "@ + sitename + "</title>\n\t"@
}

/// The head before any hook: the inlined stylesheet, the client library and the title.
pub fn initial_head(stylesheet: &String, title: &String, sitename: &String) -> (r: String)
    ensures
        r@ == head_text(stylesheet@, title@, sitename@),
{
    let mut r = String::from_str("\n            <style>\n\t");
    r.append(stylesheet.as_str());
    r.append("\n\t</style>\n\t<script src=\"/jquery/jquery.min.js\"></script>\n\t<title>");
    r.append(title.as_str());
    r.append(" &ndash; ");
    r.append(sitename.as_str());
    r.append("</title>\n\t");
    r
}

/// The head hooks of a page, starting from its initial head.
pub fn head_hooks(stylesheet: &String, record: &PageRecord, mode: &Config, plugins: Vec<
    PluginMeta,
>) -> (r: HookRun)
    ensures
        r.wf(),
        r.point == HookPoint::Head,
        r.plugins@ == plugins@,
        r.index == 0,
        !r.awaiting,
        r.content@ == head_text(stylesheet@, record.title@, mode.sitename@),
{
    HookRun::new(HookPoint::Head, plugins, initial_head(stylesheet, &record.title, &mode.sitename))
}

pub open spec fn meta_script(head: Seq<char>, meta_json: Seq<char>) -> Seq<char> {
    head + "<script>\n\t\tconst pagemetainfo = JSON.parse(\\`"@ + meta_json + "\\`);\n\t</script>"@
}

/// The head with the page record appended as a script global.
pub fn with_page_meta(head: String, meta_json: &String) -> (r: String)
    ensures
        r@ == meta_script(head@, meta_json@),
{
    let mut r = head;
    r.append("<script>\n\t\tconst pagemetainfo = JSON.parse(\\`");
    r.append(meta_json.as_str());
    r.append("\\`);\n\t</script>");
    r
}

/// The variables a page template is rendered with.
pub open spec fn page_context(head: Seq<char>, body: Seq<char>, menu1: Seq<char>, menu2: Seq<char>) -> Seq<
    (Seq<char>, Seq<char>),
> {
    seq![
        ("head"@, head),
        ("content"@, body),
        ("menu1"@, menu1),
        ("menu2"@, menu2),
        ("infoshow"@, Seq::<char>::empty()),
    ]
}

/// Renders a page template with the head, the body and the menus; `None` where it
/// does not render or calls a partial.
pub fn render_page(source: &String, head: String, body: String, menus: Menulist) -> (r: Option<
    String,
>)
    ensures
        r matches Some(s) ==> !has_partial_call(source@) && s@ == rendered_template(
            source@,
            page_context(head@, body@, menus.menu1@, menus.menu2@),
        ),
{
    if holds_partial_call(source) {
        return None;
    }
    let ghost g = page_context(head@, body@, menus.menu1@, menus.menu2@);
    let context = vec![
        (String::from_str("head"), head),
        (String::from_str("content"), body),
        (String::from_str("menu1"), menus.menu1),
        (String::from_str("menu2"), menus.menu2),
        (String::from_str("infoshow"), String::new()),
    ];
    assert(pairs_view(context@) =~= g);
    render_template(source, &context)
}

pub open spec fn document_text(rendered: Seq<char>, clientjs: Seq<char>) -> Seq<char> {
    "<html>\n"@ + rendered + "\n\n\n\n<script>"@ + clientjs + "</script>\n\n</html>"@
}

/// The rendered template and the client script as one document.
pub fn wrap_document(rendered: &String, clientjs: &String) -> (r: String)
    ensures
        r@ == document_text(rendered@, clientjs@),
{
    let mut r = String::from_str("<html>\n");
    r.append(rendered.as_str());
    r.append("\n\n\n\n<script>");
    r.append(clientjs.as_str());
    r.append("</script>\n\n</html>");
    r
}

/// The page document before the output hooks: the head with the record's
/// metadata, the template rendered over it, and the client script.
pub open spec fn page_document(
    source: Seq<char>,
    head: Seq<char>,
    meta_json: Seq<char>,
    body: Seq<char>,
    menus: Menulist,
    clientjs: Seq<char>,
) -> Seq<char> {
    document_text(
        rendered_template(
            source,
            page_context(meta_script(head, meta_json), body, menus.menu1@, menus.menu2@),
        ),
        clientjs,
    )
}

/// The output hooks of a page, starting from its document; `None` where the
/// template does not render (always so for a template with a partial call).
pub fn output_hooks(
    head: String,
    record: &PageRecord,
    body: String,
    menus: Menulist,
    source: &String,
    clientjs: &String,
    plugins: Vec<PluginMeta>,
) -> (r: Option<HookRun>)
    ensures
        r matches Some(run) ==> !has_partial_call(source@) && run.wf() && run.point
            == HookPoint::Output && run.plugins@ == plugins@ && run.index == 0 && !run.awaiting
            && run.content@ == page_document(
            source@,
            head@,
            record.meta_json@,
            body@,
            menus,
            clientjs@,
        ),
{
    let head = with_page_meta(head, &record.meta_json);
    match render_page(source, head, body, menus) {
        Some(t) => Some(HookRun::new(HookPoint::Output, plugins, wrap_document(&t, clientjs))),
        None => None,
    }
}

pub open spec fn banner_text(doc: Seq<char>, version: Seq<char>) -> Seq<char> {
    "<!--\n\nGenerated and hosted through Cynthia v"@ + version
        + ", by Strawmelonjuice.\nAlso see:\t<https://github.com/strawmelonjuice/CynthiaCMS-JS/blob/main/README.MD>\n\n-->\n\n\n\n\r"@
        + doc
}

/// The finished page: the generator banner, then the document.
pub fn with_banner(doc: &String, version: &String) -> (r: String)
    ensures
        r@ == banner_text(doc@, version@),
{
    let mut r = String::from_str("<!--\n\nGenerated and hosted through Cynthia v");
    r.append(version.as_str());
    r.append(
        ", by Strawmelonjuice.\nAlso see:\t<https://github.com/strawmelonjuice/CynthiaCMS-JS/blob/main/README.MD>\n\n-->\n\n\n\n\r",
    );
    r.append(doc.as_str());
    r
}

} // verus!
