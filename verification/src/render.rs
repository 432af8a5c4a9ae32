use vstd::prelude::*;
use vstd::string::StringExecFns;
use crate::config::{ConfigEntry, ConfigEntryView, Variant, VariantView, config_view};
use crate::errors::ToolError;
use crate::template::{TemplateSet, TemplateSetView, rendered, render_template_raw, check_templates, hb_template_ok};

verus! {

/// One output file the render loop will write: the directory that must
/// exist first, the file's full path, and its rendered content.
pub struct PlannedFile {
    pub dir: String,
    pub path: String,
    pub content: String,
}

/// The mathematical content of a `PlannedFile`.
pub ghost struct PlannedFileView {
    pub dir: Seq<char>,
    pub path: Seq<char>,
    pub content: Seq<char>,
}

impl View for PlannedFile {
    type V = PlannedFileView;

    open spec fn view(&self) -> PlannedFileView {
        PlannedFileView { dir: self.dir@, path: self.path@, content: self.content@ }
    }
}

/// The views of a planned file list.
pub open spec fn files_view(fs: Seq<PlannedFile>) -> Seq<PlannedFileView> {
    fs.map(|i: int, f: PlannedFile| f@)
}

/// A variant's output directory: a sibling of the working directory, named
/// exactly after the variant key.
pub open spec fn dir_view(key: Seq<char>) -> Seq<char> {
    "../"@ + key
}

/// The full path of one rendered file inside a variant's output directory.
pub open spec fn path_view(key: Seq<char>, file: Seq<char>) -> Seq<char> {
    "../"@ + key + "/"@ + file
}

/// Build a variant's output directory path.
pub fn package_dir(key: &String) -> (r: String)
    ensures
        r@ == dir_view(key@),
{
    String::from_str("../").concat(key.as_str())
}

/// Build the output path of one file of one variant.
pub fn output_path(key: &String, file: &String) -> (r: String)
    ensures
        r@ == path_view(key@, file@),
{
    String::from_str("../").concat(key.as_str()).concat("/").concat(file.as_str())
}

/// The three files one variant yields, in the fixed order build recipe,
/// description, packing list — or the logical name of the first template the
/// engine refuses to render for it.
pub open spec fn entry_files(key: Seq<char>, v: VariantView, ts: TemplateSetView) -> Result<
    Seq<PlannedFileView>,
    Seq<char>,
> {
    if rendered(ts.makefile, v) is None {
        Err("Makefile"@)
    } else if rendered(ts.descr, v) is None {
        Err("DESCR"@)
    } else if rendered(ts.plist, v) is None {
        Err("PLIST"@)
    } else {
        Ok(
            seq![
                PlannedFileView {
                    dir: dir_view(key),
                    path: path_view(key, "Makefile"@),
                    content: rendered(ts.makefile, v)->Some_0,
                },
                PlannedFileView {
                    dir: dir_view(key),
                    path: path_view(key, "DESCR"@),
                    content: rendered(ts.descr, v)->Some_0,
                },
                PlannedFileView {
                    dir: dir_view(key),
                    path: path_view(key, "PLIST"@),
                    content: rendered(ts.plist, v)->Some_0,
                },
            ],
        )
    }
}

/// The whole render plan: every variant's three files, variants in table
/// order — or the key and template name of the first failing render. One
/// failure aborts the whole plan; nothing after it is kept.
pub open spec fn plan_files(cfg: Seq<ConfigEntryView>, ts: TemplateSetView) -> Result<
    Seq<PlannedFileView>,
    (Seq<char>, Seq<char>),
>
    decreases cfg.len(),
{
    if cfg.len() == 0 {
        Ok(Seq::empty())
    } else {
        match entry_files(cfg[0].key, cfg[0].record, ts) {
            Err(f) => Err((cfg[0].key, f)),
            Ok(fs) => match plan_files(cfg.skip(1), ts) {
                Err(e) => Err(e),
                Ok(rest) => Ok(fs + rest),
            },
        }
    }
}

/// Render the three templates for one variant.
fn render_entry(key: &String, v: &Variant, ts: &TemplateSet) -> (r: Result<
    Vec<PlannedFile>,
    ToolError,
>)
    ensures
        r is Ok <==> entry_files(key@, v@, ts@) is Ok,
        r is Ok ==> files_view(r->Ok_0@) == entry_files(key@, v@, ts@)->Ok_0,
        r is Err ==> entry_files(key@, v@, ts@) is Err,
        r is Err ==> (r->Err_0 matches ToolError::RenderFailed { key: k, file: f } && k@ == key@
            && f@ == entry_files(key@, v@, ts@)->Err_0),
{
    let dir = package_dir(key);
    let makefile = match render_template_raw(ts.makefile.as_str(), v) {
        Some(c) => c,
        None => {
            return Err(
                ToolError::RenderFailed { key: key.clone(), file: String::from_str("Makefile") },
            );
        },
    };
    let descr = match render_template_raw(ts.descr.as_str(), v) {
        Some(c) => c,
        None => {
            return Err(
                ToolError::RenderFailed { key: key.clone(), file: String::from_str("DESCR") },
            );
        },
    };
    let plist = match render_template_raw(ts.plist.as_str(), v) {
        Some(c) => c,
        None => {
            return Err(
                ToolError::RenderFailed { key: key.clone(), file: String::from_str("PLIST") },
            );
        },
    };
    let mut out: Vec<PlannedFile> = Vec::new();
    out.push(
        PlannedFile {
            dir: dir.clone(),
            path: output_path(key, &String::from_str("Makefile")),
            content: makefile,
        },
    );
    out.push(
        PlannedFile {
            dir: dir.clone(),
            path: output_path(key, &String::from_str("DESCR")),
            content: descr,
        },
    );
    out.push(
        PlannedFile {
            dir,
            path: output_path(key, &String::from_str("PLIST")),
            content: plist,
        },
    );
    proof {
        assert(files_view(out@) =~= entry_files(key@, v@, ts@)->Ok_0);
    }
    Ok(out)
}

/// Build the whole render plan for a validated configuration: check all
/// three templates first, then render every variant's three files in order.
/// The first rejected template, or the first failing render, aborts the run
/// with its exact error; on success the plan holds exactly three files per
/// variant.
pub fn plan_render(cfg: &Vec<ConfigEntry>, ts: &TemplateSet) -> (r: Result<
    Vec<PlannedFile>,
    ToolError,
>)
    ensures
        r is Ok <==> (hb_template_ok(ts@.makefile) && hb_template_ok(ts@.descr)
            && hb_template_ok(ts@.plist) && plan_files(config_view(cfg@), ts@) is Ok),
        r is Ok ==> files_view(r->Ok_0@) == plan_files(config_view(cfg@), ts@)->Ok_0,
        r is Ok ==> r->Ok_0@.len() == 3 * cfg@.len(),
        !(hb_template_ok(ts@.makefile) && hb_template_ok(ts@.descr) && hb_template_ok(ts@.plist))
            ==> (r->Err_0 matches ToolError::TemplateSyntax(n) && ({
            ||| (!hb_template_ok(ts@.makefile) && n@ == "Makefile"@)
            ||| (hb_template_ok(ts@.makefile) && !hb_template_ok(ts@.descr) && n@ == "DESCR"@)
            ||| (hb_template_ok(ts@.makefile) && hb_template_ok(ts@.descr) && !hb_template_ok(
                ts@.plist,
            ) && n@ == "PLIST"@)
        })),
        (hb_template_ok(ts@.makefile) && hb_template_ok(ts@.descr) && hb_template_ok(ts@.plist)
            && plan_files(config_view(cfg@), ts@) is Err) ==> (r->Err_0
            matches ToolError::RenderFailed { key: k, file: f } && plan_files(
            config_view(cfg@),
            ts@,
        ) matches Err(e) && k@ == e.0 && f@ == e.1),
{
    let ghost cfgv = config_view(cfg@);
    if let Err(e) = check_templates(ts) {
        return Err(e);
    }
    let mut out: Vec<PlannedFile> = Vec::new();
    let mut i: usize = 0;
    proof {
        assert(cfgv.skip(0) =~= cfgv);
    }
    while i < cfg.len()
        invariant
            0 <= i <= cfg@.len(),
            cfgv == config_view(cfg@),
            hb_template_ok(ts@.makefile) && hb_template_ok(ts@.descr) && hb_template_ok(ts@.plist),
            out@.len() == 3 * i,
            plan_files(cfgv, ts@) is Ok <==> plan_files(cfgv.skip(i as int), ts@) is Ok,
            plan_files(cfgv, ts@) is Ok ==> plan_files(cfgv, ts@)->Ok_0 == files_view(out@)
                + plan_files(cfgv.skip(i as int), ts@)->Ok_0,
            plan_files(cfgv.skip(i as int), ts@) is Err ==> plan_files(cfgv, ts@)->Err_0
                == plan_files(cfgv.skip(i as int), ts@)->Err_0,
        decreases cfg@.len() - i,
    {
        let entry = &cfg[i];
        proof {
            assert(cfgv.skip(i as int)[0] == cfgv[i as int]);
            assert(cfgv[i as int] == entry@);
        }
        match render_entry(&entry.key, &entry.record, ts) {
            Ok(mut fs) => {
                proof {
                    assert(cfgv.skip(i as int).skip(1) =~= cfgv.skip(i as int + 1));
                    assert(files_view(out@ + fs@) =~= files_view(out@) + files_view(fs@));
                }
                out.append(&mut fs);
            },
            Err(e) => {
                return Err(e);
            },
        }
        i = i + 1;
    }
    proof {
        assert(cfgv.skip(i as int) =~= Seq::<ConfigEntryView>::empty());
        assert(plan_files(cfgv, ts@)->Ok_0 =~= files_view(out@));
    }
    Ok(out)
}

/// Every variant key resolves to exactly one output directory: the directory
/// name is the key itself behind the fixed parent prefix, so two keys share a
/// directory only by being the same key.
pub proof fn lemma_dir_injective(k1: Seq<char>, k2: Seq<char>)
    requires
        dir_view(k1) == dir_view(k2),
    ensures
        k1 == k2,
{
    assert(("../"@ + k1).skip("../"@.len() as int) =~= k1);
    assert(("../"@ + k2).skip("../"@.len() as int) =~= k2);
}

/// Within one variant's directory, each logical name addresses its own file:
/// a render for one template name never lands on another's output.
pub proof fn lemma_path_injective(key: Seq<char>, f1: Seq<char>, f2: Seq<char>)
    requires
        path_view(key, f1) == path_view(key, f2),
    ensures
        f1 == f2,
{
    let stem = "../"@ + key + "/"@;
    assert(path_view(key, f1) =~= stem + f1);
    assert(path_view(key, f2) =~= stem + f2);
    assert((stem + f1).skip(stem.len() as int) =~= f1);
    assert((stem + f2).skip(stem.len() as int) =~= f2);
}

/// The progress line reported after one file is written: `Rendered <path>`.
pub fn rendered_line(path: &String) -> (r: String)
    ensures
        r@ == "Rendered "@ + path@,
{
    String::from_str("Rendered ").concat(path.as_str())
}

/// Every well-formed configuration table with `n` entries plans exactly
/// `3 * n` output files — one per variant and logical template name, never
/// skipping a file — with the exact directory, path and rendered content of
/// each. `slot(plan, i)` is the run of three files belonging to the `i`-th
/// variant.
pub open spec fn slot(plan: Seq<PlannedFileView>, i: int) -> Seq<PlannedFileView> {
    plan.subrange(3 * i, 3 * i + 3)
}

/// The shape of a successful plan: three files per entry, each entry's run
/// of three being exactly what its record renders to.
pub proof fn lemma_plan_shape(cfg: Seq<ConfigEntryView>, ts: TemplateSetView)
    requires
        plan_files(cfg, ts) is Ok,
    ensures
        plan_files(cfg, ts)->Ok_0.len() == 3 * cfg.len(),
        forall|i: int|
            0 <= i < cfg.len() ==> #[trigger] slot(plan_files(cfg, ts)->Ok_0, i) == entry_files(
                cfg[i].key,
                cfg[i].record,
                ts,
            )->Ok_0,
    decreases cfg.len(),
{
    if cfg.len() == 0 {
    } else {
        let fs = entry_files(cfg[0].key, cfg[0].record, ts)->Ok_0;
        let rest = plan_files(cfg.skip(1), ts)->Ok_0;
        let plan = plan_files(cfg, ts)->Ok_0;
        lemma_plan_shape(cfg.skip(1), ts);
        assert(plan == fs + rest);
        assert forall|i: int| 0 <= i < cfg.len() implies #[trigger] slot(plan, i) == entry_files(
            cfg[i].key,
            cfg[i].record,
            ts,
        )->Ok_0 by {
            if i == 0 {
                assert(slot(plan, 0) =~= fs);
            } else {
                assert(slot(plan, i) =~= slot(rest, i - 1));
                assert(slot(rest, i - 1) == entry_files(
                    cfg.skip(1)[i - 1].key,
                    cfg.skip(1)[i - 1].record,
                    ts,
                )->Ok_0);
                assert(cfg.skip(1)[i - 1] == cfg[i]);
            }
        }
    }
}

/// Rendering is deterministic: a render plan is a function of the
/// configuration's contents and the templates' text alone, so two runs over
/// the same configuration and templates plan byte-identical files — there is
/// no timestamp, ordering artifact, or other hidden input.
pub proof fn lemma_plan_deterministic(
    cfg1: Seq<ConfigEntryView>,
    ts1: TemplateSetView,
    cfg2: Seq<ConfigEntryView>,
    ts2: TemplateSetView,
)
    requires
        cfg1 == cfg2,
        ts1 == ts2,
    ensures
        plan_files(cfg1, ts1) == plan_files(cfg2, ts2),
{
}

} // verus!
