//! The catalog of starter templates and their plans.
use vstd::prelude::*;
use crate::plan::{FileUnit, PlanModel, plan_view, is_valid_plan};

pub mod flask;
pub mod mern;
pub mod nextjs;
pub mod react;
pub mod vue;
pub mod static_html;

verus! {

/// A template provider: one per supported stack.
#[derive(Debug, Clone, Copy, PartialEq, Eq, Structural)]
pub enum TemplateKind {
    Flask,
    Mern,
    NextJs,
    React,
    Vue,
    StaticHtml,
}

/// The catalog in listing order.
pub open spec fn catalog() -> Seq<TemplateKind> {
    seq![
        TemplateKind::Flask,
        TemplateKind::Mern,
        TemplateKind::NextJs,
        TemplateKind::React,
        TemplateKind::Vue,
        TemplateKind::StaticHtml,
    ]
}

/// The plan that a template provides.
pub open spec fn plan_of(kind: TemplateKind) -> PlanModel {
    match kind {
        TemplateKind::Flask => flask::plan_model(),
        TemplateKind::Mern => mern::plan_model(),
        TemplateKind::NextJs => nextjs::plan_model(),
        TemplateKind::React => react::plan_model(),
        TemplateKind::Vue => vue::plan_model(),
        TemplateKind::StaticHtml => static_html::plan_model(),
    }
}

pub open spec fn canonical_id_of(kind: TemplateKind) -> Seq<char> {
    match kind {
        TemplateKind::Flask => "flask-portfolio"@,
        TemplateKind::Mern => "mern-stack"@,
        TemplateKind::NextJs => "next.js"@,
        TemplateKind::React => "react-portfolio"@,
        TemplateKind::Vue => "vue-portfolio"@,
        TemplateKind::StaticHtml => "static-html"@,
    }
}

pub open spec fn short_id_of(kind: TemplateKind) -> Seq<char> {
    match kind {
        TemplateKind::Flask => "flask"@,
        TemplateKind::Mern => "mern"@,
        TemplateKind::NextJs => "nextjs"@,
        TemplateKind::React => "react"@,
        TemplateKind::Vue => "vue"@,
        TemplateKind::StaticHtml => "static"@,
    }
}

pub open spec fn display_name_of(kind: TemplateKind) -> Seq<char> {
    match kind {
        TemplateKind::Flask => "Flask Portfolio"@,
        TemplateKind::Mern => "MERN Stack"@,
        TemplateKind::NextJs => "Next.js App"@,
        TemplateKind::React => "React Portfolio"@,
        TemplateKind::Vue => "Vue Portfolio"@,
        TemplateKind::StaticHtml => "Static HTML"@,
    }
}

pub open spec fn description_of(kind: TemplateKind) -> Seq<char> {
    match kind {
        TemplateKind::Flask => "Python Flask-based portfolio website with modern UI"@,
        TemplateKind::Mern => "MongoDB, Express, React, Node.js full-stack application"@,
        TemplateKind::NextJs => "Modern React framework with SSR and routing"@,
        TemplateKind::React => "Single-page portfolio with React and Tailwind CSS"@,
        TemplateKind::Vue => "Vue.js 3 portfolio with Composition API"@,
        TemplateKind::StaticHtml => "Pure HTML/CSS/JS portfolio template"@,
    }
}

impl TemplateKind {
    /// The files of this template. Templates are static: the plan does not depend
    /// on the project it is written into, and every call returns the same plan.
    pub fn plan(&self) -> (r: Vec<FileUnit>)
        ensures
            plan_view(r@) == plan_of(*self),
    {
        match self {
            TemplateKind::Flask => flask::generate(),
            TemplateKind::Mern => mern::generate(),
            TemplateKind::NextJs => nextjs::generate(),
            TemplateKind::React => react::generate(),
            TemplateKind::Vue => vue::generate(),
            TemplateKind::StaticHtml => static_html::generate(),
        }
    }

    pub fn canonical_id(&self) -> (r: &'static str)
        ensures
            r@ == canonical_id_of(*self),
    {
        match self {
            TemplateKind::Flask => "flask-portfolio",
            TemplateKind::Mern => "mern-stack",
            TemplateKind::NextJs => "next.js",
            TemplateKind::React => "react-portfolio",
            TemplateKind::Vue => "vue-portfolio",
            TemplateKind::StaticHtml => "static-html",
        }
    }

    pub fn short_id(&self) -> (r: &'static str)
        ensures
            r@ == short_id_of(*self),
    {
        match self {
            TemplateKind::Flask => "flask",
            TemplateKind::Mern => "mern",
            TemplateKind::NextJs => "nextjs",
            TemplateKind::React => "react",
            TemplateKind::Vue => "vue",
            TemplateKind::StaticHtml => "static",
        }
    }

    pub fn display_name(&self) -> (r: &'static str)
        ensures
            r@ == display_name_of(*self),
    {
        match self {
            TemplateKind::Flask => "Flask Portfolio",
            TemplateKind::Mern => "MERN Stack",
            TemplateKind::NextJs => "Next.js App",
            TemplateKind::React => "React Portfolio",
            TemplateKind::Vue => "Vue Portfolio",
            TemplateKind::StaticHtml => "Static HTML",
        }
    }

    pub fn description(&self) -> (r: &'static str)
        ensures
            r@ == description_of(*self),
    {
        match self {
            TemplateKind::Flask => "Python Flask-based portfolio website with modern UI",
            TemplateKind::Mern => "MongoDB, Express, React, Node.js full-stack application",
            TemplateKind::NextJs => "Modern React framework with SSR and routing",
            TemplateKind::React => "Single-page portfolio with React and Tailwind CSS",
            TemplateKind::Vue => "Vue.js 3 portfolio with Composition API",
            TemplateKind::StaticHtml => "Pure HTML/CSS/JS portfolio template",
        }
    }
}

/// The kinds of the catalog, in listing order.
pub fn catalog_kinds() -> (r: Vec<TemplateKind>)
    ensures
        r@ == catalog(),
{
    let mut v: Vec<TemplateKind> = Vec::new();
    v.push(TemplateKind::Flask);
    v.push(TemplateKind::Mern);
    v.push(TemplateKind::NextJs);
    v.push(TemplateKind::React);
    v.push(TemplateKind::Vue);
    v.push(TemplateKind::StaticHtml);
    assert(v@ =~= catalog());
    v
}

/// The display names of the catalog, in listing order.
pub fn get_available_templates() -> (r: Vec<String>)
    ensures
        r@.map_values(|s: String| s@) == catalog().map_values(|k: TemplateKind| display_name_of(k)),
{
    let kinds = catalog_kinds();
    let mut names: Vec<String> = Vec::new();
    let mut i: usize = 0;
    while i < kinds.len()
        invariant
            kinds@ == catalog(),
            i <= kinds.len(),
            names@.len() == i,
            forall|j: int| 0 <= j < i ==> #[trigger] names@[j]@ == display_name_of(kinds@[j]),
        decreases kinds.len() - i,
    {
        names.push(kinds[i].display_name().to_owned());
        i = i + 1;
    }
    assert(names@.map_values(|s: String| s@) =~= catalog().map_values(
        |k: TemplateKind| display_name_of(k),
    ));
    names
}

/// Every template of the catalog provides a non-empty plan whose paths are safe
/// (not empty, not absolute, no `.` or `..` segment) and pairwise distinct.
pub proof fn lemma_every_plan_is_valid(kind: TemplateKind)
    ensures
        plan_of(kind).len() > 0,
        is_valid_plan(plan_of(kind)),
{
    match kind {
        TemplateKind::Flask => flask::lemma_plan_is_valid(),
        TemplateKind::Mern => mern::lemma_plan_is_valid(),
        TemplateKind::NextJs => nextjs::lemma_plan_is_valid(),
        TemplateKind::React => react::lemma_plan_is_valid(),
        TemplateKind::Vue => vue::lemma_plan_is_valid(),
        TemplateKind::StaticHtml => static_html::lemma_plan_is_valid(),
    }
}

/// Planning is deterministic: any two plans that a template hands out have the
/// same paths and the same contents, unit for unit.
pub proof fn lemma_plan_is_deterministic(kind: TemplateKind, a: Seq<FileUnit>, b: Seq<FileUnit>)
    requires
        plan_view(a) == plan_of(kind),
        plan_view(b) == plan_of(kind),
    ensures
        a.len() == b.len(),
        forall|i: int| 0 <= i < a.len() ==> #[trigger] a[i].path@ == b[i].path@ && a[i].content@ == b[i].content@,
{
    assert(a.len() == plan_view(a).len());
    assert(b.len() == plan_view(b).len());
    assert forall|i: int| 0 <= i < a.len() implies #[trigger] a[i].path@ == b[i].path@ && a[i].content@ == b[i].content@ by {
        assert(plan_view(a)[i] == a[i]@);
        assert(plan_view(b)[i] == b[i]@);
    }
}

} // verus!
