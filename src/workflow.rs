//! The workflow model: jobs and job templates, template inheritance and the
//! selection of the jobs that run on one host.

use vstd::prelude::*;
use crate::names::{
    name_before, name_lt, lemma_name_lt_asymmetric, lemma_name_lt_irreflexive,
    lemma_name_lt_total, lemma_name_lt_transitive,
};

verus! {

pub struct JobTemplate {
    pub script: Option<Vec<String>>,
}

pub struct Job {
    pub hosts: Vec<String>,
    pub script: Option<Vec<String>>,
    pub extends: Option<String>,
}

/// A workflow: jobs keyed by their unique names, and the templates they may extend.
pub struct WorkflowConfig {
    pub jobs: Vec<(String, Job)>,
    pub job_templates: Option<Vec<(String, JobTemplate)>>,
}

pub enum ConfigError {
    /// The workflow file could not be opened.
    NotFound(String),
    /// The workflow file is not a valid workflow.
    Parse(String),
    /// A job extends a template that the workflow does not define.
    MissingTemplate { job: String, template: String },
}

pub struct JobView {
    pub hosts: Seq<Seq<char>>,
    pub script: Option<Seq<Seq<char>>>,
    pub extends: Option<Seq<char>>,
}

pub type Script = Option<Seq<Seq<char>>>;

impl View for Job {
    type V = JobView;

    open spec fn view(&self) -> JobView {
        JobView {
            hosts: self.hosts.deep_view(),
            script: self.script.deep_view(),
            extends: self.extends.deep_view(),
        }
    }
}

/// The name and resolved job of each entry.
pub open spec fn jobs_view(v: Seq<(String, Job)>) -> Seq<(Seq<char>, JobView)> {
    v.map_values(|p: (String, Job)| (p.0@, p.1@))
}

impl WorkflowConfig {
    /// Job names are unique.
    pub open spec fn wf(&self) -> bool {
        forall|i: int, j: int|
            0 <= i < j < self.jobs.len() ==> #[trigger] self.jobs@[i].0@ != #[trigger] self.jobs@[j].0@
    }

    pub open spec fn templates_view(&self) -> Seq<(Seq<char>, Script)> {
        match self.job_templates {
            Some(ts) => ts@.map_values(|p: (String, JobTemplate)| (p.0@, p.1.script.deep_view())),
            None => Seq::empty(),
        }
    }

    /// The job at index `k`, with its template applied, if it runs on `host`.
    pub open spec fn selected(&self, host: Seq<char>, k: int) -> Option<(Seq<char>, JobView)> {
        match resolve_job(self.templates_view(), self.jobs@[k].1@) {
            Some(j) => if runs_on(j, host) {
                Some((self.jobs@[k].0@, j))
            } else {
                None
            },
            None => None,
        }
    }

    /// Some job of the workflow, resolved, is `x` and runs on `host`.
    pub open spec fn provides(&self, host: Seq<char>, x: (Seq<char>, JobView)) -> bool {
        self.provided_before(host, x, self.jobs.len() as int)
    }

    /// Some job at an index below `bound`, resolved, is `x` and runs on `host`.
    pub open spec fn provided_before(&self, host: Seq<char>, x: (Seq<char>, JobView), bound: int) -> bool {
        exists|k: int| 0 <= k < bound && #[trigger] self.selected(host, k) == Some(x)
    }

    pub open spec fn resolvable(&self, k: int) -> bool {
        resolve_job(self.templates_view(), self.jobs@[k].1@) is Some
    }

    /// The job at index `k` is the first whose template is missing.
    pub open spec fn first_unresolvable(&self, k: int) -> bool {
        &&& !self.resolvable(k)
        &&& forall|m: int| 0 <= m < k ==> #[trigger] self.resolvable(m)
    }

    /// `e` names the job at index `k` and the template it extends.
    pub open spec fn reports_missing(&self, k: int, e: ConfigError) -> bool {
        &&& e matches ConfigError::MissingTemplate { job, template }
        &&& job@ == self.jobs@[k].0@
        &&& Some(template@) == self.jobs@[k].1@.extends
    }
}

/// The script of the template named `name`, if there is one (the last of that name).
pub open spec fn template_script(ts: Seq<(Seq<char>, Script)>, name: Seq<char>) -> Option<Script>
    decreases ts.len(),
{
    if ts.len() == 0 {
        None
    } else if ts.last().0 == name {
        Some(ts.last().1)
    } else {
        template_script(ts.drop_last(), name)
    }
}

/// A job with its template applied: its own script if it has one, else the
/// template's; `None` where it extends a template that does not exist.
pub open spec fn resolve_job(ts: Seq<(Seq<char>, Script)>, job: JobView) -> Option<JobView> {
    match job.extends {
        None => Some(job),
        Some(t) => match template_script(ts, t) {
            None => None,
            Some(s) => Some(
                JobView {
                    hosts: job.hosts,
                    script: if job.script is Some {
                        job.script
                    } else {
                        s
                    },
                    extends: job.extends,
                },
            ),
        },
    }
}

pub open spec fn runs_on(job: JobView, host: Seq<char>) -> bool {
    job.hosts.contains(host)
}

pub open spec fn sorted_by_name(r: Seq<(Seq<char>, JobView)>) -> bool {
    forall|i: int, j: int| 0 <= i < j < r.len() ==> name_lt(#[trigger] r[i].0, #[trigger] r[j].0)
}

/// `r` is the list of the jobs of `cfg` that run on `host`, templates applied,
/// in ascending order of name.
pub open spec fn is_jobs_for_host(
    cfg: WorkflowConfig,
    host: Seq<char>,
    r: Seq<(Seq<char>, JobView)>,
) -> bool {
    &&& sorted_by_name(r)
    &&& forall|i: int| 0 <= i < r.len() ==> #[trigger] cfg.provides(host, r[i])
    &&& forall|k: int|
        0 <= k < cfg.jobs.len() && (#[trigger] cfg.selected(host, k)) is Some ==> r.contains(
            cfg.selected(host, k)->0,
        )
}

proof fn lemma_sorted_same_elements_equal(r1: Seq<(Seq<char>, JobView)>, r2: Seq<(Seq<char>, JobView)>)
    requires
        sorted_by_name(r1),
        sorted_by_name(r2),
        forall|x| r1.contains(x) <==> r2.contains(x),
    ensures
        r1 == r2,
    decreases r1.len(),
{
    if r1.len() == 0 {
        if r2.len() > 0 {
            assert(r2.contains(r2[0]));
        }
        assert(r1 =~= r2);
    } else {
        assert(r1.contains(r1[0]));
        let j = choose|j: int| 0 <= j < r2.len() && r2[j] == r1[0];
        assert(r2.contains(r2[0]));
        let i = choose|i: int| 0 <= i < r1.len() && r1[i] == r2[0];
        if j > 0 {
            if i > 0 {
                lemma_name_lt_asymmetric(r1[0].0, r2[0].0);
            } else {
                lemma_name_lt_irreflexive(r1[0].0);
            }
        }
        assert(r1[0] == r2[0]);
        let (t1, t2) = (r1.drop_first(), r2.drop_first());
        assert forall|x| t1.contains(x) <==> t2.contains(x) by {
            if t1.contains(x) {
                let a = choose|a: int| 0 <= a < t1.len() && t1[a] == x;
                assert(r1[a + 1] == x && r2.contains(x));
                lemma_name_lt_irreflexive(x.0);
                let b = choose|b: int| 0 <= b < r2.len() && r2[b] == x;
                assert(b != 0);
                assert(t2[b - 1] == x);
            }
            if t2.contains(x) {
                let a = choose|a: int| 0 <= a < t2.len() && t2[a] == x;
                assert(r2[a + 1] == x && r1.contains(x));
                lemma_name_lt_irreflexive(x.0);
                let b = choose|b: int| 0 <= b < r1.len() && r1[b] == x;
                assert(b != 0);
                assert(t1[b - 1] == x);
            }
        }
        lemma_sorted_same_elements_equal(t1, t2);
        assert(r1 =~= seq![r1[0]] + t1);
        assert(r2 =~= seq![r2[0]] + t2);
    }
}

/// Selecting the jobs for a host is deterministic: the contract of
/// `get_jobs_for_host` admits exactly one list, so two calls on the same
/// workflow and host give the same jobs in the same order.
pub proof fn lemma_jobs_for_host_deterministic(
    cfg: WorkflowConfig,
    host: Seq<char>,
    r1: Seq<(Seq<char>, JobView)>,
    r2: Seq<(Seq<char>, JobView)>,
)
    requires
        cfg.wf(),
        is_jobs_for_host(cfg, host, r1),
        is_jobs_for_host(cfg, host, r2),
    ensures
        r1 == r2,
{
    assert forall|x| r1.contains(x) <==> r2.contains(x) by {
        if r1.contains(x) {
            let i = choose|i: int| 0 <= i < r1.len() && r1[i] == x;
            assert(cfg.provides(host, r1[i]));
            let k = choose|k: int| 0 <= k < cfg.jobs.len() && #[trigger] cfg.selected(host, k) == Some(x);
        }
        if r2.contains(x) {
            let i = choose|i: int| 0 <= i < r2.len() && r2[i] == x;
            assert(cfg.provides(host, r2[i]));
            let k = choose|k: int| 0 <= k < cfg.jobs.len() && #[trigger] cfg.selected(host, k) == Some(x);
        }
    }
    lemma_sorted_same_elements_equal(r1, r2);
}

fn clone_strings(v: &Vec<String>) -> (r: Vec<String>)
    ensures
        r.deep_view() == v.deep_view(),
{
    let mut r: Vec<String> = Vec::new();
    let mut i: usize = 0;
    while i < v.len()
        invariant
            i <= v.len(),
            r@.len() == i,
            forall|m: int| 0 <= m < i ==> #[trigger] r@[m]@ == v@[m]@,
        decreases v.len() - i,
    {
        let ghost before = r@;
        let c = v[i].as_str().to_owned();
        r.push(c);
        assert(r@ == before.push(c));
        i = i + 1;
    }
    assert(r.deep_view() =~= v.deep_view());
    r
}

fn clone_script(s: &Option<Vec<String>>) -> (r: Option<Vec<String>>)
    ensures
        r.deep_view() == s.deep_view(),
{
    match s {
        Some(v) => Some(clone_strings(v)),
        None => None,
    }
}

fn find_template<'a>(cfg: &'a WorkflowConfig, name: &String) -> (r: Option<&'a JobTemplate>)
    ensures
        match r {
            Some(t) => template_script(cfg.templates_view(), name@) == Some(t.script.deep_view()),
            None => template_script(cfg.templates_view(), name@) is None,
        },
{
    match &cfg.job_templates {
        None => None,
        Some(ts) => {
            let ghost tv = cfg.templates_view();
            let mut found: Option<usize> = None;
            let mut k: usize = 0;
            while k < ts.len()
                invariant
                    k <= ts.len(),
                    tv == cfg.templates_view(),
                    cfg.job_templates == Some(*ts),
                    match found {
                        Some(i) => i < k && template_script(tv.subrange(0, k as int), name@) == Some(
                            tv[i as int].1,
                        ),
                        None => template_script(tv.subrange(0, k as int), name@) is None,
                    },
                decreases ts.len() - k,
            {
                assert(tv.subrange(0, k + 1).drop_last() =~= tv.subrange(0, k as int));
                if ts[k].0 == *name {
                    found = Some(k);
                }
                k = k + 1;
            }
            assert(tv.subrange(0, ts.len() as int) =~= tv);
            match found {
                Some(i) => Some(&ts[i].1),
                None => None,
            }
        },
    }
}

fn resolve(cfg: &WorkflowConfig, job: &Job) -> (r: Option<Job>)
    ensures
        match r {
            Some(j) => resolve_job(cfg.templates_view(), job@) == Some(j@),
            None => resolve_job(cfg.templates_view(), job@) is None,
        },
{
    match &job.extends {
        None => Some(
            Job {
                hosts: clone_strings(&job.hosts),
                script: clone_script(&job.script),
                extends: None,
            },
        ),
        Some(t) => match find_template(cfg, t) {
            None => None,
            Some(tpl) => {
                let script = match &job.script {
                    Some(s) => Some(clone_strings(s)),
                    None => clone_script(&tpl.script),
                };
                Some(Job { hosts: clone_strings(&job.hosts), script, extends: Some(t.clone()) })
            },
        },
    }
}

fn runs_on_host(hosts: &Vec<String>, host: &String) -> (r: bool)
    ensures
        r == hosts.deep_view().contains(host@),
{
    let mut i: usize = 0;
    while i < hosts.len()
        invariant
            i <= hosts.len(),
            forall|m: int| 0 <= m < i ==> hosts.deep_view()[m] != host@,
        decreases hosts.len() - i,
    {
        if hosts[i] == *host {
            assert(hosts.deep_view()[i as int] == host@);
            return true;
        }
        i = i + 1;
    }
    false
}

/// Inserts `entry` at its place by name; no entry of `out` has its name.
fn insert_by_name(out: &mut Vec<(String, Job)>, entry: (String, Job))
    requires
        sorted_by_name(jobs_view(old(out)@)),
        forall|i: int| 0 <= i < old(out).len() ==> #[trigger] old(out)@[i].0@ != entry.0@,
    ensures
        sorted_by_name(jobs_view(final(out)@)),
        forall|x| #[trigger]
            jobs_view(final(out)@).contains(x) <==> jobs_view(old(out)@).contains(x) || x == (
                entry.0@,
                entry.1@,
            ),
{
    let ghost ov = jobs_view(out@);
    let mut p: usize = 0;
    while p < out.len() && name_before(out[p].0.as_str(), entry.0.as_str())
        invariant
            p <= out.len(),
            ov == jobs_view(out@),
            forall|i: int| 0 <= i < p ==> name_lt(#[trigger] ov[i].0, entry.0@),
        decreases out.len() - p,
    {
        p = p + 1;
    }
    let ghost e = (entry.0@, entry.1@);
    proof {
        if p < out.len() {
            lemma_name_lt_total(ov[p as int].0, e.0);
            assert forall|i: int| p <= i < ov.len() implies name_lt(e.0, #[trigger] ov[i].0) by {
                if i > p {
                    lemma_name_lt_transitive(e.0, ov[p as int].0, ov[i].0);
                }
            }
        }
    }
    out.insert(p, entry);
    let ghost nv = jobs_view(out@);
    assert(nv =~= ov.subrange(0, p as int).push(e) + ov.subrange(p as int, ov.len() as int));
    assert forall|x| nv.contains(x) <==> ov.contains(x) || x == e by {
        if nv.contains(x) {
            let i = choose|i: int| 0 <= i < nv.len() && nv[i] == x;
            if i < p {
                assert(ov[i] == x);
            } else if i > p {
                assert(ov[i - 1] == x);
            }
        }
        if ov.contains(x) {
            let i = choose|i: int| 0 <= i < ov.len() && ov[i] == x;
            if i < p {
                assert(nv[i] == x);
            } else {
                assert(nv[i + 1] == x);
            }
        }
        if x == e {
            assert(nv[p as int] == x);
        }
    }
}

/// The jobs of `cfg` that run on `host_id`, each with its template applied,
/// in ascending order of name. Fails if any job extends a missing template.
pub fn get_jobs_for_host(cfg: &WorkflowConfig, host_id: &str) -> (r: Result<
    Vec<(String, Job)>,
    ConfigError,
>)
    requires
        cfg.wf(),
    ensures
        r is Ok <==> forall|k: int| 0 <= k < cfg.jobs.len() ==> #[trigger] cfg.resolvable(k),
        r matches Ok(v) ==> is_jobs_for_host(*cfg, host_id@, jobs_view(v@)),
        r matches Err(e) ==> exists|k: int|
            0 <= k < cfg.jobs.len() && cfg.first_unresolvable(k) && #[trigger] cfg.reports_missing(
                k,
                e,
            ),
{
    let host = host_id.to_owned();
    let mut out: Vec<(String, Job)> = Vec::new();
    let mut k: usize = 0;
    while k < cfg.jobs.len()
        invariant
            k <= cfg.jobs.len(),
            cfg.wf(),
            host@ == host_id@,
            forall|m: int| 0 <= m < k ==> #[trigger] cfg.resolvable(m),
            sorted_by_name(jobs_view(out@)),
            forall|i: int|
                0 <= i < out.len() ==> #[trigger] cfg.provided_before(
                    host@,
                    jobs_view(out@)[i],
                    k as int,
                ),
            forall|m: int|
                0 <= m < k && (#[trigger] cfg.selected(host@, m)) is Some ==> jobs_view(
                    out@,
                ).contains(cfg.selected(host@, m)->0),
        decreases cfg.jobs.len() - k,
    {
        let entry = &cfg.jobs[k];
        match resolve(cfg, &entry.1) {
            None => {
                let template = match &entry.1.extends {
                    Some(t) => t.clone(),
                    None => String::new(),
                };
                assert(!cfg.resolvable(k as int));
                assert(cfg.reports_missing(
                    k as int,
                    ConfigError::MissingTemplate { job: entry.0, template },
                ));
                return Err(ConfigError::MissingTemplate { job: entry.0.clone(), template });
            },
            Some(job) => {
                assert(cfg.resolvable(k as int));
                if runs_on_host(&job.hosts, &host) {
                    let ghost ov = jobs_view(out@);
                    proof {
                        assert forall|i: int| 0 <= i < out.len() implies #[trigger] out@[i].0@
                            != entry.0@ by {
                            assert(ov[i].0 == out@[i].0@);
                            assert(cfg.provided_before(host@, jobs_view(out@)[i], k as int));
                            let m = choose|m: int|
                                0 <= m < k && #[trigger] cfg.selected(host@, m) == Some(ov[i]);
                            assert(cfg.jobs@[m].0@ == ov[i].0);
                        }
                    }
                    let name = entry.0.clone();
                    let ghost e = (name@, job@);
                    insert_by_name(&mut out, (name, job));
                    assert(cfg.selected(host@, k as int) == Some(e));
                    assert forall|i: int| 0 <= i < out.len() implies #[trigger] cfg.provided_before(
                        host@,
                        jobs_view(out@)[i],
                        k + 1,
                    ) by {
                        let x = jobs_view(out@)[i];
                        assert(jobs_view(out@).contains(x));
                        if x != e {
                            let j = choose|j: int| 0 <= j < ov.len() && ov[j] == x;
                            assert(cfg.provided_before(host@, ov[j], k as int));
                        }
                    }
                } else {
                    assert(cfg.selected(host@, k as int) is None);
                    assert forall|i: int| 0 <= i < out.len() implies #[trigger] cfg.provided_before(
                        host@,
                        jobs_view(out@)[i],
                        k + 1,
                    ) by {
                        assert(cfg.provided_before(host@, jobs_view(out@)[i], k as int));
                    }
                }
            },
        }
        k = k + 1;
    }
    Ok(out)
}

} // verus!
