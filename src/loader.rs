//! Probe descriptors and their lifecycle: Discovered, Loaded, Attached,
//! Unloaded. The decisions stand here; the kernel calls that load, attach
//! and unload a program are made by the caller, which hands their outcome
//! back.
use vstd::prelude::*;
use vstd::string::StrSliceExecFns;
use crate::elf::{ElfError, ElfInfo, SymbolInfo};

verus! {

/// Index of the last `/` of `s`, or -1 when there is none.
pub open spec fn last_slash(s: Seq<char>) -> int
    decreases s.len(),
{
    if s.len() == 0 {
        -1
    } else if s.last() == '/' {
        s.len() - 1
    } else {
        last_slash(s.drop_last())
    }
}

/// The attach point named by a section: its last slash-delimited component.
pub open spec fn attach_point_spec(section: Seq<char>) -> Seq<char> {
    section.subrange(last_slash(section) + 1, section.len() as int)
}

/// The tracepoint category named by a section: its second-to-last
/// slash-delimited component, when it has one.
pub open spec fn category_spec(section: Seq<char>) -> Option<Seq<char>> {
    if last_slash(section) < 0 {
        None
    } else {
        Some(attach_point_spec(section.subrange(0, last_slash(section))))
    }
}

fn find_last_slash(s: &str) -> (r: Option<usize>)
    ensures
        match r {
            Some(i) => i == last_slash(s@) && i < s@.len(),
            None => last_slash(s@) == -1,
        },
{
    let mut i: usize = s.unicode_len();
    assert(s@.subrange(0, i as int) =~= s@);
    while i > 0
        invariant
            i <= s@.len(),
            last_slash(s@) == last_slash(s@.subrange(0, i as int)),
        decreases i,
    {
        let c = s.get_char(i - 1);
        assert(s@.subrange(0, i as int).drop_last() =~= s@.subrange(0, i - 1));
        if c == '/' {
            return Some(i - 1);
        }
        i = i - 1;
    }
    None
}

/// The last slash-delimited component of a section name.
pub fn attach_point_of(section: &str) -> (r: String)
    ensures
        r@ == attach_point_spec(section@),
{
    let n = section.unicode_len();
    let start: usize = match find_last_slash(section) {
        Some(i) => i + 1,
        None => 0,
    };
    section.substring_char(start, n).to_owned()
}

/// The second-to-last slash-delimited component of a section name.
pub fn category_of(section: &str) -> (r: Option<String>)
    ensures
        match r {
            Some(c) => category_spec(section@) == Some(c@),
            None => category_spec(section@) is None,
        },
{
    match find_last_slash(section) {
        None => None,
        Some(i) => {
            let prefix = section.substring_char(0, i);
            Some(attach_point_of(prefix))
        },
    }
}


/// The kernel program category a probe was compiled for.
#[derive(Clone, Copy, Debug, PartialEq, Eq, Structural)]
pub enum ProgramCategory {
    TracePoint,
    KProbe,
    Lsm,
    /// A category this loader has no protocol for.
    Other,
}

/// Handle of a successful attach, by category.
#[derive(Clone, Copy, Debug, PartialEq, Eq, Structural)]
pub enum LoadedLink {
    KProbe(u64),
    TracePoint(u64),
    Lsm(u64),
}

/// Why a probe could not be loaded, attached or unloaded; each names the
/// program.
#[derive(Debug)]
pub enum LoaderError {
    ProgramNotFound(String),
    AttachPointMissing(String),
    TracePointCategoryMissing(String),
    ProgramIsDisabled(String),
    /// No load or attach protocol exists for the program's category.
    Unsupported(String),
    /// The kernel refused the operation; the program's name and the reason.
    Kernel(String, String),
}

/// A [`LoaderError`] with its strings as character sequences.
pub ghost enum LoaderErrorView {
    ProgramNotFound(Seq<char>),
    AttachPointMissing(Seq<char>),
    TracePointCategoryMissing(Seq<char>),
    ProgramIsDisabled(Seq<char>),
    Unsupported(Seq<char>),
    Kernel(Seq<char>, Seq<char>),
}

impl View for LoaderError {
    type V = LoaderErrorView;

    open spec fn view(&self) -> LoaderErrorView {
        match self {
            LoaderError::ProgramNotFound(n) => LoaderErrorView::ProgramNotFound(n@),
            LoaderError::AttachPointMissing(n) => LoaderErrorView::AttachPointMissing(n@),
            LoaderError::TracePointCategoryMissing(n) => LoaderErrorView::TracePointCategoryMissing(
                n@,
            ),
            LoaderError::ProgramIsDisabled(n) => LoaderErrorView::ProgramIsDisabled(n@),
            LoaderError::Unsupported(n) => LoaderErrorView::Unsupported(n@),
            LoaderError::Kernel(n, m) => LoaderErrorView::Kernel(n@, m@),
        }
    }
}

/// What the kernel load of a program needs.
#[derive(Debug)]
pub enum LoadRequest {
    /// Load with no argument (tracepoints, kprobes).
    Plain,
    /// Load against the kernel's type metadata, for the named hook.
    WithBtf(String),
}

/// What the kernel attach of a program needs.
#[derive(Debug)]
pub enum AttachRequest {
    TracePoint { category: String, hook: String },
    KProbe { hook: String },
    Lsm,
}

pub open spec fn opt_view(o: Option<String>) -> Option<Seq<char>> {
    match o {
        Some(s) => Some(s@),
        None => None,
    }
}

/// One probe program found in the loaded image.
#[derive(Debug)]
pub struct Program {
    pub program_name: String,
    pub category: ProgramCategory,
    pub attach_point: Option<String>,
    pub info: Option<SymbolInfo>,
    pub enabled: bool,
    pub loaded: bool,
    pub attached: bool,
    pub link_id: Option<LoadedLink>,
}

/// The error a load of `p` ends in before the kernel is asked, if any.
pub open spec fn load_check(p: Program) -> Option<LoaderErrorView> {
    if !p.enabled {
        Some(LoaderErrorView::ProgramIsDisabled(p.program_name@))
    } else if p.attach_point is None {
        Some(LoaderErrorView::AttachPointMissing(p.program_name@))
    } else if p.category == ProgramCategory::Other {
        Some(LoaderErrorView::Unsupported(p.program_name@))
    } else {
        None
    }
}

/// The tracepoint category of `p`, from the section its symbol lives in.
pub open spec fn program_category_spec(p: Program) -> Option<Seq<char>> {
    match p.info {
        Some(i) => category_spec(i.section_name@),
        None => None,
    }
}

/// The error an attach of `p` ends in before the kernel is asked, if any.
pub open spec fn attach_check(p: Program) -> Option<LoaderErrorView> {
    match p.category {
        ProgramCategory::TracePoint => if program_category_spec(p) is None {
            Some(LoaderErrorView::TracePointCategoryMissing(p.program_name@))
        } else if p.attach_point is None {
            Some(LoaderErrorView::AttachPointMissing(p.program_name@))
        } else {
            None
        },
        ProgramCategory::KProbe => if p.attach_point is None {
            Some(LoaderErrorView::AttachPointMissing(p.program_name@))
        } else {
            None
        },
        ProgramCategory::Lsm => None,
        ProgramCategory::Other => Some(LoaderErrorView::Unsupported(p.program_name@)),
    }
}

/// The link a successful attach of a program of `c` records.
pub open spec fn link_of(c: ProgramCategory, h: u64) -> LoadedLink {
    match c {
        ProgramCategory::TracePoint => LoadedLink::TracePoint(h),
        ProgramCategory::KProbe => LoadedLink::KProbe(h),
        _ => LoadedLink::Lsm(h),
    }
}

/// The program after a load whose kernel outcome is `outcome`, and the result.
pub open spec fn load_step(p: Program, outcome: Result<(), Seq<char>>) -> (Program, Result<
    (),
    LoaderErrorView,
>) {
    match load_check(p) {
        Some(e) => (p, Err(e)),
        None => match outcome {
            Err(m) => (p, Err(LoaderErrorView::Kernel(p.program_name@, m))),
            Ok(()) => (Program { loaded: true, ..p }, Ok(())),
        },
    }
}

/// The program after an attach whose kernel outcome is `outcome`, and the result.
pub open spec fn attach_step(p: Program, outcome: Result<u64, Seq<char>>) -> (Program, Result<
    (),
    LoaderErrorView,
>) {
    match attach_check(p) {
        Some(e) => (p, Err(e)),
        None => match outcome {
            Err(m) => (p, Err(LoaderErrorView::Kernel(p.program_name@, m))),
            Ok(h) => (Program { attached: true, link_id: Some(link_of(p.category, h)), ..p }, Ok(())),
        },
    }
}

/// The program after an unload whose kernel outcome is `outcome`, and the result.
pub open spec fn unload_step(p: Program, outcome: Result<(), Seq<char>>) -> (Program, Result<
    (),
    LoaderErrorView,
>) {
    if p.category == ProgramCategory::Other {
        (p, Err(LoaderErrorView::Unsupported(p.program_name@)))
    } else {
        match outcome {
            Err(m) => (p, Err(LoaderErrorView::Kernel(p.program_name@, m))),
            Ok(()) => (Program { loaded: false, attached: false, link_id: None, ..p }, Ok(())),
        }
    }
}

pub open spec fn result_view<T>(r: Result<T, String>) -> Result<T, Seq<char>> {
    match r {
        Ok(t) => Ok(t),
        Err(m) => Err(m@),
    }
}

pub open spec fn error_view(r: Result<(), LoaderError>) -> Result<(), LoaderErrorView> {
    match r {
        Ok(()) => Ok(()),
        Err(e) => Err(e@),
    }
}

impl Program {
    /// A freshly discovered program: unresolved, disabled, not loaded.
    pub fn from_program(name: String, category: ProgramCategory) -> (r: Program)
        ensures
            r.program_name == name,
            r.category == category,
            r.attach_point is None,
            r.info is None,
            !r.enabled && !r.loaded && !r.attached,
            r.link_id is None,
    {
        Program {
            program_name: name,
            category,
            attach_point: None,
            info: None,
            enabled: false,
            loaded: false,
            attached: false,
            link_id: None,
        }
    }

    /// Records where the program's symbol lives; its attach point is the last
    /// component of the section's name.
    pub fn with_sym_info(&mut self, info: SymbolInfo)
        ensures
            final(self).info == Some(info),
            opt_view(final(self).attach_point) == Some(attach_point_spec(info.section_name@)),
            final(self).program_name == old(self).program_name,
            final(self).category == old(self).category,
            final(self).enabled == old(self).enabled,
            final(self).loaded == old(self).loaded,
            final(self).attached == old(self).attached,
            final(self).link_id == old(self).link_id,
    {
        let hook = attach_point_of(info.section_name.as_str());
        self.info = Some(info);
        self.attach_point = Some(hook);
    }

    /// The tracepoint category: the second-to-last component of the section.
    pub fn tracepoint_category(&self) -> (r: Option<String>)
        ensures
            opt_view(r) == program_category_spec(*self),
    {
        match &self.info {
            Some(i) => category_of(i.section_name.as_str()),
            None => None,
        }
    }

    fn name_clone(&self) -> (r: String)
        ensures
            r@ == self.program_name@,
    {
        self.program_name.clone()
    }

    /// What the kernel load needs, or why the program cannot be loaded.
    pub fn load_request(&self) -> (r: Result<LoadRequest, LoaderError>)
        ensures
            match r {
                Err(e) => load_check(*self) == Some(e@),
                Ok(LoadRequest::Plain) => load_check(*self) is None && self.category
                    != ProgramCategory::Lsm,
                Ok(LoadRequest::WithBtf(hook)) => load_check(*self) is None && self.category
                    == ProgramCategory::Lsm && opt_view(self.attach_point) == Some(hook@),
            },
    {
        if !self.enabled {
            return Err(LoaderError::ProgramIsDisabled(self.name_clone()));
        }
        let hook = match &self.attach_point {
            Some(h) => h.clone(),
            None => return Err(LoaderError::AttachPointMissing(self.name_clone())),
        };
        match self.category {
            ProgramCategory::TracePoint | ProgramCategory::KProbe => Ok(LoadRequest::Plain),
            ProgramCategory::Lsm => Ok(LoadRequest::WithBtf(hook)),
            ProgramCategory::Other => Err(LoaderError::Unsupported(self.name_clone())),
        }
    }

    /// Records a load whose kernel outcome is `outcome`. Fails without
    /// looking at the outcome when the program is disabled, unresolved or of
    /// an unsupported category.
    pub fn load(&mut self, outcome: Result<(), String>) -> (r: Result<(), LoaderError>)
        ensures
            *final(self) == load_step(*old(self), result_view(outcome)).0,
            error_view(r) == load_step(*old(self), result_view(outcome)).1,
    {
        if !self.enabled {
            return Err(LoaderError::ProgramIsDisabled(self.name_clone()));
        }
        if self.attach_point.is_none() {
            return Err(LoaderError::AttachPointMissing(self.name_clone()));
        }
        if self.category == ProgramCategory::Other {
            return Err(LoaderError::Unsupported(self.name_clone()));
        }
        match outcome {
            Err(m) => Err(LoaderError::Kernel(self.name_clone(), m)),
            Ok(()) => {
                self.loaded = true;
                Ok(())
            },
        }
    }

    /// What the kernel attach needs, or why the program cannot be attached.
    pub fn attach_request(&self) -> (r: Result<AttachRequest, LoaderError>)
        ensures
            match r {
                Err(e) => attach_check(*self) == Some(e@),
                Ok(AttachRequest::TracePoint { category, hook }) => attach_check(*self) is None
                    && self.category == ProgramCategory::TracePoint && program_category_spec(*self)
                    == Some(category@) && opt_view(self.attach_point) == Some(hook@),
                Ok(AttachRequest::KProbe { hook }) => attach_check(*self) is None && self.category
                    == ProgramCategory::KProbe && opt_view(self.attach_point) == Some(hook@),
                Ok(AttachRequest::Lsm) => attach_check(*self) is None && self.category
                    == ProgramCategory::Lsm,
            },
    {
        match self.category {
            ProgramCategory::TracePoint => {
                let category = match self.tracepoint_category() {
                    Some(c) => c,
                    None => return Err(LoaderError::TracePointCategoryMissing(self.name_clone())),
                };
                match &self.attach_point {
                    Some(h) => Ok(AttachRequest::TracePoint { category, hook: h.clone() }),
                    None => Err(LoaderError::AttachPointMissing(self.name_clone())),
                }
            },
            ProgramCategory::KProbe => match &self.attach_point {
                Some(h) => Ok(AttachRequest::KProbe { hook: h.clone() }),
                None => Err(LoaderError::AttachPointMissing(self.name_clone())),
            },
            ProgramCategory::Lsm => Ok(AttachRequest::Lsm),
            ProgramCategory::Other => Err(LoaderError::Unsupported(self.name_clone())),
        }
    }

    /// Records an attach whose kernel outcome is `outcome`, the link handle
    /// on success.
    pub fn attach(&mut self, outcome: Result<u64, String>) -> (r: Result<(), LoaderError>)
        ensures
            *final(self) == attach_step(*old(self), result_view(outcome)).0,
            error_view(r) == attach_step(*old(self), result_view(outcome)).1,
    {
        if let Err(e) = self.attach_request() {
            return Err(e);
        }
        match outcome {
            Err(m) => Err(LoaderError::Kernel(self.name_clone(), m)),
            Ok(h) => {
                let link = match self.category {
                    ProgramCategory::TracePoint => LoadedLink::TracePoint(h),
                    ProgramCategory::KProbe => LoadedLink::KProbe(h),
                    _ => LoadedLink::Lsm(h),
                };
                self.link_id = Some(link);
                self.attached = true;
                Ok(())
            },
        }
    }

    /// Records an unload whose kernel outcome is `outcome`; on success the
    /// program is neither loaded nor attached and holds no link.
    pub fn unload(&mut self, outcome: Result<(), String>) -> (r: Result<(), LoaderError>)
        ensures
            *final(self) == unload_step(*old(self), result_view(outcome)).0,
            error_view(r) == unload_step(*old(self), result_view(outcome)).1,
    {
        if self.category == ProgramCategory::Other {
            return Err(LoaderError::Unsupported(self.name_clone()));
        }
        match outcome {
            Err(m) => Err(LoaderError::Kernel(self.name_clone(), m)),
            Ok(()) => {
                self.loaded = false;
                self.attached = false;
                self.link_id = None;
                Ok(())
            },
        }
    }
}


/// `p` once the image's symbol map `m` has been consulted: a program whose
/// name is a symbol of the image takes that symbol's section; any other
/// program is left as it was.
pub open spec fn resolved(p: Program, q: Program, m: Map<Seq<char>, Seq<char>>) -> bool {
    &&& q.program_name == p.program_name
    &&& q.category == p.category
    &&& q.enabled == p.enabled
    &&& q.loaded == p.loaded
    &&& q.attached == p.attached
    &&& q.link_id == p.link_id
    &&& if m.contains_key(p.program_name@) {
        &&& q.info matches Some(i) && i.section_name@ == m[p.program_name@]
        &&& opt_view(q.attach_point) == Some(attach_point_spec(m[p.program_name@]))
    } else {
        q == p
    }
}

#[verifier::external_type_specification]
#[verifier::external_body]
pub struct ExEbpf(aya::Ebpf);

/// The programs of a loaded set: each program's name, mapped to the category
/// its program type gives.
pub uninterp spec fn ebpf_programs(e: aya::Ebpf) -> Map<Seq<char>, ProgramCategory>;

/// Relies on aya::Ebpf::programs, which walks the set's map from program name
/// to program: each entry once, names distinct, in an order the map chooses.
#[verifier::external_body]
fn program_list(ebpf: &aya::Ebpf) -> (r: Vec<(String, ProgramCategory)>)
    ensures
        r@.len() == ebpf_programs(*ebpf).dom().len(),
        Seq::new(r@.len(), |i: int| r@[i].0@).to_set() == ebpf_programs(*ebpf).dom(),
        forall|i: int|
            0 <= i < r@.len() ==> ebpf_programs(*ebpf).contains_key(#[trigger] r@[i].0@)
                && ebpf_programs(*ebpf)[r@[i].0@] == r@[i].1,
        forall|i: int, j: int|
            0 <= i < j < r@.len() ==> #[trigger] r@[i].0@ != #[trigger] r@[j].0@,
{
    ebpf.programs().map(|(name, prog)| {
        let category = match prog {
            aya::programs::Program::TracePoint(_) => ProgramCategory::TracePoint,
            aya::programs::Program::KProbe(_) => ProgramCategory::KProbe,
            aya::programs::Program::Lsm(_) => ProgramCategory::Lsm,
            _ => ProgramCategory::Other,
        };
        (name.to_string(), category)
    }).collect()
}

/// A program as it stands when first discovered under `name`.
pub open spec fn discovered(p: Program) -> bool {
    &&& p.attach_point is None
    &&& p.info is None
    &&& !p.enabled && !p.loaded && !p.attached
    &&& p.link_id is None
}

/// No two programs share a name.
pub open spec fn distinct_names(ps: Seq<Program>) -> bool {
    forall|i: int, j: int|
        0 <= i < ps.len() && 0 <= j < ps.len() && i != j ==> #[trigger] ps[i].program_name@
            != #[trigger] ps[j].program_name@
}

/// The probe programs of a loaded image, each driven on its own.
pub struct Programs {
    map: Vec<Program>,
}

impl Programs {
    pub closed spec fn programs(&self) -> Seq<Program> {
        self.map@
    }

    /// Programs are told apart by name.
    pub open spec fn wf(&self) -> bool {
        distinct_names(self.programs())
    }

    /// The program set, in the given order.
    pub fn from_programs(programs: Vec<Program>) -> (r: Programs)
        requires
            distinct_names(programs@),
        ensures
            r.wf(),
            r.programs() == programs@,
    {
        Programs { map: programs }
    }

    /// The programs found in a set loaded into the kernel, each as first
    /// discovered: disabled, unresolved, neither loaded nor attached.
    pub fn with_ebpf(ebpf: &mut aya::Ebpf) -> (r: Programs)
        ensures
            r.wf(),
            ebpf_programs(*old(ebpf)).dom().finite(),
            r.programs().len() == ebpf_programs(*old(ebpf)).dom().len(),
            forall|n: Seq<char>|
                #[trigger] ebpf_programs(*old(ebpf)).contains_key(n) ==> exists|i: int|
                    0 <= i < r.programs().len() && #[trigger] r.programs()[i].program_name@ == n,
            forall|i: int|
                0 <= i < r.programs().len() ==> discovered(#[trigger] r.programs()[i])
                    && ebpf_programs(*old(ebpf)).contains_key(r.programs()[i].program_name@)
                    && ebpf_programs(*old(ebpf))[r.programs()[i].program_name@]
                    == r.programs()[i].category,
    {
        let list = program_list(ebpf);
        let r = Self::discover(list);
        proof {
            vstd::seq_lib::seq_to_set_is_finite(Seq::new(list@.len(), |i: int| list@[i].0@));
        }
        assert forall|n: Seq<char>|
            #[trigger] ebpf_programs(*old(ebpf)).contains_key(n) implies exists|i: int|
                0 <= i < r.programs().len() && #[trigger] r.programs()[i].program_name@ == n by {
            let names = Seq::new(list@.len(), |i: int| list@[i].0@);
            assert(names.to_set().contains(n));
            let i = choose|i: int| 0 <= i < names.len() && names[i] == n;
            assert(r.programs()[i].program_name@ == n);
        }
        r
    }

    /// Programs as first discovered, one for each (name, category) pair.
    pub fn discover(list: Vec<(String, ProgramCategory)>) -> (r: Programs)
        requires
            forall|i: int, j: int|
                0 <= i < j < list@.len() ==> #[trigger] list@[i].0@ != #[trigger] list@[j].0@,
        ensures
            r.wf(),
            r.programs().len() == list@.len(),
            forall|i: int|
                0 <= i < r.programs().len() ==> discovered(#[trigger] r.programs()[i])
                    && r.programs()[i].program_name == list@[i].0 && r.programs()[i].category
                    == list@[i].1,
    {
        let mut out: Vec<Program> = Vec::new();
        let mut rest = list;
        let ghost orig = rest@;
        while rest.len() > 0
            invariant
                out@.len() + rest@.len() == orig.len(),
                rest@ == orig.subrange(out@.len() as int, orig.len() as int),
                forall|i: int|
                    0 <= i < out@.len() ==> discovered(#[trigger] out@[i]) && out@[i].program_name
                        == orig[i].0 && out@[i].category == orig[i].1,
            decreases rest@.len(),
        {
            let ghost k = out@.len() as int;
            let (name, category) = rest.remove(0);
            assert(name@ == orig[k].0@);
            assert(rest@ =~= orig.subrange(k + 1, orig.len() as int));
            out.push(Program::from_program(name, category));
        }
        assert forall|i: int, j: int|
            0 <= i < out@.len() && 0 <= j < out@.len() && i != j implies #[trigger] out@[i].program_name@
            != #[trigger] out@[j].program_name@ by {
            if i < j {
                assert(orig[i].0@ != orig[j].0@);
            } else {
                assert(orig[j].0@ != orig[i].0@);
            }
        }
        Programs { map: out }
    }

    pub fn len(&self) -> (r: usize)
        ensures
            r == self.programs().len(),
    {
        self.map.len()
    }

    pub fn get(&self, i: usize) -> (r: &Program)
        requires
            i < self.programs().len(),
        ensures
            *r == self.programs()[i as int],
    {
        &self.map[i]
    }

    /// Resolves each program's attach point from the symbols of the image.
    pub fn resolve(self, info: &ElfInfo) -> (r: Programs)
        requires
            self.wf(),
        ensures
            r.wf(),
            r.programs().len() == self.programs().len(),
            forall|i: int|
                0 <= i < r.programs().len() ==> resolved(
                    self.programs()[i],
                    r.programs()[i],
                    info.symbol_map(),
                ),
    {
        let ghost orig = self.map@;
        let mut rest = self.map;
        let mut out: Vec<Program> = Vec::new();
        while rest.len() > 0
            invariant
                out@.len() + rest@.len() == orig.len(),
                rest@ == orig.subrange(out@.len() as int, orig.len() as int),
                forall|i: int| 0 <= i < out@.len() ==> resolved(orig[i], out@[i], info.symbol_map()),
            decreases rest@.len(),
        {
            let ghost k = out@.len() as int;
            let mut p = rest.remove(0);
            assert(p == orig[k]);
            assert(rest@ =~= orig.subrange(k + 1, orig.len() as int));
            match info.get_by_symbol_name(p.program_name.as_str()) {
                Some(si) => {
                    let section_name = si.section_name.clone();
                    p.with_sym_info(SymbolInfo { section_name });
                },
                None => {},
            }
            out.push(p);
        }
        assert forall|i: int, j: int|
            0 <= i < out@.len() && 0 <= j < out@.len() && i != j implies #[trigger] out@[i].program_name@
            != #[trigger] out@[j].program_name@ by {
            assert(orig[i].program_name@ != orig[j].program_name@);
        }
        Programs { map: out }
    }

    /// Resolves each program's attach point from the compiled image `data`.
    pub fn with_elf_info(self, data: &[u8]) -> (r: Result<Programs, ElfError>)
        requires
            self.wf(),
        ensures
            r matches Ok(ps) ==> ps.wf(),
            match r {
                Err(_) => crate::elf::elf_symbol_table(data@) is None,
                Ok(ps) => crate::elf::elf_symbol_table(data@) is Some && ps.programs().len()
                    == self.programs().len() && forall|i: int|
                    0 <= i < ps.programs().len() ==> resolved(
                        self.programs()[i],
                        ps.programs()[i],
                        crate::elf::pairs_to_map(
                            crate::elf::defined_pairs(crate::elf::elf_symbol_table(data@).unwrap()),
                        ),
                    ),
            },
    {
        let info = ElfInfo::from_raw_elf(data)?;
        Ok(self.resolve(&info))
    }

    /// Turns program `i` on or off.
    pub fn set_enabled(&mut self, i: usize, enabled: bool)
        requires
            i < old(self).programs().len(),
            old(self).wf(),
        ensures
            final(self).wf(),
            final(self).programs() == old(self).programs().update(
                i as int,
                Program { enabled, ..old(self).programs()[i as int] },
            ),
    {
        let mut p = self.map.remove(i);
        p.enabled = enabled;
        self.map.insert(i, p);
        assert(self.map@ =~= old(self).programs().update(
            i as int,
            Program { enabled, ..old(self).programs()[i as int] },
        ));
    }

    pub fn load_request(&self, i: usize) -> (r: Result<LoadRequest, LoaderError>)
        requires
            i < self.programs().len(),
        ensures
            ({
                let p = self.programs()[i as int];
                match r {
                    Err(e) => load_check(p) == Some(e@),
                    Ok(LoadRequest::Plain) => load_check(p) is None && p.category
                        != ProgramCategory::Lsm,
                    Ok(LoadRequest::WithBtf(hook)) => load_check(p) is None && p.category
                        == ProgramCategory::Lsm && opt_view(p.attach_point) == Some(hook@),
                }
            }),
    {
        self.map[i].load_request()
    }

    pub fn attach_request(&self, i: usize) -> (r: Result<AttachRequest, LoaderError>)
        requires
            i < self.programs().len(),
        ensures
            ({
                let p = self.programs()[i as int];
                match r {
                    Err(e) => attach_check(p) == Some(e@),
                    Ok(AttachRequest::TracePoint { category, hook }) => attach_check(p) is None
                        && p.category == ProgramCategory::TracePoint && program_category_spec(p)
                        == Some(category@) && opt_view(p.attach_point) == Some(hook@),
                    Ok(AttachRequest::KProbe { hook }) => attach_check(p) is None && p.category
                        == ProgramCategory::KProbe && opt_view(p.attach_point) == Some(hook@),
                    Ok(AttachRequest::Lsm) => attach_check(p) is None && p.category
                        == ProgramCategory::Lsm,
                }
            }),
    {
        self.map[i].attach_request()
    }

    /// Records the kernel load outcome of program `i`; no other program changes.
    pub fn load(&mut self, i: usize, outcome: Result<(), String>) -> (r: Result<(), LoaderError>)
        requires
            i < old(self).programs().len(),
            old(self).wf(),
        ensures
            final(self).wf(),
            final(self).programs() == old(self).programs().update(
                i as int,
                load_step(old(self).programs()[i as int], result_view(outcome)).0,
            ),
            error_view(r) == load_step(old(self).programs()[i as int], result_view(outcome)).1,
    {
        let mut p = self.map.remove(i);
        let r = p.load(outcome);
        self.map.insert(i, p);
        assert(self.map@ =~= old(self).programs().update(
            i as int,
            load_step(old(self).programs()[i as int], result_view(outcome)).0,
        ));
        r
    }

    /// Records the kernel attach outcome of program `i`; no other program changes.
    pub fn attach(&mut self, i: usize, outcome: Result<u64, String>) -> (r: Result<(), LoaderError>)
        requires
            i < old(self).programs().len(),
            old(self).wf(),
        ensures
            final(self).wf(),
            final(self).programs() == old(self).programs().update(
                i as int,
                attach_step(old(self).programs()[i as int], result_view(outcome)).0,
            ),
            error_view(r) == attach_step(old(self).programs()[i as int], result_view(outcome)).1,
    {
        let mut p = self.map.remove(i);
        let r = p.attach(outcome);
        self.map.insert(i, p);
        assert(self.map@ =~= old(self).programs().update(
            i as int,
            attach_step(old(self).programs()[i as int], result_view(outcome)).0,
        ));
        r
    }

    /// Records the kernel unload outcome of program `i`; no other program changes.
    pub fn unload(&mut self, i: usize, outcome: Result<(), String>) -> (r: Result<(), LoaderError>)
        requires
            i < old(self).programs().len(),
            old(self).wf(),
        ensures
            final(self).wf(),
            final(self).programs() == old(self).programs().update(
                i as int,
                unload_step(old(self).programs()[i as int], result_view(outcome)).0,
            ),
            error_view(r) == unload_step(old(self).programs()[i as int], result_view(outcome)).1,
    {
        let mut p = self.map.remove(i);
        let r = p.unload(outcome);
        self.map.insert(i, p);
        assert(self.map@ =~= old(self).programs().update(
            i as int,
            unload_step(old(self).programs()[i as int], result_view(outcome)).0,
        ));
        r
    }
}

/// A program that fails to load changes no other program: any other program
/// that is enabled and resolvable, and whose kernel load and attach succeed,
/// still ends loaded and attached, and the failed one stays as it was.
pub proof fn lemma_lifecycle_independence(
    ps: Seq<Program>,
    a: int,
    outcome_a: Result<(), Seq<char>>,
    b: int,
    h: u64,
)
    requires
        0 <= a < ps.len(),
        0 <= b < ps.len(),
        a != b,
        load_step(ps[a], outcome_a).1 is Err,
        load_check(ps[b]) is None,
        attach_check(ps[b]) is None,
    ensures
        ({
            let ps1 = ps.update(a, load_step(ps[a], outcome_a).0);
            let ps2 = ps1.update(b, load_step(ps1[b], Ok(())).0);
            let ps3 = ps2.update(b, attach_step(ps2[b], Ok(h)).0);
            &&& ps3[b].loaded && ps3[b].attached && ps3[b].link_id is Some
            &&& ps3[a] == ps[a]
        }),
{
    let ps1 = ps.update(a, load_step(ps[a], outcome_a).0);
    let ps2 = ps1.update(b, load_step(ps1[b], Ok(())).0);
    assert(attach_check(ps2[b]) == attach_check(ps[b]));
}

} // verus!
