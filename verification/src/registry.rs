//! The process-wide language state: the selected tag, the published grammar,
//! and the one-time parsing-runtime initialization flag.

use vstd::prelude::*;
use vstd::string::StringExecFns;

use crate::lang::{lang_of_tag, NotSupport, WASMLang};

verus! {

/// A handle to a loaded grammar, identified by the location its artifact was
/// loaded from. The host keeps the runtime grammar object keyed to the same
/// location; the registry owns which handle is currently published.
#[derive(Debug)]
pub struct Grammar {
    location: String,
}

impl View for Grammar {
    type V = Seq<char>;

    closed spec fn view(&self) -> Seq<char> {
        self.location@
    }
}

impl Grammar {
    /// A handle for the grammar loaded from `location`.
    pub fn new(location: &str) -> (g: Grammar)
        ensures
            g@ == location@,
    {
        Grammar { location: String::from_str(location) }
    }

    /// The location this grammar was loaded from.
    pub fn location(&self) -> (l: &str)
        ensures
            l@ == self@,
    {
        self.location.as_str()
    }
}

impl Clone for Grammar {
    fn clone(&self) -> (g: Self)
        ensures
            g@ == self@,
    {
        Grammar { location: self.location.clone() }
    }
}

/// Error for a grammar artifact that could not be fetched, was malformed, or
/// was incompatible with the parsing runtime.
#[derive(Debug)]
pub struct LoadFailure {
    reason: String,
}

impl View for LoadFailure {
    type V = Seq<char>;

    closed spec fn view(&self) -> Seq<char> {
        self.reason@
    }
}

impl LoadFailure {
    /// Wraps the host's description of why the load failed.
    pub fn new(reason: &str) -> (e: LoadFailure)
        ensures
            e@ == reason@,
    {
        LoadFailure { reason: String::from_str(reason) }
    }

    /// Why the load failed.
    pub fn reason(&self) -> (r: &str)
        ensures
            r@ == self@,
    {
        self.reason.as_str()
    }
}

/// Error for reading the active grammar before any load ever succeeded: a
/// precondition violation of the matching engine, not a data error. The
/// registry never substitutes a default grammar.
#[derive(Debug, PartialEq, Eq, Structural)]
pub struct UnrecoverableState;

/// What the host's asynchronous load attempt came back with.
pub enum LoadOutcome {
    /// Runtime initialization (if still needed) and the grammar load both
    /// succeeded; the grammar was validated against a parser instance.
    Loaded(Grammar),
    /// The runtime is initialized, but the artifact could not be fetched or
    /// instantiated.
    FetchFailed(String),
    /// Runtime initialization itself failed.
    InitFailed(String),
}

/// Spec-level image of a load outcome.
pub ghost enum LoadOutcomeView {
    Loaded(Seq<char>),
    FetchFailed(Seq<char>),
    InitFailed(Seq<char>),
}

impl View for LoadOutcome {
    type V = LoadOutcomeView;

    open spec fn view(&self) -> LoadOutcomeView {
        match self {
            LoadOutcome::Loaded(g) => LoadOutcomeView::Loaded(g@),
            LoadOutcome::FetchFailed(r) => LoadOutcomeView::FetchFailed(r@),
            LoadOutcome::InitFailed(r) => LoadOutcomeView::InitFailed(r@),
        }
    }
}

/// Spec-level image of the registry: the selected language, the location of
/// the published grammar (if any load ever succeeded), and whether the
/// parsing runtime has completed its one-time initialization.
pub ghost struct RegistryView {
    pub current: WASMLang,
    pub grammar: Option<Seq<char>>,
    pub runtime_initialized: bool,
}

/// How selecting a tag changes the registry: a recognized tag replaces the
/// current language before any load is attempted; an unrecognized tag leaves
/// the registry untouched.
pub open spec fn spec_set_current(v: RegistryView, tag: Seq<char>) -> RegistryView {
    match lang_of_tag(tag) {
        Some(l) => RegistryView { current: l, ..v },
        None => v,
    }
}

/// How a load outcome changes the registry: a loaded grammar is published
/// and the runtime is marked initialized; a fetch failure marks the runtime
/// initialized but keeps the previous grammar; an initialization failure
/// changes nothing. The selected language is never touched here.
pub open spec fn spec_finish_load(v: RegistryView, outcome: LoadOutcomeView) -> RegistryView {
    match outcome {
        LoadOutcomeView::Loaded(loc) => RegistryView {
            grammar: Some(loc),
            runtime_initialized: true,
            ..v
        },
        LoadOutcomeView::FetchFailed(_) => RegistryView { runtime_initialized: true, ..v },
        LoadOutcomeView::InitFailed(_) => v,
    }
}

/// What the registry asks the host to do after a tag was accepted: fetch the
/// grammar artifact at `location`, first initializing the parsing runtime if
/// `need_init` says it never succeeded before.
#[derive(Debug)]
pub struct LoadPlan {
    pub location: String,
    pub need_init: bool,
}

/// The language registry: which language is selected, which grammar is
/// published, and whether the parsing runtime is initialized. The two slots
/// are updated in the documented order — the tag is written before the load
/// is attempted — so after a failed load the tag and the grammar may
/// disagree until the next successful load.
pub struct Registry {
    current: WASMLang,
    grammar: Option<Grammar>,
    runtime_initialized: bool,
}

impl View for Registry {
    type V = RegistryView;

    closed spec fn view(&self) -> RegistryView {
        RegistryView {
            current: self.current,
            grammar: match self.grammar {
                Some(g) => Some(g@),
                None => None,
            },
            runtime_initialized: self.runtime_initialized,
        }
    }
}

impl Registry {
    /// A fresh registry: the default language is selected, no grammar is
    /// published, and the parsing runtime is uninitialized.
    pub fn new() -> (r: Registry)
        ensures
            r@.current == WASMLang::JavaScript,
            r@.grammar is None,
            !r@.runtime_initialized,
    {
        Registry { current: WASMLang::JavaScript, grammar: None, runtime_initialized: false }
    }

    /// Selects a language and plans the grammar load. A recognized tag is
    /// written to the tag slot immediately — before the load runs — and the
    /// returned plan tells the host where to fetch the artifact and whether
    /// the runtime still needs initialization. An unrecognized tag is
    /// rejected verbatim and the registry is left untouched.
    pub fn set_current(&mut self, lang: &str, parser_path: &str) -> (r: Result<
        LoadPlan,
        NotSupport,
    >)
        ensures
            final(self)@ == spec_set_current(old(self)@, lang@),
            match r {
                Ok(plan) => {
                    &&& lang_of_tag(lang@) is Some
                    &&& plan.location@ == parser_path@
                    &&& plan.need_init == !old(self)@.runtime_initialized
                },
                Err(e) => lang_of_tag(lang@) is None && e@ == lang@,
            },
    {
        let l = WASMLang::from_str(lang)?;
        self.current = l;
        Ok(LoadPlan {
            location: String::from_str(parser_path),
            need_init: !self.runtime_initialized,
        })
    }

    /// Applies the host's load outcome. A loaded grammar is published atop
    /// the previous one and the call succeeds; either failure is propagated
    /// with the host's reason and leaves the published grammar — and with it
    /// the previously selected, still-usable language state — unchanged.
    pub fn finish_load(&mut self, outcome: LoadOutcome) -> (r: Result<(), LoadFailure>)
        ensures
            final(self)@ == spec_finish_load(old(self)@, outcome@),
            match r {
                Ok(()) => outcome@ is Loaded,
                Err(e) => match outcome@ {
                    LoadOutcomeView::Loaded(_) => false,
                    LoadOutcomeView::FetchFailed(reason) => e@ == reason,
                    LoadOutcomeView::InitFailed(reason) => e@ == reason,
                },
            },
    {
        match outcome {
            LoadOutcome::Loaded(g) => {
                self.grammar = Some(g);
                self.runtime_initialized = true;
                Ok(())
            },
            LoadOutcome::FetchFailed(reason) => {
                self.runtime_initialized = true;
                Err(LoadFailure { reason })
            },
            LoadOutcome::InitFailed(reason) => Err(LoadFailure { reason }),
        }
    }

    /// The currently selected language; the default until a recognized tag
    /// was ever selected.
    pub fn get_current(&self) -> (l: WASMLang)
        ensures
            l == self@.current,
    {
        self.current
    }

    /// The capability adapter: hands the matching engine the currently
    /// published grammar. Before any load ever succeeded there is no grammar
    /// to substitute, and the caller is told its precondition is violated.
    pub fn get_active_grammar(&self) -> (r: Result<Grammar, UnrecoverableState>)
        ensures
            match r {
                Ok(g) => self@.grammar == Some(g@),
                Err(e) => self@.grammar is None && e == UnrecoverableState,
            },
    {
        match &self.grammar {
            Some(g) => Ok(g.clone()),
            None => Err(UnrecoverableState),
        }
    }
}

/// After a successful selection and load, the registry reports the language
/// parsed from the tag, and publishes exactly the grammar loaded from the
/// planned location.
pub proof fn lemma_successful_set_current(
    v: RegistryView,
    tag: Seq<char>,
    location: Seq<char>,
    l: WASMLang,
)
    requires
        lang_of_tag(tag) == Some(l),
    ensures
        ({
            let after = spec_finish_load(spec_set_current(v, tag), LoadOutcomeView::Loaded(location));
            after.current == l && after.grammar == Some(location) && after.runtime_initialized
        }),
{
}

/// A failed load keeps the previously published grammar: the tag slot
/// already holds the newly requested language, but the grammar slot still
/// holds whatever was published before — or nothing, if no load ever
/// succeeded.
pub proof fn lemma_failed_load_keeps_grammar(
    v: RegistryView,
    tag: Seq<char>,
    outcome: LoadOutcomeView,
    l: WASMLang,
)
    requires
        lang_of_tag(tag) == Some(l),
        !(outcome is Loaded),
    ensures
        ({
            let after = spec_finish_load(spec_set_current(v, tag), outcome);
            after.current == l && after.grammar == v.grammar
        }),
{
}

/// Runtime initialization is one-time: once it has succeeded — whether or
/// not the grammar fetch that followed it did — the runtime stays
/// initialized through any later selection, so no later load plan ever asks
/// for initialization again.
pub proof fn lemma_init_once(
    v: RegistryView,
    tag1: Seq<char>,
    outcome1: LoadOutcomeView,
    tag2: Seq<char>,
)
    requires
        !(outcome1 is InitFailed),
    ensures
        ({
            let after = spec_finish_load(spec_set_current(v, tag1), outcome1);
            after.runtime_initialized && spec_set_current(after, tag2).runtime_initialized
        }),
{
}

} // verus!
