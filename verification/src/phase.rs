use vstd::prelude::*;
use crate::sequence::{Sequence, SequenceStep, first_step, step_after};

verus! {

/// A phase of building an application: each phase allows its own steps.
pub trait Phase {}

/// An application being built, in phase `P`.
pub struct Core<P> {
    phase: P,
}

/// The first phase: extensions are attached and the configuration is
/// described.
pub struct Init<E> {
    extensions: Vec<E>,
    search_paths: Vec<String>,
    name_pattern: String,
}

impl<E> Phase for Init<E> {}

/// The texts as plain character sequences.
pub open spec fn texts_view(v: Seq<String>) -> Seq<Seq<char>> {
    v.map_values(|s: String| s@)
}

impl<E> Init<E> {
    /// The attached extensions, in order.
    pub closed spec fn extensions(&self) -> Seq<E> {
        self.extensions@
    }

    /// The directories searched for configuration files, in order.
    pub closed spec fn search_paths(&self) -> Seq<Seq<char>> {
        texts_view(self.search_paths@)
    }

    /// The pattern configuration file names must match.
    pub closed spec fn name_pattern(&self) -> Seq<char> {
        self.name_pattern@
    }

    /// Splits into the extensions, the search paths and the name pattern.
    pub fn into_parts(self) -> (r: (Vec<E>, Vec<String>, String))
        ensures
            r.0@ == self.extensions(),
            texts_view(r.1@) == self.search_paths(),
            r.2@ == self.name_pattern(),
    {
        (self.extensions, self.search_paths, self.name_pattern)
    }
}

/// Building the first phase: the hooks of the attached extensions run one
/// after another, in attach order, and the first failure ends the build.
pub struct InitBuild<E> {
    extensions: Vec<E>,
    run: Sequence,
}

impl<E> Init<E> {
    /// Starts the build: the configuration's search paths and name pattern
    /// are handed back, and the first extension's hook is to run (or the
    /// build is done at once when no extension is attached).
    pub fn start_build(self) -> (r: (InitBuild<E>, SequenceStep, Vec<String>, String))
        ensures
            r.0.extensions() == self.extensions(),
            r.0.completed() == 0,
            r.1 == first_step(self.extensions().len()),
            r.0.running() <==> r.1 is Run,
            r.0.wf(),
            texts_view(r.2@) == self.search_paths(),
            r.3@ == self.name_pattern(),
    {
        let Init { extensions, search_paths, name_pattern } = self;
        let (run, step) = Sequence::start(extensions.len());
        (InitBuild { extensions, run }, step, search_paths, name_pattern)
    }
}

impl<E> InitBuild<E> {
    /// The extensions whose hooks run, in attach order.
    pub closed spec fn extensions(&self) -> Seq<E> {
        self.extensions@
    }

    /// How many hooks succeeded.
    pub closed spec fn completed(&self) -> nat {
        self.run.completed()
    }

    /// Whether a hook runs and its report is awaited: the one of extension
    /// `completed()`.
    pub closed spec fn running(&self) -> bool {
        self.run.running()
    }

    /// The build's state is consistent.
    pub closed spec fn wf(&self) -> bool {
        &&& self.run.wf()
        &&& self.run.total() == self.extensions@.len()
    }

    /// The extension at position `i`, whose hook is to run.
    pub fn extension(&self, i: usize) -> (r: &E)
        requires
            i < self.extensions().len(),
        ensures
            *r == self.extensions()[i as int],
    {
        &self.extensions[i]
    }

    /// Takes the report of the running hook and says what to do next: the
    /// next extension's hook, `Done` after the last, or `Stop` on a failure.
    pub fn report(&mut self, ok: bool) -> (r: SequenceStep)
        requires
            old(self).wf(),
            old(self).running(),
        ensures
            final(self).wf(),
            final(self).extensions() == old(self).extensions(),
            r == step_after(old(self).extensions().len(), old(self).completed(), ok),
            final(self).completed() == if ok { old(self).completed() + 1 } else { old(self).completed() },
            final(self).running() <==> r is Run,
            r matches SequenceStep::Run(i) ==> i == final(self).completed(),
    {
        self.run.report(ok)
    }

    /// Ends a build whose hooks all succeeded: the application enters the
    /// second phase with what the hooks left and the routes they added.
    pub fn finish<C, R, M>(self, context: C, routes: Vec<R>) -> (r: Core<Build<C, R, M>>)
        requires
            self.wf(),
            self.completed() == self.extensions().len(),
        ensures
            r.build().context() == context,
            r.build().routes() == routes@,
            r.build().modules() == Seq::<M>::empty(),
    {
        Core::built(context, routes)
    }
}

impl<E> Core<Init<E>> {
    /// The phase reached.
    pub closed spec fn init(&self) -> Init<E> {
        self.phase
    }

    /// A new application: no extensions, no search paths, and configuration
    /// files named `*.{ext}`.
    pub fn new() -> (r: Core<Init<E>>)
        ensures
            r.init().extensions() == Seq::<E>::empty(),
            r.init().search_paths() == Seq::<Seq<char>>::empty(),
            r.init().name_pattern() == "*.{ext}"@,
    {
        let r = Core {
            phase: Init { extensions: Vec::new(), search_paths: Vec::new(), name_pattern: "*.{ext}".to_owned() },
        };
        proof {
            assert(texts_view(r.phase.search_paths@) =~= Seq::<Seq<char>>::empty());
        }
        r
    }

    /// Attaches an extension, after those already attached.
    pub fn attach(self, extension: E) -> (r: Core<Init<E>>)
        ensures
            r.init().extensions() == self.init().extensions().push(extension),
            r.init().search_paths() == self.init().search_paths(),
            r.init().name_pattern() == self.init().name_pattern(),
    {
        let mut phase = self.phase;
        phase.extensions.push(extension);
        Core { phase }
    }

    /// Adds a directory to search for configuration files, after those
    /// already given.
    pub fn config_search_path(self, path: &str) -> (r: Core<Init<E>>)
        ensures
            r.init().search_paths() == self.init().search_paths().push(path@),
            r.init().extensions() == self.init().extensions(),
            r.init().name_pattern() == self.init().name_pattern(),
    {
        let mut phase = self.phase;
        let ghost before = phase.search_paths@;
        phase.search_paths.push(path.to_owned());
        proof {
            assert(texts_view(phase.search_paths@) =~= texts_view(before).push(path@));
        }
        Core { phase }
    }

    /// The phase, to be built.
    pub fn into_phase(self) -> (r: Init<E>)
        ensures
            r == self.init(),
    {
        self.phase
    }
}

impl<E> Default for Core<Init<E>> {
    fn default() -> (r: Core<Init<E>>)
        ensures
            r.init().extensions() == Seq::<E>::empty(),
            r.init().search_paths() == Seq::<Seq<char>>::empty(),
            r.init().name_pattern() == "*.{ext}"@,
    {
        Core::new()
    }
}

/// The second phase: the extensions have run; routes and modules are added.
/// `C` holds what the extensions left (the store and the configuration).
pub struct Build<C, R, M> {
    context: C,
    routes: Vec<R>,
    modules: Vec<M>,
}

impl<C, R, M> Phase for Build<C, R, M> {}

impl<C, R, M> Build<C, R, M> {
    /// What the extensions left.
    pub closed spec fn context(&self) -> C {
        self.context
    }

    /// The routes, in the order they were added.
    pub closed spec fn routes(&self) -> Seq<R> {
        self.routes@
    }

    /// The modules, in the order they were added.
    pub closed spec fn modules(&self) -> Seq<M> {
        self.modules@
    }

    /// Splits into the context, the routes and the modules.
    pub fn into_parts(self) -> (r: (C, Vec<R>, Vec<M>))
        ensures
            r.0 == self.context(),
            r.1@ == self.routes(),
            r.2@ == self.modules(),
    {
        (self.context, self.routes, self.modules)
    }
}

impl<C, R, M> Core<Build<C, R, M>> {
    /// The phase reached.
    pub closed spec fn build(&self) -> Build<C, R, M> {
        self.phase
    }

    /// The application after its extensions ran: what they left, the routes
    /// they added, and no modules yet.
    pub fn built(context: C, routes: Vec<R>) -> (r: Core<Build<C, R, M>>)
        ensures
            r.build().context() == context,
            r.build().routes() == routes@,
            r.build().modules() == Seq::<M>::empty(),
    {
        Core { phase: Build { context, routes, modules: Vec::new() } }
    }

    /// Adds routes, after those already added.
    pub fn route(self, route: R) -> (r: Core<Build<C, R, M>>)
        ensures
            r.build().routes() == self.build().routes().push(route),
            r.build().modules() == self.build().modules(),
            r.build().context() == self.build().context(),
    {
        let mut phase = self.phase;
        phase.routes.push(route);
        Core { phase }
    }

    /// Adds a module, after those already added.
    pub fn module(self, module: M) -> (r: Core<Build<C, R, M>>)
        ensures
            r.build().modules() == self.build().modules().push(module),
            r.build().routes() == self.build().routes(),
            r.build().context() == self.build().context(),
    {
        let mut phase = self.phase;
        phase.modules.push(module);
        Core { phase }
    }

    /// The phase, to be built.
    pub fn into_phase(self) -> (r: Build<C, R, M>)
        ensures
            r == self.build(),
    {
        self.phase
    }
}

/// The last phase: the application is one service.
pub struct Start<S> {
    pub service: S,
}

impl<S> Phase for Start<S> {}

/// The service that answers every request with an empty response.
#[derive(Debug, Clone, Copy, Default)]
pub struct CoreService;

} // verus!
