//! Engines and the builder of the default one.

use std::sync::Arc;

use vstd::prelude::*;
use vstd::utf8::{decode_utf8, valid_utf8};

use crate::engine_options::{is_listed_at, names_are_distinct, options_of, EngineOptions};
use crate::error::{DeltaError, DeltaResult};
use crate::sharing::share;
use crate::strings::{fails_with_utf8_error, KernelStringSlice, TryFromStringSlice};
use crate::tables::{is_table_url, unwrap_and_parse_path_as_url};

verus! {

/// Numbers of threads for the executor that runs on several. `None` leaves the number to the
/// executor.
#[derive(Clone, Copy, Debug)]
pub struct MultithreadedExecutorConfig {
    pub worker_threads: Option<usize>,
    pub max_blocking_threads: Option<usize>,
}

/// A builder that allows setting options on an engine before it is built.
///
/// `A` is what allocates errors on the engine's side.
#[derive(Debug)]
pub struct EngineBuilder<A> {
    url: String,
    allocate_fn: A,
    options: EngineOptions,
    multithreaded_executor_config: Option<MultithreadedExecutorConfig>,
}

/// What a builder was told so far.
#[verifier::ext_equal]
pub struct EngineBuilderView<A> {
    pub url: Seq<char>,
    pub allocate_fn: A,
    pub options: Map<Seq<char>, Seq<char>>,
    pub multithreaded_executor_config: Option<MultithreadedExecutorConfig>,
}

impl<A> View for EngineBuilder<A> {
    type V = EngineBuilderView<A>;

    closed spec fn view(&self) -> EngineBuilderView<A> {
        EngineBuilderView {
            url: self.url@,
            allocate_fn: self.allocate_fn,
            options: self.options@,
            multithreaded_executor_config: self.multithreaded_executor_config,
        }
    }
}

/// A builder that was told nothing but the URL of the table.
pub open spec fn new_builder<A>(url: Seq<char>, allocate_fn: A) -> EngineBuilderView<A> {
    EngineBuilderView {
        url,
        allocate_fn,
        options: Map::empty(),
        multithreaded_executor_config: None,
    }
}

impl<A> EngineBuilder<A> {
    /// Sets an option. A value that it had before is replaced.
    pub fn set_option(&mut self, key: String, val: String)
        ensures
            final(self)@ == (EngineBuilderView {
                options: old(self)@.options.insert(key@, val@),
                ..old(self)@
            }),
    {
        self.options.set(key, val);
    }

    /// What allocates errors on the engine's side.
    pub fn allocate_fn(&self) -> (allocate_fn: &A)
        ensures
            *allocate_fn == self@.allocate_fn,
    {
        &self.allocate_fn
    }
}

/// Which executor an engine runs its tasks on.
#[derive(Clone, Copy, Debug)]
pub enum TaskExecutor {
    /// A single background thread.
    Background,
    /// A runtime of its own, with several threads.
    MultiThread(MultithreadedExecutorConfig),
}

/// All that is needed to make a default engine.
#[derive(Debug)]
pub struct DefaultEnginePlan<A> {
    pub url: String,
    pub options: Vec<(String, String)>,
    pub executor: TaskExecutor,
    pub allocate_error: A,
}

/// The executor that a configuration asks for: the background thread where there is none.
pub open spec fn executor_for(config: Option<MultithreadedExecutorConfig>) -> TaskExecutor {
    match config {
        Some(config) => TaskExecutor::MultiThread(config),
        None => TaskExecutor::Background,
    }
}

/// True where `plan` makes the engine that a builder was told of.
pub open spec fn is_plan_for<A>(plan: DefaultEnginePlan<A>, builder: EngineBuilderView<A>) -> bool {
    &&& plan.url@ == builder.url
    &&& names_are_distinct(plan.options@)
    &&& options_of(plan.options@) == builder.options
    &&& plan.executor == executor_for(builder.multithreaded_executor_config)
    &&& plan.allocate_error == builder.allocate_fn
}

/// Gets a builder for an engine over the table at a path. Options can be set on it before the
/// engine is made of it.
pub fn get_engine_builder<A>(path: KernelStringSlice<'_>, allocate_error: A) -> (r: DeltaResult<
    EngineBuilder<A>,
>)
    ensures
        exists|url: DeltaResult<String>| #[trigger]
            is_table_url(path@, url) && is_new_builder(url, allocate_error, r),
{
    let url = unwrap_and_parse_path_as_url(path);
    get_engine_builder_impl(url, allocate_error)
}

/// True where `r` is a new builder for the table at `url`, or the error that came in its place.
pub open spec fn is_new_builder<A>(
    url: DeltaResult<String>,
    allocate_fn: A,
    r: DeltaResult<EngineBuilder<A>>,
) -> bool {
    match url {
        Ok(url) => r matches Ok(builder) && builder@ == new_builder(url@, allocate_fn),
        Err(e) => r == Err::<EngineBuilder<A>, _>(e),
    }
}

/// Makes a builder once the URL of the table was looked for.
pub fn get_engine_builder_impl<A>(url: DeltaResult<String>, allocate_fn: A) -> (r: DeltaResult<
    EngineBuilder<A>,
>)
    ensures
        is_new_builder(url, allocate_fn, r),
{
    match url {
        Ok(url) => Ok(
            EngineBuilder {
                url,
                allocate_fn,
                options: EngineOptions::new(),
                multithreaded_executor_config: None,
            },
        ),
        Err(e) => Err(e),
    }
}

/// Sets an option on a builder. Fails, and leaves the builder as it was, where the key or else the
/// value is not UTF-8.
pub fn set_builder_option<A>(
    builder: &mut EngineBuilder<A>,
    key: KernelStringSlice<'_>,
    value: KernelStringSlice<'_>,
) -> (r: DeltaResult<bool>)
    ensures
        !valid_utf8(key@) ==> {
            &&& r matches Err(e) && fails_with_utf8_error(key@, e@)
            &&& *final(builder) == *old(builder)
        },
        valid_utf8(key@) && !valid_utf8(value@) ==> {
            &&& r matches Err(e) && fails_with_utf8_error(value@, e@)
            &&& *final(builder) == *old(builder)
        },
        valid_utf8(key@) && valid_utf8(value@) ==> {
            &&& r == Ok::<bool, DeltaError>(true)
            &&& final(builder)@ == (EngineBuilderView {
                options: old(builder)@.options.insert(decode_utf8(key@), decode_utf8(value@)),
                ..old(builder)@
            })
        },
{
    let key: String = match TryFromStringSlice::try_from_slice(&key) {
        Ok(key) => key,
        Err(e) => return Err(e),
    };
    let value: String = match TryFromStringSlice::try_from_slice(&value) {
        Ok(value) => value,
        Err(e) => return Err(e),
    };
    builder.set_option(key, value);
    Ok(true)
}

/// The number of threads that is meant: zero leaves it to the executor.
pub open spec fn thread_count(threads: usize) -> Option<usize> {
    if threads == 0 {
        None
    } else {
        Some(threads)
    }
}

/// Has the engine run its tasks on several threads instead of a single background thread. A
/// number of threads that is 0 is left to the executor.
pub fn set_builder_with_multithreaded_executor<A>(
    builder: &mut EngineBuilder<A>,
    worker_threads: usize,
    max_blocking_threads: usize,
)
    ensures
        final(builder)@ == (EngineBuilderView {
            multithreaded_executor_config: Some(
                MultithreadedExecutorConfig {
                    worker_threads: thread_count(worker_threads),
                    max_blocking_threads: thread_count(max_blocking_threads),
                },
            ),
            ..old(builder)@
        }),
{
    let worker_threads = if worker_threads != 0 {
        Some(worker_threads)
    } else {
        None
    };
    let max_blocking_threads = if max_blocking_threads != 0 {
        Some(max_blocking_threads)
    } else {
        None
    };
    builder.multithreaded_executor_config =
    Some(MultithreadedExecutorConfig { worker_threads, max_blocking_threads });
}

/// Consumes the builder and says how the engine is made.
pub fn builder_build<A>(builder: EngineBuilder<A>) -> (plan: DefaultEnginePlan<A>)
    ensures
        is_plan_for(plan, builder@),
{
    get_default_engine_impl(
        builder.url,
        builder.options,
        builder.multithreaded_executor_config,
        builder.allocate_fn,
    )
}

/// Says how the default engine over the table at a path is made: without options, on a single
/// background thread.
pub fn get_default_engine<A>(path: KernelStringSlice<'_>, allocate_error: A) -> (r: DeltaResult<
    DefaultEnginePlan<A>,
>)
    ensures
        exists|url: DeltaResult<String>| #[trigger]
            is_table_url(path@, url) && is_default_plan(url, allocate_error, r),
{
    let url = unwrap_and_parse_path_as_url(path);
    get_default_default_engine_impl(url, allocate_error)
}

/// True where `r` makes the default engine over the table at `url`, or is the error that came in
/// its place.
pub open spec fn is_default_plan<A>(
    url: DeltaResult<String>,
    allocate_error: A,
    r: DeltaResult<DefaultEnginePlan<A>>,
) -> bool {
    match url {
        Ok(url) => r matches Ok(plan) && is_plan_for(plan, new_builder(url@, allocate_error)),
        Err(e) => r == Err::<DefaultEnginePlan<A>, _>(e),
    }
}

/// Says how the default engine is made once the URL of the table was looked for.
pub fn get_default_default_engine_impl<A>(url: DeltaResult<String>, allocate_error: A) -> (r:
    DeltaResult<DefaultEnginePlan<A>>)
    ensures
        is_default_plan(url, allocate_error, r),
{
    match url {
        Ok(url) => Ok(get_default_engine_impl(url, EngineOptions::new(), None, allocate_error)),
        Err(e) => Err(e),
    }
}

/// Says how an engine with the given options is made. With a configuration it runs its tasks on
/// several threads of its own, without one on a single background thread.
pub fn get_default_engine_impl<A>(
    url: String,
    options: EngineOptions,
    executor_config: Option<MultithreadedExecutorConfig>,
    allocate_error: A,
) -> (plan: DefaultEnginePlan<A>)
    ensures
        is_plan_for(
            plan,
            EngineBuilderView {
                url: url@,
                allocate_fn: allocate_error,
                options: options@,
                multithreaded_executor_config: executor_config,
            },
        ),
{
    let executor = match executor_config {
        Some(config) => TaskExecutor::MultiThread(config),
        None => TaskExecutor::Background,
    };
    DefaultEnginePlan { url, options: options.into_entries(), executor, allocate_error }
}

/// An engine, with what errors are allocated with on its side.
pub trait ExternEngine {
    /// The kernel's view of the engine.
    type Engine;

    /// What allocates errors.
    type Allocator;

    /// The engine.
    spec fn engine_spec(&self) -> Arc<Self::Engine>;

    /// What allocates its errors.
    spec fn error_allocator_spec(&self) -> Self::Allocator;

    /// The engine.
    fn engine(&self) -> (engine: Arc<Self::Engine>)
        ensures
            engine == self.engine_spec(),
    ;

    /// What allocates errors on the engine's side.
    fn error_allocator(&self) -> (allocator: &Self::Allocator)
        ensures
            *allocator == self.error_allocator_spec(),
    ;
}

/// An engine together with what allocates errors on its side.
#[derive(Debug)]
pub struct ExternEngineVtable<E, A> {
    engine: Arc<E>,
    allocate_error: A,
}

impl<E, A> ExternEngine for ExternEngineVtable<E, A> {
    type Engine = E;

    type Allocator = A;

    closed spec fn engine_spec(&self) -> Arc<E> {
        self.engine
    }

    closed spec fn error_allocator_spec(&self) -> A {
        self.allocate_error
    }

    fn engine(&self) -> (engine: Arc<E>) {
        share(&self.engine)
    }

    fn error_allocator(&self) -> (allocator: &A) {
        &self.allocate_error
    }
}

/// A shared engine.
#[derive(Debug)]
pub struct SharedExternEngine<E, A> {
    pub engine: Arc<ExternEngineVtable<E, A>>,
}

impl<E, A> SharedExternEngine<E, A> {
    /// The same engine once more.
    pub fn clone_as_arc(&self) -> (engine: Arc<ExternEngineVtable<E, A>>)
        ensures
            engine == self.engine,
    {
        share(&self.engine)
    }
}

/// Shares an engine that allocates its errors with `allocate_error`.
pub fn engine_to_handle<E, A>(engine: Arc<E>, allocate_error: A) -> (handle: SharedExternEngine<
    E,
    A,
>)
    ensures
        handle.engine.engine_spec() == engine,
        handle.engine.error_allocator_spec() == allocate_error,
{
    SharedExternEngine { engine: Arc::new(ExternEngineVtable { engine, allocate_error }) }
}

/// A builder on which nothing was set makes the default engine.
pub proof fn law_builder_without_settings_is_default<A>(
    url: Seq<char>,
    allocate_error: A,
    plan: DefaultEnginePlan<A>,
)
    requires
        is_plan_for(plan, new_builder(url, allocate_error)),
    ensures
        plan.url@ == url,
        plan.options@.len() == 0,
        plan.executor == TaskExecutor::Background,
        plan.allocate_error == allocate_error,
{
    if plan.options@.len() > 0 {
        let name = plan.options@[0].0@;
        assert(is_listed_at(plan.options@, name, 0));
        assert(options_of(plan.options@).dom().contains(name));
    }
}

/// An engine is made with exactly the options that were set, each listed once.
pub proof fn law_options_reach_the_engine<A>(
    plan: DefaultEnginePlan<A>,
    builder: EngineBuilderView<A>,
    name: Seq<char>,
    value: Seq<char>,
)
    requires
        is_plan_for(plan, builder),
    ensures
        builder.options.contains_pair(name, value) <==> exists|i: int|
            0 <= i < plan.options@.len() && #[trigger] plan.options@[i].0@ == name
                && plan.options@[i].1@ == value,
{
    let entries = plan.options@;
    if builder.options.contains_pair(name, value) {
        assert(options_of(entries).dom().contains(name));
        let i = choose|i: int| is_listed_at(entries, name, i);
        assert(is_listed_at(entries, name, i));
        assert(entries[i].0@ == name);
    }
    if exists|i: int|
        0 <= i < entries.len() && #[trigger] entries[i].0@ == name && entries[i].1@ == value {
        let i = choose|i: int|
            0 <= i < entries.len() && #[trigger] entries[i].0@ == name && entries[i].1@ == value;
        assert(is_listed_at(entries, name, i));
        let j = choose|j: int| is_listed_at(entries, name, j);
        assert(is_listed_at(entries, name, j));
        assert(i == j);
        assert(options_of(entries).dom().contains(name));
    }
}

/// The engine runs its tasks on several threads exactly where the builder was told to, with the
/// numbers of threads that were given, but for a zero, which leaves the number open. The options,
/// the table and what allocates errors are not touched by it.
pub proof fn law_threads_reach_the_engine<A>(
    builder: EngineBuilderView<A>,
    worker_threads: usize,
    max_blocking_threads: usize,
    plan: DefaultEnginePlan<A>,
)
    requires
        is_plan_for(
            plan,
            EngineBuilderView {
                multithreaded_executor_config: Some(
                    MultithreadedExecutorConfig {
                        worker_threads: thread_count(worker_threads),
                        max_blocking_threads: thread_count(max_blocking_threads),
                    },
                ),
                ..builder
            },
        ),
    ensures
        plan.executor matches TaskExecutor::MultiThread(config) && {
            &&& worker_threads == 0 <==> config.worker_threads is None
            &&& config.worker_threads matches Some(n) ==> n == worker_threads
            &&& max_blocking_threads == 0 <==> config.max_blocking_threads is None
            &&& config.max_blocking_threads matches Some(n) ==> n == max_blocking_threads
        },
        plan.url@ == builder.url,
        options_of(plan.options@) == builder.options,
        plan.allocate_error == builder.allocate_fn,
{
}

/// An engine is of the table that its builder was made for, allocates its errors as the builder was
/// told, and runs its tasks as it was told: on a background thread where nothing was said.
pub proof fn law_engine_is_made_as_told<A>(
    builder: EngineBuilderView<A>,
    plan: DefaultEnginePlan<A>,
)
    requires
        is_plan_for(plan, builder),
    ensures
        plan.url@ == builder.url,
        plan.allocate_error == builder.allocate_fn,
        plan.executor is Background <==> builder.multithreaded_executor_config is None,
        plan.executor matches TaskExecutor::MultiThread(config)
            ==> builder.multithreaded_executor_config == Some(config),
        forall|i: int, j: int|
            0 <= i < plan.options@.len() && 0 <= j < plan.options@.len()
                && #[trigger] plan.options@[i].0@ == #[trigger] plan.options@[j].0@ ==> i == j,
{
}

/// An option that is set reaches the engine with the value that it was set to last, and under no
/// other value. Options of other names reach it as before.
pub proof fn law_last_value_of_an_option_counts<A>(
    builder: EngineBuilderView<A>,
    name: Seq<char>,
    value: Seq<char>,
    other: Seq<char>,
    plan: DefaultEnginePlan<A>,
)
    requires
        is_plan_for(
            plan,
            EngineBuilderView { options: builder.options.insert(name, value), ..builder },
        ),
    ensures
        exists|i: int|
            0 <= i < plan.options@.len() && #[trigger] plan.options@[i].0@ == name
                && plan.options@[i].1@ == value,
        forall|i: int|
            0 <= i < plan.options@.len() && #[trigger] plan.options@[i].0@ == name
                ==> plan.options@[i].1@ == value,
        forall|i: int|
            0 <= i < plan.options@.len() && #[trigger] plan.options@[i].0@ != name
                ==> builder.options.contains_pair(plan.options@[i].0@, plan.options@[i].1@),
        other != name && builder.options.contains_key(other) ==> exists|i: int|
            0 <= i < plan.options@.len() && #[trigger] plan.options@[i].0@ == other
                && plan.options@[i].1@ == builder.options[other],
{
    let told = EngineBuilderView { options: builder.options.insert(name, value), ..builder };
    law_options_reach_the_engine(plan, told, name, value);
    assert(told.options.contains_pair(name, value));
    assert forall|i: int| 0 <= i < plan.options@.len() implies told.options.contains_pair(
        #[trigger] plan.options@[i].0@,
        plan.options@[i].1@,
    ) by {
        law_options_reach_the_engine(plan, told, plan.options@[i].0@, plan.options@[i].1@);
    }
    if other != name && builder.options.contains_key(other) {
        assert(told.options.contains_pair(other, builder.options[other]));
        law_options_reach_the_engine(plan, told, other, builder.options[other]);
    }
}

/// A builder or a default engine is of the URL that was found, without options and on a background
/// thread, and comes exactly where one was found. Otherwise the error that came in its place is
/// returned.
pub proof fn law_engine_is_of_the_url_that_was_found<A>(
    url: DeltaResult<String>,
    allocate_error: A,
    builder: DeltaResult<EngineBuilder<A>>,
    plan: DeltaResult<DefaultEnginePlan<A>>,
)
    requires
        is_new_builder(url, allocate_error, builder),
        is_default_plan(url, allocate_error, plan),
    ensures
        url matches Err(e) ==> {
            &&& builder == Err::<EngineBuilder<A>, DeltaError>(e)
            &&& plan == Err::<DefaultEnginePlan<A>, DeltaError>(e)
        },
        url matches Ok(u) ==> {
            &&& builder is Ok
            &&& builder->Ok_0@.url == u@
            &&& builder->Ok_0@.options == Map::<Seq<char>, Seq<char>>::empty()
            &&& builder->Ok_0@.multithreaded_executor_config is None
            &&& builder->Ok_0@.allocate_fn == allocate_error
            &&& plan is Ok
            &&& plan->Ok_0.url@ == u@
            &&& plan->Ok_0.options@.len() == 0
            &&& plan->Ok_0.executor is Background
            &&& plan->Ok_0.allocate_error == allocate_error
        },
{
    if url is Ok {
        law_builder_without_settings_is_default(url->Ok_0@, allocate_error, plan->Ok_0);
    }
}

} // verus!
