use vstd::prelude::*;

use crate::error::{IslandError, IslandResult};
use crate::world::World;

verus! {

/// A native extension with hooks into the world's lifecycle. Plugins run
/// beside the scripts and get direct access to the world.
pub trait Plugin {
    /// Called once each time a scene is (re)loaded.
    fn init(&mut self, world: &mut World) -> IslandResult<()>;

    /// Called once each frame, after the scripts' updates.
    fn update(&mut self, world: &mut World) -> IslandResult<()>;

    /// Called once each frame, after the built-in render pass.
    fn render(&self, world: &World) -> IslandResult<()>;
}

/// One of a plugin's hooks.
#[derive(Clone, Copy, Debug, PartialEq, Eq, Structural)]
pub enum Hook {
    Init,
    Update,
    Render,
}

/// One recorded hook invocation: which hook, on which plugin (by
/// registration position), and what it returned.
pub type Call = (Hook, nat, IslandResult<()>);

/// `calls` is the record of a pass of `hook` over `n` plugins that returned
/// `r`: the plugins were called in registration order, one each, starting
/// from the first; every call but the last succeeded; the pass went on to
/// the end exactly when the last call succeeded, and otherwise returned that
/// call's error.
pub open spec fn stopping_pass(calls: Seq<Call>, hook: Hook, n: nat, r: IslandResult<()>) -> bool {
    &&& calls.len() <= n
    &&& forall|j: int| 0 <= j < calls.len() ==> (#[trigger] calls[j]).0 == hook && calls[j].1 == j
    &&& forall|j: int| 0 <= j < calls.len() - 1 ==> (#[trigger] calls[j]).2 is Ok
    &&& match r {
        Ok(()) => calls.len() == n && (n > 0 ==> calls.last().2 is Ok),
        Err(_) => calls.len() > 0 && calls.last().2 == r,
    }
}

/// The errors among recorded calls, in order.
pub open spec fn errors_of(calls: Seq<Call>) -> Seq<IslandError>
    decreases calls.len(),
{
    if calls.len() == 0 {
        Seq::empty()
    } else {
        match calls.last().2 {
            Err(e) => errors_of(calls.drop_last()).push(e),
            Ok(()) => errors_of(calls.drop_last()),
        }
    }
}

/// The plugins of an application, in registration order, with a record of
/// every hook invocation made through the registry.
pub struct PluginRegistry<P: Plugin> {
    plugins: Vec<P>,
    calls: Ghost<Seq<Call>>,
}

impl<P: Plugin> PluginRegistry<P> {
    /// How many plugins are registered.
    pub closed spec fn count(&self) -> nat {
        self.plugins@.len()
    }

    /// Every hook invocation made through this registry, in order.
    pub closed spec fn history(&self) -> Seq<Call> {
        self.calls@
    }

    /// Register plugins, in the order given.
    pub fn new(plugins: Vec<P>) -> (r: Self)
        ensures
            r.count() == plugins@.len(),
            r.history() == Seq::<Call>::empty(),
    {
        PluginRegistry { plugins, calls: Ghost(Seq::empty()) }
    }

    /// How many plugins are registered.
    pub fn len(&self) -> (r: usize)
        ensures
            r == self.count(),
    {
        self.plugins.len()
    }

    /// One pass of `init` or `update` over the plugins, in registration
    /// order, stopping at the first failure, whose error comes back.
    fn stopping_run(&mut self, world: &mut World, hook: Hook) -> (r: IslandResult<()>)
        requires
            hook != Hook::Render,
        ensures
            final(self).count() == old(self).count(),
            final(self).history().subrange(0, old(self).history().len() as int) == old(self).history(),
            stopping_pass(
                final(self).history().subrange(
                    old(self).history().len() as int,
                    final(self).history().len() as int,
                ),
                hook,
                old(self).count(),
                r,
            ),
            old(self).count() == 0 ==> r is Ok && *final(world) == *old(world),
    {
        let ghost start = self.calls@;
        let n = self.plugins.len();
        let mut i: usize = 0;
        while i < n
            invariant
                n == self.plugins@.len(),
                n == old(self).count(),
                i <= n,
                start == old(self).history(),
                n == 0 ==> *world == *old(world),
                self.calls@.len() == start.len() + i,
                self.calls@.subrange(0, start.len() as int) == start,
                forall|j: int|
                    0 <= j < i ==> (#[trigger] self.calls@[start.len() + j]).0 == hook
                        && self.calls@[start.len() + j].1 == j && self.calls@[start.len() + j].2 is Ok,
            decreases n - i,
        {
            let res = if hook == Hook::Init {
                self.plugins[i].init(world)
            } else {
                self.plugins[i].update(world)
            };
            let ghost outcome = res;
            self.calls = Ghost(self.calls@.push((hook, i as nat, outcome)));
            if let Err(e) = res {
                let ghost pass = self.calls@.subrange(start.len() as int, self.calls@.len() as int);
                assert(pass.last() == self.calls@[start.len() + i]);
                assert forall|j: int| 0 <= j < pass.len() implies (#[trigger] pass[j]).0 == hook
                    && pass[j].1 == j by {
                    assert(pass[j] == self.calls@[start.len() + j]);
                }
                assert forall|j: int| 0 <= j < pass.len() - 1 implies (#[trigger] pass[j]).2 is Ok by {
                    assert(pass[j] == self.calls@[start.len() + j]);
                }
                assert(self.calls@.subrange(0, start.len() as int) =~= start);
                return Err(e);
            }
            assert(outcome is Ok);
            i = i + 1;
        }
        proof {
            let pass = self.calls@.subrange(start.len() as int, self.calls@.len() as int);
            assert forall|j: int| 0 <= j < pass.len() implies (#[trigger] pass[j]).0 == hook && pass[j].1
                == j && pass[j].2 is Ok by {
                assert(pass[j] == self.calls@[start.len() + j]);
            }
            if n > 0 {
                assert(pass[n - 1] == self.calls@[start.len() + n - 1]);
            }
        }
        Ok(())
    }

    /// Run every plugin's `init`, in registration order. The first failure
    /// ends the pass and its error comes back.
    pub fn init_all(&mut self, world: &mut World) -> (r: IslandResult<()>)
        ensures
            final(self).count() == old(self).count(),
            final(self).history().subrange(0, old(self).history().len() as int) == old(self).history(),
            stopping_pass(
                final(self).history().subrange(
                    old(self).history().len() as int,
                    final(self).history().len() as int,
                ),
                Hook::Init,
                old(self).count(),
                r,
            ),
            old(self).count() == 0 ==> r is Ok && *final(world) == *old(world),
    {
        self.stopping_run(world, Hook::Init)
    }

    /// Run every plugin's `update`, in registration order. The first failure
    /// ends the pass and its error comes back.
    pub fn update_all(&mut self, world: &mut World) -> (r: IslandResult<()>)
        ensures
            final(self).count() == old(self).count(),
            final(self).history().subrange(0, old(self).history().len() as int) == old(self).history(),
            stopping_pass(
                final(self).history().subrange(
                    old(self).history().len() as int,
                    final(self).history().len() as int,
                ),
                Hook::Update,
                old(self).count(),
                r,
            ),
            old(self).count() == 0 ==> r is Ok && *final(world) == *old(world),
    {
        self.stopping_run(world, Hook::Update)
    }

    /// Run every plugin's `render`, in registration order. A failing render
    /// does not stop the others: the failures come back, in order, for the
    /// caller to log.
    pub fn render_all(&mut self, world: &World) -> (failures: Vec<IslandError>)
        ensures
            final(self).count() == old(self).count(),
            final(self).history().subrange(0, old(self).history().len() as int) == old(self).history(),
            final(self).history().len() == old(self).history().len() + old(self).count(),
            forall|j: int|
                0 <= j < old(self).count() ==> (#[trigger] final(self).history()[old(self).history().len()
                    + j]).0 == Hook::Render && final(self).history()[old(self).history().len() + j].1 == j,
            failures@ == errors_of(
                final(self).history().subrange(
                    old(self).history().len() as int,
                    final(self).history().len() as int,
                ),
            ),
    {
        let ghost start = self.calls@;
        let mut failures: Vec<IslandError> = Vec::new();
        let n = self.plugins.len();
        let mut i: usize = 0;
        while i < n
            invariant
                n == self.plugins@.len(),
                n == old(self).count(),
                i <= n,
                start == old(self).history(),
                self.calls@.len() == start.len() + i,
                self.calls@.subrange(0, start.len() as int) == start,
                forall|j: int|
                    0 <= j < i ==> (#[trigger] self.calls@[start.len() + j]).0 == Hook::Render
                        && self.calls@[start.len() + j].1 == j,
                failures@ == errors_of(self.calls@.subrange(start.len() as int, self.calls@.len() as int)),
            decreases n - i,
        {
            let res = self.plugins[i].render(world);
            let ghost outcome = res;
            let ghost before = self.calls@;
            self.calls = Ghost(self.calls@.push((Hook::Render, i as nat, outcome)));
            proof {
                let pass = self.calls@.subrange(start.len() as int, self.calls@.len() as int);
                assert(pass.drop_last() =~= before.subrange(start.len() as int, before.len() as int));
                assert(pass.last() == (Hook::Render, i as nat, outcome));
                assert(self.calls@.subrange(0, start.len() as int) =~= start);
                assert(self.calls@[start.len() + i] == (Hook::Render, i as nat, outcome));
            }
            match res {
                Ok(()) => {},
                Err(e) => failures.push(e),
            }
            i = i + 1;
        }
        failures
    }
}

impl World {
    /// The plugin part of a frame's update, run once the scripts' updates
    /// are done: every plugin's `update`, once each, in registration order,
    /// stopping at the first failure, whose error comes back. No other hook
    /// runs.
    pub fn update<P: Plugin>(&mut self, plugins: &mut PluginRegistry<P>) -> (r: IslandResult<()>)
        ensures
            final(plugins).count() == old(plugins).count(),
            final(plugins).history().subrange(0, old(plugins).history().len() as int) == old(
                plugins,
            ).history(),
            stopping_pass(
                final(plugins).history().subrange(
                    old(plugins).history().len() as int,
                    final(plugins).history().len() as int,
                ),
                Hook::Update,
                old(plugins).count(),
                r,
            ),
            old(plugins).count() == 0 ==> r is Ok && *final(self) == *old(self),
    {
        plugins.update_all(self)
    }

    /// The plugin part of a frame's render, run after the built-in render
    /// pass: every plugin's `render`, once each, in registration order. The
    /// failures come back, in order; none stops the pass.
    pub fn render<P: Plugin>(&self, plugins: &mut PluginRegistry<P>) -> (failures: Vec<IslandError>)
        ensures
            final(plugins).count() == old(plugins).count(),
            final(plugins).history().subrange(0, old(plugins).history().len() as int) == old(
                plugins,
            ).history(),
            final(plugins).history().len() == old(plugins).history().len() + old(plugins).count(),
            forall|j: int|
                0 <= j < old(plugins).count() ==> (#[trigger] final(plugins).history()[old(
                    plugins,
                ).history().len() + j]).0 == Hook::Render && final(plugins).history()[old(
                    plugins,
                ).history().len() + j].1 == j,
            failures@ == errors_of(
                final(plugins).history().subrange(
                    old(plugins).history().len() as int,
                    final(plugins).history().len() as int,
                ),
            ),
    {
        plugins.render_all(self)
    }
}

} // verus!
