//! The dispatcher: owns one worker per attached plugin and fans every sent
//! command out to all of them.
//!
//! The host keeps its workers in attach order and never removes one except
//! through `end`, which reports every worker's terminal status in that same
//! order. Each worker owns its plugin exclusively; a worker whose plugin has
//! asked to stop delivers nothing further to it. Calls on one host must be
//! serialized by the caller: the host does no locking of its own bookkeeping.
//!
//! Delivery here is the dispatch discipline itself; a runtime that wants one
//! execution unit per plugin puts each worker behind its own queue and drives
//! it with the same steps.

use vstd::prelude::*;
use crate::message::Message;
use crate::plugin::{Plugin, plugin_run, plugin_step};
use crate::queue::BoundedQueue;

verus! {

/// Why a construction attempt produced no plugin handle: either the module
/// itself could not be loaded (missing file, invalid format), or it was
/// loaded but the expected entry point was not found in it.
#[derive(Clone, Copy, Debug, PartialEq, Eq, Structural)]
pub enum LoadError {
    /// The module could not be loaded at all.
    ModuleNotLoaded,
    /// The module was loaded, but the constructor entry point is absent.
    EntryPointMissing,
}

/// One attached plugin together with its delivery bookkeeping: the plugin's
/// current state, its terminal status if it has stopped, and the capacity its
/// queue was given at attach time. The ghost fields record the plugin's state
/// at attach time and every command offered to the worker since.
pub struct Worker<T, P> {
    plugin: P,
    status: Option<u8>,
    capacity: usize,
    init: Ghost<P>,
    offered: Ghost<Seq<T>>,
    joined: Ghost<nat>,
}

impl<T, P: Plugin<T>> Worker<T, P> {
    /// The plugin's state when it was attached.
    pub closed spec fn initial_plugin(self) -> P {
        self.init@
    }

    /// Every command offered to this worker since attach, in send order.
    pub closed spec fn offered(self) -> Seq<T> {
        self.offered@
    }

    /// The plugin's state now.
    pub closed spec fn plugin_now(self) -> P {
        self.plugin
    }

    /// `Some(code)`: the plugin asked to stop and `code` is its terminal
    /// status. `None`: still running.
    pub closed spec fn status(self) -> Option<u8> {
        self.status
    }

    /// The queue capacity fixed for this plugin at attach time.
    pub closed spec fn capacity(self) -> usize {
        self.capacity
    }

    /// How long the host's broadcast log was when this plugin was attached:
    /// commands sent earlier never reach it.
    pub closed spec fn attach_point(self) -> nat {
        self.joined@
    }

    /// The commands this worker actually handed to the plugin's handler.
    pub open spec fn handled(self) -> Seq<T> {
        plugin_run(self.initial_plugin(), self.offered()).2
    }

    /// The worker has not yet seen its plugin ask to stop.
    pub open spec fn is_running(self) -> bool {
        self.status() is None
    }

    /// The worker's state is exactly what folding the delivery rule over the
    /// offered commands yields.
    pub open spec fn wf(self) -> bool {
        &&& self.plugin_now() == plugin_run(self.initial_plugin(), self.offered()).0
        &&& self.status() == plugin_run(self.initial_plugin(), self.offered()).1
    }

    /// Starts bookkeeping for a freshly attached plugin.
    pub fn new(plugin: P, capacity: usize) -> (w: Worker<T, P>)
        ensures
            w.wf(),
            w.initial_plugin() == plugin,
            w.plugin_now() == plugin,
            w.is_running(),
            w.offered() == Seq::<T>::empty(),
            w.handled() == Seq::<T>::empty(),
            w.capacity() == capacity,
            w.attach_point() == 0,
    {
        Worker {
            plugin,
            status: None,
            capacity,
            init: Ghost(plugin),
            offered: Ghost(Seq::empty()),
            joined: Ghost(0),
        }
    }

    /// Offers one message to this worker: a running plugin is handed the
    /// message and may ask to stop; a stopped plugin is left untouched and
    /// never sees it.
    pub fn deliver(&mut self, message: Message<T>)
        requires
            old(self).wf(),
        ensures
            final(self).wf(),
            delivery(*old(self), *final(self), message@),
    {
        let ghost command = message@;
        let ghost before = *self;
        if self.status.is_none() {
            let answer = self.plugin.handle_message(message);
            self.status = answer;
        }
        self.offered = Ghost(self.offered@.push(command));
        proof {
            assert(self.offered@.drop_last() =~= before.offered@);
            assert(plugin_run(self.init@, self.offered@)
                == plugin_step(plugin_run(self.init@, before.offered@), command));
        }
    }

    /// Runs this worker over a queue that will receive nothing further: the
    /// pending messages are taken out oldest first and offered to the worker
    /// in that order, until the queue is empty. Once the plugin asks to stop,
    /// the remaining messages are still drained but kept away from it.
    ///
    /// This is the drain step of a shutdown: a runtime that parks each
    /// worker behind its own queue closes the queue and then lets the worker
    /// finish exactly like this.
    pub fn drain(&mut self, queue: &mut BoundedQueue<Message<T>>)
        requires
            old(self).wf(),
        ensures
            final(self).wf(),
            final(self).initial_plugin() == old(self).initial_plugin(),
            final(self).capacity() == old(self).capacity(),
            final(self).attach_point() == old(self).attach_point(),
            final(queue).contents().len() == 0,
            final(queue).capacity_spec() == old(queue).capacity_spec(),
            final(self).offered() == old(self).offered() + old(queue).contents().map_values(
                |m: Message<T>| m@,
            ),
    {
        let ghost mut taken: int = 0;
        while queue.len() > 0
            invariant
                self.wf(),
                self.initial_plugin() == old(self).initial_plugin(),
                self.capacity() == old(self).capacity(),
                self.attach_point() == old(self).attach_point(),
                queue.capacity_spec() == old(queue).capacity_spec(),
                0 <= taken <= old(queue).contents().len(),
                queue.contents() == old(queue).contents().skip(taken),
                self.offered() == old(self).offered() + old(queue).contents().take(taken)
                    .map_values(|m: Message<T>| m@),
            decreases queue.contents().len(),
        {
            let received = queue.recv();
            match received {
                Some(message) => {
                    let ghost command = message@;
                    self.deliver(message);
                    proof {
                        let pending = old(queue).contents();
                        assert(pending.skip(taken).drop_first() =~= pending.skip(taken + 1));
                        assert(pending.skip(taken)[0] == pending[taken]);
                        assert(pending.take(taken + 1) =~= pending.take(taken).push(
                            pending[taken],
                        ));
                        assert(pending.take(taken + 1).map_values(|m: Message<T>| m@)
                            =~= pending.take(taken).map_values(|m: Message<T>| m@).push(command));
                        taken = taken + 1;
                    }
                },
                None => {
                    proof {
                        assert(false);
                    }
                },
            }
        }
        proof {
            assert(taken == old(queue).contents().len());
            assert(old(queue).contents().take(taken) =~= old(queue).contents());
        }
    }

    /// The plugin's terminal status so far, `None` while it is running.
    pub fn status_code(&self) -> (status: Option<u8>)
        ensures
            status == self.status(),
    {
        self.status
    }
}

/// How one `deliver` relates a worker's state before and after being offered
/// `command`: the offered log grows by `command`; a running plugin advances
/// by its own model and its answer becomes the worker's status; a stopped
/// plugin, and what it has handled, stay exactly as they were.
pub open spec fn delivery<T, P: Plugin<T>>(
    before: Worker<T, P>,
    after: Worker<T, P>,
    command: T,
) -> bool {
    &&& after.initial_plugin() == before.initial_plugin()
    &&& after.capacity() == before.capacity()
    &&& after.attach_point() == before.attach_point()
    &&& after.offered() == before.offered().push(command)
    &&& (before.is_running() ==> {
        &&& after.plugin_now() == before.plugin_now().next_state(command)
        &&& after.status() == before.plugin_now().response(command)
        &&& after.handled() == before.handled().push(command)
    })
    &&& (!before.is_running() ==> {
        &&& after.plugin_now() == before.plugin_now()
        &&& after.status() == before.status()
        &&& after.handled() == before.handled()
    })
}

/// The dispatcher: the ordered list of attached plugins' workers, insertion
/// order equal to attach order.
pub struct Host<T, P> {
    workers: Vec<Worker<T, P>>,
    log: Ghost<Seq<T>>,
}

impl<T, P: Plugin<T>> View for Host<T, P> {
    type V = Seq<Worker<T, P>>;

    closed spec fn view(&self) -> Seq<Worker<T, P>> {
        self.workers@
    }
}

impl<T, P: Plugin<T>> Host<T, P> {
    /// By default, a plugin's queue is sized for this many messages.
    pub const DEFAULT_CHANNEL_CAPACITY: usize = 4;

    /// Every command this host has broadcast, in send order.
    pub closed spec fn log(self) -> Seq<T> {
        self.log@
    }

    /// Every worker's bookkeeping is consistent, and what each worker has
    /// been offered is exactly the broadcast log from its attach point on.
    pub open spec fn wf(self) -> bool {
        forall|i: int| 0 <= i < self@.len() ==> {
            &&& (#[trigger] self@[i]).wf()
            &&& self@[i].attach_point() <= self.log().len()
            &&& self@[i].offered() == self.log().skip(self@[i].attach_point() as int)
        }
    }

    /// A host starts with no attached plugins.
    pub fn new() -> (host: Host<T, P>)
        ensures
            host.wf(),
            host@.len() == 0,
            host.log() == Seq::<T>::empty(),
    {
        Host { workers: Vec::new(), log: Ghost(Seq::empty()) }
    }

    /// How many plugins are attached.
    pub fn attached_count(&self) -> (count: usize)
        ensures
            count == self@.len(),
    {
        self.workers.len()
    }

    /// Attaches a plugin with the default queue capacity.
    pub fn attach(&mut self, plugin: P)
        requires
            old(self).wf(),
        ensures
            final(self).wf(),
            final(self)@.len() == old(self)@.len() + 1,
            forall|i: int| 0 <= i < old(self)@.len() ==> final(self)@[i] == old(self)@[i],
            attached(final(self)@.last(), plugin, Self::DEFAULT_CHANNEL_CAPACITY as usize),
            final(self).log() == old(self).log(),
            final(self)@.last().attach_point() == old(self).log().len(),
    {
        self.attach_with_capacity(plugin, Self::DEFAULT_CHANNEL_CAPACITY)
    }

    /// Attaches a plugin whose queue is sized for `capacity` messages: a new
    /// worker, still running and with nothing offered yet, is appended after
    /// every worker already attached.
    pub fn attach_with_capacity(&mut self, plugin: P, capacity: usize)
        requires
            old(self).wf(),
        ensures
            final(self).wf(),
            final(self)@.len() == old(self)@.len() + 1,
            forall|i: int| 0 <= i < old(self)@.len() ==> final(self)@[i] == old(self)@[i],
            attached(final(self)@.last(), plugin, capacity),
            final(self).log() == old(self).log(),
            final(self)@.last().attach_point() == old(self).log().len(),
    {
        let mut worker = Worker::new(plugin, capacity);
        worker.joined = Ghost(self.log@.len());
        self.workers.push(worker);
        proof {
            assert(self.log@.skip(self.log@.len() as int) =~= Seq::<T>::empty());
        }
    }

    /// Sends one command to every attached plugin: the command is wrapped in
    /// a single message once, and a duplicate of that message is offered to
    /// each worker in attach order. With no plugins attached this does
    /// nothing. A worker whose plugin has already stopped keeps the command
    /// away from it.
    pub fn send(&mut self, command: T)
        requires
            old(self).wf(),
        ensures
            final(self).wf(),
            final(self)@.len() == old(self)@.len(),
            final(self).log() == old(self).log().push(command),
            forall|i: int| 0 <= i < old(self)@.len()
                ==> delivery(old(self)@[i], #[trigger] final(self)@[i], command),
    {
        let message = Message::new(command);
        self.log = Ghost(self.log@.push(command));
        let n = self.workers.len();
        let mut i: usize = 0;
        while i < n
            invariant
                i <= n,
                n == self.workers@.len(),
                self.workers@.len() == old(self)@.len(),
                old(self).wf(),
                message@ == command,
                self.log@ == old(self).log().push(command),
                forall|j: int| 0 <= j < self.workers@.len() ==> (#[trigger] self.workers@[j]).wf(),
                forall|j: int| 0 <= j < i ==> {
                    &&& delivery(old(self)@[j], #[trigger] self.workers@[j], command)
                    &&& self.workers@[j].attach_point() <= self.log@.len()
                    &&& self.workers@[j].offered() == self.log@.skip(
                        self.workers@[j].attach_point() as int,
                    )
                },
                forall|j: int| i <= j < n ==> self.workers@[j] == old(self)@[j],
            decreases n - i,
        {
            let ghost point = self.workers@[i as int].attach_point() as int;
            proof {
                assert(self.workers@[i as int] == old(self)@[i as int]);
                assert(0 <= point <= old(self).log().len());
            }
            self.workers[i].deliver(message.clone());
            proof {
                assert(old(self).log().push(command).skip(point) =~= old(self).log().skip(point)
                    .push(command));
            }
            i += 1;
        }
    }

    /// Closes the dispatch down: reports every worker's terminal status, in
    /// attach order, and detaches all of them. A plugin that asked to stop is
    /// reported as `Some` of its status code; one that was still running when
    /// the host ended is reported as `None`.
    pub fn end(&mut self) -> (statuses: Vec<Option<u8>>)
        ensures
            final(self).wf(),
            final(self)@.len() == 0,
            final(self).log() == old(self).log(),
            statuses@.len() == old(self)@.len(),
            forall|i: int| 0 <= i < old(self)@.len()
                ==> statuses@[i] == (#[trigger] old(self)@[i]).status(),
    {
        let mut statuses: Vec<Option<u8>> = Vec::new();
        let n = self.workers.len();
        let mut i: usize = 0;
        while i < n
            invariant
                i <= n,
                n == self.workers@.len(),
                self.workers@ == old(self)@,
                statuses@.len() == i,
                forall|j: int| 0 <= j < i
                    ==> statuses@[j] == (#[trigger] old(self)@[j]).status(),
            decreases n - i,
        {
            statuses.push(self.workers[i].status_code());
            i += 1;
        }
        self.workers.clear();
        statuses
    }

    /// Takes in the outcome of one plugin construction attempt.
    ///
    /// A failed load (`Err`) is handed back and attaches nothing; a module
    /// that was loaded but declined to construct a plugin — for instance
    /// because the configuration value it was offered was not of the shape it
    /// expects — attaches nothing either, and the host is left exactly as it
    /// was. Only a constructed handle is attached, with the default queue
    /// capacity, and `Ok(true)` reports that it was.
    pub fn attach_constructed(&mut self, outcome: Result<Option<P>, LoadError>) -> (report: Result<
        bool,
        LoadError,
    >)
        requires
            old(self).wf(),
        ensures
            final(self).wf(),
            outcome matches Err(e) ==> report == Result::<bool, LoadError>::Err(e)
                && *final(self) == *old(self),
            outcome matches Ok(None::<P>) ==> report == Result::<bool, LoadError>::Ok(false)
                && *final(self) == *old(self),
            outcome matches Ok(Some(plugin)) ==> {
                &&& report == Result::<bool, LoadError>::Ok(true)
                &&& final(self)@.len() == old(self)@.len() + 1
                &&& (forall|i: int| 0 <= i < old(self)@.len()
                    ==> final(self)@[i] == old(self)@[i])
                &&& attached(final(self)@.last(), plugin,
                    Self::DEFAULT_CHANNEL_CAPACITY as usize)
                &&& final(self).log() == old(self).log()
                &&& final(self)@.last().attach_point() == old(self).log().len()
            },
    {
        match outcome {
            Err(e) => Err(e),
            Ok(None) => Ok(false),
            Ok(Some(plugin)) => {
                self.attach(plugin);
                Ok(true)
            },
        }
    }
}

/// The delivery discipline, stated of any consistent worker: its plugin's
/// handler has observed exactly a prefix of the commands offered to the
/// worker since attach, in the order they were sent — never reordered, never
/// duplicated — and a plugin that has not asked to stop has observed all of
/// them.
pub proof fn lemma_worker_delivery_discipline<T, P: Plugin<T>>(w: Worker<T, P>)
    requires
        w.wf(),
    ensures
        w.handled().len() <= w.offered().len(),
        w.handled() == w.offered().take(w.handled().len() as int),
        w.is_running() ==> w.handled() == w.offered(),
{
    crate::plugin::lemma_handled_is_prefix(w.initial_plugin(), w.offered());
    if w.is_running() {
        crate::plugin::lemma_running_handles_all(w.initial_plugin(), w.offered());
    }
}

/// The delivery discipline at the host: what any attached plugin's worker
/// has been offered is exactly the broadcast history from the moment the
/// plugin was attached on — nothing sent earlier, nothing out of order — and
/// its handler has observed exactly a prefix of that, all of it if the
/// plugin never asked to stop.
pub proof fn lemma_host_delivery_discipline<T, P: Plugin<T>>(host: Host<T, P>, i: int)
    requires
        host.wf(),
        0 <= i < host@.len(),
    ensures
        host@[i].offered() == host.log().skip(host@[i].attach_point() as int),
        host@[i].handled() == host@[i].offered().take(host@[i].handled().len() as int),
        host@[i].is_running() ==> host@[i].handled() == host@[i].offered(),
{
    lemma_worker_delivery_discipline(host@[i]);
}

/// What holds of a worker the moment its plugin was attached with queue
/// capacity `capacity`: running, nothing offered or handled yet.
pub open spec fn attached<T, P: Plugin<T>>(w: Worker<T, P>, plugin: P, capacity: usize) -> bool {
    &&& w.wf()
    &&& w.initial_plugin() == plugin
    &&& w.plugin_now() == plugin
    &&& w.is_running()
    &&& w.offered() == Seq::<T>::empty()
    &&& w.handled() == Seq::<T>::empty()
    &&& w.capacity() == capacity
}

} // verus!
