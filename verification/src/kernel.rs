//! The kernel invocation builder.
//!
//! A [`Kernel`] stands for one stream of a live session. Arguments are
//! accumulated in call order, the launch is enqueued behind their transfers,
//! and the outputs are copied back when the caller completes the chain. The
//! builder decides and records every device operation as a [`Step`]; the
//! caller performs the steps in the order in which they were recorded.

use vstd::prelude::*;
use crate::params::Param;

verus! {

/// Launch configuration of one invocation, supplied by the caller.
#[derive(Debug, Clone, Copy, PartialEq, Eq, Structural)]
pub struct KernelConfig {
    /// Grid size: the number of work groups.
    pub global_work_size: usize,
    /// Block size: the number of work items in one group.
    pub local_work_size: usize,
    /// Bytes of dynamic shared memory per group.
    pub shared_mem: usize,
}

/// One argument of a kernel invocation.
#[derive(Debug, Clone, Copy, PartialEq, Eq, Structural)]
pub enum KernelArg {
    /// A host-side argument, with the transfers that its shape asks for.
    Host(Param),
    /// A device buffer that mirrors a host slice; passed by address, with no
    /// transfer of its own.
    DevArg { bytes: usize },
    /// A device-resident buffer; passed by address, with no transfer.
    DevData { bytes: usize },
    /// A deliberately absent device pointer.
    Empty,
}

impl KernelArg {
    /// Whether the argument is copied back to the host after the launch.
    pub open spec fn spec_has_output(self) -> bool {
        self matches KernelArg::Host(p) && p.spec_has_output()
    }

    /// The argument describes memory that can exist.
    pub open spec fn wf(self) -> bool {
        self matches KernelArg::Host(p) ==> p.wf()
    }

    /// Whether the argument is copied back to the host after the launch.
    pub fn has_output(&self) -> (b: bool)
        ensures
            b == self.spec_has_output(),
    {
        match self {
            KernelArg::Host(p) => p.has_output(),
            _ => false,
        }
    }
}

/// One device operation. `arg` counts the arguments of a chain of
/// invocations from zero, in the order in which they were given.
#[derive(Debug, Clone, Copy, PartialEq, Eq, Structural)]
pub enum Step {
    /// Allocate a device buffer of `bytes` bytes for argument `arg`.
    Allocate { arg: usize, bytes: usize },
    /// Enqueue the copy of argument `arg` from the host into its buffer.
    CopyToDevice { arg: usize },
    /// Enqueue the launch of the chain's current function.
    Launch { config: KernelConfig },
    /// Block until the stream has drained.
    Synchronize,
    /// Copy the buffer of argument `arg` back to the host.
    CopyToHost { arg: usize },
}

/// The operations that receiving `arg` as argument number `index` asks for.
pub open spec fn upload_steps(arg: KernelArg, index: usize) -> Seq<Step> {
    match arg {
        KernelArg::Host(p) => if !p.spec_needs_buffer() {
            seq![]
        } else if p.spec_has_input() {
            seq![
                Step::Allocate { arg: index, bytes: p.spec_size() as usize },
                Step::CopyToDevice { arg: index },
            ]
        } else {
            seq![Step::Allocate { arg: index, bytes: p.spec_size() as usize }]
        },
        _ => seq![],
    }
}

/// The copies back to the host that the arguments `lo..hi` ask for, in
/// argument order.
pub open spec fn download_steps(args: Seq<KernelArg>, lo: int, hi: int) -> Seq<Step>
    decreases hi - lo,
{
    if hi <= lo {
        seq![]
    } else if args[hi - 1].spec_has_output() {
        download_steps(args, lo, hi - 1).push(Step::CopyToHost { arg: (hi - 1) as usize })
    } else {
        download_steps(args, lo, hi - 1)
    }
}

/// No launch has been enqueued since the stream was last synchronized: the
/// device is not writing to any buffer.
pub open spec fn quiet(steps: Seq<Step>) -> bool
    decreases steps.len(),
{
    if steps.len() == 0 {
        true
    } else {
        match steps.last() {
            Step::Synchronize => true,
            Step::Launch { .. } => false,
            _ => quiet(steps.drop_last()),
        }
    }
}

/// Every copy back to the host happens while the stream is quiet: the host
/// never observes an output that a kernel is still writing.
pub open spec fn outputs_guarded(steps: Seq<Step>) -> bool
    decreases steps.len(),
{
    if steps.len() == 0 {
        true
    } else {
        &&& outputs_guarded(steps.drop_last())
        &&& steps.last() is CopyToHost ==> quiet(steps.drop_last())
    }
}

/// A kernel name is usable if it holds no NUL character.
pub open spec fn valid_kernel_name(name: Seq<char>) -> bool {
    forall|i: int| 0 <= i < name.len() ==> name[i] != '\0'
}

/// Whether a kernel name is usable: it holds no NUL character.
pub fn is_valid_kernel_name(name: &str) -> (b: bool)
    ensures
        b == valid_kernel_name(name@),
{
    let chars: Vec<char> = crate::text::to_chars(name);
    let n: usize = chars.len();
    let mut i: usize = 0;
    while i < n
        invariant
            0 <= i <= n,
            n == chars@.len(),
            chars@ == name@,
            forall|k: int| 0 <= k < i ==> chars@[k] != '\0',
        decreases n - i,
    {
        if chars[i] == '\0' {
            return false;
        }
        i = i + 1;
    }
    true
}

/// The operations that receiving the arguments `args` asks for, the first
/// of them as argument number `first`.
pub open spec fn all_upload_steps(args: Seq<KernelArg>, first: int) -> Seq<Step>
    decreases args.len(),
{
    if args.len() == 0 {
        Seq::<Step>::empty()
    } else {
        all_upload_steps(args.drop_last(), first) + upload_steps(
            args.last(),
            (first + args.len() - 1) as usize,
        )
    }
}

/// One stream of a live session, ready to take a function name. Whatever
/// was recorded on it, the stream is quiet and every copy back was guarded.
pub struct Kernel {
    steps: Vec<Step>,
}

/// An invocation under construction.
pub struct KernelTask {
    function: String,
    args: Vec<KernelArg>,
    /// Index in `args` of the first argument of the current invocation.
    current: usize,
    steps: Vec<Step>,
}

/// An invocation that has been enqueued; its outputs are still on the device.
pub struct PendingTask {
    task: KernelTask,
}

impl Kernel {
    #[verifier::type_invariant]
    spec fn well_formed(self) -> bool {
        outputs_guarded(self.steps@) && quiet(self.steps@)
    }

    /// The operations recorded so far on this stream.
    pub closed spec fn log(self) -> Seq<Step> {
        self.steps@
    }

    /// A fresh stream, on which nothing has happened.
    pub fn new() -> (k: Kernel)
        ensures
            k.log() == Seq::<Step>::empty(),
    {
        Kernel { steps: Vec::new() }
    }

    /// Starts an invocation of the function `name`.
    pub fn func(self, name: &str) -> (t: KernelTask)
        requires
            valid_kernel_name(name@),
        ensures
            t.function() == name@,
            t.args() == Seq::<KernelArg>::empty(),
            t.current_start() == 0,
            t.log() == self.log(),
            quiet(t.log()),
    {
        proof {
            use_type_invariant(&self);
        }
        KernelTask { function: name.to_owned(), args: Vec::new(), current: 0, steps: self.steps }
    }

    /// The operations recorded so far on this stream. No kernel is running,
    /// and no output was ever copied back while one was.
    pub fn steps(&self) -> (s: &Vec<Step>)
        ensures
            s@ == self.log(),
            outputs_guarded(s@),
            quiet(s@),
    {
        proof {
            use_type_invariant(self);
        }
        &self.steps
    }
}

impl KernelTask {
    #[verifier::type_invariant]
    spec fn well_formed(self) -> bool {
        &&& outputs_guarded(self.steps@)
        &&& self.current <= self.args@.len()
        &&& forall|i: int| 0 <= i < self.args@.len() ==> (#[trigger] self.args@[i]).wf()
    }

    /// The name of the function that the next launch runs.
    pub closed spec fn function(self) -> Seq<char> {
        self.function@
    }

    /// All arguments of the chain, those of earlier invocations first.
    pub closed spec fn args(self) -> Seq<KernelArg> {
        self.args@
    }

    /// Index of the first argument of the invocation under construction.
    pub closed spec fn current_start(self) -> int {
        self.current as int
    }

    /// The operations recorded so far.
    pub closed spec fn log(self) -> Seq<Step> {
        self.steps@
    }

    /// What the task is after it received `arg`: the argument is the last
    /// of the chain, and the operations that it asks for are recorded.
    pub open spec fn received(self, next: KernelTask, arg: KernelArg) -> bool {
        &&& next.function() == self.function()
        &&& next.args() == self.args().push(arg)
        &&& next.current_start() == self.current_start()
        &&& next.log() == self.log() + upload_steps(arg, self.args().len() as usize)
        &&& quiet(self.log()) ==> quiet(next.log())
    }

    fn receive(self, arg: KernelArg) -> (next: KernelTask)
        requires
            arg.wf(),
        ensures
            self.received(next, arg),
    {
        proof {
            use_type_invariant(&self);
        }
        let ghost before = self.steps@;
        let KernelTask { function, args, current, steps } = self;
        let mut args = args;
        let mut steps = steps;
        let index: usize = args.len();
        match arg {
            KernelArg::Host(p) => {
                match p.before_call() {
                    Some((bytes, copy)) => {
                        steps.push(Step::Allocate { arg: index, bytes });
                        proof {
                            lemma_guarded_push(before, Step::Allocate { arg: index, bytes });
                        }
                        if copy {
                            steps.push(Step::CopyToDevice { arg: index });
                            proof {
                                lemma_guarded_push(
                                    before.push(Step::Allocate { arg: index, bytes }),
                                    Step::CopyToDevice { arg: index },
                                );
                            }
                        }
                    },
                    None => {},
                }
            },
            _ => {},
        }
        args.push(arg);
        assert(steps@ =~= before + upload_steps(arg, index));
        KernelTask { function, args, current, steps }
    }

    /// Adds the arguments `args`, in their order.
    pub fn with_args(self, args: &Vec<KernelArg>) -> (next: KernelTask)
        requires
            forall|i: int| 0 <= i < args@.len() ==> (#[trigger] args@[i]).wf(),
        ensures
            next.function() == self.function(),
            next.args() == self.args() + args@,
            next.current_start() == self.current_start(),
            next.log() == self.log() + all_upload_steps(args@, self.args().len() as int),
            quiet(self.log()) ==> quiet(next.log()),
    {
        let ghost first = self.args().len() as int;
        let n: usize = args.len();
        let mut task = self;
        let mut i: usize = 0;
        assert(args@.take(0) =~= Seq::<KernelArg>::empty());
        assert(task.args() =~= self.args() + args@.take(0));
        assert(task.log() =~= self.log() + all_upload_steps(args@.take(0), first));
        while i < n
            invariant
                0 <= i <= n,
                n == args@.len(),
                first == self.args().len(),
                forall|k: int| 0 <= k < args@.len() ==> (#[trigger] args@[k]).wf(),
                task.function() == self.function(),
                task.current_start() == self.current_start(),
                task.args() == self.args() + args@.take(i as int),
                task.log() == self.log() + all_upload_steps(args@.take(i as int), first),
                quiet(self.log()) ==> quiet(task.log()),
            decreases n - i,
        {
            let ghost before = task;
            task = task.receive(args[i]);
            proof {
                assert(args@.take(i + 1).drop_last() =~= args@.take(i as int));
                assert(args@.take(i + 1).last() == args@[i as int]);
                assert(task.args() =~= self.args() + args@.take(i + 1));
                assert(before.args().len() == first + i);
                assert(task.log() =~= self.log() + all_upload_steps(args@.take(i + 1), first));
            }
            i = i + 1;
        }
        assert(args@.take(n as int) =~= args@);
        task
    }

    /// Adds a scalar that is passed by value.
    pub fn val(self, input: crate::params::Value) -> (next: KernelTask)
        ensures
            self.received(next, KernelArg::Host(Param::InVal(input))),
    {
        assert(input.spec_size() * 1 == input.spec_size());
        self.receive(KernelArg::Host(Param::InVal(input)))
    }

    /// Adds a value of `item_size` bytes that the kernel reads.
    pub fn in_ref(self, item_size: usize) -> (next: KernelTask)
        ensures
            self.received(next, KernelArg::Host(Param::InRef { item_size })),
    {
        assert(item_size * 1 == item_size);
        self.receive(KernelArg::Host(Param::InRef { item_size }))
    }

    /// Adds a value of `item_size` bytes that the kernel reads and writes.
    pub fn in_mut(self, item_size: usize) -> (next: KernelTask)
        ensures
            self.received(next, KernelArg::Host(Param::InMut { item_size })),
    {
        assert(item_size * 1 == item_size);
        self.receive(KernelArg::Host(Param::InMut { item_size }))
    }

    /// Adds a value of `item_size` bytes that the kernel writes.
    pub fn out(self, item_size: usize) -> (next: KernelTask)
        ensures
            self.received(next, KernelArg::Host(Param::Out { item_size })),
    {
        assert(item_size * 1 == item_size);
        self.receive(KernelArg::Host(Param::Out { item_size }))
    }

    /// Adds a slice of `len` items of `item_size` bytes that the kernel reads.
    pub fn in_ref_slice(self, len: usize, item_size: usize) -> (next: KernelTask)
        requires
            len * item_size <= usize::MAX,
        ensures
            self.received(next, KernelArg::Host(Param::InRefSlice { len, item_size })),
    {
        assert(item_size * len == len * item_size) by (nonlinear_arith);
        self.receive(KernelArg::Host(Param::InRefSlice { len, item_size }))
    }

    /// Adds a slice that the kernel reads and writes.
    pub fn in_mut_slice(self, len: usize, item_size: usize) -> (next: KernelTask)
        requires
            len * item_size <= usize::MAX,
        ensures
            self.received(next, KernelArg::Host(Param::InMutSlice { len, item_size })),
    {
        assert(item_size * len == len * item_size) by (nonlinear_arith);
        self.receive(KernelArg::Host(Param::InMutSlice { len, item_size }))
    }

    /// Adds a slice that the kernel writes.
    pub fn out_slice(self, len: usize, item_size: usize) -> (next: KernelTask)
        requires
            len * item_size <= usize::MAX,
        ensures
            self.received(next, KernelArg::Host(Param::OutSlice { len, item_size })),
    {
        assert(item_size * len == len * item_size) by (nonlinear_arith);
        self.receive(KernelArg::Host(Param::OutSlice { len, item_size }))
    }

    /// Adds the device side of a mirrored host slice.
    pub fn dev_arg(self, param: &crate::buffer::DeviceParam) -> (next: KernelTask)
        ensures
            self.received(next, KernelArg::DevArg { bytes: param.spec_bytes() as usize }),
    {
        self.receive(KernelArg::DevArg { bytes: param.bytes() })
    }

    /// Adds a device-resident buffer.
    pub fn dev_data(self, data: &crate::buffer::DeviceData) -> (next: KernelTask)
        ensures
            self.received(next, KernelArg::DevData { bytes: data.spec_size() as usize }),
    {
        self.receive(KernelArg::DevData { bytes: data.size() })
    }

    /// Adds a deliberately absent device pointer.
    pub fn empty(self) -> (next: KernelTask)
        ensures
            self.received(next, KernelArg::Empty),
    {
        self.receive(KernelArg::Empty)
    }

    /// Enqueues the launch behind the transfers of the arguments.
    pub fn launch(self, config: KernelConfig) -> (pending: PendingTask)
        ensures
            pending.function() == self.function(),
            pending.args() == self.args(),
            pending.current_start() == self.current_start(),
            pending.log() == self.log().push(Step::Launch { config }),
    {
        proof {
            use_type_invariant(&self);
            lemma_guarded_push(self.steps@, Step::Launch { config });
        }
        let KernelTask { function, args, current, steps } = self;
        let mut steps = steps;
        steps.push(Step::Launch { config });
        PendingTask { task: KernelTask { function, args, current, steps } }
    }

    /// The arguments of the chain, those of earlier invocations first.
    pub fn arguments(&self) -> (a: &Vec<KernelArg>)
        ensures
            a@ == self.args(),
    {
        &self.args
    }

    /// The operations recorded so far. No output was ever copied back while
    /// a kernel was running.
    pub fn steps(&self) -> (s: &Vec<Step>)
        ensures
            s@ == self.log(),
            outputs_guarded(s@),
    {
        proof {
            use_type_invariant(self);
        }
        &self.steps
    }
}

impl PendingTask {
    /// The name of the function that was launched last.
    pub closed spec fn function(self) -> Seq<char> {
        self.task.function()
    }

    /// All arguments of the chain, those of earlier invocations first.
    pub closed spec fn args(self) -> Seq<KernelArg> {
        self.task.args()
    }

    /// Index of the first argument of the invocation that was launched
    /// last.
    pub closed spec fn current_start(self) -> int {
        self.task.current_start()
    }

    /// The operations recorded so far.
    pub closed spec fn log(self) -> Seq<Step> {
        self.task.log()
    }

    /// Goes on to another invocation of the same function without waiting
    /// for the device. The outputs of the invocations enqueued so far stay
    /// outstanding until the chain is completed.
    pub fn next_call(self) -> (t: KernelTask)
        ensures
            t.function() == self.function(),
            t.args() == self.args(),
            t.current_start() == self.args().len(),
            t.log() == self.log(),
    {
        proof {
            use_type_invariant(&self.task);
        }
        let KernelTask { function, args, current, steps } = self.task;
        let start: usize = args.len();
        KernelTask { function, args, current: start, steps }
    }

    /// Goes on to an invocation of the function `name` without waiting for
    /// the device.
    pub fn next_call_function(self, name: &str) -> (t: KernelTask)
        requires
            valid_kernel_name(name@),
        ensures
            t.function() == name@,
            t.args() == self.args(),
            t.current_start() == self.args().len(),
            t.log() == self.log(),
    {
        proof {
            use_type_invariant(&self.task);
        }
        let KernelTask { function, args, current, steps } = self.task;
        let start: usize = args.len();
        KernelTask { function: name.to_owned(), args, current: start, steps }
    }

    /// Completes the chain: waits for the device, copies every output of
    /// every invocation of the chain back to the host, in argument order,
    /// and waits for those copies.
    pub fn complete(self) -> (k: Kernel)
        ensures
            k.log() == self.log().push(Step::Synchronize) + download_steps(
                self.args(),
                0,
                self.args().len() as int,
            ).push(Step::Synchronize),
    {
        proof {
            use_type_invariant(&self.task);
        }
        let KernelTask { function, args, current, steps } = self.task;
        let mut steps = steps;
        let ghost start = steps@;
        proof {
            lemma_guarded_push(start, Step::Synchronize);
        }
        steps.push(Step::Synchronize);
        sync_back(&args, &mut steps);
        let ghost copied = steps@;
        proof {
            lemma_guarded_push(copied, Step::Synchronize);
        }
        steps.push(Step::Synchronize);
        Kernel { steps }
    }

    /// The arguments of the chain, those of earlier invocations first.
    pub fn arguments(&self) -> (a: &Vec<KernelArg>)
        ensures
            a@ == self.args(),
    {
        &self.task.args
    }

    /// The operations recorded so far. No output was ever copied back while
    /// a kernel was running.
    pub fn steps(&self) -> (s: &Vec<Step>)
        ensures
            s@ == self.log(),
            outputs_guarded(s@),
    {
        proof {
            use_type_invariant(&self.task);
        }
        &self.task.steps
    }
}

/// Records the copy back of every output among `args`.
fn sync_back(args: &Vec<KernelArg>, steps: &mut Vec<Step>)
    requires
        outputs_guarded(old(steps)@),
        quiet(old(steps)@),
    ensures
        outputs_guarded(final(steps)@),
        quiet(final(steps)@),
        final(steps)@ == old(steps)@ + download_steps(args@, 0, args@.len() as int),
{
    let n: usize = args.len();
    let ghost start = steps@;
    let mut i: usize = 0;
    assert(steps@ =~= start + download_steps(args@, 0, 0));
    while i < n
        invariant
            0 <= i <= n,
            n == args@.len(),
            steps@ == start + download_steps(args@, 0, i as int),
            outputs_guarded(steps@),
            quiet(steps@),
        decreases n - i,
    {
        let ghost before = steps@;
        if args[i].has_output() {
            proof {
                lemma_guarded_push(before, Step::CopyToHost { arg: i });
            }
            steps.push(Step::CopyToHost { arg: i });
        }
        i = i + 1;
        assert(steps@ =~= start + download_steps(args@, 0, i as int));
    }
}

/// Recording a step keeps every copy back guarded, provided that a copy
/// back is recorded only on a quiet stream. Only a launch ends the quiet.
pub proof fn lemma_guarded_push(steps: Seq<Step>, step: Step)
    requires
        outputs_guarded(steps),
        step is CopyToHost ==> quiet(steps),
    ensures
        outputs_guarded(steps.push(step)),
        step is Synchronize ==> quiet(steps.push(step)),
        !(step is Launch) && quiet(steps) ==> quiet(steps.push(step)),
{
    assert(steps.push(step).drop_last() =~= steps);
    assert(steps.push(step).last() == step);
}

} // verus!
