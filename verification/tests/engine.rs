use ark_gpu::buffer::{DeviceData, DeviceParam};
use ark_gpu::context::{CudaContext, CudaWorkspace, ThreadGuard, WorkspaceContextGuard, WorkspaceState};
use ark_gpu::error::{ErrorClass, GpuError};
use ark_gpu::framework::{check_framework, unsupported_message, Framework};
use ark_gpu::kernel::{Kernel, KernelArg, KernelConfig, Step};
use ark_gpu::params::{Param, Value};

#[test]
fn param_shapes() {
    let v = Param::InVal(Value::U32(7));
    assert_eq!((v.items(), v.size(), v.has_input(), v.has_output()), (1, 4, false, false));
    assert_eq!(v.before_call(), None);
    assert_eq!(Param::InVal(Value::Bool(true)).size(), 1);
    let r = Param::InRef { item_size: 32 };
    assert_eq!((r.items(), r.size(), r.has_input(), r.has_output()), (1, 32, true, false));
    assert_eq!(r.before_call(), Some((32, true)));
    let m = Param::InMut { item_size: 8 };
    assert_eq!((m.has_input(), m.has_output()), (true, true));
    let o = Param::Out { item_size: 8 };
    assert_eq!((o.has_input(), o.has_output()), (false, true));
    assert_eq!(o.before_call(), Some((8, false)));
    let s = Param::InRefSlice { len: 10, item_size: 48 };
    assert_eq!((s.items(), s.item_size(), s.size()), (10, 48, 480));
    let ms = Param::InMutSlice { len: 3, item_size: 4 };
    assert_eq!((ms.size(), ms.has_input(), ms.has_output()), (12, true, true));
    let os = Param::OutSlice { len: 0, item_size: 4 };
    assert_eq!((os.size(), os.has_input(), os.has_output()), (0, false, true));
    assert_eq!(os.before_call(), Some((0, false)));
}

#[test]
fn one_invocation_is_scheduled_in_order() {
    let config = KernelConfig { global_work_size: 4, local_work_size: 32, shared_mem: 0 };
    let task = Kernel::new()
        .func("k")
        .val(Value::U32(1))
        .in_ref(16)
        .out_slice(8, 4)
        .in_mut(2)
        .empty();
    assert_eq!(
        task.steps(),
        &vec![
            Step::Allocate { arg: 1, bytes: 16 },
            Step::CopyToDevice { arg: 1 },
            Step::Allocate { arg: 2, bytes: 32 },
            Step::Allocate { arg: 3, bytes: 2 },
            Step::CopyToDevice { arg: 3 },
        ]
    );
    assert_eq!(task.arguments().len(), 5);
    assert_eq!(task.arguments()[4], KernelArg::Empty);
    let kernel = task.launch(config).complete();
    assert_eq!(
        kernel.steps()[5..],
        [
            Step::Launch { config },
            Step::Synchronize,
            Step::CopyToHost { arg: 2 },
            Step::CopyToHost { arg: 3 },
            Step::Synchronize,
        ]
    );
}

#[test]
fn chained_invocations_copy_back_once_at_the_end() {
    let config = KernelConfig { global_work_size: 1, local_work_size: 1, shared_mem: 0 };
    let pending = Kernel::new().func("first").out(4).launch(config);
    let next = pending.next_call_function("second").in_mut_slice(2, 8);
    let kernel = next.launch(config).complete();
    assert_eq!(
        kernel.steps(),
        &vec![
            Step::Allocate { arg: 0, bytes: 4 },
            Step::Launch { config },
            Step::Allocate { arg: 1, bytes: 16 },
            Step::CopyToDevice { arg: 1 },
            Step::Launch { config },
            Step::Synchronize,
            Step::CopyToHost { arg: 0 },
            Step::CopyToHost { arg: 1 },
            Step::Synchronize,
        ]
    );
    let again = kernel.func("third").launch(config).next_call().launch(config).complete();
    assert_eq!(again.steps().len(), 9 + 4);
    assert_eq!(again.steps()[12], Step::Synchronize);
}

#[test]
fn device_buffers_are_passed_without_transfer() {
    let a = DeviceParam::new(16, 144, 1);
    let d = DeviceData::uninitialized(100, 2);
    let task = Kernel::new().func("k").dev_arg(&a).dev_data(&d);
    assert!(task.steps().is_empty());
    assert_eq!(
        task.arguments(),
        &vec![KernelArg::DevArg { bytes: 16 * 144 }, KernelArg::DevData { bytes: 100 }]
    );
    let args = vec![KernelArg::Host(Param::InRef { item_size: 4 }), KernelArg::Empty];
    let more = task.with_args(&args);
    assert_eq!(
        more.steps(),
        &vec![Step::Allocate { arg: 2, bytes: 4 }, Step::CopyToDevice { arg: 2 }]
    );
    assert_eq!(more.arguments().len(), 4);
}

#[test]
fn swapping_exchanges_allocations_only() {
    let mut a = DeviceParam::new(8, 4, 10);
    let mut b = DeviceParam::new(8, 4, 20);
    DeviceParam::swap_device_pointer(&mut a, &mut b);
    assert_eq!((a.allocation(), b.allocation()), (20, 10));
    assert_eq!((a.host_len(), a.bytes()), (8, 32));
    let mut x = DeviceData::upload(4, 8, 1);
    let mut y = DeviceData::uninitialized(32, 2);
    DeviceData::swap_device_pointer(&mut x, &mut y);
    assert_eq!((x.allocation(), y.allocation(), x.size(), y.size()), (2, 1, 32, 32));
}

#[test]
fn second_session_on_a_context_is_refused() {
    let mut context = CudaContext::new();
    let mut thread = ThreadGuard::new();
    let guard = WorkspaceContextGuard::new(&mut context, &mut thread).unwrap();
    assert!(context.is_in_use() && thread.is_active());
    // the same thread
    let again = WorkspaceContextGuard::new(&mut context, &mut thread);
    assert!(matches!(again, Err(GpuError::ContextAlreadyInUse)));
    assert!(context.is_in_use() && thread.is_active());
    // another thread
    let mut other = ThreadGuard::new();
    let elsewhere = WorkspaceContextGuard::new(&mut context, &mut other);
    assert!(matches!(elsewhere, Err(GpuError::ContextAlreadyInUse)));
    assert!(!other.is_active());
    guard.release(&mut context, &mut thread);
    assert!(!context.is_in_use() && !thread.is_active());
    assert!(WorkspaceContextGuard::new(&mut context, &mut other).is_ok());
}

#[test]
fn a_thread_holds_one_session_at_most() {
    let mut first = CudaContext::new();
    let mut second = CudaContext::new();
    let mut thread = ThreadGuard::new();
    let _guard = WorkspaceContextGuard::new(&mut first, &mut thread).unwrap();
    let r = WorkspaceContextGuard::new(&mut second, &mut thread);
    assert!(matches!(r, Err(GpuError::ContextAlreadyInUse)));
    assert!(!second.is_in_use());
    assert!(thread.is_active());
}

#[test]
fn context_and_thread_flags() {
    let mut context = CudaContext::new();
    assert_eq!(context.lock(), Ok(()));
    assert_eq!(context.lock(), Err(GpuError::ContextAlreadyInUse));
    context.unlock();
    assert_eq!(context.lock(), Ok(()));
    let mut thread = ThreadGuard::new();
    assert!(thread.lock_cu_context());
    assert!(!thread.lock_cu_context());
    thread.release_cu_context();
    assert!(thread.lock_cu_context());
}

#[test]
fn workspace_goes_idle_active_idle() {
    let mut workspace = CudaWorkspace::loaded();
    let mut thread = ThreadGuard::new();
    assert_eq!(workspace.current_state(), WorkspaceState::Idle);
    let session = workspace.activate(&mut thread).ok().unwrap();
    assert_eq!(workspace.current_state(), WorkspaceState::Active);
    assert!(workspace.activate(&mut thread).is_err());
    assert!(session.create_kernel().steps().is_empty());
    session.release(&mut workspace, &mut thread);
    assert_eq!(workspace.current_state(), WorkspaceState::Idle);
    assert!(workspace.activate(&mut thread).is_ok());
}

#[test]
fn failures_fall_into_four_classes() {
    assert_eq!(GpuError::UnsupportedBackend.class(), ErrorClass::Configuration);
    assert_eq!(GpuError::ResidualPlaceholder.class(), ErrorClass::Configuration);
    assert_eq!(GpuError::DeviceNotFound.class(), ErrorClass::Resource);
    assert_eq!(GpuError::ContextFailure.class(), ErrorClass::Resource);
    assert_eq!(GpuError::FunctionNotFound.class(), ErrorClass::Resource);
    assert_eq!(GpuError::ContextAlreadyInUse.class(), ErrorClass::ContractViolation);
    assert_eq!(GpuError::DimensionMismatch.class(), ErrorClass::ContractViolation);
    assert_eq!(GpuError::TransferFailed.class(), ErrorClass::TransferOrLaunch);
    assert_eq!(GpuError::LaunchFailed.class(), ErrorClass::TransferOrLaunch);
}

#[test]
fn framework_follows_the_request_or_the_device() {
    assert_eq!(check_framework(None, Framework::Opencl, true, true), Ok(Framework::Opencl));
    assert_eq!(check_framework(Some("cuda"), Framework::Opencl, true, true), Ok(Framework::Cuda));
    assert_eq!(check_framework(Some("opencl"), Framework::Cuda, true, true), Ok(Framework::Opencl));
    assert_eq!(
        check_framework(Some("cuda"), Framework::Opencl, false, true),
        Err(GpuError::UnsupportedBackend)
    );
    assert_eq!(
        check_framework(Some("opencl"), Framework::Cuda, true, false),
        Err(GpuError::UnsupportedBackend)
    );
    assert_eq!(check_framework(Some("CUDA"), Framework::Opencl, false, true), Ok(Framework::Opencl));
    assert_eq!(check_framework(Some(""), Framework::Cuda, false, false), Ok(Framework::Cuda));
    assert!(unsupported_message(Framework::Cuda).starts_with("CUDA framework is not supported"));
    assert!(unsupported_message(Framework::Opencl).starts_with("OpenCL framework is not supported"));
}
