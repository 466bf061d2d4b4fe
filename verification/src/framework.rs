//! The choice between the two frameworks through which a device is driven.

use vstd::prelude::*;
use crate::error::GpuError;

verus! {

/// A framework through which a device is driven.
#[derive(Debug, Clone, Copy, PartialEq, Eq, Structural)]
pub enum Framework {
    Cuda,
    Opencl,
}

/// The framework that is used for a device whose own framework is
/// `device`, where the caller asks for `requested` and the library was
/// built with support for CUDA (`cuda`) and for OpenCL (`opencl`). A request
/// for "cuda" or "opencl" decides, and is refused where that support was
/// not built in; any other request, or none, leaves the choice to the
/// device.
pub open spec fn spec_check_framework(
    requested: Option<Seq<char>>,
    device: Framework,
    cuda: bool,
    opencl: bool,
) -> Result<Framework, GpuError> {
    match requested {
        Some(name) => if name == "cuda"@ {
            if cuda {
                Ok(Framework::Cuda)
            } else {
                Err(GpuError::UnsupportedBackend)
            }
        } else if name == "opencl"@ {
            if opencl {
                Ok(Framework::Opencl)
            } else {
                Err(GpuError::UnsupportedBackend)
            }
        } else {
            Ok(device)
        },
        None => Ok(device),
    }
}

/// Selects the framework for a device. `requested` is what the caller asks
/// for, if anything; `device` is the framework of the device itself.
pub fn check_framework(requested: Option<&str>, device: Framework, cuda: bool, opencl: bool) -> (r:
    Result<Framework, GpuError>)
    ensures
        r == spec_check_framework(
            match requested {
                Some(name) => Some(name@),
                None => None,
            },
            device,
            cuda,
            opencl,
        ),
{
    match requested {
        Some(name) => {
            let asked: String = name.to_owned();
            if asked == "cuda".to_owned() {
                if cuda {
                    Ok(Framework::Cuda)
                } else {
                    Err(GpuError::UnsupportedBackend)
                }
            } else if asked == "opencl".to_owned() {
                if opencl {
                    Ok(Framework::Opencl)
                } else {
                    Err(GpuError::UnsupportedBackend)
                }
            } else {
                Ok(device)
            }
        },
        None => Ok(device),
    }
}

/// What the caller is told where the framework `framework` was asked for
/// and is not built in.
pub fn unsupported_message(framework: Framework) -> (m: &'static str)
    ensures
        m@ == (match framework {
            Framework::Cuda => "CUDA framework is not supported, please compile with the `cuda` feature enabled."@,
            Framework::Opencl => "OpenCL framework is not supported, please compile with the `opencl` feature enabled."@,
        }),
{
    match framework {
        Framework::Cuda => "CUDA framework is not supported, please compile with the `cuda` feature enabled.",
        Framework::Opencl => "OpenCL framework is not supported, please compile with the `opencl` feature enabled.",
    }
}

} // verus!
