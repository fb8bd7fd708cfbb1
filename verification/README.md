# cuda_oxide

The verified core of a toolchain that compiles Rust kernels for NVIDIA GPUs and
runs them from a Rust host program. The library is written in Verus: what its
functions return is stated in contracts and proved.

| Module     | What it holds                                                      |
|------------|--------------------------------------------------------------------|
| `device`   | thread indices, disjoint slices, atomics, constant memory, fences  |
| `ir`       | the Rust-level and LLVM types that the compiler passes work on     |
| `importer` | MIR locals as stack slots, and the address spaces of those slots   |
| `nvvm`     | debugging operations and their verifiers                           |
| `lowering` | struct layouts, type conversion, lowering of intrinsics to PTX     |
| `export`   | LLVM types as text, and the analysis behind typed pointers         |
| `driver`   | streams, modules, memory and peers over the CUDA driver's calls    |
| `runtime`  | device futures, and results whose future was dropped in flight     |
| `host`     | finding nvJitLink and the backend, linking, embedded modules       |
| `text`     | strings as sequences of characters                                 |

What touches a device, the file system or the environment is handed to the
library as a trait or a function of which nothing is assumed. `app/` provides
these: it loads the CUDA driver and nvJitLink as shared libraries, polls device
futures for an executor, and runs the commands that build the backend.

Properties that relate several functions are stated as proof functions whose
names begin with `law_`.
