# luminal_rocm_lite

The ROCm backend of a graph compiler, in two parts.

`src/` is the library, verified with Verus. It decides and computes on plain
values:

- `host/hipblaslt`: matrix products through hipBLASLt. The parameters of an
  operation and their names in rewrite rules, the device pointers that an
  operation needs, and the calls that describe and start a product.
- `host/rocblas`: single-precision matrix products through rocBLAS.
- `host/flashinfer`: attention kernels that are compiled at run time. The
  architecture to compile for, the cache directory, the search for and the
  fetching of the Composable Kernel headers, and the compilation itself.
- `host/egglog`, `host/size`: what operations tell the e-graph and the memory
  planner about themselves.
- `module_image`: the runtime compilation of HIP source, and its error report.
- `device`, `dtype`, `dyn_backend`: what is known of devices, element types and
  the backend.
- `text`, `numeral`, `path`: texts, numerals and paths.

Work on the device, in the file system or by other programs is handed out step
by step: a run says what is to be done next, and takes the outcome.

`app/` carries the steps out: it calls the driver and the vendor libraries, runs
`hipcc`, `git` and `amd-smi`, and rounds floating-point numbers. The graph
compiler connects through the traits `Expression` and `Runtime` there.

`tests/` holds the tests of the library.
