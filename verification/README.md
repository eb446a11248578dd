# hipx

Verified logic for driving the AMD XDNA (AIE-2P) NPU through the
`amdxdna` kernel driver.

`src/` is the library, verified with Verus:

- `bytes`, `ioctl`: little-endian encodings, the ioctl request numbers and
  the byte layout of every driver structure, with encode/decode round trips;
- `ert`, `kernels`: ERT command packets (header bit fields, the packet
  builder for ERT_START_NPU and ERT_START_CU, the DPU kernel packet,
  resetting a packet's state) and the argument layout of the kernels;
- `bo`, `hwctx`, `cmd`, `fence`, `runtime`: what to ask the driver for
  buffer objects, hardware contexts, CU binding, command submission and
  syncobj waits, and what each reply means;
- `device`, `dispatch`, `npu`: probed metadata, SoC classification,
  operation routing, and the NPU runtime's matrix-vector kernel (set up
  once, then reused by every dispatch);
- `agpu`: the amdgpu GEM requests for GTT memory shared with the NPU;
- `reference`: the host references the kernels are checked against
  (integer matrix products with 32-bit accumulation, input patterns,
  mismatch counts, bf16 ULP tallies);
- `asym3`, `bf16`, `xorshift`: index packing, bf16 rounding on bit
  patterns and the test-input generator;
- `fmt`, `text`: the text of error messages.

`app/` performs the system calls (ioctl, mmap, clock, dlopen) and hands
plain values to and from the library; `app/programs.rs` runs whole kernel
checks, given the kernel binaries. `tests/` exercises the library on
concrete values.
