# Luminal backends

The logic of Luminal's Hexagon and OpenCL backends, verified with Verus.

* `src/` is the library. It says what is compiled, allocated, uploaded, launched
  and read back, and proves it: the compilation of extracted graphs, the text of
  the OpenCL kernels, the bookkeeping of the device buffers, the rewrite rules of
  both dialects, the FastRPC call descriptions, and the weights file and session
  protocol of the resident Qwen3.5 model.
* `app/` holds the devices, the files and the Luminal interfaces around it.
* `tests/` runs the library on concrete values.

Floating-point numbers are held by their bits. Symbolic expressions and host
tensors are type parameters: the host evaluates the former and hands over the
elements of the latter.
