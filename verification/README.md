# webgl_core

The decision-making core of a WebGL 2 renderer, written in Verus and
proved against its contracts.

- `src/` is the verified library. It holds what a renderer decides before it
  calls WebGL: buffer upload queues and memory policies, texture layouts and
  their byte sizes over the mipmap chain, texture upload planning, binding
  tables for buffer targets, uniform buffer mount points and texture units,
  the least-recently-used memory budget of buffer and texture stores, shader
  source expansion (defines and snippet includes), attribute pointers,
  uniform bindings, fence waits and the WebGL enumerations.
- `app/` is ordinary Rust around it: it makes the WebGL, DOM and JavaScript
  calls that the plans of the core ask for, and feeds the core what it reads
  back.
- `tests/` runs the library on concrete values.

The laws the library keeps (what an eviction pass releases, what one call
undoes of another, how byte sizes compose) stand in `src/` as public proof
functions beside the code they speak of.
