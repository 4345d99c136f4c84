# vhost-user-fs

The frontend side of a vhost-user virtio-fs device, verified with Verus.

- `src/` decides: features to offer (`features`, `protocol_flags`), the course of setup, activation,
  pausing, resuming and saving (`setup`, `creation`, `activation`, `lifecycle`), the device itself (`device`),
  its configuration space (`config`), and the `mmap` calls behind the daemon's requests on the DAX
  window (`shmem`, `window`, `sys_consts`).
- `app/` carries the decisions out: sockets, threads, `mmap`, and the serialised snapshot.
- `tests/` runs the library.

What holds of the library as a whole stands in the public proof functions whose names begin with
`law_`.
