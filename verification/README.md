# mykvm

The decision-making core of MyKVM, a software KVM: one keyboard, mouse and
clipboard for several machines. The core is written in Verus, and what it does is
stated in contracts and proved.

- `src/` is the core. `quic_transport` decides which peers are dialled, trusted
  and given up on; `shared_input` holds the input commands and their frames;
  `windows_input` turns commands into the records that are sent to Windows.
- `app/` performs what the core decides: sockets, threads, files, system calls and
  floating-point arithmetic.
- `tests/` runs the core on given values.

The core neither reads a clock nor waits. Times are nanoseconds from one fixed
origin, resolved addresses and handles are integers, and fractions are the bits of
double-precision numbers, which the core only compares.
