# chronix

The verified core of the Chronix teaching kernel, written in Verus.

`src/` holds the parts of the kernel that decide: the descriptor table and
its system calls, file-system and socket argument checks, futexes and their
wait queues, signals and signal masks, thread groups and the task and
process-group registries, timers (ordered by expiry, interval and POSIX
timers), memory-mapping plans, the layout of a new program's stack, message
queues, System V shared memory, `select`/`poll`/`epoll` bookkeeping, and the
user library's system-call encodings. Each function states its result in a
`requires`/`ensures` contract, and the laws that relate several functions
are proof functions next to them.

Work that touches devices, page tables, user memory or the scheduler is left
to the caller: the functions take what the caller read (a looked-up file, a
value from user memory, the current time) as plain values and return what
to do next.

`app/` holds the user-side system-call entry, timer and futex glue that need
hardware instructions, `std` synchronisation or futures. `tests/` runs the
library on concrete values.
