# qkernel

The kernel side definitions of a guest kernel for containers: setting up its
heaps, routing allocations, hypercalls and the other conversations with the
host, switching tasks.

`src/` is a Verus library. Its functions decide what is to be done, from plain
values: a memory map, a mode, the answer that came last. They return what is to
be done as values, and their contracts say exactly which. Nothing in it is
trusted.

| module        | decides                                                      |
|---------------|--------------------------------------------------------------|
| `memory`      | where the heaps are and how they are set up                   |
| `allocator`   | which allocator serves an allocation and takes memory back    |
| `hypercall`   | the trap of a hypercall and where its parameters travel       |
| `hostcall`    | the conversations with the host                               |
| `qcall`       | the messages of those conversations                           |
| `sched`       | switching tasks, entering a cloned task                       |
| `paging`      | dropping cached mappings, giving memory back                   |
| `user_access` | access to user memory from the kernel                         |
| `tsot`        | the socket service's messages                                 |
| `uring`       | the slots of asynchronous operations                          |
| `cpu`         | virtual processors, counters, lock holders                    |
| `service`     | services of the host and of the rest of the kernel            |
| `effect`      | the vocabulary of what is asked for                           |
| `error`       | the errors                                                    |

`app/` performs what the library decides: it holds the instructions, the raw
memory accesses and the allocation traits.
