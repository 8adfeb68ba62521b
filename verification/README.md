# ququmatz

`io_uring` requests as verified values. The library is written in
[Verus](https://github.com/verus-lang/verus): its functions carry contracts, and the verifier
proves them.

The library decides what is handed to the kernel and what the kernel's answers mean. It makes no
system call itself:

- a system call is a value (`syscall::SystemCall`), and its outcome is an argument of the
  function that interprets it;
- memory that the kernel reads or writes is anything that implements `owned::StableBuffer` or
  `owned::StableBufferMut`;
- a descriptor is a number that one value owns.

## What is proved

- **Entries.** Every constructor of a submission entry says what each field holds. Flag
  modifiers commute and accumulate, and no modifier but `user_data` changes the request's
  identity.
- **Ownership.** A request owns its memory from preparation to completion. A receipt gives it
  back only to the request it belongs to, on the ring it belongs to; otherwise ticket and receipt
  come back untouched. No receipt ends two requests.
- **Bounds.** The kernel is never told to touch more than the request owns: transfers stay inside
  their buffer, a path is scanned up to a terminator that is there, descriptor arrays and headers
  lead to the buffers they describe.
- **Layouts.** What is staged in memory is the kernel's layout of the value, and reads back as
  that value. The layouts are those of x86_64.
- **Completions.** A completion with more to follow releases nothing. No accepted connection,
  installed file or filled slot is lost, whichever completion carries it.
- **Results.** Raw results are classified exhaustively, and no error is taken for another.

## Layout

| Where | What |
|---|---|
| `src/op/` | submission entries |
| `src/owned/` | requests that own their memory, and their queues |
| `src/ring.rs`, `src/pool.rs` | queues shared with the kernel, buffers lent to it by number |
| `src/eventfd.rs`, `src/inotify.rs`, `src/net.rs`, `src/fs.rs` | owned descriptors and their calls |
| `src/types/` | structures, codes and flag sets |
| `src/bytes.rs`, `src/text.rs` | little-endian bytes, numerals |
| `app/` | ordinary Rust around the library: system calls, mapped memory, closing on drop |
| `tests/` | tests on concrete values |

## A request's life

```rust
let mut rings = RingIdSource::new();
let (mut submitter, mut completer) = ring.split_owned(&mut rings).ok().expect("splittable");

let ticket = submitter.push(Prepared::write(fd, buffer, 0)).ok().expect("room");
submitter.submit(entered)?; // what came of submitter.submit_call()

let receipt = completer.reap().expect("a completion");
let done = ticket.redeem(receipt).ok().expect("its own receipt");
let (written, buffer) = done.into_parts();
```
