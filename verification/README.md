Asynchronous, cross-platform periodic timers

These timers are kept by the operating system: by a timer file descriptor on Linux, a kernel
queue on the BSDs and the Apple systems, and the default timer queue on Windows. A timer is a
stream. It is ready once per interval, and its items tell how many times the timer has fired since
the item before.

# Layout

* `src/` decides what to ask of the system and what its answers mean, and is verified with Verus.
  `periodic` is the timer that an event loop polls; `linux`, `kqueue` and `windows` are the timers
  of the systems; `interval`, `schedule`, `count`, `interest` and `error` are what they share.
  The proof functions whose names start with `law_` state what holds of the timers as a whole.
* `app/` makes the system calls and joins the timer to the event loop of `tokio-core`.
* `tests/` runs the library, with the systems simulated.

# Usage

```rust
let mut core = tokio_core::reactor::Core::new()?;
let timer = PeriodicTimer::new(&core.handle())?;
timer.reset(Duration::new(1, 0))?;
core.run(timer.for_each(|times| {
    println!("fired {} times", times);
    Ok(())
}))?;
```
