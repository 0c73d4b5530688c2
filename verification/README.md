# phone_os

The verified core of a small bare-metal kernel for ARM64 phones, written
in Verus.

The library (`src/`) decides and computes; it never touches hardware.
Drivers return the register writes to make and take the register values
that were read, so every decision has a contract proved by Verus:

- `kernel::memory` — the bump heap allocator (alignment, bounds, reset);
- `kernel::event_loop` — the main loop's reaction to touch events and idling;
- `arch::aarch64` — page tables and MMU register values, GIC programming and
  IRQ dispatch, the device tree header check, board configurations;
- `drivers` — UART, power management, touch, VGA text and framebuffer
  consoles, the 8x16 font, UI widgets and the demo home screen.

`app/` is the kernel binary around it: volatile register access, system
register instructions, the global allocator, the framebuffer copy, and the
slider and progress-bar geometry that is computed in floating point.

`tests/` exercises the library on concrete values.
