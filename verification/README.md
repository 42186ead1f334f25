# embassy_drivers

Verified logic of several embedded drivers, written in Verus.

`src/` is the verified library:

- `ring_buf` — a 512-byte ring buffer that hands out contiguous free and
  filled regions (FIFO contents, region lengths and positions are specified,
  and a law over whole runs of pushes and pops shows it is a FIFO queue).
- `uarte` — the buffered UARTE driver as two state machines (receive and
  transmit) over two ring buffers, with the read/write polls. Byte
  conservation is proved; for the interrupt handler, each pass is a
  verified step function, and a rank that every pass asking for more work
  lowers is proved, while the loop that repeats the passes lives in
  `app/`.
- `cyw43` — the CYW43439 gSPI bus: command words, byte swapping, data-line
  bit serialisation, header layouts, backplane windowing, transfer
  splitting and the joining of read responses (a read gives back the memory
  read), ioctl framing, packet classification, core reset sequences and the
  bring-up as a step function from stage and last value read to the next
  action.
- `nrf` — boot configuration of the nRF52, nRF5340 (both cores) and
  nRF9160: UICR programming rules, debug-port, reset-pin and NFC-pin plans,
  the reset decision, clock start-up plans.
- `adc`, `crc`, `exti`, `flash`, `peripheral`, `usart` — smaller driver
  pieces and interfaces.

`app/` performs the register accesses, pin toggling, interrupt plumbing and
waits that these decisions call for. `tests/` exercises the library on
concrete values.
