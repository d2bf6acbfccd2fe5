# icm20948

Driver logic for the TDK InvenSense ICM-20948 inertial measurement unit over
SPI, verified with Verus.

The library in `src/` never touches the bus. Every operation of the driver is
a short program over a five byte scratch buffer (`src/ops.rs`); the machine in
`src/imu.rs` runs it until the next SPI transfer and hands that frame out as an
`Action`. Whoever owns the bus clocks the frame out, framed by chip select as
the frame says, and hands the bytes that came back to `IcmImu::resume`.

- `src/registers.rs`: register addresses, settings and their field codes.
- `src/program.rs`: program steps, the driver's abstract state, and the
  meaning of running a program (`launch`, `deliver`).
- `src/imu.rs`: the driver state and the machine that runs programs.
- `src/ops.rs`: the program of each operation.
- `src/api.rs`: the operations, each with the program it starts.
- `src/shapes.rs`: the programs written out step by step, for the laws.
- `src/laws.rs`: what each operation sends, replies and leaves behind when
  its transfers go through, for every value of the bytes that come back; what
  a failed transfer leaves; which operations can change which setting; the
  three-axis reads against three single reads; and the bit fields written.
- `src/sessions.rs`: laws over whole sequences of calls: each setting is the
  one that the last recording step that ran set (for the interrupt, the last
  switch that went through), and the magnetometer stays off.
- `app/`: the driver on an `embedded-hal` 0.2 SPI bus and output pin, with
  the conversion of raw readings to g and degrees per second.
