# storm

Verified board logic of the Signpost controller, a SAM4L-based board running
the Tock kernel.

- `src/process_loading.rs`: walks the chain of process headers in the
  application flash (each header word is the image's total size, a zero word
  ends the list) and finds where each process image lies and which slot it gets.
- `src/driver_table.rs`: which driver answers which system-call driver number,
  and `SignpostController::with_driver`, which hands the kernel the driver.
- `src/pins.rs`: the pin operations applied at reset, in order, and the model
  of who controls a pin afterwards.
- `src/board.rs`: the GPIO driver's pins, the devices on the first I2C bus,
  the USART settings and the FRAM chip select.
- `src/fram_test.rs`: the FRAM test client as a state machine that turns driver
  callbacks into FRAM requests.

`app/main.rs` is the start-up code: it applies these decisions to the
hardware through the Tock kernel and chip crates, which are not published and
are not part of this crate's build.
