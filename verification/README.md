# discovery32l476

Board support for the STM32L476 discovery kit: bring-up of the MFX companion
chip (`mfxstm32l152`) that measures the MCU supply current, verified with Verus.

- `src/idd.rs` — the Idd configuration: the commands, the bring-up sequence, how
  the sequence advances after each bus answer, and which failures are unrecoverable.
- `src/board.rs` — the board type and the bring-up that sends the sequence and
  keeps the MFX driver only when every command succeeded.
- `src/driver.rs` — the MFX driver over the HAL's I2C bus, with a record of the
  setter calls made through it that only its setters extend.
- `src/command.rs` — sending one configuration command through the setter that
  carries it.
- `app/` — the board's concrete pins, and the caller-facing bring-up that aborts on
  an unrecoverable failure and reports the others as HAL I2C errors.
