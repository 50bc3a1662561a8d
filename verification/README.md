# pumpbot

The logic of PumpBot, a small board that drives pumps and LEDs through PWM channels, shows its
menus on an ILI9341 display and is set up over Wi-Fi, written in Verus. Every function under
`src/` carries a contract that Verus proves; the hardware, the network, the file system and the
drawing library stay outside it.

Layout:

- `src/` — the verified library:
  - `rgb`, `rle`, `font`: colours, the run-length encoding of the font and background files,
    and the CBF font and CBI background formats.
  - `ili9341`, `lcd`, `layout`: the display controller's commands, the older frame-buffer
    driver, and text placement.
  - `lang`, `text`, `settings`: translated strings, byte and decimal text helpers (including
    `strspn`/`strcspn` for the scripting runtime), and the global settings.
  - `menu`, `components`, `handlers`, `textbox`, `screens`, `wizard`: the menu loop's state
    machine, the components of a menu and their handlers, the on-screen keyboard, and the
    menus with their own logic (title, setup, language, home dial, PWM wizard).
  - `pwm`, `pwm_timed`, `led`, `button`, `rotenc`: the PWM command runner, the timed PWM
    controller, the LED animation, button debouncing and encoder acceleration.
  - `net`, `http`: the server connection and the web page's requests and answers.
  - `queue`, `profiler`: a double-ended queue and a span profiler.
- `tests/` — tests of the library on concrete values.
- `app/` — a desktop front end: it reads the settings and a font from disk, logs what the
  display would be sent, draws text through embedded-graphics, and runs the menus from
  keyboard input.
