# dc_motor_speed_control

Closed-loop speed control of a 12 V geared DC motor on an STM32F103C8T6 with
the Embassy framework: quadrature-encoder speed measurement, PID speed loop,
PWM drive of an L298N bridge, SH1106 OLED menu and a four-key keypad.

- `src/` is the verified library (Verus): keypad debouncing, the OLED
  transfer stream, the menu state machines and their partial redraw, the
  PWM split onto the bridge, encoder wrap-around, the trapezoid test
  pattern, the dead-zone sweep and the experiment schedule.  Every public
  function carries a contract; the `law_*` proof functions state the
  properties that hold across calls.
- `app/` is the firmware around it: peripherals, tasks and timing, I2C and
  UART output, and the floating-point parts (PID and feed-forward
  controller, speed in rpm, value formatting).  `app/bins` holds the bench
  programs (encoder, bridge, display, keypad and menu checks, PID
  simulation, speed/duty curve, dead zone, open- and closed-loop steps).
- `tests/` runs the library on concrete values.

The firmware needs a heap: the display driver queues each I2C transfer in a
buffer that the display task then sends.
