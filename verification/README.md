# garage_rfid

Controller for a garage door with an RFID badge reader and keypad.

- `src/` holds the decision logic, verified with Verus: the keypad code
  table (`key_mapper`), the reader's bit buffer that turns pulses into PIN
  and badge authorization requests (`rfid_buffer`), the bouncer's verdict
  (`bouncer`), the door's sensor and opener rules (`garage_door`), the web
  thing's message handling (`iot`), the web interface's replies (`api`,
  `users_controller`), new records (`models`) and the settings
  (`configuration`).
- `app/` is the program around it: configuration files, GPIO pins, the
  SQLite credential store, Slack, the web thing server and the HTTP API.
- `tests/` exercises the library on concrete values.
