# gravite_hydrotest

Control software for a hydraulic test bench, written as a Verus-verified
library (`src/`) and a thin egui desktop application (`app/`).

The library holds the bench's logic, each function with a proved contract:

- `config`: actuator sections, test procedures, and the register of
  actuator states (lookups by code and by name, toggles, the requests that
  switch every active actuator off), with laws such as "confirming every
  reset request switches every actuator off".
- `gui::pages::proc_control`: sequencing of a running procedure as a state
  machine (phases in order, passes, abort), with laws on the order in which
  an undisturbed run visits the phases and on which actuators are left
  active when a phase is entered.
- `gui::procedures::procedures_logic`: a clock-driven procedure runner.
- `comm`: messages of the serial link, the link handle typed by its
  connection state, and the decisions of the worker that drives the port.
- `gui::composite`, `gui::builder`, `gui::actuators`: panels of buttons
  that track the controller's echoes.
- `gui::pages`, `gui::serial_port`: state and click handling of the pages.

`app/` draws the pages, reads the YAML files, opens serial ports, runs the
worker threads and flashes firmware. The workers' decisions and what the
pages' clicks ask for come from the library.
