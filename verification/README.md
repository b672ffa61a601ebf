# elisa

Decision logic of ELISA, a leakage-current monitor for three household
branch circuits (kitchen, bedroom, living room), as a library verified with
Verus, and the monitoring program around it.

- `src/status.rs`: leakage status, its label and colour, the status of a
  sensor, the aggregate status of all branches.
- `src/actuator.rs`: lamps and buzzer that show a status, and their
  dashboard styles.
- `src/history.rs`: the window of the last five phase-current readings.
- `src/controller.rs`: per-branch warning and danger counters and the
  operator instructions.
- `src/simulation.rs`: the deterministic simulation schedule.
- `src/menu.rs`: main-menu and leak-injection decisions.
- `src/input.rs`: reading numbers and yes/no answers typed by the operator.
- `src/dashboard.rs`: the dashboard's validity badge and alarm rows.
- `app/main.rs`: the program: floating-point readings and their arithmetic,
  the terminal menu, and the web dashboard served with `tiny_http`.
