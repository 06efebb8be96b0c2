# plural_userproxies

A terminal client for /plu/ral userproxies, with its logic verified by Verus.

- `src/` is the verified library: the application state machine (`app`), the
  key bindings (`keys`), fitting the list into the terminal (`layout`), the
  settings and the accent colour palette (`config`), userproxies and the API's
  list of them (`userproxy`), gateway messages (`gateway`), the JSON reads done
  through `serde_json` (`json`), and string helpers (`text`).
- `app/` is the program around it: the terminal, the event channel, the HTTP
  requests, the gateway connections and drawing.
- `tests/` runs the library on concrete values.
