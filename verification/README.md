# navigatum

Tools around the NavigaTUM room finder: a calendar service that scrapes the
room calendars of TUMonline and hands them out, a converter of IFC building
models, and a client of the MOTIS routing API.

The library under `src/` holds the logic, with contracts proved by Verus:

- `date`, `scraping`: calendar days, the scrape tasks of a room, how a task is
  split when the calendar source asks for fewer days, and the queue of
  requests that scraping one room makes (which always ends).
- `calendar`: how a stored calendar entry is classified and handed out.
- `types`, `builder`, `client`: the objects and requests of the MOTIS API
  that hold no floating-point numbers, their names in the API and their
  builders.
- `models`, `routing`: the routing models, search options and how a reply of
  the service is read.
- `telemetry`, `text`: the log filter and string helpers.

`app/` is ordinary Rust around it: the HTTP server and the database of the
calendar service, the command line of the converter, sending requests, the
JSON forms of the objects, parsing IFC files, and everything that holds
floating-point numbers.
