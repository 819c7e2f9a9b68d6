# gantry-crane

A Docker to MQTT bridge: it publishes the state and figures of Docker containers on
MQTT, lets containers be started, stopped, restarted, paused, recreated (optionally
with a freshly pulled image) by MQTT messages, and announces every container as a
Home Assistant device with sensors and buttons.

## Layout

- `src/` is the verified library. It holds every decision the bridge
  makes, stated in `requires` / `ensures` contracts:
  - `container.rs`: a container's state, health and exact integer figures, taken from
    Docker's stats and inspect responses, and the messages that publish it;
  - `registry.rs`: the known containers, kept under their names (a type invariant);
  - `gantry_crane.rs`: what to do with a message from the broker, with a Docker
    event, with the label filter and while cleaning up retained topics;
  - `recreate.rs`: recreation of a container as a state machine over the outcomes of
    the Docker operations, and the configuration of the new container;
  - `polling.rs`: when to poll, and when not (while a container is recreated);
  - `mqtt.rs`: broker URI, availability messages, and the topics published on and
    subscribed to;
  - `homeassistant/`: devices, sensors and buttons, their discovery topics, and the
    integration's reaction to events;
  - `settings.rs`, `args.rs`, `constants.rs`, `text.rs`: configuration, command line,
    constants and verified string helpers;
  - `laws.rs`: properties that relate several functions, proved.
- `tests/`: tests of the library on concrete values.
- `app/`: the program around the library: command line, loading of the configuration,
  the MQTT client, the Docker client, JSON serialization and the async loops. It
  performs what the library decides.
