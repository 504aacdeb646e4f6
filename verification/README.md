# enet_mqtt

Bridge between an eNet home-automation gateway and an MQTT broker, following
Home Assistant's MQTT light conventions.

- `src/` is the verified library (Verus):
  - `decimal`: decimal rendering and parsing of device numbers and brightness values;
  - `messages`: Home Assistant states, received commands, and the values sent to devices;
  - `topic`: matching command topics with `matchit` and turning them into commands;
  - `bridge`: what a command does (including the brightness/state pairing window)
    and what is published when a device reports a value;
  - `args`: configuration and the MQTT connection settings.
- `app/` is the program: argument parsing, logging, the eNet client, the MQTT
  client and the event loop, which hands plain values to the library.
